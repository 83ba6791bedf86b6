use vstd::prelude::*;

use crate::account::{AccountState, Transfer};
use crate::address::{custody_authority, is_vault_of};
use crate::deposit::{deposit_outcome, le_value, lemma_le_value_bound, lemma_radix_eight};
use crate::error::VaultError;
use crate::withdraw::{is_withdraw_outcome, is_withdraw_transfer, withdraw_accounts_check};

verus! {

/// Whether the vault `vault` of `owner` would accept a deposit of `data`,
/// every check taken on its own.
pub open spec fn deposit_conditions(data: Seq<u8>, owner: AccountState, vault: AccountState, program_id: Seq<u8>) -> Seq<bool> {
    seq![
        owner.is_signer,
        vault.owner@ == custody_authority(),
        vault.lamports == 0,
        is_vault_of(vault.address@, owner.address@, program_id),
        data.len() == 8,
        le_value(data) > 0,
    ]
}

/// The error that a deposit gives where the check at index `i` of
/// `deposit_conditions` alone fails.
pub open spec fn deposit_error_of(i: int) -> VaultError {
    if i == 0 {
        VaultError::Unauthorized
    } else if i == 1 {
        VaultError::InvalidVaultOwner
    } else if i == 2 {
        VaultError::VaultNotEmpty
    } else if i == 3 {
        VaultError::VaultAddressMismatch
    } else if i == 4 {
        VaultError::MalformedInstructionData
    } else {
        VaultError::ZeroAmount
    }
}

/// A deposit with three accounts fails with the error of the one check that
/// does not hold, where all others hold; it succeeds where all hold. With
/// another number of accounts it fails with `MissingAccounts`.
pub proof fn deposit_single_failure(data: Seq<u8>, accounts: Seq<AccountState>, program_id: Seq<u8>, i: int)
    requires
        0 <= i < 6,
    ensures
        accounts.len() != 3 ==> deposit_outcome(data, accounts, program_id) == Err::<Transfer, VaultError>(VaultError::MissingAccounts),
        accounts.len() == 3 ==> {
            let c = deposit_conditions(data, accounts[0], accounts[1], program_id);
            &&& (forall|j: int| 0 <= j < 6 ==> c[j]) ==> deposit_outcome(data, accounts, program_id) is Ok
            &&& (!c[i] && forall|j: int| 0 <= j < 6 && j != i ==> c[j])
                ==> deposit_outcome(data, accounts, program_id) == Err::<Transfer, VaultError>(deposit_error_of(i))
        },
{
    if accounts.len() == 3 {
        let c = deposit_conditions(data, accounts[0], accounts[1], program_id);
        if !c[i] && forall|j: int| 0 <= j < 6 && j != i ==> c[j] {
            assert(c[0] || i == 0);
            assert(c[1] || i == 1);
            assert(c[2] || i == 2);
            assert(c[3] || i == 3);
            assert(c[4] || i == 4);
            assert(c[5] || i == 5);
        }
        if forall|j: int| 0 <= j < 6 ==> c[j] {
            assert(c[0] && c[1] && c[2] && c[3] && c[4] && c[5]);
        }
    }
}

/// A withdrawal that succeeds moves the vault's entire balance to the owner,
/// so the vault is left with nothing.
pub proof fn withdraw_empties_vault(accounts: Seq<AccountState>, program_id: Seq<u8>, r: Result<Transfer, VaultError>)
    requires
        is_withdraw_outcome(r, accounts, program_id),
        r is Ok,
    ensures
        r->Ok_0.lamports == accounts[1].lamports,
        r->Ok_0.from@ == accounts[1].address@,
        r->Ok_0.to@ == accounts[0].address@,
        accounts[0].address@ != accounts[1].address@ ==> accounts[1].after(r->Ok_0).lamports == 0,
{
}

/// A deposit into an empty vault followed by a withdrawal from it, each
/// transfer applied to both accounts, leaves the vault empty and the owner's
/// balance as it was. The owner, who signs, is not the vault, whose address
/// is derived and has no key; the owner can pay the amount.
pub proof fn deposit_then_withdraw(data: Seq<u8>, accounts: Seq<AccountState>, program_id: Seq<u8>, r: Result<Transfer, VaultError>)
    requires
        deposit_outcome(data, accounts, program_id) is Ok,
        accounts[0].address@ != accounts[1].address@,
        accounts[0].lamports >= le_value(data),
        is_withdraw_outcome(
            r,
            seq![
                accounts[0].after(deposit_outcome(data, accounts, program_id)->Ok_0),
                accounts[1].after(deposit_outcome(data, accounts, program_id)->Ok_0),
                accounts[2],
            ],
            program_id,
        ),
    ensures
        r is Ok,
        accounts[1].after(deposit_outcome(data, accounts, program_id)->Ok_0).lamports == le_value(data),
        accounts[1].after(deposit_outcome(data, accounts, program_id)->Ok_0).after(r->Ok_0).lamports == 0,
        accounts[0].after(deposit_outcome(data, accounts, program_id)->Ok_0).after(r->Ok_0).lamports == accounts[0].lamports,
{
    let t = deposit_outcome(data, accounts, program_id)->Ok_0;
    let o = accounts[0].after(t);
    let v = accounts[1].after(t);
    let next = seq![o, v, accounts[2]];
    assert(next[0] == o && next[1] == v);
    assert(withdraw_accounts_check(next, program_id) is Ok);
}

/// A second deposit into the same vault, once the first one's transfer has
/// been applied, fails with `VaultNotEmpty`.
pub proof fn deposit_twice_fails(data: Seq<u8>, accounts: Seq<AccountState>, program_id: Seq<u8>, data2: Seq<u8>)
    requires
        deposit_outcome(data, accounts, program_id) is Ok,
        accounts[0].address@ != accounts[1].address@,
    ensures
        deposit_outcome(
            data2,
            seq![
                accounts[0].after(deposit_outcome(data, accounts, program_id)->Ok_0),
                accounts[1].after(deposit_outcome(data, accounts, program_id)->Ok_0),
                accounts[2],
            ],
            program_id,
        ) == Err::<Transfer, VaultError>(VaultError::VaultNotEmpty),
{
    let t = deposit_outcome(data, accounts, program_id)->Ok_0;
    let next = seq![accounts[0].after(t), accounts[1].after(t), accounts[2]];
    assert(next[0] == accounts[0].after(t) && next[1] == accounts[1].after(t));
    lemma_le_value_bound(data);
    lemma_radix_eight();
    assert(t.lamports == le_value(data) && le_value(data) > 0);
    assert(next[1].lamports > 0);
    assert(next[0].is_signer && next[1].owner == accounts[1].owner);
}

} // verus!
