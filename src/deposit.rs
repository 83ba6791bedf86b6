use vstd::prelude::*;

use crate::account::{AccountState, Transfer};
use crate::address::{check_vault_address, custody_authority, is_custody_authority, is_vault_of};
use crate::error::VaultError;

verus! {

/// The value of `b` read as an unsigned little-endian integer.
pub open spec fn le_value(b: Seq<u8>) -> nat
    decreases b.len(),
{
    if b.len() == 0 {
        0
    } else {
        b[0] as nat + 256 * le_value(b.drop_first())
    }
}

/// `256` to the power `n`.
pub open spec fn radix(n: nat) -> nat
    decreases n,
{
    if n == 0 {
        1
    } else {
        256 * radix((n - 1) as nat)
    }
}

/// A little-endian value of `n` bytes is below `256` to the power `n`.
pub proof fn lemma_le_value_bound(b: Seq<u8>)
    ensures
        le_value(b) < radix(b.len()),
    decreases b.len(),
{
    if b.len() > 0 {
        lemma_le_value_bound(b.drop_first());
        let x = le_value(b.drop_first());
        let p = radix((b.len() - 1) as nat);
        assert(b[0] as nat + 256 * x < 256 * p) by (nonlinear_arith)
            requires
                x < p,
                b[0] < 256,
        ;
    }
}

/// The outcome of the account checks of a deposit: the first check that
/// fails, in order, or success.
pub open spec fn deposit_accounts_check(accounts: Seq<AccountState>, program_id: Seq<u8>) -> Result<(), VaultError> {
    if accounts.len() != 3 {
        Err(VaultError::MissingAccounts)
    } else if !accounts[0].is_signer {
        Err(VaultError::Unauthorized)
    } else if accounts[1].owner@ != custody_authority() {
        Err(VaultError::InvalidVaultOwner)
    } else if accounts[1].lamports != 0 {
        Err(VaultError::VaultNotEmpty)
    } else if !is_vault_of(accounts[1].address@, accounts[0].address@, program_id) {
        Err(VaultError::VaultAddressMismatch)
    } else {
        Ok(())
    }
}

/// The outcome of decoding a deposit payload: the amount, or why it is refused.
pub open spec fn deposit_amount(data: Seq<u8>) -> Result<u64, VaultError> {
    if data.len() != 8 {
        Err(VaultError::MalformedInstructionData)
    } else if le_value(data) == 0 {
        Err(VaultError::ZeroAmount)
    } else {
        Ok(le_value(data) as u64)
    }
}

/// The transfer that a deposit asks for, or why it is refused.
pub open spec fn deposit_outcome(data: Seq<u8>, accounts: Seq<AccountState>, program_id: Seq<u8>) -> Result<Transfer, VaultError> {
    match deposit_accounts_check(accounts, program_id) {
        Err(e) => Err(e),
        Ok(()) => match deposit_amount(data) {
            Err(e) => Err(e),
            Ok(amount) => Ok(deposit_transfer(accounts[0], accounts[1], amount)),
        },
    }
}

/// The owner pays `amount` into the vault, on the owner's own signature.
pub open spec fn deposit_transfer(owner: AccountState, vault: AccountState, amount: u64) -> Transfer {
    Transfer { from: owner.address, to: vault.address, lamports: amount, signer: None }
}

/// The owner and vault of a deposit, checked.
pub struct DepositAccounts {
    pub owner: AccountState,
    pub vault: AccountState,
}

impl DepositAccounts {
    /// Checks the accounts `[owner, vault, system program]` of a deposit
    /// under the program `program_id`, failing at the first check that does
    /// not hold.
    pub fn try_from(accounts: &[AccountState], program_id: &[u8; 32]) -> (r: Result<DepositAccounts, VaultError>)
        ensures
            match deposit_accounts_check(accounts@, program_id@) {
                Ok(()) => r matches Ok(a) && a.owner == accounts@[0] && a.vault == accounts@[1],
                Err(e) => r == Err::<DepositAccounts, VaultError>(e),
            },
    {
        if accounts.len() != 3 {
            return Err(VaultError::MissingAccounts);
        }
        let owner = accounts[0];
        let vault = accounts[1];
        if !owner.is_signer {
            return Err(VaultError::Unauthorized);
        }
        if !is_custody_authority(&vault.owner) {
            return Err(VaultError::InvalidVaultOwner);
        }
        if vault.lamports != 0 {
            return Err(VaultError::VaultNotEmpty);
        }
        if !check_vault_address(&vault.address, &owner.address, program_id) {
            return Err(VaultError::VaultAddressMismatch);
        }
        Ok(DepositAccounts { owner, vault })
    }
}

/// The payload of a deposit: the amount to pay in.
pub struct DepositInstructionData {
    pub amount: u64,
}

impl DepositInstructionData {
    /// Decodes a payload of exactly eight bytes as a little-endian amount,
    /// which must not be zero.
    pub fn try_from(data: &[u8]) -> (r: Result<DepositInstructionData, VaultError>)
        ensures
            match deposit_amount(data@) {
                Ok(amount) => r matches Ok(d) && d.amount == amount,
                Err(e) => r == Err::<DepositInstructionData, VaultError>(e),
            },
    {
        if data.len() != 8 {
            return Err(VaultError::MalformedInstructionData);
        }
        let amount = read_le_u64(data);
        if amount == 0 {
            return Err(VaultError::ZeroAmount);
        }
        Ok(DepositInstructionData { amount })
    }
}

/// Reads eight bytes as an unsigned little-endian integer.
pub fn read_le_u64(data: &[u8]) -> (r: u64)
    requires
        data@.len() == 8,
    ensures
        r as nat == le_value(data@),
{
    proof {
        lemma_radix_eight();
    }
    let mut acc: u64 = 0;
    let mut i: usize = 8;
    while i > 0
        invariant
            0 <= i <= 8,
            data@.len() == 8,
            acc as nat == le_value(data@.subrange(i as int, 8)),
            radix(8) == 0x1_0000_0000_0000_0000,
        decreases i,
    {
        let ghost rest = data@.subrange(i as int, 8);
        let ghost next = data@.subrange(i - 1, 8);
        assert(next.drop_first() =~= rest);
        proof {
            lemma_le_value_bound(next);
            assert(radix(next.len()) <= radix(8)) by {
                lemma_radix_monotone(next.len(), 8);
            }
        }
        acc = data[i - 1] as u64 + 256 * acc;
        i = i - 1;
    }
    assert(data@.subrange(0, 8) =~= data@);
    acc
}

/// Eight bytes span `2^64` values.
pub(crate) proof fn lemma_radix_eight()
    ensures
        radix(8) == 0x1_0000_0000_0000_0000,
{
    assert(radix(0) == 1);
    assert(radix(1) == 0x100);
    assert(radix(2) == 0x1_0000);
    assert(radix(3) == 0x100_0000);
    assert(radix(4) == 0x1_0000_0000);
    assert(radix(5) == 0x100_0000_0000);
    assert(radix(6) == 0x1_0000_0000_0000);
    assert(radix(7) == 0x100_0000_0000_0000);
}

/// `radix` does not decrease.
proof fn lemma_radix_monotone(m: nat, n: nat)
    requires
        m <= n,
    ensures
        radix(m) <= radix(n),
    decreases n,
{
    if m < n {
        lemma_radix_monotone(m, (n - 1) as nat);
    }
}

/// A checked deposit: its accounts and its amount.
pub struct Deposit {
    pub accounts: DepositAccounts,
    pub instruction_data: DepositInstructionData,
}

impl Deposit {
    /// Checks the accounts, then the payload, of a deposit.
    pub fn try_from(data: &[u8], accounts: &[AccountState], program_id: &[u8; 32]) -> (r: Result<Deposit, VaultError>)
        ensures
            match deposit_outcome(data@, accounts@, program_id@) {
                Ok(t) => r matches Ok(d) && d.plan() == t,
                Err(e) => r == Err::<Deposit, VaultError>(e),
            },
    {
        let accounts = DepositAccounts::try_from(accounts, program_id)?;
        let instruction_data = DepositInstructionData::try_from(data)?;
        Ok(Deposit { accounts, instruction_data })
    }

    /// The transfer that this deposit asks for.
    pub open spec fn plan(self) -> Transfer {
        deposit_transfer(self.accounts.owner, self.accounts.vault, self.instruction_data.amount)
    }

    /// The transfer to perform: the amount moves from the owner, who signed,
    /// to the vault.
    pub fn process(&self) -> (r: Transfer)
        ensures
            r == self.plan(),
    {
        Transfer {
            from: self.accounts.owner.address,
            to: self.accounts.vault.address,
            lamports: self.instruction_data.amount,
            signer: None,
        }
    }
}

/// Checks a deposit and returns the transfer it asks for. It succeeds if and
/// only if there are three accounts, the owner signed, the vault is held by
/// the custody authority, is empty and is the owner's derived vault, and the
/// payload is eight bytes holding a non-zero amount.
pub fn deposit(data: &[u8], accounts: &[AccountState], program_id: &[u8; 32]) -> (r: Result<Transfer, VaultError>)
    ensures
        r == deposit_outcome(data@, accounts@, program_id@),
        r is Ok <==> (accounts@.len() == 3 && accounts@[0].is_signer && accounts@[1].owner@ == custody_authority()
            && accounts@[1].lamports == 0 && is_vault_of(accounts@[1].address@, accounts@[0].address@, program_id@)
            && data@.len() == 8 && le_value(data@) > 0),
{
    let d = Deposit::try_from(data, accounts, program_id)?;
    Ok(d.process())
}

} // verus!
