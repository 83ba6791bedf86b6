use vstd::prelude::*;

use crate::account::{AccountState, SigningProof, Transfer};
use crate::address::{
    bytes_eq, custody_authority, derive_vault, is_custody_authority, is_vault_of, vault_derivation,
    vault_label, vault_seed,
};
use crate::error::VaultError;

verus! {

/// The outcome of the account checks of a withdrawal: the first check that
/// fails, in order, or the vault's bump.
pub open spec fn withdraw_accounts_check(accounts: Seq<AccountState>, program_id: Seq<u8>) -> Result<u8, VaultError> {
    if accounts.len() != 3 {
        Err(VaultError::MissingAccounts)
    } else if !accounts[0].is_signer {
        Err(VaultError::Unauthorized)
    } else if accounts[1].owner@ != custody_authority() {
        Err(VaultError::InvalidVaultOwner)
    } else if accounts[1].lamports == 0 {
        Err(VaultError::VaultEmpty)
    } else if !is_vault_of(accounts[1].address@, accounts[0].address@, program_id) {
        Err(VaultError::VaultAddressMismatch)
    } else {
        Ok(vault_derivation(accounts[0].address@, program_id).unwrap().1)
    }
}

/// Whether `p` holds the seeds `b"vault"`, the owner's address and `bump`.
pub open spec fn proves_vault(p: SigningProof, owner: Seq<u8>, bump: u8) -> bool {
    &&& p.label@ == vault_label()
    &&& p.owner@ == owner
    &&& p.bump@ == seq![bump]
}

/// Whether `t` moves the vault's whole balance to the owner, signed by the
/// vault's seeds with `bump`.
pub open spec fn is_withdraw_transfer(t: Transfer, owner: AccountState, vault: AccountState, bump: u8) -> bool {
    &&& t.from@ == vault.address@
    &&& t.to@ == owner.address@
    &&& t.lamports == vault.lamports
    &&& t.signer matches Some(p) && proves_vault(p, owner.address@, bump)
}

/// Whether `r` is the outcome of a withdrawal.
pub open spec fn is_withdraw_outcome(r: Result<Transfer, VaultError>, accounts: Seq<AccountState>, program_id: Seq<u8>) -> bool {
    match withdraw_accounts_check(accounts, program_id) {
        Ok(bump) => r matches Ok(t) && is_withdraw_transfer(t, accounts[0], accounts[1], bump),
        Err(e) => r == Err::<Transfer, VaultError>(e),
    }
}

/// The owner and vault of a withdrawal, checked, and the vault's bump.
pub struct WithdrawAccounts {
    pub owner: AccountState,
    pub vault: AccountState,
    pub bumps: [u8; 1],
}

impl WithdrawAccounts {
    /// Checks the accounts `[owner, vault, system program]` of a withdrawal
    /// under the program `program_id`, failing at the first check that does
    /// not hold.
    pub fn try_from(accounts: &[AccountState], program_id: &[u8; 32]) -> (r: Result<WithdrawAccounts, VaultError>)
        ensures
            match withdraw_accounts_check(accounts@, program_id@) {
                Ok(bump) => r matches Ok(a) && a.owner == accounts@[0] && a.vault == accounts@[1]
                    && a.bumps@ == seq![bump],
                Err(e) => r == Err::<WithdrawAccounts, VaultError>(e),
            },
    {
        if accounts.len() != 3 {
            return Err(VaultError::MissingAccounts);
        }
        let owner = accounts[0];
        let vault = accounts[1];
        if !owner.is_signer {
            return Err(VaultError::Unauthorized);
        }
        if !is_custody_authority(&vault.owner) {
            return Err(VaultError::InvalidVaultOwner);
        }
        if vault.lamports == 0 {
            return Err(VaultError::VaultEmpty);
        }
        match derive_vault(&owner.address, program_id) {
            Some(p) => {
                if !bytes_eq(&p.0, &vault.address) {
                    return Err(VaultError::VaultAddressMismatch);
                }
                let bumps: [u8; 1] = [p.1];
                assert(bumps@ =~= seq![p.1]);
                Ok(WithdrawAccounts { owner, vault, bumps })
            },
            None => Err(VaultError::VaultAddressMismatch),
        }
    }
}

/// A checked withdrawal.
pub struct Withdraw {
    pub accounts: WithdrawAccounts,
}

impl Withdraw {
    /// Checks the accounts of a withdrawal; it takes no payload.
    pub fn try_from(accounts: &[AccountState], program_id: &[u8; 32]) -> (r: Result<Withdraw, VaultError>)
        ensures
            match withdraw_accounts_check(accounts@, program_id@) {
                Ok(bump) => r matches Ok(w) && w.accounts.owner == accounts@[0] && w.accounts.vault == accounts@[1]
                    && w.accounts.bumps@ == seq![bump],
                Err(e) => r == Err::<Withdraw, VaultError>(e),
            },
    {
        let accounts = WithdrawAccounts::try_from(accounts, program_id)?;
        Ok(Withdraw { accounts })
    }

    /// The transfer to perform: the vault's whole balance moves back to the
    /// owner, signed by the vault's seeds.
    pub fn process(&self) -> (r: Transfer)
        ensures
            is_withdraw_transfer(r, self.accounts.owner, self.accounts.vault, self.accounts.bumps@[0]),
    {
        let proof = SigningProof {
            label: vault_seed(),
            owner: self.accounts.owner.address,
            bump: self.accounts.bumps,
        };
        assert(proof.bump@ =~= seq![self.accounts.bumps@[0]]);
        Transfer {
            from: self.accounts.vault.address,
            to: self.accounts.owner.address,
            lamports: self.accounts.vault.lamports,
            signer: Some(proof),
        }
    }
}

/// Checks a withdrawal and returns the transfer it asks for. It succeeds if
/// and only if there are three accounts, the owner signed, the vault is held
/// by the custody authority, holds value and is the owner's derived vault.
pub fn withdraw(accounts: &[AccountState], program_id: &[u8; 32]) -> (r: Result<Transfer, VaultError>)
    ensures
        is_withdraw_outcome(r, accounts@, program_id@),
        r is Ok <==> (accounts@.len() == 3 && accounts@[0].is_signer && accounts@[1].owner@ == custody_authority()
            && accounts@[1].lamports > 0 && is_vault_of(accounts@[1].address@, accounts@[0].address@, program_id@)),
{
    let w = Withdraw::try_from(accounts, program_id)?;
    Ok(w.process())
}

} // verus!
