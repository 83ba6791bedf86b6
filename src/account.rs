use vstd::prelude::*;

verus! {

/// What the checks read of one account handed to an instruction.
#[derive(Clone, Copy, Debug)]
pub struct AccountState {
    /// The account's address.
    pub address: [u8; 32],
    /// Whether the account signed the request.
    pub is_signer: bool,
    /// The program that controls the account.
    pub owner: [u8; 32],
    /// The account's balance, in native value units.
    pub lamports: u64,
}

impl AccountState {
    /// The account's balance after `t` has moved value.
    pub open spec fn after(self, t: Transfer) -> AccountState {
        if self.address@ == t.from@ && self.address@ != t.to@ {
            AccountState { lamports: (self.lamports - t.lamports) as u64, ..self }
        } else if self.address@ == t.to@ && self.address@ != t.from@ {
            AccountState { lamports: (self.lamports + t.lamports) as u64, ..self }
        } else {
            self
        }
    }
}

/// The seeds from which a program-derived address signs: the label, the
/// owner's address and the bump byte.
#[derive(Clone, Copy, Debug)]
pub struct SigningProof {
    pub label: [u8; 5],
    pub owner: [u8; 32],
    pub bump: [u8; 1],
}

/// A transfer of native value units that an instruction asks the system
/// program to perform.
#[derive(Clone, Copy, Debug)]
pub struct Transfer {
    /// The account the value leaves.
    pub from: [u8; 32],
    /// The account the value reaches.
    pub to: [u8; 32],
    /// How much value moves.
    pub lamports: u64,
    /// Where `from` is a derived address, the seeds that sign for it.
    pub signer: Option<SigningProof>,
}

} // verus!
