use vstd::prelude::*;

verus! {

/// The program-derived address of `seeds` under `program_id`, with its
/// canonical bump, or `None` where no bump gives one.
pub uninterp spec fn program_address(seeds: Seq<Seq<u8>>, program_id: Seq<u8>) -> Option<(Seq<u8>, u8)>;

/// Relies on `Address::try_find_program_address` (solana-address, re-exported
/// by pinocchio as `pinocchio::Address`): the canonical derived address of the
/// seeds and its bump, `None` where none exists; it depends on its arguments alone.
#[verifier::external_body]
fn try_find_program_address(seed_a: &[u8], seed_b: &[u8], program_id: &[u8; 32]) -> (r: Option<([u8; 32], u8)>)
    ensures
        program_address(seq![seed_a@, seed_b@], program_id@) == match r {
            Some(p) => Some((p.0@, p.1)),
            None => None::<(Seq<u8>, u8)>,
        },
{
    let program_id = pinocchio::Address::new_from_array(*program_id);
    pinocchio::Address::try_find_program_address(&[seed_a, seed_b], &program_id)
        .map(|(a, bump)| (a.to_bytes(), bump))
}

/// Relies on `pinocchio_system::ID`: the System Program's address, which is
/// 32 zero bytes.
#[verifier::external_body]
fn system_program_id() -> (r: [u8; 32])
    ensures
        r@ == custody_authority(),
{
    pinocchio_system::ID.to_bytes()
}

/// The authority that must control a vault: the System Program.
pub open spec fn custody_authority() -> Seq<u8> {
    Seq::new(32, |i: int| 0u8)
}

/// The label that every vault address is derived from, `b"vault"`.
pub open spec fn vault_label() -> Seq<u8> {
    seq![118u8, 97u8, 117u8, 108u8, 116u8]
}

/// The vault address and bump derived for `owner` under `program_id`.
pub open spec fn vault_derivation(owner: Seq<u8>, program_id: Seq<u8>) -> Option<(Seq<u8>, u8)> {
    program_address(seq![vault_label(), owner], program_id)
}

/// Whether `vault` is the address derived for `owner` under `program_id`.
pub open spec fn is_vault_of(vault: Seq<u8>, owner: Seq<u8>, program_id: Seq<u8>) -> bool {
    match vault_derivation(owner, program_id) {
        Some(p) => p.0 == vault,
        None => false,
    }
}

/// The label bytes `b"vault"`.
pub fn vault_seed() -> (r: [u8; 5])
    ensures
        r@ == vault_label(),
{
    let r: [u8; 5] = [118, 97, 117, 108, 116];
    assert(r@ =~= vault_label());
    r
}

/// Derives the vault address of `owner` under `program_id`, and its bump.
/// The result depends on the two addresses alone.
pub fn derive_vault(owner: &[u8; 32], program_id: &[u8; 32]) -> (r: Option<([u8; 32], u8)>)
    ensures
        vault_derivation(owner@, program_id@) == match r {
            Some(p) => Some((p.0@, p.1)),
            None => None::<(Seq<u8>, u8)>,
        },
{
    let label = vault_seed();
    try_find_program_address(&label, owner, program_id)
}

/// Whether `vault` is the address derived for `owner` under `program_id`.
pub fn check_vault_address(vault: &[u8; 32], owner: &[u8; 32], program_id: &[u8; 32]) -> (r: bool)
    ensures
        r == is_vault_of(vault@, owner@, program_id@),
{
    match derive_vault(owner, program_id) {
        Some(p) => bytes_eq(&p.0, vault),
        None => false,
    }
}

/// Whether the custody authority controls an account held by `owner`.
pub fn is_custody_authority(owner: &[u8; 32]) -> (r: bool)
    ensures
        r == (owner@ == custody_authority()),
{
    let id = system_program_id();
    bytes_eq(&id, owner)
}

/// Byte-wise equality of two addresses.
pub fn bytes_eq(a: &[u8; 32], b: &[u8; 32]) -> (r: bool)
    ensures
        r == (a@ == b@),
{
    let mut i: usize = 0;
    while i < 32
        invariant
            0 <= i <= 32,
            forall|j: int| 0 <= j < i ==> a@[j] == b@[j],
        decreases 32 - i,
    {
        if a[i] != b[i] {
            return false;
        }
        i = i + 1;
    }
    assert(a@ =~= b@);
    true
}

} // verus!
