//! Account identities, held as the 32 raw bytes of a public key, and the
//! deterministic derivation of a pool's vault address.
use vstd::prelude::*;

use anchor_lang::solana_program::pubkey::Pubkey;

verus! {

/// Number of bytes in an account identity.
pub const ADDRESS_LEN: usize = 32;

/// An account identity: a player, a pool authority, or a pool record.
#[derive(Clone, Copy, Debug, PartialEq, Eq)]
pub struct Address {
    pub bytes: [u8; 32],
}

impl View for Address {
    type V = Seq<u8>;

    open spec fn view(&self) -> Seq<u8> {
        self.bytes@
    }
}

impl Address {
    pub fn new(bytes: [u8; 32]) -> (r: Address)
        ensures
            r.bytes == bytes,
    {
        Address { bytes }
    }

    /// Whether two identities are the same account.
    pub fn same(&self, other: &Address) -> (r: bool)
        ensures
            r == (self@ == other@),
    {
        let mut i: usize = 0;
        while i < ADDRESS_LEN
            invariant
                0 <= i <= ADDRESS_LEN,
                self@.len() == ADDRESS_LEN,
                other@.len() == ADDRESS_LEN,
                forall|j: int| 0 <= j < i ==> self@[j] == other@[j],
            decreases ADDRESS_LEN - i,
        {
            if self.bytes[i] != other.bytes[i] {
                return false;
            }
            i = i + 1;
        }
        assert(self@ =~= other@);
        true
    }
}

/// The program-derived address and bump seed for the seeds `[tag, key]` under
/// `program`, or `None` where no bump seed yields an address off the curve.
pub uninterp spec fn program_address_of(tag: Seq<u8>, key: Seq<u8>, program: Seq<u8>) -> Option<
    (Seq<u8>, u8),
>;

/// Relies on `Pubkey::try_find_program_address` (solana-program, through
/// anchor_lang): for the seeds `[tag, key]` and a program id it returns the
/// derived address and its bump seed, or `None`; the result is a hash of the
/// arguments alone.
#[verifier::external_body]
fn try_find_program_address(tag: &[u8], key: &Address, program: &Address) -> (r: Option<
    (Address, u8),
>)
    ensures
        r is Some <==> program_address_of(tag@, key@, program@) is Some,
        r matches Some((a, b)) ==> program_address_of(tag@, key@, program@) == Some((a@, b)),
{
    let program_id = Pubkey::new_from_array(program.bytes);
    match Pubkey::try_find_program_address(&[tag, &key.bytes], &program_id) {
        Some((a, b)) => Some((Address { bytes: a.to_bytes() }, b)),
        None => None,
    }
}

/// The domain tag of a vault's address: the bytes of `"pool"`.
pub open spec fn vault_tag() -> Seq<u8> {
    seq![112u8, 111u8, 111u8, 108u8]
}

/// Whether `vault_key` is the vault derived from `pool_key` under `program_id`.
pub open spec fn is_vault_of(vault_key: Address, pool_key: Address, program_id: Address) -> bool {
    program_address_of(vault_tag(), pool_key@, program_id@) matches Some((a, _)) && a == vault_key@
}

/// Derives the address and bump seed of a pool's vault from the pool's address.
pub fn vault_address(pool_key: &Address, program_id: &Address) -> (r: Option<(Address, u8)>)
    ensures
        r is Some <==> program_address_of(vault_tag(), pool_key@, program_id@) is Some,
        r matches Some((a, b)) ==> program_address_of(vault_tag(), pool_key@, program_id@) == Some(
            (a@, b),
        ),
{
    let tag: [u8; 4] = [112, 111, 111, 108];
    assert(tag@ =~= vault_tag());
    try_find_program_address(tag.as_slice(), pool_key, program_id)
}

/// Whether a derivation result names `vault_key`.
pub fn derived_matches(derived: &Option<(Address, u8)>, vault_key: &Address) -> (r: bool)
    ensures
        r == (derived matches Some((a, _)) && a@ == vault_key@),
{
    match derived {
        Some((a, _)) => a.same(vault_key),
        None => false,
    }
}

/// Whether `vault_key` is the vault of `pool_key` under `program_id`.
pub fn check_vault(vault_key: &Address, pool_key: &Address, program_id: &Address) -> (r: bool)
    ensures
        r == is_vault_of(*vault_key, *pool_key, *program_id),
{
    let derived = vault_address(pool_key, program_id);
    derived_matches(&derived, vault_key)
}

} // verus!
