//! Player addresses: 32-byte public identifiers, compared and defaulted the way
//! Solana's `Pubkey` compares and defaults.

use vstd::prelude::*;
use anchor_lang::prelude::Pubkey;

verus! {

/// Number of bytes in an address.
pub const ADDRESS_BYTES: usize = 32;

/// A player's public identifier, held as the raw bytes of a `Pubkey`.
#[derive(Clone, Copy, Debug)]
pub struct Address {
    pub bytes: [u8; ADDRESS_BYTES],
}

impl View for Address {
    type V = Seq<u8>;

    open spec fn view(&self) -> Seq<u8> {
        self.bytes@
    }
}

/// The bytes of the sentinel address that stands for "no player": 32 zero bytes.
pub open spec fn default_address_bytes() -> Seq<u8> {
    Seq::new(ADDRESS_BYTES as nat, |i: int| 0u8)
}

/// Calls `Pubkey::default()` and hands back the key's bytes, read with
/// `Pubkey::to_bytes`. `Pubkey` derives `Default` over its one field, a
/// `[u8; 32]`, so the contract claims that the key is 32 zero bytes.
#[verifier::external_body]
fn pubkey_default() -> (key: Address)
    ensures
        key@ == default_address_bytes(),
{
    Address { bytes: Pubkey::default().to_bytes() }
}

/// Compares two keys with `Pubkey`'s `==`, each built from an address's bytes
/// with `Pubkey::new_from_array`. `Pubkey` derives `PartialEq` over its one
/// field, a `[u8; 32]`, so the contract claims that two keys are equal exactly
/// when their bytes are.
#[verifier::external_body]
fn pubkey_eq(a: &Address, b: &Address) -> (same: bool)
    ensures
        same == (a@ == b@),
{
    Pubkey::new_from_array(a.bytes) == Pubkey::new_from_array(b.bytes)
}

impl Address {
    /// The address with the given bytes.
    pub fn new(bytes: [u8; ADDRESS_BYTES]) -> (address: Address)
        ensures
            address@ == bytes@,
    {
        Address { bytes }
    }

    /// The bytes of this address.
    pub fn to_bytes(&self) -> (bytes: [u8; ADDRESS_BYTES])
        ensures
            bytes@ == self@,
    {
        self.bytes
    }

    /// Whether this is the sentinel address.
    pub open spec fn is_default(&self) -> bool {
        self@ == default_address_bytes()
    }
}

impl Default for Address {
    /// The sentinel address.
    fn default() -> (address: Address)
        ensures
            address.is_default(),
    {
        pubkey_default()
    }
}

impl PartialEq for Address {
    fn eq(&self, other: &Address) -> (same: bool) {
        pubkey_eq(self, other)
    }
}

impl Eq for Address {}

impl vstd::std_specs::cmp::PartialEqSpecImpl for Address {
    open spec fn obeys_eq_spec() -> bool {
        true
    }

    open spec fn eq_spec(&self, other: &Address) -> bool {
        self@ == other@
    }
}

} // verus!
