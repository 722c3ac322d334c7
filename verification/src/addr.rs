//! Plain 32-byte account addresses.
use vstd::prelude::*;

verus! {

/// A 32-byte account identifier: either an ordinary public key or a
/// program-derived address. Immutable once computed.
#[derive(Clone, Copy, Debug, PartialEq, Eq)]
pub struct Address {
    pub bytes: [u8; 32],
}

impl View for Address {
    type V = Seq<u8>;

    open spec fn view(&self) -> Seq<u8> {
        self.bytes@
    }
}

impl Address {
    /// Builds an address from its raw 32 bytes.
    pub fn from_bytes(bytes: [u8; 32]) -> (r: Address)
        ensures
            r@ == bytes@,
    {
        Address { bytes }
    }

    /// The raw 32 bytes of the address.
    pub fn to_bytes(&self) -> (r: [u8; 32])
        ensures
            r@ == self@,
    {
        self.bytes
    }

    /// The address bytes as a fresh vector, e.g. for use as a seed.
    pub fn to_vec(&self) -> (r: Vec<u8>)
        ensures
            r@ == self@,
    {
        let bytes = self.to_bytes();
        let mut out: Vec<u8> = Vec::new();
        let mut i: usize = 0;
        while i < 32
            invariant
                i <= 32,
                bytes@ == self@,
                out@ == bytes@.subrange(0, i as int),
            decreases 32 - i,
        {
            out.push(bytes[i]);
            i = i + 1;
            assert(out@ =~= bytes@.subrange(0, i as int));
        }
        assert(bytes@.subrange(0, 32) =~= bytes@);
        out
    }

    /// Decodes a base58 string into an address; `None` exactly where the
    /// string is not the base58 form of 32 bytes.
    pub fn parse(s: &str) -> (r: Option<Address>)
        ensures
            match r {
                Some(a) => base58_decode(s@) == Some(a@) && a@.len() == 32,
                None => base58_decode(s@) is None,
            },
    {
        pubkey_from_str(s)
    }
}

/// What base58 decoding yields for a string: `None` where the string is not
/// the base58 form of exactly 32 bytes.
pub uninterp spec fn base58_decode(s: Seq<char>) -> Option<Seq<u8>>;

/// Relies on solana_sdk::pubkey::Pubkey::from_str: base58 decoding, a
/// deterministic function of the characters alone, which fails exactly where
/// the string does not decode to 32 bytes.
#[verifier::external_body]
fn pubkey_from_str(s: &str) -> (r: Option<Address>)
    ensures
        match r {
            Some(a) => base58_decode(s@) == Some(a@) && a@.len() == 32,
            None => base58_decode(s@) is None,
        },
{
    match <solana_sdk::pubkey::Pubkey as core::str::FromStr>::from_str(s) {
        Ok(p) => Some(Address { bytes: p.to_bytes() }),
        Err(_) => None,
    }
}

} // verus!
