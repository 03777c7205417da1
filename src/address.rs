use crate::codec::{b58encode_check, base58check_of, is_whitespace};
use crate::keys::{is_valid_scalar, public_point_of, Private, Public};
use crate::error::Error;
use sha3::{Digest, Keccak256};
use vstd::prelude::*;

verus! {

/// The mainnet uses 0x41('A') as address type prefix.
pub const ADDRESS_TYPE_PREFIX: u8 = 0x41;

/// The Keccak-256 digest of a byte string.
pub uninterp spec fn keccak256_of(data: Seq<u8>) -> Seq<u8>;

/// Relies on sha3's `Keccak256::digest`: the 32-byte digest of the input.
#[verifier::external_body]
fn keccak256(data: &[u8]) -> (r: [u8; 32])
    ensures
        r@ == keccak256_of(data@),
{
    Keccak256::digest(data).into()
}

/// The 21 raw bytes of the address of a public point under a network prefix:
/// the prefix, then the last 20 bytes of the point's Keccak-256 digest.
pub open spec fn address_bytes(prefix: u8, point: Seq<u8>) -> Seq<u8> {
    seq![prefix] + Seq::new(20, |i: int| keccak256_of(point)[i + 12])
}

/// The raw bytes of the mainnet address of a private scalar.
pub open spec fn address_of_scalar(scalar: Seq<u8>) -> Seq<u8> {
    address_bytes(ADDRESS_TYPE_PREFIX, public_point_of(scalar))
}

/// Deriving an address is deterministic: private keys with the same bytes
/// give the same address.
pub proof fn lemma_derivation_deterministic(p: Private, q: Private, a: Address, b: Address)
    requires
        p@ == q@,
        a@ == address_of_scalar(p@),
        b@ == address_of_scalar(q@),
    ensures
        a == b,
{
    assert(a.0@ =~= b.0@);
    assert(a.0 == b.0);
}

/// An address is 21 raw bytes, the first of which is the network prefix.
pub proof fn lemma_address_layout(prefix: u8, point: Seq<u8>, a: Address)
    ensures
        address_bytes(prefix, point).len() == 21,
        address_bytes(prefix, point)[0] == prefix,
        a@.len() == 21,
{
}

/// The address of every valid scalar starts with the mainnet prefix.
pub proof fn lemma_address_prefix(scalar: Seq<u8>)
    requires
        is_valid_scalar(scalar),
    ensures
        address_of_scalar(scalar)[0] == ADDRESS_TYPE_PREFIX,
{
}

/// Address of Tron, saved in 21-byte format.
#[derive(Debug, PartialEq, Eq, Clone, Copy, Hash, PartialOrd, Ord)]
pub struct Address([u8; 21]);

impl View for Address {
    type V = Seq<u8>;

    closed spec fn view(&self) -> Seq<u8> {
        self.0@
    }
}

impl Address {
    /// Address of a private key whose bytes are known to form a valid scalar.
    pub fn from_private(private: &Private) -> (r: Address)
        requires
            is_valid_scalar(private@),
        ensures
            r@ == address_of_scalar(private@),
    {
        match Public::from_private(private) {
            Ok(public) => Address::from_public(&public),
            Err(_) => {
                proof {
                    assert(false);
                }
                Address([ADDRESS_TYPE_PREFIX; 21])
            },
        }
    }

    /// Address of a private key that may not form a valid scalar.
    pub fn try_from_private(private: &Private) -> (r: Result<Address, Error>)
        ensures
            r is Ok <==> is_valid_scalar(private@),
            r is Ok ==> r->Ok_0@ == address_of_scalar(private@),
            r is Err ==> r->Err_0 == Error::InvalidPrivate,
    {
        let public = Public::from_private(private)?;
        Ok(Address::from_public(&public))
    }

    /// Address of a public key.
    pub fn from_public(public: &Public) -> (r: Address)
        ensures
            r@ == address_bytes(ADDRESS_TYPE_PREFIX, public@),
    {
        Address::from_public_with_prefix(public, ADDRESS_TYPE_PREFIX)
    }

    /// Address of a public key under the given network prefix.
    pub fn from_public_with_prefix(public: &Public, prefix: u8) -> (r: Address)
        ensures
            r@ == address_bytes(prefix, public@),
    {
        let digest = keccak256(public.as_bytes());
        let mut raw = [prefix; 21];
        let mut i: usize = 1;
        while i < 21
            invariant
                1 <= i <= 21,
                digest@.len() == 32,
                raw@.len() == 21,
                raw@[0] == prefix,
                forall|j: int| 1 <= j < i ==> raw@[j] == digest@[j + 11],
            decreases 21 - i,
        {
            raw[i] = digest[i + 11];
            i = i + 1;
        }
        assert(raw@ =~= address_bytes(prefix, public@));
        Address(raw)
    }

    /// As raw bytes.
    pub fn as_bytes(&self) -> (r: &[u8])
        ensures
            r@ == self@,
            r@.len() == 21,
    {
        self.0.as_slice()
    }

    /// The network prefix of this address.
    pub fn prefix(&self) -> (r: u8)
        ensures
            r == self@[0],
    {
        self.0[0]
    }

    /// Base58check text of the raw bytes.
    pub fn to_string(&self) -> (r: String)
        ensures
            r@ == base58check_of(self@),
            forall|i: int| 0 <= i < r@.len() ==> !is_whitespace(#[trigger] r@[i]),
    {
        b58encode_check(self.0.as_slice())
    }
}

} // verus!
