use crate::error::Error;
use libsecp256k1::Error as CurveError;
use libsecp256k1::{PublicKey, SecretKey};
use vstd::prelude::*;

verus! {

/// The value of a byte string read as a big-endian unsigned integer.
pub open spec fn be_value(s: Seq<u8>) -> nat
    decreases s.len(),
{
    if s.len() == 0 {
        0
    } else {
        be_value(s.drop_last()) * 256 + s.last() as nat
    }
}

/// The order of the secp256k1 group, as 32 big-endian bytes.
pub open spec fn curve_order_bytes() -> Seq<u8> {
    seq![
        0xffu8, 0xff, 0xff, 0xff, 0xff, 0xff, 0xff, 0xff,
        0xff, 0xff, 0xff, 0xff, 0xff, 0xff, 0xff, 0xfe,
        0xba, 0xae, 0xdc, 0xe6, 0xaf, 0x48, 0xa0, 0x3b,
        0xbf, 0xd2, 0x5e, 0x8c, 0xd0, 0x36, 0x41, 0x41,
    ]
}

/// The order of the secp256k1 group.
pub open spec fn curve_order() -> nat {
    be_value(curve_order_bytes())
}

/// A valid private scalar: 32 bytes whose big-endian value is neither zero
/// nor at least the group order.
pub open spec fn is_valid_scalar(s: Seq<u8>) -> bool {
    &&& s.len() == 32
    &&& 0 < be_value(s)
    &&& be_value(s) < curve_order()
}

/// The 65-byte uncompressed serialisation (a format byte, then X and Y) of
/// the public point that the curve library computes for a valid scalar.
pub uninterp spec fn uncompressed_point_of(scalar: Seq<u8>) -> Seq<u8>;

/// The 64-byte public point (X then Y) of a scalar: the uncompressed
/// serialisation with its format byte taken off.
pub open spec fn public_point_of(scalar: Seq<u8>) -> Seq<u8> {
    Seq::new(64, |i: int| uncompressed_point_of(scalar)[i + 1])
}

/// Relies on libsecp256k1's `SecretKey::parse` (rejects with `InvalidSecretKey`
/// exactly the scalars that are zero or not below the group order),
/// `PublicKey::from_secret_key` and `PublicKey::serialize` (65 bytes, the
/// first being the uncompressed format tag 0x04).
#[verifier::external_body]
fn curve_public_key(scalar: &[u8; 32]) -> (r: Result<[u8; 65], CurveError>)
    ensures
        r is Ok <==> is_valid_scalar(scalar@),
        r is Ok ==> r->Ok_0@ == uncompressed_point_of(scalar@),
        r is Ok ==> r->Ok_0[0] == 4u8,
        r is Err ==> r->Err_0 == CurveError::InvalidSecretKey,
{
    let secret_key = SecretKey::parse(scalar)?;
    Ok(PublicKey::from_secret_key(&secret_key).serialize())
}

/// The digit of a hexadecimal rendering in lower case.
pub open spec fn hex_digit(n: u8) -> char
    recommends
        n < 16,
{
    seq!['0', '1', '2', '3', '4', '5', '6', '7', '8', '9', 'a', 'b', 'c', 'd', 'e', 'f'][n as int]
}

/// Lower-case hexadecimal rendering: two digits for each byte, high nibble first.
pub open spec fn hex_lower(b: Seq<u8>) -> Seq<char>
    decreases b.len(),
{
    if b.len() == 0 {
        Seq::empty()
    } else {
        hex_lower(b.drop_last()) + seq![hex_digit(b.last() / 16), hex_digit(b.last() % 16)]
    }
}

/// Relies on `hex::encode`: two lower-case digits for each byte, in order.
#[verifier::external_body]
fn encode_hex(data: &[u8]) -> (r: String)
    ensures
        r@ == hex_lower(data@),
{
    hex::encode(data)
}

/// A byte string of zeros has the value zero.
proof fn lemma_zeros_have_value_zero(s: Seq<u8>)
    requires
        forall|i: int| 0 <= i < s.len() ==> s[i] == 0,
    ensures
        be_value(s) == 0,
    decreases s.len(),
{
    if s.len() > 0 {
        lemma_zeros_have_value_zero(s.drop_last());
    }
}

/// The all-zero scalar and the scalar equal to the group order are both
/// rejected as private keys.
pub proof fn lemma_zero_and_order_rejected(s: Seq<u8>)
    requires
        s == Seq::new(32, |i: int| 0u8) || s == curve_order_bytes(),
    ensures
        !is_valid_scalar(s),
{
    if s == Seq::new(32, |i: int| 0u8) {
        lemma_zeros_have_value_zero(s);
    }
}

/// A private key is 32 bytes and a public key 64, and so is the public point
/// of every scalar.
pub proof fn lemma_key_lengths(private: Private, public: Public, scalar: Seq<u8>)
    ensures
        private@.len() == 32,
        public@.len() == 64,
        public_point_of(scalar).len() == 64,
{
}

/// Private key of secp256k1: 32 raw bytes.
#[derive(Debug, PartialEq, Eq, Hash, Clone)]
pub struct Private([u8; 32]);

impl View for Private {
    type V = Seq<u8>;

    closed spec fn view(&self) -> Seq<u8> {
        self.0@
    }
}

impl Private {
    /// A private key that holds the given bytes; whether they form a valid
    /// scalar is decided when a public key is derived from it.
    pub fn new(bytes: [u8; 32]) -> (r: Private)
        ensures
            r@ == bytes@,
    {
        Private(bytes)
    }

    /// As raw bytes.
    pub fn as_bytes(&self) -> (r: &[u8])
        ensures
            r@ == self@,
            r@.len() == 32,
    {
        self.0.as_slice()
    }

    /// Lower-case hexadecimal rendering of the raw bytes.
    pub fn to_string(&self) -> (r: String)
        ensures
            r@ == hex_lower(self@),
    {
        encode_hex(self.0.as_slice())
    }
}

/// Public key of secp256k1: the 64 bytes of X and Y of the uncompressed point.
#[derive(Debug, Clone)]
pub struct Public([u8; 64]);

impl View for Public {
    type V = Seq<u8>;

    closed spec fn view(&self) -> Seq<u8> {
        self.0@
    }
}

impl Public {
    /// Public key from private key.
    pub fn from_private(private: &Private) -> (r: Result<Public, Error>)
        ensures
            r is Ok <==> is_valid_scalar(private@),
            r is Ok ==> r->Ok_0@ == public_point_of(private@),
            r is Err ==> r->Err_0 == Error::InvalidPrivate,
    {
        let full = match curve_public_key(&private.0) {
            Ok(full) => full,
            Err(e) => {
                return Err(Error::from(e));
            },
        };
        let mut key = [0u8; 64];
        let mut i: usize = 0;
        while i < 64
            invariant
                0 <= i <= 64,
                full@.len() == 65,
                key@.len() == 64,
                forall|j: int| 0 <= j < i ==> key@[j] == full@[j + 1],
            decreases 64 - i,
        {
            key[i] = full[i + 1];
            i = i + 1;
        }
        assert(key@ =~= public_point_of(private@));
        Ok(Public(key))
    }

    /// As raw bytes.
    pub fn as_bytes(&self) -> (r: &[u8])
        ensures
            r@ == self@,
            r@.len() == 64,
    {
        self.0.as_slice()
    }

    /// Lower-case hexadecimal rendering of the raw bytes.
    pub fn to_string(&self) -> (r: String)
        ensures
            r@ == hex_lower(self@),
    {
        encode_hex(self.0.as_slice())
    }
}

} // verus!
