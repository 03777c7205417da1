use crate::error::Error;
use base58::{FromBase58, FromBase58Error, ToBase58};
use sha2::{Digest, Sha256};
use vstd::prelude::*;

verus! {

/// The SHA-256 digest of a byte string.
pub uninterp spec fn sha256_of(data: Seq<u8>) -> Seq<u8>;

/// Relies on sha2's `Sha256::digest`: the 32-byte digest of the input.
#[verifier::external_body]
fn sha256(data: &[u8]) -> (r: [u8; 32])
    ensures
        r@ == sha256_of(data@),
{
    Sha256::digest(data).into()
}

/// The base-58 rendering, in the Bitcoin alphabet, of a byte string.
pub uninterp spec fn base58_of(data: Seq<u8>) -> Seq<char>;

/// The Bitcoin base-58 alphabet.
pub open spec fn base58_alphabet() -> Seq<char> {
    "123456789ABCDEFGHJKLMNPQRSTUVWXYZabcdefghijkmnopqrstuvwxyz"@
}

/// Relies on base58's `ToBase58::to_base58` for `[u8]`: every character it
/// writes is taken from the Bitcoin alphabet, and it writes at most one digit
/// for each leading zero byte and `n * 138 / 100 + 1` digits for the other `n`.
#[verifier::external_body]
fn to_base58(data: &[u8]) -> (r: String)
    ensures
        r@ == base58_of(data@),
        r@.len() <= data@.len() * 138 / 100 + 1,
        forall|i: int| 0 <= i < r@.len() ==> base58_alphabet().contains(#[trigger] r@[i]),
{
    data.to_base58()
}

/// The checksum of base58check: the first four bytes of the double SHA-256
/// digest of the payload.
pub open spec fn checksum_of(raw: Seq<u8>) -> Seq<u8> {
    Seq::new(4, |i: int| sha256_of(sha256_of(raw))[i])
}

/// The payload followed by its checksum.
pub open spec fn checksummed(raw: Seq<u8>) -> Seq<u8> {
    raw + checksum_of(raw)
}

/// The base58check text of a payload.
pub open spec fn base58check_of(raw: Seq<u8>) -> Seq<char> {
    base58_of(checksummed(raw))
}

/// Base58check encode.
pub fn b58encode_check(raw: &[u8]) -> (r: String)
    requires
        raw@.len() + 4 <= usize::MAX,
    ensures
        r@ == base58check_of(raw@),
        r@.len() <= (raw@.len() + 4) * 138 / 100 + 1,
        forall|i: int| 0 <= i < r@.len() ==> base58_alphabet().contains(#[trigger] r@[i]),
        forall|i: int| 0 <= i < r@.len() ==> !is_whitespace(#[trigger] r@[i]),
{
    let digest1 = sha256(raw);
    let digest = sha256(digest1.as_slice());
    let mut data: Vec<u8> = Vec::new();
    let mut i: usize = 0;
    while i < raw.len()
        invariant
            0 <= i <= raw@.len(),
            data@ =~= raw@.subrange(0, i as int),
        decreases raw@.len() - i,
    {
        data.push(raw[i]);
        i = i + 1;
    }
    let mut k: usize = 0;
    while k < 4
        invariant
            0 <= k <= 4,
            digest@.len() == 32,
            data@ =~= raw@ + digest@.subrange(0, k as int),
        decreases 4 - k,
    {
        data.push(digest[k]);
        k = k + 1;
    }
    assert(data@ =~= checksummed(raw@));
    let text = to_base58(data.as_slice());
    assert forall|i: int| 0 <= i < text@.len() implies !is_whitespace(#[trigger] text@[i]) by {
        lemma_alphabet_has_no_whitespace(text@[i]);
    }
    text
}

#[verifier::external_type_specification]
#[verifier::external_body]
pub struct ExFromBase58Error(FromBase58Error);

/// Relies on base58's `FromBase58::from_base58` for `str`: what it decodes
/// encodes back to the same text, and text that `to_base58` wrote for at most
/// 132 bytes decodes to those bytes. Longer text can make it slice out of
/// bounds, so it is handed at most 131 characters.
#[verifier::external_body]
fn from_base58(text: &str) -> (r: Result<Vec<u8>, FromBase58Error>)
    requires
        text@.len() <= 131,
    ensures
        r is Ok ==> base58_of(r->Ok_0@) == text@,
        forall|v: Seq<u8>| #[trigger] base58_of(v) == text@ && v.len() <= 132 ==> r is Ok && r->Ok_0@ == v,
{
    text.from_base58()
}

/// The payload of checksummed bytes: all but the last four.
pub open spec fn payload_of(data: Seq<u8>) -> Seq<u8> {
    data.subrange(0, data.len() - 4)
}

/// The bytes end in the checksum of what precedes them.
pub open spec fn checksum_matches(data: Seq<u8>) -> bool {
    &&& data.len() >= 4
    &&& data.subrange(data.len() - 4, data.len() as int) == checksum_of(payload_of(data))
}

/// Splits off and checks the checksum at the end of the bytes.
pub fn verify_checksum(data: &[u8]) -> (r: Result<Vec<u8>, Error>)
    ensures
        r is Ok <==> checksum_matches(data@),
        r is Ok ==> r->Ok_0@ == payload_of(data@),
        r is Err ==> r->Err_0 == Error::InvalidChecksum,
{
    if data.len() < 4 {
        return Err(Error::InvalidChecksum);
    }
    let n: usize = data.len() - 4;
    let mut payload: Vec<u8> = Vec::new();
    let mut i: usize = 0;
    while i < n
        invariant
            n == data@.len() - 4,
            0 <= i <= n,
            payload@ =~= data@.subrange(0, i as int),
        decreases n - i,
    {
        payload.push(data[i]);
        i = i + 1;
    }
    let digest1 = sha256(payload.as_slice());
    let digest = sha256(digest1.as_slice());
    let mut k: usize = 0;
    while k < 4
        invariant
            n + 4 == data@.len(),
            data@.len() == data.len(),
            payload@ == payload_of(data@),
            digest@ == sha256_of(sha256_of(payload@)),
            0 <= k <= 4,
            forall|j: int| 0 <= j < k ==> data@[n + j] == digest@[j],
        decreases 4 - k,
    {
        if data[n + k] != digest[k] {
            assert(data@.subrange(n as int, data@.len() as int)[k as int] != checksum_of(payload@)[k as int]);
            return Err(Error::InvalidChecksum);
        }
        k = k + 1;
    }
    assert(data@.subrange(n as int, data@.len() as int) =~= checksum_of(payload@));
    Ok(payload)
}

/// Base58check decode: the payload of the text, once its checksum is checked.
pub fn b58decode_check(text: &str) -> (r: Result<Vec<u8>, Error>)
    ensures
        r is Ok ==> base58check_of(r->Ok_0@) == text@,
        r is Err ==> r->Err_0 == Error::InvalidAddress || r->Err_0 == Error::InvalidChecksum,
        forall|raw: Seq<u8>|
            #[trigger] base58check_of(raw) == text@ && raw.len() <= 128 && text@.len() <= 131
                ==> r is Ok && r->Ok_0@ == raw,
{
    if text.unicode_len() > 131 {
        return Err(Error::InvalidAddress);
    }
    let data = match from_base58(text) {
        Ok(data) => data,
        Err(_) => {
            return Err(Error::InvalidAddress);
        },
    };
    let r = verify_checksum(data.as_slice());
    proof {
        if r is Ok {
            assert(data@ =~= checksummed(r->Ok_0@));
        }
        assert forall|raw: Seq<u8>|
            #[trigger] base58check_of(raw) == text@ && raw.len() <= 128 implies r is Ok
                && r->Ok_0@ == raw by {
            lemma_checksum_round_trip(raw);
            assert(data@ == checksummed(raw));
        }
    }
    r
}

/// Checksum round trip: checksummed bytes pass the check, and their payload
/// is the original.
pub proof fn lemma_checksum_round_trip(raw: Seq<u8>)
    ensures
        checksum_matches(checksummed(raw)),
        payload_of(checksummed(raw)) == raw,
{
    assert(payload_of(checksummed(raw)) =~= raw);
    assert(checksummed(raw).subrange(raw.len() as int, raw.len() + 4int) =~= checksum_of(raw));
}

/// A whitespace character.
pub open spec fn is_whitespace(c: char) -> bool {
    c == ' ' || c == '\t' || c == '\n' || c == '\r' || c == '\x0b' || c == '\x0c'
}

/// No character of the base-58 alphabet is whitespace.
pub proof fn lemma_alphabet_has_no_whitespace(c: char)
    requires
        base58_alphabet().contains(c),
    ensures
        !is_whitespace(c),
{
    reveal_strlit("123456789ABCDEFGHJKLMNPQRSTUVWXYZabcdefghijkmnopqrstuvwxyz");
    let i = choose|i: int| 0 <= i < base58_alphabet().len() && base58_alphabet()[i] == c;
    assert(0 <= i < 58);
}

} // verus!
