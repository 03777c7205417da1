use crate::address::{address_of_scalar, Address};
use crate::codec::base58check_of;
use crate::error::Error;
use crate::keys::{hex_lower, is_valid_scalar, public_point_of, Private, Public};
use vstd::prelude::*;

verus! {

/// Relies on `String::push_str`: the characters of `t` are appended to `s`.
#[verifier::external_body]
fn push_str(s: &mut String, t: &str)
    ensures
        final(s)@ == old(s)@ + t@,
{
    s.push_str(t)
}

/// The multi-line rendering of the key pair of a scalar: private key and
/// public key in hexadecimal, then the base58check address.
pub open spec fn keypair_text(scalar: Seq<u8>) -> Seq<char> {
    "private: "@ + hex_lower(scalar) + "\npublic:  "@ + hex_lower(public_point_of(scalar))
        + "\naddress: "@ + base58check_of(address_of_scalar(scalar))
}

/// The one-line rendering of the key pair of a scalar: address, a colon, then
/// the private key in hexadecimal.
pub open spec fn keypair_line(scalar: Seq<u8>) -> Seq<char> {
    base58check_of(address_of_scalar(scalar)) + ":"@ + hex_lower(scalar)
}

/// A private key together with the public key derived from it.
pub struct KeyPair {
    private: Private,
    public: Public,
}

impl View for KeyPair {
    type V = (Seq<u8>, Seq<u8>);

    closed spec fn view(&self) -> (Seq<u8>, Seq<u8>) {
        (self.private@, self.public@)
    }
}

impl KeyPair {
    /// The private key is a valid scalar and the public key is its point.
    #[verifier::type_invariant]
    spec fn inv(&self) -> bool {
        &&& is_valid_scalar(self.private@)
        &&& self.public@ == public_point_of(self.private@)
    }

    /// Well formed, as callers see it through the view: the private key is a
    /// valid scalar and the public key is its point.
    pub open spec fn wf(&self) -> bool {
        &&& is_valid_scalar(self@.0)
        &&& self@.1 == public_point_of(self@.0)
    }

    /// Pairs a private key with the public key derived from it.
    pub fn from(private: Private, public: Public) -> (r: KeyPair)
        requires
            is_valid_scalar(private@),
            public@ == public_point_of(private@),
        ensures
            r@ == (private@, public@),
            r.wf(),
    {
        KeyPair { private, public }
    }

    /// The key pair of a private key; fails when its bytes do not form a
    /// valid scalar.
    pub fn from_private(private: Private) -> (r: Result<KeyPair, Error>)
        ensures
            r is Ok <==> is_valid_scalar(private@),
            r is Ok ==> r->Ok_0@ == (private@, public_point_of(private@)),
            r is Ok ==> r->Ok_0.wf(),
            r is Err ==> r->Err_0 == Error::InvalidPrivate,
    {
        let public = Public::from_private(&private)?;
        Ok(KeyPair::from(private, public))
    }

    /// The private key.
    pub fn private(&self) -> (r: &Private)
        ensures
            r@ == self@.0,
    {
        &self.private
    }

    /// The public key.
    pub fn public(&self) -> (r: &Public)
        ensures
            r@ == self@.1,
    {
        &self.public
    }

    /// The address, computed afresh from the public key.
    pub fn address(&self) -> (r: Address)
        ensures
            r@ == address_of_scalar(self@.0),
    {
        proof {
            use_type_invariant(self);
        }
        Address::from_public(&self.public)
    }

    /// Address and private key on one line, separated by a colon.
    pub fn simple_line(&self) -> (r: String)
        ensures
            r@ == keypair_line(self@.0),
    {
        let mut text = self.address().to_string();
        push_str(&mut text, ":");
        let private_hex = self.private.to_string();
        push_str(&mut text, private_hex.as_str());
        text
    }

    /// Private key, public key and address, one per line.
    pub fn to_string(&self) -> (r: String)
        ensures
            r@ == keypair_text(self@.0),
    {
        proof {
            use_type_invariant(self);
        }
        let mut text = String::new();
        push_str(&mut text, "private: ");
        let private_hex = self.private.to_string();
        push_str(&mut text, private_hex.as_str());
        push_str(&mut text, "\npublic:  ");
        let public_hex = self.public.to_string();
        push_str(&mut text, public_hex.as_str());
        push_str(&mut text, "\naddress: ");
        let address = self.address().to_string();
        push_str(&mut text, address.as_str());
        text
    }
}

} // verus!
