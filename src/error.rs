use libsecp256k1::Error as CurveError;
use vstd::prelude::*;

verus! {

#[verifier::external_type_specification]
pub struct ExSecpError(CurveError);

/// Key errors.
#[derive(Debug, Clone, Copy, PartialEq, Eq, Structural)]
pub enum Error {
    /// Public key format error.
    InvalidPublic,
    /// Digest data format error.
    InvalidMessage,
    /// Signature data format error.
    InvalidSignature,
    /// Invalid checksum of base58check.
    InvalidChecksum,
    /// Private key format error.
    InvalidPrivate,
    /// Invalid address format.
    InvalidAddress,
    /// Unable to generate a key pair.
    FailedKeyGeneration,
}

/// The error of this library that stands for an error of the curve library.
pub open spec fn error_from_secp(e: CurveError) -> Error {
    match e {
        CurveError::InvalidPublicKey => Error::InvalidPublic,
        CurveError::InvalidSecretKey => Error::InvalidPrivate,
        CurveError::InvalidMessage => Error::InvalidMessage,
        _ => Error::InvalidSignature,
    }
}

impl From<CurveError> for Error {
    fn from(e: CurveError) -> (r: Error)
        ensures
            r == error_from_secp(e),
    {
        match e {
            CurveError::InvalidPublicKey => Error::InvalidPublic,
            CurveError::InvalidSecretKey => Error::InvalidPrivate,
            CurveError::InvalidMessage => Error::InvalidMessage,
            _ => Error::InvalidSignature,
        }
    }
}

impl vstd::std_specs::convert::FromSpecImpl<CurveError> for Error {
    open spec fn obeys_from_spec() -> bool {
        true
    }

    open spec fn from_spec(e: CurveError) -> Error {
        error_from_secp(e)
    }
}

/// The message of each error.
pub open spec fn error_message(e: Error) -> Seq<char> {
    match e {
        Error::InvalidPublic => "Invalid Public"@,
        Error::InvalidMessage => "Invalid Message"@,
        Error::InvalidSignature => "Invalid Signature"@,
        Error::InvalidChecksum => "Invalid Checksum"@,
        Error::InvalidPrivate => "Invalid Private"@,
        Error::InvalidAddress => "Invalid Address"@,
        Error::FailedKeyGeneration => "Key generation failed"@,
    }
}

impl Error {
    /// The human-readable message of this error.
    pub fn to_string(&self) -> (r: String)
        ensures
            r@ == error_message(*self),
    {
        let msg: &str = match *self {
            Error::InvalidPublic => "Invalid Public",
            Error::InvalidMessage => "Invalid Message",
            Error::InvalidSignature => "Invalid Signature",
            Error::InvalidChecksum => "Invalid Checksum",
            Error::InvalidPrivate => "Invalid Private",
            Error::InvalidAddress => "Invalid Address",
            Error::FailedKeyGeneration => "Key generation failed",
        };
        msg.to_owned()
    }
}

} // verus!
