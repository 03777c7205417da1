//! Derivation of ledger account addresses from secp256k1 key material.
//!
//! A private scalar yields an uncompressed public point, whose Keccak-256
//! digest, behind a one-byte network prefix, is the 21-byte account address.
//! Addresses are shown in base-58 with a double SHA-256 checksum.
pub mod address;
pub mod codec;
pub mod error;
pub mod keypair;
pub mod keys;

pub use address::Address;
pub use codec::b58encode_check;
pub use error::Error;
pub use keypair::KeyPair;
pub use keys::{Private, Public};
