//! Bitcoin transaction output descriptors built from a small, closed set of
//! intents: P2PKH, P2WPKH, P2TR key-path, and two Taproot-committed Ordinals
//! inscriptions (BRC-20 token transfers and arbitrary-MIME-type payloads).
//! Each intent yields the locking script, the reveal script where one
//! exists, and a fixed-shape legacy wire record, with the construction
//! specified byte-for-byte.

pub mod builder;
pub mod envelope;
pub mod keys;
pub mod legacy;
pub mod record;
pub mod script;

use vstd::prelude::*;

verus! {

/// Errors for output construction.
#[derive(Clone, Copy, Debug, PartialEq, Eq, Structural)]
pub enum OutputError {
    /// The public-key bytes are not a well-formed secp256k1 encoding.
    InvalidKeyEncoding,
    /// The ticker or MIME text is not acceptable.
    InvalidPayload,
    /// The inscription payload exceeds the policy size cap.
    PayloadTooLarge,
    /// The output value does not fit the record's signed 64-bit field.
    ValueOverflow,
}

} // verus!
