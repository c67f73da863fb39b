//! Public-key validation and the secp256k1 computations the scripts need:
//! HASH160 digests and the two Taproot output-key derivations.
use vstd::prelude::*;
use crate::OutputError;

verus! {

/// Whether the bytes decode to a point on the secp256k1 curve. Meaningful for
/// byte strings that pass [`well_formed_pubkey`]; the outside parser decides it.
pub uninterp spec fn pubkey_on_curve(b: Seq<u8>) -> bool;

/// The 20-byte HASH160 digest (RIPEMD160 of SHA256) of a byte string.
pub uninterp spec fn hash160_of(b: Seq<u8>) -> Seq<u8>;

/// The 32-byte x-only Taproot output key derived from the x-only internal key
/// `x` with an empty script tree (the key-path-only tweak of BIP341).
pub uninterp spec fn tap_key_path_output(x: Seq<u8>) -> Seq<u8>;

/// The 32-byte x-only Taproot output key derived from the x-only internal key
/// `x` committing to a script tree whose single leaf is `leaf` (the
/// script-path tweak of BIP341 with one tapscript leaf).
pub uninterp spec fn tap_script_path_output(x: Seq<u8>, leaf: Seq<u8>) -> Seq<u8>;

/// A well-shaped SEC serialization of a public key: 33 bytes beginning with
/// 0x02 or 0x03 (compressed) or 65 bytes beginning with 0x04 (uncompressed).
pub open spec fn well_formed_pubkey(b: Seq<u8>) -> bool {
    (b.len() == 33 && (b[0] == 0x02 || b[0] == 0x03)) || (b.len() == 65 && b[0] == 0x04)
}

/// A byte string that parses as a public key: well-shaped and on the curve.
pub open spec fn valid_pubkey(b: Seq<u8>) -> bool {
    well_formed_pubkey(b) && pubkey_on_curve(b)
}

/// The x coordinate bytes of a serialized key; both SEC forms carry it in
/// bytes 1 through 32, which is also the x-only key BIP340 works with.
pub open spec fn x_only_of(b: Seq<u8>) -> Seq<u8> {
    b.subrange(1, 33)
}

/// Relies on `bitcoin::PublicKey::from_slice`: for a 33-byte input with
/// prefix 0x02/0x03 or a 65-byte input with prefix 0x04, parsing succeeds
/// exactly when the coordinates decode to a point on the secp256k1 curve.
#[verifier::external_body]
fn key_parses(b: &[u8]) -> (r: bool)
    requires
        well_formed_pubkey(b@),
    ensures
        r == pubkey_on_curve(b@),
{
    bitcoin::PublicKey::from_slice(b).is_ok()
}

/// Relies on `bitcoin::hashes::hash160::Hash::hash`: the 20-byte
/// RIPEMD160-of-SHA256 digest, a function of the input bytes alone.
#[verifier::external_body]
pub(crate) fn hash160(b: &[u8]) -> (r: Vec<u8>)
    ensures
        r@ == hash160_of(b@),
        r@.len() == 20,
{
    let h = <bitcoin::hashes::hash160::Hash as bitcoin::hashes::Hash>::hash(b);
    bitcoin::hashes::Hash::to_byte_array(h).to_vec()
}

/// Relies on `bitcoin::key::TapTweak::tap_tweak` with no merkle root: the
/// BIP341 key-path output key, a function of the x-only internal key alone;
/// for a key on the curve the tweak is defined (BIP341 treats the negligible
/// failure case as unreachable).
#[verifier::external_body]
pub(crate) fn derive_key_path_output(key: &[u8]) -> (r: Vec<u8>)
    requires
        valid_pubkey(key@),
    ensures
        r@ == tap_key_path_output(x_only_of(key@)),
        r@.len() == 32,
{
    let secp = bitcoin::secp256k1::Secp256k1::verification_only();
    let pk = bitcoin::PublicKey::from_slice(key).expect("validated key");
    let internal = bitcoin::secp256k1::XOnlyPublicKey::from(pk.inner);
    let (out, _parity) = bitcoin::key::TapTweak::tap_tweak(internal, &secp, None);
    out.serialize().to_vec()
}

/// Relies on `bitcoin::taproot::TapNodeHash::from_script` (tapscript leaf
/// version) and `bitcoin::key::TapTweak::tap_tweak`: the BIP341 script-path
/// output key for a tree of one leaf, a function of the x-only internal key
/// and the leaf script bytes alone; defined for keys on the curve as above.
#[verifier::external_body]
pub(crate) fn derive_script_path_output(key: &[u8], leaf: &[u8]) -> (r: Vec<u8>)
    requires
        valid_pubkey(key@),
    ensures
        r@ == tap_script_path_output(x_only_of(key@), leaf@),
        r@.len() == 32,
{
    let secp = bitcoin::secp256k1::Secp256k1::verification_only();
    let pk = bitcoin::PublicKey::from_slice(key).expect("validated key");
    let internal = bitcoin::secp256k1::XOnlyPublicKey::from(pk.inner);
    let script = bitcoin::ScriptBuf::from_bytes(leaf.to_vec());
    let root = bitcoin::taproot::TapNodeHash::from_script(
        &script,
        bitcoin::taproot::LeafVersion::TapScript,
    );
    let (out, _parity) = bitcoin::key::TapTweak::tap_tweak(internal, &secp, Some(root));
    out.serialize().to_vec()
}

/// A recipient public key whose serialization has been validated.
#[derive(Debug)]
pub struct RecipientKey {
    bytes: Vec<u8>,
}

impl RecipientKey {
    /// The validated serialization.
    pub closed spec fn view(&self) -> Seq<u8> {
        self.bytes@
    }

    /// A `RecipientKey` always holds a valid serialization.
    pub open spec fn wf(&self) -> bool {
        valid_pubkey(self@)
    }

    /// Parses a caller-supplied byte span into a validated key; the sole
    /// trust boundary for untrusted key bytes. Succeeds exactly on
    /// well-shaped encodings of curve points.
    pub fn parse(b: &[u8]) -> (r: Result<RecipientKey, OutputError>)
        ensures
            r is Ok <==> valid_pubkey(b@),
            r is Ok ==> r.unwrap().wf() && r.unwrap()@ == b@,
            r is Err ==> r.unwrap_err() == OutputError::InvalidKeyEncoding,
    {
        let n = b.len();
        let shaped = if n == 33 {
            b[0] == 0x02 || b[0] == 0x03
        } else if n == 65 {
            b[0] == 0x04
        } else {
            false
        };
        if !shaped {
            return Err(OutputError::InvalidKeyEncoding);
        }
        if !key_parses(b) {
            return Err(OutputError::InvalidKeyEncoding);
        }
        Ok(RecipientKey { bytes: vstd::slice::slice_to_vec(b) })
    }

    /// The serialized key bytes.
    pub fn serialized(&self) -> (r: &Vec<u8>)
        ensures
            r@ == self@,
    {
        &self.bytes
    }

    /// The 32-byte x-only form: the x coordinate of the point.
    pub fn x_only(&self) -> (r: Vec<u8>)
        requires
            self.wf(),
        ensures
            r@ == x_only_of(self@),
            r@.len() == 32,
    {
        let s = vstd::slice::slice_subrange(self.bytes.as_slice(), 1, 33);
        vstd::slice::slice_to_vec(s)
    }

    /// The HASH160 digest of the serialized key.
    pub fn pubkey_hash(&self) -> (r: Vec<u8>)
        ensures
            r@ == hash160_of(self@),
            r@.len() == 20,
    {
        hash160(self.bytes.as_slice())
    }
}

} // verus!
