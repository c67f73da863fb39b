//! The script builders: one per output intent, each producing the locking
//! script and, for inscription intents, the Taproot reveal script.
use vstd::prelude::*;
use crate::envelope::{
    brc20_content_type, brc20_content_type_bytes, brc20_transfer_payload, build_brc20_payload,
    build_envelope, envelope_script, is_ticker_ok, is_valid_utf8, ticker_ok, utf8_ok,
};
use crate::keys::{
    hash160_of, tap_key_path_output, tap_script_path_output, valid_pubkey, x_only_of, RecipientKey,
};
use crate::script::{
    append_pushdata, pushdata, OP_CHECKSIG, OP_DUP, OP_EQUALVERIFY, OP_HASH160, OP_PUSHNUM_1,
};
use crate::OutputError;

verus! {

/// Policy cap on the size of an inscription body, in bytes.
pub const MAX_INSCRIPTION_PAYLOAD: usize = 400000;

/// What an output should pay to: one of the five supported shapes, with the
/// fields that shape needs.
pub enum OutputIntent {
    /// Pay to the hash of the recipient's public key.
    P2pkh,
    /// Pay to a version-0 witness program carrying the key hash.
    P2wpkh,
    /// Pay to a Taproot output spendable on the key path alone.
    P2trKeyPath,
    /// Commit to a BRC-20 transfer inscription for the recipient.
    Brc20Transfer { ticker: Vec<u8>, transfer_amount: u64 },
    /// Commit to an arbitrary-MIME-type inscription for the recipient.
    NftInscription { mime_type: Vec<u8>, payload: Vec<u8> },
}

/// The mathematical model of an intent: the same five shapes over sequences.
pub enum IntentModel {
    /// Pay to the hash of the recipient's public key.
    P2pkh,
    /// Pay to a version-0 witness program carrying the key hash.
    P2wpkh,
    /// Pay to a Taproot output spendable on the key path alone.
    P2trKeyPath,
    /// Commit to a BRC-20 transfer inscription for the recipient.
    Brc20Transfer { ticker: Seq<u8>, transfer_amount: u64 },
    /// Commit to an arbitrary-MIME-type inscription for the recipient.
    NftInscription { mime_type: Seq<u8>, payload: Seq<u8> },
}

impl View for OutputIntent {
    type V = IntentModel;

    open spec fn view(&self) -> IntentModel {
        match self {
            OutputIntent::P2pkh => IntentModel::P2pkh,
            OutputIntent::P2wpkh => IntentModel::P2wpkh,
            OutputIntent::P2trKeyPath => IntentModel::P2trKeyPath,
            OutputIntent::Brc20Transfer { ticker, transfer_amount } => IntentModel::Brc20Transfer {
                ticker: ticker@,
                transfer_amount: *transfer_amount,
            },
            OutputIntent::NftInscription { mime_type, payload } => IntentModel::NftInscription {
                mime_type: mime_type@,
                payload: payload@,
            },
        }
    }
}

impl IntentModel {
    /// The two inscription intents carry a reveal script; the base intents
    /// do not.
    pub open spec fn is_inscription(&self) -> bool {
        self is Brc20Transfer || self is NftInscription
    }
}

/// A builder's result: the locking script, and the Taproot reveal script for
/// inscription intents.
pub struct ScriptBuildResult {
    /// The scriptPubkey of the output.
    pub script_pubkey: Vec<u8>,
    /// The reveal script committed to by the output key; present exactly for
    /// inscription intents.
    pub taproot_reveal_script: Option<Vec<u8>>,
}

/// The P2PKH locking script for a serialized key:
/// `OP_DUP OP_HASH160 <hash160(key)> OP_EQUALVERIFY OP_CHECKSIG`.
pub open spec fn p2pkh_script(key: Seq<u8>) -> Seq<u8> {
    seq![OP_DUP, OP_HASH160] + pushdata(hash160_of(key)) + seq![OP_EQUALVERIFY, OP_CHECKSIG]
}

/// The P2WPKH locking script for a serialized key: a version-0 witness
/// program, `OP_0 <hash160(key)>`.
pub open spec fn p2wpkh_script(key: Seq<u8>) -> Seq<u8> {
    seq![0x00u8] + pushdata(hash160_of(key))
}

/// The P2TR key-path locking script for a serialized key:
/// `OP_1 <32-byte tweaked output key>`, tweaked with an empty script tree.
pub open spec fn p2tr_key_path_script(key: Seq<u8>) -> Seq<u8> {
    seq![OP_PUSHNUM_1, 0x20u8] + tap_key_path_output(x_only_of(key))
}

/// The locking script of an inscription commitment: `OP_1 <32-byte output
/// key>`, where the output key tweaks the recipient's x-only key with the
/// single-leaf script tree holding `reveal`.
pub open spec fn inscription_commit_script(key: Seq<u8>, reveal: Seq<u8>) -> Seq<u8> {
    seq![OP_PUSHNUM_1, 0x20u8] + tap_script_path_output(x_only_of(key), reveal)
}

/// The reveal script of a BRC-20 transfer inscription to `key`.
pub open spec fn brc20_reveal_script(key: Seq<u8>, tick: Seq<u8>, amt: nat) -> Seq<u8> {
    envelope_script(x_only_of(key), brc20_content_type(), brc20_transfer_payload(tick, amt))
}

/// The reveal script of an NFT inscription to `key`.
pub open spec fn nft_reveal_script(key: Seq<u8>, mime: Seq<u8>, payload: Seq<u8>) -> Seq<u8> {
    envelope_script(x_only_of(key), mime, payload)
}

/// What [`build_output`] returns for a validated key and an intent: the
/// locking script and the reveal script (empty for base intents), or the
/// error for unacceptable intent fields.
pub open spec fn build_output_spec(intent: IntentModel, key: Seq<u8>) -> Result<
    (Seq<u8>, Seq<u8>),
    OutputError,
> {
    match intent {
        IntentModel::P2pkh => Ok((p2pkh_script(key), Seq::empty())),
        IntentModel::P2wpkh => Ok((p2wpkh_script(key), Seq::empty())),
        IntentModel::P2trKeyPath => Ok((p2tr_key_path_script(key), Seq::empty())),
        IntentModel::Brc20Transfer { ticker, transfer_amount } => if !ticker_ok(ticker) {
            Err(OutputError::InvalidPayload)
        } else {
            let reveal = brc20_reveal_script(key, ticker, transfer_amount as nat);
            Ok((inscription_commit_script(key, reveal), reveal))
        },
        IntentModel::NftInscription { mime_type, payload } => if !utf8_ok(mime_type) {
            Err(OutputError::InvalidPayload)
        } else if payload.len() > MAX_INSCRIPTION_PAYLOAD {
            Err(OutputError::PayloadTooLarge)
        } else {
            let reveal = nft_reveal_script(key, mime_type, payload);
            Ok((inscription_commit_script(key, reveal), reveal))
        },
    }
}

/// Builds the P2PKH locking script: 25 bytes embedding the key's HASH160.
pub fn build_p2pkh_script(key: &RecipientKey) -> (r: Vec<u8>)
    ensures
        r@ == p2pkh_script(key@),
        r@.len() == 25,
        r@[0] == OP_DUP && r@[1] == OP_HASH160 && r@[24] == OP_CHECKSIG,
        r@.subrange(3, 23) == hash160_of(key@),
{
    let h = key.pubkey_hash();
    let mut out: Vec<u8> = Vec::new();
    out.push(OP_DUP);
    out.push(OP_HASH160);
    append_pushdata(&mut out, h.as_slice());
    out.push(OP_EQUALVERIFY);
    out.push(OP_CHECKSIG);
    proof {
        assert(out@ =~= p2pkh_script(key@));
        assert(out@.subrange(3, 23) =~= hash160_of(key@));
    }
    out
}

/// Builds the P2WPKH locking script: 22 bytes, `OP_0` then a 20-byte push of
/// the key's HASH160.
pub fn build_p2wpkh_script(key: &RecipientKey) -> (r: Vec<u8>)
    ensures
        r@ == p2wpkh_script(key@),
        r@.len() == 22,
        r@[0] == 0x00 && r@[1] == 0x14,
        r@.subrange(2, 22) == hash160_of(key@),
{
    let h = key.pubkey_hash();
    let mut out: Vec<u8> = Vec::new();
    out.push(0x00);
    append_pushdata(&mut out, h.as_slice());
    proof {
        assert(out@ =~= p2wpkh_script(key@));
        assert(out@.subrange(2, 22) =~= hash160_of(key@));
    }
    out
}

/// Builds the P2TR key-path locking script: 34 bytes, `OP_1` then a 32-byte
/// push of the key-path-tweaked output key.
pub fn build_p2tr_key_path_script_bytes(key: &RecipientKey) -> (r: Vec<u8>)
    requires
        key.wf(),
    ensures
        r@ == p2tr_key_path_script(key@),
        r@.len() == 34,
        r@[0] == OP_PUSHNUM_1 && r@[1] == 0x20,
        r@.subrange(2, 34) == tap_key_path_output(x_only_of(key@)),
{
    let out_key = crate::keys::derive_key_path_output(key.serialized().as_slice());
    let mut out: Vec<u8> = Vec::new();
    out.push(OP_PUSHNUM_1);
    append_pushdata(&mut out, out_key.as_slice());
    proof {
        assert(out@ =~= p2tr_key_path_script(key@));
        assert(out@.subrange(2, 34) =~= tap_key_path_output(x_only_of(key@)));
    }
    out
}

/// Builds the commitment script for a reveal script: 34 bytes, `OP_1` then a
/// 32-byte push of the script-path-tweaked output key.
fn build_commit_script(key: &RecipientKey, reveal: &Vec<u8>) -> (r: Vec<u8>)
    requires
        key.wf(),
    ensures
        r@ == inscription_commit_script(key@, reveal@),
        r@.len() == 34,
{
    let out_key = crate::keys::derive_script_path_output(
        key.serialized().as_slice(),
        reveal.as_slice(),
    );
    let mut out: Vec<u8> = Vec::new();
    out.push(OP_PUSHNUM_1);
    append_pushdata(&mut out, out_key.as_slice());
    proof {
        assert(out@ =~= inscription_commit_script(key@, reveal@));
    }
    out
}

/// Builds the scripts for an intent: the locking script, and the reveal
/// script exactly for inscription intents. Fails with `InvalidPayload` on an
/// unacceptable ticker or a non-UTF-8 MIME type, and with `PayloadTooLarge`
/// on a body over [`MAX_INSCRIPTION_PAYLOAD`] bytes.
pub fn build_output(intent: &OutputIntent, key: &RecipientKey) -> (r: Result<
    ScriptBuildResult,
    OutputError,
>)
    requires
        key.wf(),
    ensures
        match r {
            Ok(res) => {
                &&& build_output_spec(intent@, key@) is Ok
                &&& res.script_pubkey@ == build_output_spec(intent@, key@).unwrap().0
                &&& match res.taproot_reveal_script {
                    Some(rev) => rev@ == build_output_spec(intent@, key@).unwrap().1,
                    None => build_output_spec(intent@, key@).unwrap().1 == Seq::<u8>::empty(),
                }
                &&& res.taproot_reveal_script is Some <==> intent@.is_inscription()
            },
            Err(e) => build_output_spec(intent@, key@) matches Err(e2) && e == e2,
        },
{
    match intent {
        OutputIntent::P2pkh => Ok(
            ScriptBuildResult {
                script_pubkey: build_p2pkh_script(key),
                taproot_reveal_script: None,
            },
        ),
        OutputIntent::P2wpkh => Ok(
            ScriptBuildResult {
                script_pubkey: build_p2wpkh_script(key),
                taproot_reveal_script: None,
            },
        ),
        OutputIntent::P2trKeyPath => Ok(
            ScriptBuildResult {
                script_pubkey: build_p2tr_key_path_script_bytes(key),
                taproot_reveal_script: None,
            },
        ),
        OutputIntent::Brc20Transfer { ticker, transfer_amount } => {
            if !is_ticker_ok(ticker.as_slice()) {
                return Err(OutputError::InvalidPayload);
            }
            let body = build_brc20_payload(ticker.as_slice(), *transfer_amount);
            let content_type = brc20_content_type_bytes();
            let x = key.x_only();
            let reveal = build_envelope(x.as_slice(), content_type.as_slice(), body.as_slice());
            let commit = build_commit_script(key, &reveal);
            Ok(
                ScriptBuildResult {
                    script_pubkey: commit,
                    taproot_reveal_script: Some(reveal),
                },
            )
        },
        OutputIntent::NftInscription { mime_type, payload } => {
            if !is_valid_utf8(mime_type.as_slice()) {
                return Err(OutputError::InvalidPayload);
            }
            if payload.len() > MAX_INSCRIPTION_PAYLOAD {
                return Err(OutputError::PayloadTooLarge);
            }
            let x = key.x_only();
            let reveal = build_envelope(x.as_slice(), mime_type.as_slice(), payload.as_slice());
            let commit = build_commit_script(key, &reveal);
            Ok(
                ScriptBuildResult {
                    script_pubkey: commit,
                    taproot_reveal_script: Some(reveal),
                },
            )
        },
    }
}

} // verus!
