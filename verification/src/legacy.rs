//! The legacy entry points: one per intent, each taking plain values,
//! building the scripts, packaging the record, and returning its wire form,
//! or nothing when any input is rejected.
use vstd::prelude::*;
use crate::builder::{build_output, build_output_spec, IntentModel, OutputIntent};
use crate::keys::{tap_script_path_output, valid_pubkey, x_only_of, RecipientKey};
use crate::record::{encoded_record, pack_output, serialize_record};

verus! {

/// The wire bytes a legacy call returns for an intent, a value, and a key,
/// when it returns any: the inputs are rejected exactly when the value is
/// negative, the key does not parse, or the intent's fields are unacceptable.
pub open spec fn record_bytes_spec(intent: IntentModel, satoshis: i64, key: Seq<u8>) -> Option<
    Seq<u8>,
> {
    if satoshis < 0 || !valid_pubkey(key) {
        None
    } else {
        match build_output_spec(intent, key) {
            Ok(p) => Some(encoded_record(satoshis as int, p.0, p.1)),
            Err(_) => None,
        }
    }
}

/// Builds the serialized legacy record for an intent, or `None` when an
/// input is rejected; the common path behind the five entry points.
pub fn build_legacy_record(intent: &OutputIntent, satoshis: i64, pubkey: &[u8]) -> (r: Option<
    Vec<u8>,
>)
    ensures
        match r {
            Some(v) => record_bytes_spec(intent@, satoshis, pubkey@) matches Some(s) && v@ == s,
            None => record_bytes_spec(intent@, satoshis, pubkey@) is None,
        },
{
    if satoshis < 0 {
        return None;
    }
    let key = match RecipientKey::parse(pubkey) {
        Ok(k) => k,
        Err(_) => { return None },
    };
    let res = match build_output(intent, &key) {
        Ok(res) => res,
        Err(_) => { return None },
    };
    let rec = match pack_output(res, satoshis as u64) {
        Ok(rec) => rec,
        Err(_) => { return None },
    };
    Some(serialize_record(&rec))
}

/// Builds the serialized legacy record of a P2PKH output paying `satoshis`
/// to the key serialized in `pubkey`.
pub fn tw_build_p2pkh_script(satoshis: i64, pubkey: &[u8]) -> (r: Option<Vec<u8>>)
    ensures
        match r {
            Some(v) => record_bytes_spec(IntentModel::P2pkh, satoshis, pubkey@) matches Some(s)
                && v@ == s,
            None => record_bytes_spec(IntentModel::P2pkh, satoshis, pubkey@) is None,
        },
{
    build_legacy_record(&OutputIntent::P2pkh, satoshis, pubkey)
}

/// Builds the serialized legacy record of a P2WPKH output paying `satoshis`
/// to the key serialized in `pubkey`.
pub fn tw_build_p2wpkh_script(satoshis: i64, pubkey: &[u8]) -> (r: Option<Vec<u8>>)
    ensures
        match r {
            Some(v) => record_bytes_spec(IntentModel::P2wpkh, satoshis, pubkey@) matches Some(s)
                && v@ == s,
            None => record_bytes_spec(IntentModel::P2wpkh, satoshis, pubkey@) is None,
        },
{
    build_legacy_record(&OutputIntent::P2wpkh, satoshis, pubkey)
}

/// Builds the serialized legacy record of a P2TR key-path output paying
/// `satoshis` to the key serialized in `pubkey`.
pub fn tw_build_p2tr_key_path_script(satoshis: i64, pubkey: &[u8]) -> (r: Option<Vec<u8>>)
    ensures
        match r {
            Some(v) => record_bytes_spec(IntentModel::P2trKeyPath, satoshis, pubkey@) matches Some(
                s,
            ) && v@ == s,
            None => record_bytes_spec(IntentModel::P2trKeyPath, satoshis, pubkey@) is None,
        },
{
    build_legacy_record(&OutputIntent::P2trKeyPath, satoshis, pubkey)
}

/// Builds the serialized legacy record of a BRC-20 transfer inscription
/// commitment: `ticker` and `transfer_amount` fill the envelope, `satoshis`
/// is the output value, and the key in `pubkey` is both the recipient and
/// the internal key.
pub fn tw_build_brc20_transfer_inscription(
    ticker: &[u8],
    transfer_amount: u64,
    satoshis: i64,
    pubkey: &[u8],
) -> (r: Option<Vec<u8>>)
    ensures
        match r {
            Some(v) => record_bytes_spec(
                IntentModel::Brc20Transfer { ticker: ticker@, transfer_amount },
                satoshis,
                pubkey@,
            ) matches Some(s) && v@ == s,
            None => record_bytes_spec(
                IntentModel::Brc20Transfer { ticker: ticker@, transfer_amount },
                satoshis,
                pubkey@,
            ) is None,
        },
{
    let intent = OutputIntent::Brc20Transfer {
        ticker: vstd::slice::slice_to_vec(ticker),
        transfer_amount,
    };
    build_legacy_record(&intent, satoshis, pubkey)
}

/// Builds the serialized legacy record of an NFT inscription commitment:
/// `mime_type` tags the `payload` in the envelope, `satoshis` is the output
/// value, and the key in `pubkey` is both the recipient and the internal
/// key.
pub fn tw_bitcoin_build_nft_inscription(
    mime_type: &[u8],
    payload: &[u8],
    satoshis: i64,
    pubkey: &[u8],
) -> (r: Option<Vec<u8>>)
    ensures
        match r {
            Some(v) => record_bytes_spec(
                IntentModel::NftInscription { mime_type: mime_type@, payload: payload@ },
                satoshis,
                pubkey@,
            ) matches Some(s) && v@ == s,
            None => record_bytes_spec(
                IntentModel::NftInscription { mime_type: mime_type@, payload: payload@ },
                satoshis,
                pubkey@,
            ) is None,
        },
{
    let intent = OutputIntent::NftInscription {
        mime_type: vstd::slice::slice_to_vec(mime_type),
        payload: vstd::slice::slice_to_vec(payload),
    };
    build_legacy_record(&intent, satoshis, pubkey)
}

/// Law: building is deterministic, so invoking the same intent and inputs
/// twice yields byte-identical records.
pub proof fn lemma_same_inputs_same_record(
    r1: Option<Seq<u8>>,
    r2: Option<Seq<u8>>,
    intent: IntentModel,
    satoshis: i64,
    key: Seq<u8>,
)
    requires
        r1 == record_bytes_spec(intent, satoshis, key),
        r2 == record_bytes_spec(intent, satoshis, key),
    ensures
        r1 == r2,
{
}

/// Law: for inscription intents the reveal script re-derives the output key
/// embedded in the locking script: past its two leading opcode bytes, the
/// locking script is exactly the script-path tweak of the recipient's x-only
/// key with the reveal script, and the reveal script is never empty.
pub proof fn lemma_reveal_rederives_output_key(intent: IntentModel, key: Seq<u8>)
    requires
        intent.is_inscription(),
        build_output_spec(intent, key) is Ok,
    ensures
        build_output_spec(intent, key).unwrap().0.skip(2) == tap_script_path_output(
            x_only_of(key),
            build_output_spec(intent, key).unwrap().1,
        ),
        build_output_spec(intent, key).unwrap().1.len() > 0,
{
    let p = build_output_spec(intent, key).unwrap();
    assert(p.0.skip(2) =~= tap_script_path_output(x_only_of(key), p.1));
}

} // verus!
