//! Structural tests of the builders, the envelope, and the packager.

use btc_legacy_scripts::builder::{
    build_output, build_p2pkh_script, build_p2tr_key_path_script_bytes, build_p2wpkh_script,
    OutputIntent,
};
use btc_legacy_scripts::envelope::{build_brc20_payload, is_valid_utf8};
use btc_legacy_scripts::keys::RecipientKey;
use btc_legacy_scripts::record::pack_output;
use btc_legacy_scripts::OutputError;

fn sample_key_bytes() -> Vec<u8> {
    let mut key = vec![0x02];
    key.extend_from_slice(&[
        0x50, 0x86, 0x3a, 0xd6, 0x4a, 0x87, 0xae, 0x8a, 0x2f, 0xe8, 0x3c, 0x1a, 0xf1, 0xa8,
        0x40, 0x3c, 0xb5, 0x3f, 0x53, 0xe4, 0x86, 0xd8, 0x51, 0x1d, 0xad, 0x8a, 0x04, 0x88,
        0x7e, 0x5b, 0x23, 0x52,
    ]);
    key
}

fn sample_key() -> RecipientKey {
    RecipientKey::parse(&sample_key_bytes()).expect("valid key")
}

#[test]
fn parse_reports_invalid_key_encoding() {
    match RecipientKey::parse(&[0x01, 0x02]) {
        Err(e) => assert_eq!(e, OutputError::InvalidKeyEncoding),
        Ok(_) => panic!("short span accepted"),
    }
}

#[test]
fn p2pkh_script_shape() {
    let script = build_p2pkh_script(&sample_key());
    assert_eq!(script.len(), 25);
    assert_eq!(script[0], 0x76);
    assert_eq!(script[1], 0xa9);
    assert_eq!(script[2], 0x14);
    assert_eq!(script[23], 0x88);
    assert_eq!(script[24], 0xac);
}

#[test]
fn p2wpkh_script_shape() {
    let script = build_p2wpkh_script(&sample_key());
    assert_eq!(script.len(), 22);
    assert_eq!(&script[..2], &[0x00, 0x14]);
}

#[test]
fn p2tr_script_shape() {
    let script = build_p2tr_key_path_script_bytes(&sample_key());
    assert_eq!(script.len(), 34);
    assert_eq!(&script[..2], &[0x51, 0x20]);
}

#[test]
fn base_intents_have_no_reveal() {
    let key = sample_key();
    for intent in [OutputIntent::P2pkh, OutputIntent::P2wpkh, OutputIntent::P2trKeyPath] {
        let res = build_output(&intent, &key).expect("base intents never fail");
        assert!(res.taproot_reveal_script.is_none());
    }
}

#[test]
fn nft_envelope_exact_bytes() {
    let key = sample_key();
    let intent = OutputIntent::NftInscription {
        mime_type: b"image/png".to_vec(),
        payload: vec![0x01, 0x02, 0x03],
    };
    let res = build_output(&intent, &key).expect("valid inputs");
    let reveal = res.taproot_reveal_script.expect("inscription has a reveal");
    let mut expected: Vec<u8> = Vec::new();
    expected.push(0x20);
    expected.extend_from_slice(&sample_key_bytes()[1..33]);
    expected.push(0xac); // OP_CHECKSIG
    expected.push(0x00); // OP_FALSE
    expected.push(0x63); // OP_IF
    expected.extend_from_slice(&[0x03, b'o', b'r', b'd']);
    expected.extend_from_slice(&[0x01, 0x01]);
    expected.push(0x09);
    expected.extend_from_slice(b"image/png");
    expected.push(0x00);
    expected.extend_from_slice(&[0x03, 0x01, 0x02, 0x03]);
    expected.push(0x68); // OP_ENDIF
    assert_eq!(reveal, expected);
}

#[test]
fn empty_payload_is_single_empty_push() {
    let key = sample_key();
    let intent = OutputIntent::NftInscription {
        mime_type: b"text/plain".to_vec(),
        payload: Vec::new(),
    };
    let res = build_output(&intent, &key).expect("valid inputs");
    let reveal = res.taproot_reveal_script.unwrap();
    // ... <mime push> OP_0 <empty body push> OP_ENDIF
    let tail = &reveal[reveal.len() - 3..];
    assert_eq!(tail, &[0x00, 0x00, 0x68]);
}

#[test]
fn large_payload_chunked_into_pushes() {
    let key = sample_key();
    let payload = vec![0xab; 1200];
    let intent = OutputIntent::NftInscription {
        mime_type: b"application/octet-stream".to_vec(),
        payload: payload.clone(),
    };
    let res = build_output(&intent, &key).expect("valid inputs");
    let reveal = res.taproot_reveal_script.unwrap();
    // The body: two full 520-byte pushes and a 160-byte remainder.
    let mut body: Vec<u8> = Vec::new();
    for chunk in [520usize, 520, 160] {
        if chunk > 255 {
            body.extend_from_slice(&[0x4d, (chunk % 256) as u8, (chunk / 256) as u8]);
        } else {
            body.extend_from_slice(&[0x4c, chunk as u8]);
        }
        body.extend_from_slice(&vec![0xab; chunk]);
    }
    body.push(0x68);
    assert!(reveal.len() > body.len());
    assert_eq!(&reveal[reveal.len() - body.len()..], &body[..]);
}

#[test]
fn brc20_payload_exact_bytes() {
    let body = build_brc20_payload(b"ordi", 1000);
    assert_eq!(body, br#"{"p":"brc-20","op":"transfer","tick":"ordi","amt":"1000"}"#);
    let zero = build_brc20_payload(b"abcd", 0);
    assert_eq!(zero, br#"{"p":"brc-20","op":"transfer","tick":"abcd","amt":"0"}"#);
    let max = build_brc20_payload(b"abcd", u64::MAX);
    assert_eq!(
        max,
        br#"{"p":"brc-20","op":"transfer","tick":"abcd","amt":"18446744073709551615"}"#
    );
}

#[test]
fn brc20_envelope_content_type() {
    let key = sample_key();
    let intent = OutputIntent::Brc20Transfer { ticker: b"ordi".to_vec(), transfer_amount: 5 };
    let res = build_output(&intent, &key).expect("valid inputs");
    let reveal = res.taproot_reveal_script.unwrap();
    // After the 36-byte spend condition and the markers comes the content
    // type push: 0x18 (24 bytes) then the MIME text.
    let ct = &reveal[42..67];
    assert_eq!(ct[0], 0x18);
    assert_eq!(&ct[1..], b"text/plain;charset=utf-8");
}

#[test]
fn builder_error_values() {
    let key = sample_key();
    let bad_ticker = OutputIntent::Brc20Transfer { ticker: b"toolong".to_vec(), transfer_amount: 1 };
    match build_output(&bad_ticker, &key) {
        Err(e) => assert_eq!(e, OutputError::InvalidPayload),
        Ok(_) => panic!("long ticker accepted"),
    }
    let bad_mime = OutputIntent::NftInscription { mime_type: vec![0xff], payload: vec![] };
    match build_output(&bad_mime, &key) {
        Err(e) => assert_eq!(e, OutputError::InvalidPayload),
        Ok(_) => panic!("non-UTF-8 MIME accepted"),
    }
    let oversize = OutputIntent::NftInscription {
        mime_type: b"a/b".to_vec(),
        payload: vec![0x00; 400001],
    };
    match build_output(&oversize, &key) {
        Err(e) => assert_eq!(e, OutputError::PayloadTooLarge),
        Ok(_) => panic!("oversize payload accepted"),
    }
}

#[test]
fn pack_rejects_oversized_value() {
    let key = sample_key();
    let res = build_output(&OutputIntent::P2pkh, &key).unwrap();
    match pack_output(res, u64::MAX) {
        Err(e) => assert_eq!(e, OutputError::ValueOverflow),
        Ok(_) => panic!("oversized value accepted"),
    }
    let res = build_output(&OutputIntent::P2pkh, &key).unwrap();
    let rec = pack_output(res, i64::MAX as u64).expect("largest representable value");
    assert_eq!(rec.value, i64::MAX);
    assert!(rec.spending_script.is_empty());
}

#[test]
fn utf8_checker_agrees_with_std() {
    let cases: Vec<Vec<u8>> = vec![
        b"".to_vec(),
        b"plain ascii".to_vec(),
        "caf\u{e9} \u{41f}\u{440} \u{4e2d}\u{6587} \u{1f600}".as_bytes().to_vec(),
        vec![0xff],
        vec![0x80],
        vec![0xc0, 0x80],
        vec![0xc2],
        vec![0xe0, 0x80, 0x80],
        vec![0xe0, 0xa0],
        vec![0xed, 0xa0, 0x80],
        vec![0xf0, 0x80, 0x80, 0x80],
        vec![0xf0, 0x9f, 0x98],
        vec![0xf4, 0x90, 0x80, 0x80],
        vec![0xf5, 0x80, 0x80, 0x80],
        vec![0x41, 0xc3, 0xa9, 0x42],
    ];
    for case in cases {
        assert_eq!(
            is_valid_utf8(&case),
            std::str::from_utf8(&case).is_ok(),
            "disagreement on {:?}",
            case
        );
    }
}
