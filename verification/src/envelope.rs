//! The Ordinals inscription envelope: a spend condition followed by an
//! unexecuted data branch, plus the BRC-20 transfer payload that fills it
//! for token transfers.
use vstd::prelude::*;
use crate::script::{
    append_bytes, append_chunked_pushes, append_pushdata, chunked_pushes, pushdata, MAX_PUSH_LEN,
    OP_CHECKSIG, OP_ENDIF, OP_IF, OP_PUSHBYTES_0,
};

verus! {

/// A UTF-8 continuation byte.
pub open spec fn is_cont(b: u8) -> bool {
    0x80 <= b && b <= 0xbf
}

/// Whether `b` is a well-formed UTF-8 byte string (shortest-form encodings
/// only, surrogates excluded), by peeling one scalar value at a time.
pub open spec fn utf8_ok(b: Seq<u8>) -> bool
    decreases b.len(),
{
    if b.len() == 0 {
        true
    } else {
        let c = b[0];
        if c <= 0x7f {
            utf8_ok(b.skip(1))
        } else if 0xc2 <= c && c <= 0xdf {
            b.len() >= 2 && is_cont(b[1]) && utf8_ok(b.skip(2))
        } else if c == 0xe0 {
            b.len() >= 3 && 0xa0 <= b[1] && b[1] <= 0xbf && is_cont(b[2]) && utf8_ok(b.skip(3))
        } else if c == 0xed {
            b.len() >= 3 && 0x80 <= b[1] && b[1] <= 0x9f && is_cont(b[2]) && utf8_ok(b.skip(3))
        } else if (0xe1 <= c && c <= 0xec) || c == 0xee || c == 0xef {
            b.len() >= 3 && is_cont(b[1]) && is_cont(b[2]) && utf8_ok(b.skip(3))
        } else if c == 0xf0 {
            b.len() >= 4 && 0x90 <= b[1] && b[1] <= 0xbf && is_cont(b[2]) && is_cont(b[3])
                && utf8_ok(b.skip(4))
        } else if 0xf1 <= c && c <= 0xf3 {
            b.len() >= 4 && is_cont(b[1]) && is_cont(b[2]) && is_cont(b[3]) && utf8_ok(b.skip(4))
        } else if c == 0xf4 {
            b.len() >= 4 && 0x80 <= b[1] && b[1] <= 0x8f && is_cont(b[2]) && is_cont(b[3])
                && utf8_ok(b.skip(4))
        } else {
            false
        }
    }
}

/// Decides [`utf8_ok`] for a byte span.
pub fn is_valid_utf8(b: &[u8]) -> (r: bool)
    ensures
        r == utf8_ok(b@),
{
    let n = b.len();
    let mut i: usize = 0;
    proof {
        assert(b@.skip(0) =~= b@);
    }
    while i < n
        invariant
            i <= n,
            n == b@.len(),
            utf8_ok(b@) == utf8_ok(b@.skip(i as int)),
        decreases n - i,
    {
        let ghost s = b@.skip(i as int);
        let c = b[i];
        let w: usize = if c <= 0x7f {
            1
        } else if 0xc2 <= c && c <= 0xdf {
            if !(n - i >= 2 && is_cont_byte(b[i + 1])) {
                proof { assert(!utf8_ok(s)); }
                return false;
            }
            2
        } else if c == 0xe0 {
            if !(n - i >= 3 && 0xa0 <= b[i + 1] && b[i + 1] <= 0xbf && is_cont_byte(b[i + 2])) {
                proof { assert(!utf8_ok(s)); }
                return false;
            }
            3
        } else if c == 0xed {
            if !(n - i >= 3 && 0x80 <= b[i + 1] && b[i + 1] <= 0x9f && is_cont_byte(b[i + 2])) {
                proof { assert(!utf8_ok(s)); }
                return false;
            }
            3
        } else if (0xe1 <= c && c <= 0xec) || c == 0xee || c == 0xef {
            if !(n - i >= 3 && is_cont_byte(b[i + 1]) && is_cont_byte(b[i + 2])) {
                proof { assert(!utf8_ok(s)); }
                return false;
            }
            3
        } else if c == 0xf0 {
            if !(n - i >= 4 && 0x90 <= b[i + 1] && b[i + 1] <= 0xbf && is_cont_byte(b[i + 2])
                && is_cont_byte(b[i + 3])) {
                proof { assert(!utf8_ok(s)); }
                return false;
            }
            4
        } else if 0xf1 <= c && c <= 0xf3 {
            if !(n - i >= 4 && is_cont_byte(b[i + 1]) && is_cont_byte(b[i + 2])
                && is_cont_byte(b[i + 3])) {
                proof { assert(!utf8_ok(s)); }
                return false;
            }
            4
        } else if c == 0xf4 {
            if !(n - i >= 4 && 0x80 <= b[i + 1] && b[i + 1] <= 0x8f && is_cont_byte(b[i + 2])
                && is_cont_byte(b[i + 3])) {
                proof { assert(!utf8_ok(s)); }
                return false;
            }
            4
        } else {
            proof { assert(!utf8_ok(s)); }
            return false;
        };
        proof {
            assert(s.skip(w as int) =~= b@.skip(i + w));
            assert(utf8_ok(s) == utf8_ok(b@.skip(i + w)));
        }
        i += w;
    }
    proof {
        assert(b@.skip(n as int) =~= Seq::<u8>::empty());
    }
    true
}

/// Decides [`is_cont`] for one byte.
fn is_cont_byte(b: u8) -> (r: bool)
    ensures
        r == is_cont(b),
{
    0x80 <= b && b <= 0xbf
}

/// The decimal digits of `n`, most significant first, with no leading zeros
/// (a single `'0'` for zero).
pub open spec fn dec_digits(n: nat) -> Seq<u8>
    decreases n,
{
    if n < 10 {
        seq![(0x30 + n) as u8]
    } else {
        dec_digits(n / 10) + seq![(0x30 + n % 10) as u8]
    }
}

/// Appends the decimal rendering of `n` to `out`.
pub fn append_decimal(out: &mut Vec<u8>, n: u64)
    ensures
        final(out)@ == old(out)@ + dec_digits(n as nat),
    decreases n,
{
    if n < 10 {
        out.push(0x30 + n as u8);
    } else {
        append_decimal(out, n / 10);
        out.push(0x30 + (n % 10) as u8);
        proof {
            assert(out@ =~= old(out)@ + dec_digits(n as nat));
        }
    }
}

/// The bytes of `{"p":"brc-20","op":"transfer","tick":"`.
pub open spec fn brc20_payload_head() -> Seq<u8> {
    seq![
        0x7bu8, 0x22u8, 0x70u8, 0x22u8, 0x3au8, 0x22u8, 0x62u8, 0x72u8, 0x63u8, 0x2du8, 0x32u8,
        0x30u8, 0x22u8, 0x2cu8, 0x22u8, 0x6fu8, 0x70u8, 0x22u8, 0x3au8, 0x22u8, 0x74u8, 0x72u8,
        0x61u8, 0x6eu8, 0x73u8, 0x66u8, 0x65u8, 0x72u8, 0x22u8, 0x2cu8, 0x22u8, 0x74u8, 0x69u8,
        0x63u8, 0x6bu8, 0x22u8, 0x3au8, 0x22u8,
    ]
}

/// The bytes of `","amt":"`.
pub open spec fn brc20_payload_mid() -> Seq<u8> {
    seq![0x22u8, 0x2cu8, 0x22u8, 0x61u8, 0x6du8, 0x74u8, 0x22u8, 0x3au8, 0x22u8]
}

/// The bytes of `"}`.
pub open spec fn brc20_payload_tail() -> Seq<u8> {
    seq![0x22u8, 0x7du8]
}

/// The token-protocol body of a BRC-20 transfer inscription:
/// `{"p":"brc-20","op":"transfer","tick":"<tick>","amt":"<amt>"}`.
pub open spec fn brc20_transfer_payload(tick: Seq<u8>, amt: nat) -> Seq<u8> {
    brc20_payload_head() + tick + brc20_payload_mid() + dec_digits(amt) + brc20_payload_tail()
}

/// Protocol length of a BRC-20 ticker, in bytes.
pub const BRC20_TICKER_LEN: usize = 4;

/// An acceptable BRC-20 ticker: exactly the protocol length, valid UTF-8,
/// and free of bytes that the payload's verbatim JSON splice cannot carry
/// (control bytes, the quote, and the backslash).
pub open spec fn ticker_ok(t: Seq<u8>) -> bool {
    t.len() == BRC20_TICKER_LEN && utf8_ok(t) && forall|i: int|
        0 <= i < t.len() ==> t[i] >= 0x20 && t[i] != 0x22 && t[i] != 0x5c
}

/// Decides [`ticker_ok`] for a byte span.
pub fn is_ticker_ok(t: &[u8]) -> (r: bool)
    ensures
        r == ticker_ok(t@),
{
    if t.len() != BRC20_TICKER_LEN {
        return false;
    }
    let mut i: usize = 0;
    while i < t.len()
        invariant
            i <= t@.len(),
            forall|j: int| 0 <= j < i ==> t@[j] >= 0x20 && t@[j] != 0x22 && t@[j] != 0x5c,
        decreases t@.len() - i,
    {
        let c = t[i];
        if c < 0x20 || c == 0x22 || c == 0x5c {
            return false;
        }
        i += 1;
    }
    is_valid_utf8(t)
}

/// Appends [`brc20_payload_head`] to `out`.
fn append_brc20_head(out: &mut Vec<u8>)
    ensures
        final(out)@ == old(out)@ + brc20_payload_head(),
{
    out.push(0x7b); out.push(0x22); out.push(0x70); out.push(0x22); out.push(0x3a);
    out.push(0x22); out.push(0x62); out.push(0x72); out.push(0x63); out.push(0x2d);
    out.push(0x32); out.push(0x30); out.push(0x22); out.push(0x2c); out.push(0x22);
    out.push(0x6f); out.push(0x70); out.push(0x22); out.push(0x3a); out.push(0x22);
    out.push(0x74); out.push(0x72); out.push(0x61); out.push(0x6e); out.push(0x73);
    out.push(0x66); out.push(0x65); out.push(0x72); out.push(0x22); out.push(0x2c);
    out.push(0x22); out.push(0x74); out.push(0x69); out.push(0x63); out.push(0x6b);
    out.push(0x22); out.push(0x3a); out.push(0x22);
    proof {
        assert(out@ =~= old(out)@ + brc20_payload_head());
    }
}

/// Builds the BRC-20 transfer body for an acceptable ticker and an amount.
pub fn build_brc20_payload(tick: &[u8], amt: u64) -> (r: Vec<u8>)
    ensures
        r@ == brc20_transfer_payload(tick@, amt as nat),
{
    let mut out: Vec<u8> = Vec::new();
    append_brc20_head(&mut out);
    append_bytes(&mut out, tick);
    out.push(0x22); out.push(0x2c); out.push(0x22); out.push(0x61); out.push(0x6d);
    out.push(0x74); out.push(0x22); out.push(0x3a); out.push(0x22);
    append_decimal(&mut out, amt);
    out.push(0x22); out.push(0x7d);
    proof {
        assert(out@ =~= brc20_transfer_payload(tick@, amt as nat));
    }
    out
}

/// MIME type of the BRC-20 transfer body: the bytes of
/// `text/plain;charset=utf-8`.
pub open spec fn brc20_content_type() -> Seq<u8> {
    seq![
        0x74u8, 0x65u8, 0x78u8, 0x74u8, 0x2fu8, 0x70u8, 0x6cu8, 0x61u8, 0x69u8, 0x6eu8, 0x3bu8,
        0x63u8, 0x68u8, 0x61u8, 0x72u8, 0x73u8, 0x65u8, 0x74u8, 0x3du8, 0x75u8, 0x74u8, 0x66u8,
        0x2du8, 0x38u8,
    ]
}

/// Builds [`brc20_content_type`] as a vector.
pub fn brc20_content_type_bytes() -> (r: Vec<u8>)
    ensures
        r@ == brc20_content_type(),
{
    let mut out: Vec<u8> = Vec::new();
    out.push(0x74); out.push(0x65); out.push(0x78); out.push(0x74); out.push(0x2f);
    out.push(0x70); out.push(0x6c); out.push(0x61); out.push(0x69); out.push(0x6e);
    out.push(0x3b); out.push(0x63); out.push(0x68); out.push(0x61); out.push(0x72);
    out.push(0x73); out.push(0x65); out.push(0x74); out.push(0x3d); out.push(0x75);
    out.push(0x74); out.push(0x66); out.push(0x2d); out.push(0x38);
    proof {
        assert(out@ =~= brc20_content_type());
    }
    out
}

/// The inscription envelope: a push of the recipient's x-only key and
/// `OP_CHECKSIG` as the spend condition, then a branch that never executes
/// (`OP_FALSE OP_IF ... OP_ENDIF`) carrying, in order, the protocol marker
/// `ord`, the content-type tag `0x01`, the content type, an empty-push
/// separator, and the body in pushes of at most [`MAX_PUSH_LEN`] bytes.
pub open spec fn envelope_script(x: Seq<u8>, content_type: Seq<u8>, body: Seq<u8>) -> Seq<u8> {
    pushdata(x) + seq![OP_CHECKSIG, OP_PUSHBYTES_0, OP_IF]
        + pushdata(seq![0x6fu8, 0x72u8, 0x64u8]) + pushdata(seq![0x01u8])
        + pushdata(content_type) + seq![OP_PUSHBYTES_0] + chunked_pushes(body)
        + seq![OP_ENDIF]
}

/// Builds the inscription envelope for an x-only key, a content type, and a
/// body.
pub fn build_envelope(x: &[u8], content_type: &[u8], body: &[u8]) -> (r: Vec<u8>)
    ensures
        r@ == envelope_script(x@, content_type@, body@),
{
    let mut out: Vec<u8> = Vec::new();
    append_pushdata(&mut out, x);
    out.push(OP_CHECKSIG);
    out.push(OP_PUSHBYTES_0);
    out.push(OP_IF);
    out.push(0x03); out.push(0x6f); out.push(0x72); out.push(0x64);
    proof {
        assert(pushdata(seq![0x6fu8, 0x72u8, 0x64u8]) =~= seq![0x03u8, 0x6fu8, 0x72u8, 0x64u8]);
    }
    out.push(0x01); out.push(0x01);
    proof {
        assert(pushdata(seq![0x01u8]) =~= seq![0x01u8, 0x01u8]);
    }
    append_pushdata(&mut out, content_type);
    out.push(OP_PUSHBYTES_0);
    append_chunked_pushes(&mut out, body);
    out.push(OP_ENDIF);
    proof {
        assert(out@ =~= envelope_script(x@, content_type@, body@));
    }
    out
}

} // verus!
