//! Byte-level primitives of Bitcoin script: opcode constants, minimal data
//! pushes, and the chunked pushes used for large inscription bodies.
use vstd::prelude::*;

verus! {

/// Duplicates the top stack item.
pub const OP_DUP: u8 = 0x76;
/// Pops the top item and pushes its HASH160 digest.
pub const OP_HASH160: u8 = 0xa9;
/// Pops two items and fails the script unless they are equal.
pub const OP_EQUALVERIFY: u8 = 0x88;
/// Checks a signature against a public key.
pub const OP_CHECKSIG: u8 = 0xac;
/// Pushes an empty byte string; doubles as OP_FALSE.
pub const OP_PUSHBYTES_0: u8 = 0x00;
/// Begins a conditional branch.
pub const OP_IF: u8 = 0x63;
/// Ends a conditional branch.
pub const OP_ENDIF: u8 = 0x68;
/// Pushes the number 1; the witness-version-1 (Taproot) marker.
pub const OP_PUSHNUM_1: u8 = 0x51;
/// Prefix of a push whose length is given in one following byte.
pub const OP_PUSHDATA1: u8 = 0x4c;
/// Prefix of a push whose length is given in two following little-endian bytes.
pub const OP_PUSHDATA2: u8 = 0x4d;
/// Prefix of a push whose length is given in four following little-endian bytes.
pub const OP_PUSHDATA4: u8 = 0x4e;

/// Largest number of bytes a single script element may push.
pub const MAX_PUSH_LEN: usize = 520;

/// The opcode bytes that introduce a data push of `n` bytes, in the minimal
/// encoding that script serializers emit.
pub open spec fn push_prefix(n: nat) -> Seq<u8> {
    if n <= 75 {
        seq![n as u8]
    } else if n <= 255 {
        seq![OP_PUSHDATA1, n as u8]
    } else if n <= 65535 {
        seq![OP_PUSHDATA2, (n % 256) as u8, (n / 256) as u8]
    } else {
        seq![
            OP_PUSHDATA4,
            (n % 256) as u8,
            ((n / 256) % 256) as u8,
            ((n / 65536) % 256) as u8,
            ((n / 16777216) % 256) as u8,
        ]
    }
}

/// A single data push: the length prefix followed by the data itself.
pub open spec fn pushdata(d: Seq<u8>) -> Seq<u8> {
    push_prefix(d.len()) + d
}

/// The data `d` pushed as a sequence of elements of at most `MAX_PUSH_LEN`
/// bytes each; every element but the last is full.
pub open spec fn chunked_pushes(d: Seq<u8>) -> Seq<u8>
    decreases d.len(),
{
    if d.len() <= MAX_PUSH_LEN {
        pushdata(d)
    } else {
        pushdata(d.take(MAX_PUSH_LEN as int)) + chunked_pushes(d.skip(MAX_PUSH_LEN as int))
    }
}

/// Appends the bytes of `d` to `out` unchanged.
pub fn append_bytes(out: &mut Vec<u8>, d: &[u8])
    ensures
        final(out)@ == old(out)@ + d@,
{
    let mut i: usize = 0;
    while i < d.len()
        invariant
            i <= d@.len(),
            out@ == old(out)@ + d@.subrange(0, i as int),
        decreases d@.len() - i,
    {
        out.push(d[i]);
        proof {
            assert(d@.subrange(0, i + 1) =~= d@.subrange(0, i as int).push(d@[i as int]));
        }
        i += 1;
    }
    proof {
        assert(out@ =~= old(out)@ + d@);
    }
}

/// Appends a single minimal data push of `d` to `out`.
pub fn append_pushdata(out: &mut Vec<u8>, d: &[u8])
    ensures
        final(out)@ == old(out)@ + pushdata(d@),
{
    let n = d.len();
    if n <= 75 {
        out.push(n as u8);
    } else if n <= 255 {
        out.push(OP_PUSHDATA1);
        out.push(n as u8);
    } else if n <= 65535 {
        out.push(OP_PUSHDATA2);
        out.push((n % 256) as u8);
        out.push((n / 256) as u8);
    } else {
        out.push(OP_PUSHDATA4);
        out.push((n % 256) as u8);
        out.push(((n / 256) % 256) as u8);
        out.push(((n / 65536) % 256) as u8);
        out.push(((n / 16777216) % 256) as u8);
    }
    append_bytes(out, d);
    proof {
        assert(out@ =~= old(out)@ + pushdata(d@));
    }
}

/// Appends `d` to `out` as pushes of at most `MAX_PUSH_LEN` bytes each.
pub fn append_chunked_pushes(out: &mut Vec<u8>, d: &[u8])
    ensures
        final(out)@ == old(out)@ + chunked_pushes(d@),
    decreases d@.len(),
{
    if d.len() <= MAX_PUSH_LEN {
        append_pushdata(out, d);
    } else {
        let (head, tail) = d.split_at(MAX_PUSH_LEN);
        append_pushdata(out, head);
        append_chunked_pushes(out, tail);
        proof {
            assert(head@ == d@.take(MAX_PUSH_LEN as int));
            assert(tail@ == d@.skip(MAX_PUSH_LEN as int));
            assert(out@ =~= old(out)@ + chunked_pushes(d@));
        }
    }
}

} // verus!
