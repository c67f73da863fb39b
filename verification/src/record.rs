//! The legacy output record and its wire form: a fixed-shape protobuf
//! message with the output value, the locking script, and the spending
//! (reveal) script, serialized with default-valued fields omitted.
use vstd::prelude::*;
use crate::builder::ScriptBuildResult;
use crate::script::append_bytes;
use crate::OutputError;

verus! {

/// The stable record shape that legacy callers consume.
pub struct LegacyOutputRecord {
    /// The output value in satoshis; field 1 of the wire message.
    pub value: i64,
    /// The locking script; field 2 of the wire message.
    pub script: Vec<u8>,
    /// The reveal script when the intent carries one, otherwise empty, never
    /// absent; field 3 of the wire message.
    pub spending_script: Vec<u8>,
}

/// The base-128 varint encoding of `n`, least significant group first.
pub open spec fn varint(n: nat) -> Seq<u8>
    decreases n,
{
    if n < 128 {
        seq![n as u8]
    } else {
        seq![(128 + n % 128) as u8] + varint(n / 128)
    }
}

/// The wire form of a record with a non-negative `value`: each field is
/// tagged and length- or varint-encoded, and a field holding its default
/// (zero value, empty bytes) is omitted.
pub open spec fn encoded_record(value: int, script: Seq<u8>, spending: Seq<u8>) -> Seq<u8> {
    (if value == 0 {
        Seq::<u8>::empty()
    } else {
        seq![0x08u8] + varint(value as nat)
    }) + (if script.len() == 0 {
        Seq::<u8>::empty()
    } else {
        seq![0x12u8] + varint(script.len()) + script
    }) + (if spending.len() == 0 {
        Seq::<u8>::empty()
    } else {
        seq![0x1au8] + varint(spending.len()) + spending
    })
}

/// Appends the varint encoding of `n` to `out`.
pub fn append_varint(out: &mut Vec<u8>, n: u64)
    ensures
        final(out)@ == old(out)@ + varint(n as nat),
    decreases n,
{
    if n < 128 {
        out.push(n as u8);
    } else {
        out.push(128 + (n % 128) as u8);
        append_varint(out, n / 128);
        proof {
            assert(out@ =~= old(out)@ + varint(n as nat));
        }
    }
}

/// Serializes a record into its wire form.
pub fn serialize_record(rec: &LegacyOutputRecord) -> (r: Vec<u8>)
    requires
        rec.value >= 0,
    ensures
        r@ == encoded_record(rec.value as int, rec.script@, rec.spending_script@),
{
    let mut out: Vec<u8> = Vec::new();
    if rec.value != 0 {
        out.push(0x08);
        append_varint(&mut out, rec.value as u64);
    }
    if rec.script.len() != 0 {
        out.push(0x12);
        append_varint(&mut out, rec.script.len() as u64);
        append_bytes(&mut out, rec.script.as_slice());
    }
    if rec.spending_script.len() != 0 {
        out.push(0x1a);
        append_varint(&mut out, rec.spending_script.len() as u64);
        append_bytes(&mut out, rec.spending_script.as_slice());
    }
    proof {
        assert(out@ =~= encoded_record(rec.value as int, rec.script@, rec.spending_script@));
    }
    out
}

/// The spending-script bytes a build result maps to: the reveal script when
/// present, otherwise empty.
pub open spec fn spending_bytes_of(reveal: Option<Vec<u8>>) -> Seq<u8> {
    match reveal {
        Some(v) => v@,
        None => Seq::<u8>::empty(),
    }
}

/// Packages a build result and a value into the legacy record. Fails with
/// `ValueOverflow` exactly when the value does not fit the record's signed
/// 64-bit field.
pub fn pack_output(res: ScriptBuildResult, value: u64) -> (r: Result<
    LegacyOutputRecord,
    OutputError,
>)
    ensures
        value <= i64::MAX ==> (r matches Ok(rec) && rec.value == value as i64 && rec.script@
            == res.script_pubkey@ && rec.spending_script@ == spending_bytes_of(
            res.taproot_reveal_script,
        )),
        value > i64::MAX ==> (r matches Err(e) && e == OutputError::ValueOverflow),
{
    if value > 0x7fff_ffff_ffff_ffff {
        return Err(OutputError::ValueOverflow);
    }
    let spending = match res.taproot_reveal_script {
        Some(v) => v,
        None => Vec::new(),
    };
    Ok(
        LegacyOutputRecord {
            value: value as i64,
            script: res.script_pubkey,
            spending_script: spending,
        },
    )
}

} // verus!
