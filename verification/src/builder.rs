//! The byte-stream builder the assembler drives, and the script buffer it
//! produces. Both belong to the outside script library; the assembler sees
//! them only through the contracts here, stated over the bytes each holds.
use vstd::prelude::*;
use crate::scriptint::scriptint_bytes;

verus! {

#[verifier::external_type_specification]
#[verifier::external_body]
pub struct ExBuilder(bitcoin::script::Builder);

#[verifier::external_type_specification]
#[verifier::external_body]
pub struct ExScriptBuf(bitcoin::ScriptBuf);

/// The bytes the builder has emitted so far.
pub uninterp spec fn builder_bytes(b: bitcoin::script::Builder) -> Seq<u8>;

/// The bytes of a finished script.
pub uninterp spec fn script_bytes(s: bitcoin::ScriptBuf) -> Seq<u8>;

/// The minimal push encoding of a data payload of fewer than 2^32 bytes:
/// the shortest length prefix (the length itself below 0x4c, else a
/// PUSHDATA1/2/4 opcode and a little-endian length header), then the data.
pub open spec fn minimal_push(data: Seq<u8>) -> Seq<u8> {
    if data.len() < 0x4c {
        seq![data.len() as u8] + data
    } else if data.len() < 0x100 {
        seq![0x4cu8, data.len() as u8] + data
    } else if data.len() < 0x10000 {
        seq![0x4du8, (data.len() % 0x100) as u8, (data.len() / 0x100) as u8] + data
    } else {
        seq![
            0x4eu8,
            (data.len() % 0x100) as u8,
            ((data.len() / 0x100) % 0x100) as u8,
            ((data.len() / 0x10000) % 0x100) as u8,
            (data.len() / 0x100_0000) as u8,
        ] + data
    }
}

/// The bytes an integer push emits: a dedicated one-byte opcode for -1 and
/// 1..=16, the empty-push opcode for 0, and a minimal data push of the
/// scriptint encoding otherwise.
pub open spec fn push_int_bytes(n: int) -> Seq<u8> {
    if n == -1 {
        seq![0x4fu8]
    } else if 1 <= n <= 16 {
        seq![(0x50 + n) as u8]
    } else if n == 0 {
        seq![0x00u8]
    } else {
        minimal_push(scriptint_bytes(n))
    }
}

/// Relies on Builder::new: a new builder has emitted no bytes.
#[verifier::external_body]
pub fn builder_new() -> (b: bitcoin::script::Builder)
    ensures
        builder_bytes(b) == Seq::<u8>::empty(),
{
    bitcoin::script::Builder::new()
}

/// Relies on Builder::push_opcode, which appends exactly the opcode's byte,
/// and on Opcode::from(u8) / Opcode::to_u8 carrying that byte unchanged.
#[verifier::external_body]
pub fn builder_push_opcode(b: bitcoin::script::Builder, op: u8) -> (r: bitcoin::script::Builder)
    ensures
        builder_bytes(r) == builder_bytes(b).push(op),
{
    b.push_opcode(bitcoin::Opcode::from(op))
}

/// Relies on Builder::push_slice (through ScriptBuf::push_slice), which
/// appends the minimal-form length prefix and then the data, and on
/// PushBytes::try_from, which fails exactly on data of 2^32 bytes or more.
#[verifier::external_body]
pub fn builder_push_slice(b: bitcoin::script::Builder, data: &Vec<u8>) -> (r: Option<
    bitcoin::script::Builder,
>)
    ensures
        r is Some <==> data@.len() < 0x1_0000_0000,
        r is Some ==> builder_bytes(r.unwrap()) == builder_bytes(b) + minimal_push(data@),
{
    match <&bitcoin::script::PushBytes>::try_from(&data[..]) {
        Ok(p) => Some(b.push_slice(p)),
        Err(_) => None,
    }
}

/// Relies on Builder::push_int: opcodes 0x4f and 0x51..=0x60 for -1 and
/// 1..=16, the empty-push opcode for 0, and otherwise a minimal data push of
/// the scriptint bytes, which its encoder writes exactly as `write_scriptint`
/// does, through a fixed 8-byte buffer that cannot hold the 9-byte encoding
/// of i64::MIN.
#[verifier::external_body]
pub fn builder_push_int(b: bitcoin::script::Builder, n: i64) -> (r: bitcoin::script::Builder)
    requires
        n != i64::MIN,
    ensures
        builder_bytes(r) == builder_bytes(b) + push_int_bytes(n as int),
{
    b.push_int(n)
}

/// Relies on Builder::into_script, which returns the built bytes unchanged.
#[verifier::external_body]
pub fn builder_into_script(b: bitcoin::script::Builder) -> (s: bitcoin::ScriptBuf)
    ensures
        script_bytes(s) == builder_bytes(b),
{
    b.into_script()
}

} // verus!
