//! The opcode-name table: resolving an instruction mnemonic to its one-byte
//! opcode, and the capability predicates of the push opcodes. The names are
//! the canonical mnemonics of the script encoding, one per opcode byte.
use vstd::prelude::*;
use vstd::string::StrSliceExecFns;

verus! {

/// The opcode byte of OP_PUSHDATA1, the lowest push opcode that reads an
/// explicit length header; every opcode byte below it pushes its own value's
/// worth of bytes.
pub const OP_PUSHDATA1_CODE: u8 = 0x4c;

/// The opcode byte of OP_PUSHDATA2 (two-byte length header).
pub const OP_PUSHDATA2_CODE: u8 = 0x4d;

/// The opcode byte of OP_PUSHDATA4 (four-byte length header).
pub const OP_PUSHDATA4_CODE: u8 = 0x4e;

/// Whether the opcode pushes the next bytes directly: its byte value is the
/// length of the data that follows it.
pub open spec fn spec_is_push_bytes(op: u8) -> bool {
    op < 0x4c
}

/// Whether the opcode pushes the next bytes directly.
pub fn is_push_bytes(op: u8) -> (b: bool)
    ensures
        b == spec_is_push_bytes(op),
{
    op < OP_PUSHDATA1_CODE
}

/// Whether the opcode reads an explicit length header and then that many
/// bytes of data (OP_PUSHDATA1, OP_PUSHDATA2 or OP_PUSHDATA4).
pub open spec fn spec_is_push_data(op: u8) -> bool {
    0x4c <= op <= 0x4e
}

/// Whether the opcode reads an explicit length header before its data.
pub fn is_push_data(op: u8) -> (b: bool)
    ensures
        b == spec_is_push_data(op),
{
    OP_PUSHDATA1_CODE <= op && op <= OP_PUSHDATA4_CODE
}

pub(crate) fn eq_chars(w: &Vec<char>, lit: &str) -> (b: bool)
    ensures
        b == (w@ == lit@),
{
    let n = lit.unicode_len();
    if w.len() != n {
        return false;
    }
    let mut i: usize = 0;
    while i < n
        invariant
            i <= n,
            n == lit@.len(),
            n == w@.len(),
            forall|k: int| 0 <= k < i ==> w@[k] == lit@[k],
        decreases n - i,
    {
        if w[i] != lit.get_char(i) {
            return false;
        }
        i = i + 1;
    }
    proof {
        assert(w@ =~= lit@);
    }
    true
}

pub open spec fn spec_opcode_name_a(w: Seq<char>) -> Option<u8> {
    if w == "OP_PUSHBYTES_0"@ {
        Some(0x00u8)
    } else if w == "OP_PUSHBYTES_1"@ {
        Some(0x01u8)
    } else if w == "OP_PUSHBYTES_2"@ {
        Some(0x02u8)
    } else if w == "OP_PUSHBYTES_3"@ {
        Some(0x03u8)
    } else if w == "OP_PUSHBYTES_4"@ {
        Some(0x04u8)
    } else if w == "OP_PUSHBYTES_5"@ {
        Some(0x05u8)
    } else if w == "OP_PUSHBYTES_6"@ {
        Some(0x06u8)
    } else if w == "OP_PUSHBYTES_7"@ {
        Some(0x07u8)
    } else if w == "OP_PUSHBYTES_8"@ {
        Some(0x08u8)
    } else if w == "OP_PUSHBYTES_9"@ {
        Some(0x09u8)
    } else if w == "OP_PUSHBYTES_10"@ {
        Some(0x0au8)
    } else if w == "OP_PUSHBYTES_11"@ {
        Some(0x0bu8)
    } else if w == "OP_PUSHBYTES_12"@ {
        Some(0x0cu8)
    } else if w == "OP_PUSHBYTES_13"@ {
        Some(0x0du8)
    } else if w == "OP_PUSHBYTES_14"@ {
        Some(0x0eu8)
    } else if w == "OP_PUSHBYTES_15"@ {
        Some(0x0fu8)
    } else if w == "OP_PUSHBYTES_16"@ {
        Some(0x10u8)
    } else if w == "OP_PUSHBYTES_17"@ {
        Some(0x11u8)
    } else if w == "OP_PUSHBYTES_18"@ {
        Some(0x12u8)
    } else if w == "OP_PUSHBYTES_19"@ {
        Some(0x13u8)
    } else if w == "OP_PUSHBYTES_20"@ {
        Some(0x14u8)
    } else if w == "OP_PUSHBYTES_21"@ {
        Some(0x15u8)
    } else if w == "OP_PUSHBYTES_22"@ {
        Some(0x16u8)
    } else if w == "OP_PUSHBYTES_23"@ {
        Some(0x17u8)
    } else if w == "OP_PUSHBYTES_24"@ {
        Some(0x18u8)
    } else if w == "OP_PUSHBYTES_25"@ {
        Some(0x19u8)
    } else if w == "OP_PUSHBYTES_26"@ {
        Some(0x1au8)
    } else if w == "OP_PUSHBYTES_27"@ {
        Some(0x1bu8)
    } else if w == "OP_PUSHBYTES_28"@ {
        Some(0x1cu8)
    } else if w == "OP_PUSHBYTES_29"@ {
        Some(0x1du8)
    } else if w == "OP_PUSHBYTES_30"@ {
        Some(0x1eu8)
    } else if w == "OP_PUSHBYTES_31"@ {
        Some(0x1fu8)
    } else if w == "OP_PUSHBYTES_32"@ {
        Some(0x20u8)
    } else if w == "OP_PUSHBYTES_33"@ {
        Some(0x21u8)
    } else if w == "OP_PUSHBYTES_34"@ {
        Some(0x22u8)
    } else if w == "OP_PUSHBYTES_35"@ {
        Some(0x23u8)
    } else if w == "OP_PUSHBYTES_36"@ {
        Some(0x24u8)
    } else if w == "OP_PUSHBYTES_37"@ {
        Some(0x25u8)
    } else if w == "OP_PUSHBYTES_38"@ {
        Some(0x26u8)
    } else if w == "OP_PUSHBYTES_39"@ {
        Some(0x27u8)
    } else if w == "OP_PUSHBYTES_40"@ {
        Some(0x28u8)
    } else if w == "OP_PUSHBYTES_41"@ {
        Some(0x29u8)
    } else if w == "OP_PUSHBYTES_42"@ {
        Some(0x2au8)
    } else if w == "OP_PUSHBYTES_43"@ {
        Some(0x2bu8)
    } else if w == "OP_PUSHBYTES_44"@ {
        Some(0x2cu8)
    } else if w == "OP_PUSHBYTES_45"@ {
        Some(0x2du8)
    } else if w == "OP_PUSHBYTES_46"@ {
        Some(0x2eu8)
    } else if w == "OP_PUSHBYTES_47"@ {
        Some(0x2fu8)
    } else if w == "OP_PUSHBYTES_48"@ {
        Some(0x30u8)
    } else if w == "OP_PUSHBYTES_49"@ {
        Some(0x31u8)
    } else if w == "OP_PUSHBYTES_50"@ {
        Some(0x32u8)
    } else if w == "OP_PUSHBYTES_51"@ {
        Some(0x33u8)
    } else if w == "OP_PUSHBYTES_52"@ {
        Some(0x34u8)
    } else if w == "OP_PUSHBYTES_53"@ {
        Some(0x35u8)
    } else if w == "OP_PUSHBYTES_54"@ {
        Some(0x36u8)
    } else if w == "OP_PUSHBYTES_55"@ {
        Some(0x37u8)
    } else if w == "OP_PUSHBYTES_56"@ {
        Some(0x38u8)
    } else if w == "OP_PUSHBYTES_57"@ {
        Some(0x39u8)
    } else if w == "OP_PUSHBYTES_58"@ {
        Some(0x3au8)
    } else if w == "OP_PUSHBYTES_59"@ {
        Some(0x3bu8)
    } else if w == "OP_PUSHBYTES_60"@ {
        Some(0x3cu8)
    } else if w == "OP_PUSHBYTES_61"@ {
        Some(0x3du8)
    } else if w == "OP_PUSHBYTES_62"@ {
        Some(0x3eu8)
    } else if w == "OP_PUSHBYTES_63"@ {
        Some(0x3fu8)
    } else {
        None
    }
}

#[verifier::rlimit(60)]
fn opcode_name_a(w: &Vec<char>) -> (r: Option<u8>)
    ensures
        r == spec_opcode_name_a(w@),
{
    if eq_chars(w, "OP_PUSHBYTES_0") {
        return Some(0x00);
    }
    if eq_chars(w, "OP_PUSHBYTES_1") {
        return Some(0x01);
    }
    if eq_chars(w, "OP_PUSHBYTES_2") {
        return Some(0x02);
    }
    if eq_chars(w, "OP_PUSHBYTES_3") {
        return Some(0x03);
    }
    if eq_chars(w, "OP_PUSHBYTES_4") {
        return Some(0x04);
    }
    if eq_chars(w, "OP_PUSHBYTES_5") {
        return Some(0x05);
    }
    if eq_chars(w, "OP_PUSHBYTES_6") {
        return Some(0x06);
    }
    if eq_chars(w, "OP_PUSHBYTES_7") {
        return Some(0x07);
    }
    if eq_chars(w, "OP_PUSHBYTES_8") {
        return Some(0x08);
    }
    if eq_chars(w, "OP_PUSHBYTES_9") {
        return Some(0x09);
    }
    if eq_chars(w, "OP_PUSHBYTES_10") {
        return Some(0x0a);
    }
    if eq_chars(w, "OP_PUSHBYTES_11") {
        return Some(0x0b);
    }
    if eq_chars(w, "OP_PUSHBYTES_12") {
        return Some(0x0c);
    }
    if eq_chars(w, "OP_PUSHBYTES_13") {
        return Some(0x0d);
    }
    if eq_chars(w, "OP_PUSHBYTES_14") {
        return Some(0x0e);
    }
    if eq_chars(w, "OP_PUSHBYTES_15") {
        return Some(0x0f);
    }
    if eq_chars(w, "OP_PUSHBYTES_16") {
        return Some(0x10);
    }
    if eq_chars(w, "OP_PUSHBYTES_17") {
        return Some(0x11);
    }
    if eq_chars(w, "OP_PUSHBYTES_18") {
        return Some(0x12);
    }
    if eq_chars(w, "OP_PUSHBYTES_19") {
        return Some(0x13);
    }
    if eq_chars(w, "OP_PUSHBYTES_20") {
        return Some(0x14);
    }
    if eq_chars(w, "OP_PUSHBYTES_21") {
        return Some(0x15);
    }
    if eq_chars(w, "OP_PUSHBYTES_22") {
        return Some(0x16);
    }
    if eq_chars(w, "OP_PUSHBYTES_23") {
        return Some(0x17);
    }
    if eq_chars(w, "OP_PUSHBYTES_24") {
        return Some(0x18);
    }
    if eq_chars(w, "OP_PUSHBYTES_25") {
        return Some(0x19);
    }
    if eq_chars(w, "OP_PUSHBYTES_26") {
        return Some(0x1a);
    }
    if eq_chars(w, "OP_PUSHBYTES_27") {
        return Some(0x1b);
    }
    if eq_chars(w, "OP_PUSHBYTES_28") {
        return Some(0x1c);
    }
    if eq_chars(w, "OP_PUSHBYTES_29") {
        return Some(0x1d);
    }
    if eq_chars(w, "OP_PUSHBYTES_30") {
        return Some(0x1e);
    }
    if eq_chars(w, "OP_PUSHBYTES_31") {
        return Some(0x1f);
    }
    if eq_chars(w, "OP_PUSHBYTES_32") {
        return Some(0x20);
    }
    if eq_chars(w, "OP_PUSHBYTES_33") {
        return Some(0x21);
    }
    if eq_chars(w, "OP_PUSHBYTES_34") {
        return Some(0x22);
    }
    if eq_chars(w, "OP_PUSHBYTES_35") {
        return Some(0x23);
    }
    if eq_chars(w, "OP_PUSHBYTES_36") {
        return Some(0x24);
    }
    if eq_chars(w, "OP_PUSHBYTES_37") {
        return Some(0x25);
    }
    if eq_chars(w, "OP_PUSHBYTES_38") {
        return Some(0x26);
    }
    if eq_chars(w, "OP_PUSHBYTES_39") {
        return Some(0x27);
    }
    if eq_chars(w, "OP_PUSHBYTES_40") {
        return Some(0x28);
    }
    if eq_chars(w, "OP_PUSHBYTES_41") {
        return Some(0x29);
    }
    if eq_chars(w, "OP_PUSHBYTES_42") {
        return Some(0x2a);
    }
    if eq_chars(w, "OP_PUSHBYTES_43") {
        return Some(0x2b);
    }
    if eq_chars(w, "OP_PUSHBYTES_44") {
        return Some(0x2c);
    }
    if eq_chars(w, "OP_PUSHBYTES_45") {
        return Some(0x2d);
    }
    if eq_chars(w, "OP_PUSHBYTES_46") {
        return Some(0x2e);
    }
    if eq_chars(w, "OP_PUSHBYTES_47") {
        return Some(0x2f);
    }
    if eq_chars(w, "OP_PUSHBYTES_48") {
        return Some(0x30);
    }
    if eq_chars(w, "OP_PUSHBYTES_49") {
        return Some(0x31);
    }
    if eq_chars(w, "OP_PUSHBYTES_50") {
        return Some(0x32);
    }
    if eq_chars(w, "OP_PUSHBYTES_51") {
        return Some(0x33);
    }
    if eq_chars(w, "OP_PUSHBYTES_52") {
        return Some(0x34);
    }
    if eq_chars(w, "OP_PUSHBYTES_53") {
        return Some(0x35);
    }
    if eq_chars(w, "OP_PUSHBYTES_54") {
        return Some(0x36);
    }
    if eq_chars(w, "OP_PUSHBYTES_55") {
        return Some(0x37);
    }
    if eq_chars(w, "OP_PUSHBYTES_56") {
        return Some(0x38);
    }
    if eq_chars(w, "OP_PUSHBYTES_57") {
        return Some(0x39);
    }
    if eq_chars(w, "OP_PUSHBYTES_58") {
        return Some(0x3a);
    }
    if eq_chars(w, "OP_PUSHBYTES_59") {
        return Some(0x3b);
    }
    if eq_chars(w, "OP_PUSHBYTES_60") {
        return Some(0x3c);
    }
    if eq_chars(w, "OP_PUSHBYTES_61") {
        return Some(0x3d);
    }
    if eq_chars(w, "OP_PUSHBYTES_62") {
        return Some(0x3e);
    }
    if eq_chars(w, "OP_PUSHBYTES_63") {
        return Some(0x3f);
    }
    None
}

pub open spec fn spec_opcode_name_b(w: Seq<char>) -> Option<u8> {
    if w == "OP_PUSHBYTES_64"@ {
        Some(0x40u8)
    } else if w == "OP_PUSHBYTES_65"@ {
        Some(0x41u8)
    } else if w == "OP_PUSHBYTES_66"@ {
        Some(0x42u8)
    } else if w == "OP_PUSHBYTES_67"@ {
        Some(0x43u8)
    } else if w == "OP_PUSHBYTES_68"@ {
        Some(0x44u8)
    } else if w == "OP_PUSHBYTES_69"@ {
        Some(0x45u8)
    } else if w == "OP_PUSHBYTES_70"@ {
        Some(0x46u8)
    } else if w == "OP_PUSHBYTES_71"@ {
        Some(0x47u8)
    } else if w == "OP_PUSHBYTES_72"@ {
        Some(0x48u8)
    } else if w == "OP_PUSHBYTES_73"@ {
        Some(0x49u8)
    } else if w == "OP_PUSHBYTES_74"@ {
        Some(0x4au8)
    } else if w == "OP_PUSHBYTES_75"@ {
        Some(0x4bu8)
    } else if w == "OP_PUSHDATA1"@ {
        Some(0x4cu8)
    } else if w == "OP_PUSHDATA2"@ {
        Some(0x4du8)
    } else if w == "OP_PUSHDATA4"@ {
        Some(0x4eu8)
    } else if w == "OP_PUSHNUM_NEG1"@ {
        Some(0x4fu8)
    } else if w == "OP_RESERVED"@ {
        Some(0x50u8)
    } else if w == "OP_PUSHNUM_1"@ {
        Some(0x51u8)
    } else if w == "OP_PUSHNUM_2"@ {
        Some(0x52u8)
    } else if w == "OP_PUSHNUM_3"@ {
        Some(0x53u8)
    } else if w == "OP_PUSHNUM_4"@ {
        Some(0x54u8)
    } else if w == "OP_PUSHNUM_5"@ {
        Some(0x55u8)
    } else if w == "OP_PUSHNUM_6"@ {
        Some(0x56u8)
    } else if w == "OP_PUSHNUM_7"@ {
        Some(0x57u8)
    } else if w == "OP_PUSHNUM_8"@ {
        Some(0x58u8)
    } else if w == "OP_PUSHNUM_9"@ {
        Some(0x59u8)
    } else if w == "OP_PUSHNUM_10"@ {
        Some(0x5au8)
    } else if w == "OP_PUSHNUM_11"@ {
        Some(0x5bu8)
    } else if w == "OP_PUSHNUM_12"@ {
        Some(0x5cu8)
    } else if w == "OP_PUSHNUM_13"@ {
        Some(0x5du8)
    } else if w == "OP_PUSHNUM_14"@ {
        Some(0x5eu8)
    } else if w == "OP_PUSHNUM_15"@ {
        Some(0x5fu8)
    } else if w == "OP_PUSHNUM_16"@ {
        Some(0x60u8)
    } else if w == "OP_NOP"@ {
        Some(0x61u8)
    } else if w == "OP_VER"@ {
        Some(0x62u8)
    } else if w == "OP_IF"@ {
        Some(0x63u8)
    } else if w == "OP_NOTIF"@ {
        Some(0x64u8)
    } else if w == "OP_VERIF"@ {
        Some(0x65u8)
    } else if w == "OP_VERNOTIF"@ {
        Some(0x66u8)
    } else if w == "OP_ELSE"@ {
        Some(0x67u8)
    } else if w == "OP_ENDIF"@ {
        Some(0x68u8)
    } else if w == "OP_VERIFY"@ {
        Some(0x69u8)
    } else if w == "OP_RETURN"@ {
        Some(0x6au8)
    } else if w == "OP_TOALTSTACK"@ {
        Some(0x6bu8)
    } else if w == "OP_FROMALTSTACK"@ {
        Some(0x6cu8)
    } else if w == "OP_2DROP"@ {
        Some(0x6du8)
    } else if w == "OP_2DUP"@ {
        Some(0x6eu8)
    } else if w == "OP_3DUP"@ {
        Some(0x6fu8)
    } else if w == "OP_2OVER"@ {
        Some(0x70u8)
    } else if w == "OP_2ROT"@ {
        Some(0x71u8)
    } else if w == "OP_2SWAP"@ {
        Some(0x72u8)
    } else if w == "OP_IFDUP"@ {
        Some(0x73u8)
    } else if w == "OP_DEPTH"@ {
        Some(0x74u8)
    } else if w == "OP_DROP"@ {
        Some(0x75u8)
    } else if w == "OP_DUP"@ {
        Some(0x76u8)
    } else if w == "OP_NIP"@ {
        Some(0x77u8)
    } else if w == "OP_OVER"@ {
        Some(0x78u8)
    } else if w == "OP_PICK"@ {
        Some(0x79u8)
    } else if w == "OP_ROLL"@ {
        Some(0x7au8)
    } else if w == "OP_ROT"@ {
        Some(0x7bu8)
    } else if w == "OP_SWAP"@ {
        Some(0x7cu8)
    } else if w == "OP_TUCK"@ {
        Some(0x7du8)
    } else if w == "OP_CAT"@ {
        Some(0x7eu8)
    } else if w == "OP_SUBSTR"@ {
        Some(0x7fu8)
    } else {
        None
    }
}

#[verifier::rlimit(60)]
fn opcode_name_b(w: &Vec<char>) -> (r: Option<u8>)
    ensures
        r == spec_opcode_name_b(w@),
{
    if eq_chars(w, "OP_PUSHBYTES_64") {
        return Some(0x40);
    }
    if eq_chars(w, "OP_PUSHBYTES_65") {
        return Some(0x41);
    }
    if eq_chars(w, "OP_PUSHBYTES_66") {
        return Some(0x42);
    }
    if eq_chars(w, "OP_PUSHBYTES_67") {
        return Some(0x43);
    }
    if eq_chars(w, "OP_PUSHBYTES_68") {
        return Some(0x44);
    }
    if eq_chars(w, "OP_PUSHBYTES_69") {
        return Some(0x45);
    }
    if eq_chars(w, "OP_PUSHBYTES_70") {
        return Some(0x46);
    }
    if eq_chars(w, "OP_PUSHBYTES_71") {
        return Some(0x47);
    }
    if eq_chars(w, "OP_PUSHBYTES_72") {
        return Some(0x48);
    }
    if eq_chars(w, "OP_PUSHBYTES_73") {
        return Some(0x49);
    }
    if eq_chars(w, "OP_PUSHBYTES_74") {
        return Some(0x4a);
    }
    if eq_chars(w, "OP_PUSHBYTES_75") {
        return Some(0x4b);
    }
    if eq_chars(w, "OP_PUSHDATA1") {
        return Some(0x4c);
    }
    if eq_chars(w, "OP_PUSHDATA2") {
        return Some(0x4d);
    }
    if eq_chars(w, "OP_PUSHDATA4") {
        return Some(0x4e);
    }
    if eq_chars(w, "OP_PUSHNUM_NEG1") {
        return Some(0x4f);
    }
    if eq_chars(w, "OP_RESERVED") {
        return Some(0x50);
    }
    if eq_chars(w, "OP_PUSHNUM_1") {
        return Some(0x51);
    }
    if eq_chars(w, "OP_PUSHNUM_2") {
        return Some(0x52);
    }
    if eq_chars(w, "OP_PUSHNUM_3") {
        return Some(0x53);
    }
    if eq_chars(w, "OP_PUSHNUM_4") {
        return Some(0x54);
    }
    if eq_chars(w, "OP_PUSHNUM_5") {
        return Some(0x55);
    }
    if eq_chars(w, "OP_PUSHNUM_6") {
        return Some(0x56);
    }
    if eq_chars(w, "OP_PUSHNUM_7") {
        return Some(0x57);
    }
    if eq_chars(w, "OP_PUSHNUM_8") {
        return Some(0x58);
    }
    if eq_chars(w, "OP_PUSHNUM_9") {
        return Some(0x59);
    }
    if eq_chars(w, "OP_PUSHNUM_10") {
        return Some(0x5a);
    }
    if eq_chars(w, "OP_PUSHNUM_11") {
        return Some(0x5b);
    }
    if eq_chars(w, "OP_PUSHNUM_12") {
        return Some(0x5c);
    }
    if eq_chars(w, "OP_PUSHNUM_13") {
        return Some(0x5d);
    }
    if eq_chars(w, "OP_PUSHNUM_14") {
        return Some(0x5e);
    }
    if eq_chars(w, "OP_PUSHNUM_15") {
        return Some(0x5f);
    }
    if eq_chars(w, "OP_PUSHNUM_16") {
        return Some(0x60);
    }
    if eq_chars(w, "OP_NOP") {
        return Some(0x61);
    }
    if eq_chars(w, "OP_VER") {
        return Some(0x62);
    }
    if eq_chars(w, "OP_IF") {
        return Some(0x63);
    }
    if eq_chars(w, "OP_NOTIF") {
        return Some(0x64);
    }
    if eq_chars(w, "OP_VERIF") {
        return Some(0x65);
    }
    if eq_chars(w, "OP_VERNOTIF") {
        return Some(0x66);
    }
    if eq_chars(w, "OP_ELSE") {
        return Some(0x67);
    }
    if eq_chars(w, "OP_ENDIF") {
        return Some(0x68);
    }
    if eq_chars(w, "OP_VERIFY") {
        return Some(0x69);
    }
    if eq_chars(w, "OP_RETURN") {
        return Some(0x6a);
    }
    if eq_chars(w, "OP_TOALTSTACK") {
        return Some(0x6b);
    }
    if eq_chars(w, "OP_FROMALTSTACK") {
        return Some(0x6c);
    }
    if eq_chars(w, "OP_2DROP") {
        return Some(0x6d);
    }
    if eq_chars(w, "OP_2DUP") {
        return Some(0x6e);
    }
    if eq_chars(w, "OP_3DUP") {
        return Some(0x6f);
    }
    if eq_chars(w, "OP_2OVER") {
        return Some(0x70);
    }
    if eq_chars(w, "OP_2ROT") {
        return Some(0x71);
    }
    if eq_chars(w, "OP_2SWAP") {
        return Some(0x72);
    }
    if eq_chars(w, "OP_IFDUP") {
        return Some(0x73);
    }
    if eq_chars(w, "OP_DEPTH") {
        return Some(0x74);
    }
    if eq_chars(w, "OP_DROP") {
        return Some(0x75);
    }
    if eq_chars(w, "OP_DUP") {
        return Some(0x76);
    }
    if eq_chars(w, "OP_NIP") {
        return Some(0x77);
    }
    if eq_chars(w, "OP_OVER") {
        return Some(0x78);
    }
    if eq_chars(w, "OP_PICK") {
        return Some(0x79);
    }
    if eq_chars(w, "OP_ROLL") {
        return Some(0x7a);
    }
    if eq_chars(w, "OP_ROT") {
        return Some(0x7b);
    }
    if eq_chars(w, "OP_SWAP") {
        return Some(0x7c);
    }
    if eq_chars(w, "OP_TUCK") {
        return Some(0x7d);
    }
    if eq_chars(w, "OP_CAT") {
        return Some(0x7e);
    }
    if eq_chars(w, "OP_SUBSTR") {
        return Some(0x7f);
    }
    None
}

pub open spec fn spec_opcode_name_c(w: Seq<char>) -> Option<u8> {
    if w == "OP_LEFT"@ {
        Some(0x80u8)
    } else if w == "OP_RIGHT"@ {
        Some(0x81u8)
    } else if w == "OP_SIZE"@ {
        Some(0x82u8)
    } else if w == "OP_INVERT"@ {
        Some(0x83u8)
    } else if w == "OP_AND"@ {
        Some(0x84u8)
    } else if w == "OP_OR"@ {
        Some(0x85u8)
    } else if w == "OP_XOR"@ {
        Some(0x86u8)
    } else if w == "OP_EQUAL"@ {
        Some(0x87u8)
    } else if w == "OP_EQUALVERIFY"@ {
        Some(0x88u8)
    } else if w == "OP_RESERVED1"@ {
        Some(0x89u8)
    } else if w == "OP_RESERVED2"@ {
        Some(0x8au8)
    } else if w == "OP_1ADD"@ {
        Some(0x8bu8)
    } else if w == "OP_1SUB"@ {
        Some(0x8cu8)
    } else if w == "OP_2MUL"@ {
        Some(0x8du8)
    } else if w == "OP_2DIV"@ {
        Some(0x8eu8)
    } else if w == "OP_NEGATE"@ {
        Some(0x8fu8)
    } else if w == "OP_ABS"@ {
        Some(0x90u8)
    } else if w == "OP_NOT"@ {
        Some(0x91u8)
    } else if w == "OP_0NOTEQUAL"@ {
        Some(0x92u8)
    } else if w == "OP_ADD"@ {
        Some(0x93u8)
    } else if w == "OP_SUB"@ {
        Some(0x94u8)
    } else if w == "OP_MUL"@ {
        Some(0x95u8)
    } else if w == "OP_DIV"@ {
        Some(0x96u8)
    } else if w == "OP_MOD"@ {
        Some(0x97u8)
    } else if w == "OP_LSHIFT"@ {
        Some(0x98u8)
    } else if w == "OP_RSHIFT"@ {
        Some(0x99u8)
    } else if w == "OP_BOOLAND"@ {
        Some(0x9au8)
    } else if w == "OP_BOOLOR"@ {
        Some(0x9bu8)
    } else if w == "OP_NUMEQUAL"@ {
        Some(0x9cu8)
    } else if w == "OP_NUMEQUALVERIFY"@ {
        Some(0x9du8)
    } else if w == "OP_NUMNOTEQUAL"@ {
        Some(0x9eu8)
    } else if w == "OP_LESSTHAN"@ {
        Some(0x9fu8)
    } else if w == "OP_GREATERTHAN"@ {
        Some(0xa0u8)
    } else if w == "OP_LESSTHANOREQUAL"@ {
        Some(0xa1u8)
    } else if w == "OP_GREATERTHANOREQUAL"@ {
        Some(0xa2u8)
    } else if w == "OP_MIN"@ {
        Some(0xa3u8)
    } else if w == "OP_MAX"@ {
        Some(0xa4u8)
    } else if w == "OP_WITHIN"@ {
        Some(0xa5u8)
    } else if w == "OP_RIPEMD160"@ {
        Some(0xa6u8)
    } else if w == "OP_SHA1"@ {
        Some(0xa7u8)
    } else if w == "OP_SHA256"@ {
        Some(0xa8u8)
    } else if w == "OP_HASH160"@ {
        Some(0xa9u8)
    } else if w == "OP_HASH256"@ {
        Some(0xaau8)
    } else if w == "OP_CODESEPARATOR"@ {
        Some(0xabu8)
    } else if w == "OP_CHECKSIG"@ {
        Some(0xacu8)
    } else if w == "OP_CHECKSIGVERIFY"@ {
        Some(0xadu8)
    } else if w == "OP_CHECKMULTISIG"@ {
        Some(0xaeu8)
    } else if w == "OP_CHECKMULTISIGVERIFY"@ {
        Some(0xafu8)
    } else if w == "OP_NOP1"@ {
        Some(0xb0u8)
    } else if w == "OP_CLTV"@ {
        Some(0xb1u8)
    } else if w == "OP_CSV"@ {
        Some(0xb2u8)
    } else if w == "OP_NOP4"@ {
        Some(0xb3u8)
    } else if w == "OP_NOP5"@ {
        Some(0xb4u8)
    } else if w == "OP_NOP6"@ {
        Some(0xb5u8)
    } else if w == "OP_NOP7"@ {
        Some(0xb6u8)
    } else if w == "OP_NOP8"@ {
        Some(0xb7u8)
    } else if w == "OP_NOP9"@ {
        Some(0xb8u8)
    } else if w == "OP_NOP10"@ {
        Some(0xb9u8)
    } else if w == "OP_CHECKSIGADD"@ {
        Some(0xbau8)
    } else if w == "OP_RETURN_187"@ {
        Some(0xbbu8)
    } else if w == "OP_RETURN_188"@ {
        Some(0xbcu8)
    } else if w == "OP_RETURN_189"@ {
        Some(0xbdu8)
    } else if w == "OP_RETURN_190"@ {
        Some(0xbeu8)
    } else if w == "OP_RETURN_191"@ {
        Some(0xbfu8)
    } else {
        None
    }
}

#[verifier::rlimit(60)]
fn opcode_name_c(w: &Vec<char>) -> (r: Option<u8>)
    ensures
        r == spec_opcode_name_c(w@),
{
    if eq_chars(w, "OP_LEFT") {
        return Some(0x80);
    }
    if eq_chars(w, "OP_RIGHT") {
        return Some(0x81);
    }
    if eq_chars(w, "OP_SIZE") {
        return Some(0x82);
    }
    if eq_chars(w, "OP_INVERT") {
        return Some(0x83);
    }
    if eq_chars(w, "OP_AND") {
        return Some(0x84);
    }
    if eq_chars(w, "OP_OR") {
        return Some(0x85);
    }
    if eq_chars(w, "OP_XOR") {
        return Some(0x86);
    }
    if eq_chars(w, "OP_EQUAL") {
        return Some(0x87);
    }
    if eq_chars(w, "OP_EQUALVERIFY") {
        return Some(0x88);
    }
    if eq_chars(w, "OP_RESERVED1") {
        return Some(0x89);
    }
    if eq_chars(w, "OP_RESERVED2") {
        return Some(0x8a);
    }
    if eq_chars(w, "OP_1ADD") {
        return Some(0x8b);
    }
    if eq_chars(w, "OP_1SUB") {
        return Some(0x8c);
    }
    if eq_chars(w, "OP_2MUL") {
        return Some(0x8d);
    }
    if eq_chars(w, "OP_2DIV") {
        return Some(0x8e);
    }
    if eq_chars(w, "OP_NEGATE") {
        return Some(0x8f);
    }
    if eq_chars(w, "OP_ABS") {
        return Some(0x90);
    }
    if eq_chars(w, "OP_NOT") {
        return Some(0x91);
    }
    if eq_chars(w, "OP_0NOTEQUAL") {
        return Some(0x92);
    }
    if eq_chars(w, "OP_ADD") {
        return Some(0x93);
    }
    if eq_chars(w, "OP_SUB") {
        return Some(0x94);
    }
    if eq_chars(w, "OP_MUL") {
        return Some(0x95);
    }
    if eq_chars(w, "OP_DIV") {
        return Some(0x96);
    }
    if eq_chars(w, "OP_MOD") {
        return Some(0x97);
    }
    if eq_chars(w, "OP_LSHIFT") {
        return Some(0x98);
    }
    if eq_chars(w, "OP_RSHIFT") {
        return Some(0x99);
    }
    if eq_chars(w, "OP_BOOLAND") {
        return Some(0x9a);
    }
    if eq_chars(w, "OP_BOOLOR") {
        return Some(0x9b);
    }
    if eq_chars(w, "OP_NUMEQUAL") {
        return Some(0x9c);
    }
    if eq_chars(w, "OP_NUMEQUALVERIFY") {
        return Some(0x9d);
    }
    if eq_chars(w, "OP_NUMNOTEQUAL") {
        return Some(0x9e);
    }
    if eq_chars(w, "OP_LESSTHAN") {
        return Some(0x9f);
    }
    if eq_chars(w, "OP_GREATERTHAN") {
        return Some(0xa0);
    }
    if eq_chars(w, "OP_LESSTHANOREQUAL") {
        return Some(0xa1);
    }
    if eq_chars(w, "OP_GREATERTHANOREQUAL") {
        return Some(0xa2);
    }
    if eq_chars(w, "OP_MIN") {
        return Some(0xa3);
    }
    if eq_chars(w, "OP_MAX") {
        return Some(0xa4);
    }
    if eq_chars(w, "OP_WITHIN") {
        return Some(0xa5);
    }
    if eq_chars(w, "OP_RIPEMD160") {
        return Some(0xa6);
    }
    if eq_chars(w, "OP_SHA1") {
        return Some(0xa7);
    }
    if eq_chars(w, "OP_SHA256") {
        return Some(0xa8);
    }
    if eq_chars(w, "OP_HASH160") {
        return Some(0xa9);
    }
    if eq_chars(w, "OP_HASH256") {
        return Some(0xaa);
    }
    if eq_chars(w, "OP_CODESEPARATOR") {
        return Some(0xab);
    }
    if eq_chars(w, "OP_CHECKSIG") {
        return Some(0xac);
    }
    if eq_chars(w, "OP_CHECKSIGVERIFY") {
        return Some(0xad);
    }
    if eq_chars(w, "OP_CHECKMULTISIG") {
        return Some(0xae);
    }
    if eq_chars(w, "OP_CHECKMULTISIGVERIFY") {
        return Some(0xaf);
    }
    if eq_chars(w, "OP_NOP1") {
        return Some(0xb0);
    }
    if eq_chars(w, "OP_CLTV") {
        return Some(0xb1);
    }
    if eq_chars(w, "OP_CSV") {
        return Some(0xb2);
    }
    if eq_chars(w, "OP_NOP4") {
        return Some(0xb3);
    }
    if eq_chars(w, "OP_NOP5") {
        return Some(0xb4);
    }
    if eq_chars(w, "OP_NOP6") {
        return Some(0xb5);
    }
    if eq_chars(w, "OP_NOP7") {
        return Some(0xb6);
    }
    if eq_chars(w, "OP_NOP8") {
        return Some(0xb7);
    }
    if eq_chars(w, "OP_NOP9") {
        return Some(0xb8);
    }
    if eq_chars(w, "OP_NOP10") {
        return Some(0xb9);
    }
    if eq_chars(w, "OP_CHECKSIGADD") {
        return Some(0xba);
    }
    if eq_chars(w, "OP_RETURN_187") {
        return Some(0xbb);
    }
    if eq_chars(w, "OP_RETURN_188") {
        return Some(0xbc);
    }
    if eq_chars(w, "OP_RETURN_189") {
        return Some(0xbd);
    }
    if eq_chars(w, "OP_RETURN_190") {
        return Some(0xbe);
    }
    if eq_chars(w, "OP_RETURN_191") {
        return Some(0xbf);
    }
    None
}

pub open spec fn spec_opcode_name_d(w: Seq<char>) -> Option<u8> {
    if w == "OP_RETURN_192"@ {
        Some(0xc0u8)
    } else if w == "OP_RETURN_193"@ {
        Some(0xc1u8)
    } else if w == "OP_RETURN_194"@ {
        Some(0xc2u8)
    } else if w == "OP_RETURN_195"@ {
        Some(0xc3u8)
    } else if w == "OP_RETURN_196"@ {
        Some(0xc4u8)
    } else if w == "OP_RETURN_197"@ {
        Some(0xc5u8)
    } else if w == "OP_RETURN_198"@ {
        Some(0xc6u8)
    } else if w == "OP_RETURN_199"@ {
        Some(0xc7u8)
    } else if w == "OP_RETURN_200"@ {
        Some(0xc8u8)
    } else if w == "OP_RETURN_201"@ {
        Some(0xc9u8)
    } else if w == "OP_RETURN_202"@ {
        Some(0xcau8)
    } else if w == "OP_RETURN_203"@ {
        Some(0xcbu8)
    } else if w == "OP_RETURN_204"@ {
        Some(0xccu8)
    } else if w == "OP_RETURN_205"@ {
        Some(0xcdu8)
    } else if w == "OP_RETURN_206"@ {
        Some(0xceu8)
    } else if w == "OP_RETURN_207"@ {
        Some(0xcfu8)
    } else if w == "OP_RETURN_208"@ {
        Some(0xd0u8)
    } else if w == "OP_RETURN_209"@ {
        Some(0xd1u8)
    } else if w == "OP_RETURN_210"@ {
        Some(0xd2u8)
    } else if w == "OP_RETURN_211"@ {
        Some(0xd3u8)
    } else if w == "OP_RETURN_212"@ {
        Some(0xd4u8)
    } else if w == "OP_RETURN_213"@ {
        Some(0xd5u8)
    } else if w == "OP_RETURN_214"@ {
        Some(0xd6u8)
    } else if w == "OP_RETURN_215"@ {
        Some(0xd7u8)
    } else if w == "OP_RETURN_216"@ {
        Some(0xd8u8)
    } else if w == "OP_RETURN_217"@ {
        Some(0xd9u8)
    } else if w == "OP_RETURN_218"@ {
        Some(0xdau8)
    } else if w == "OP_RETURN_219"@ {
        Some(0xdbu8)
    } else if w == "OP_RETURN_220"@ {
        Some(0xdcu8)
    } else if w == "OP_RETURN_221"@ {
        Some(0xddu8)
    } else if w == "OP_RETURN_222"@ {
        Some(0xdeu8)
    } else if w == "OP_RETURN_223"@ {
        Some(0xdfu8)
    } else if w == "OP_RETURN_224"@ {
        Some(0xe0u8)
    } else if w == "OP_RETURN_225"@ {
        Some(0xe1u8)
    } else if w == "OP_RETURN_226"@ {
        Some(0xe2u8)
    } else if w == "OP_RETURN_227"@ {
        Some(0xe3u8)
    } else if w == "OP_RETURN_228"@ {
        Some(0xe4u8)
    } else if w == "OP_RETURN_229"@ {
        Some(0xe5u8)
    } else if w == "OP_RETURN_230"@ {
        Some(0xe6u8)
    } else if w == "OP_RETURN_231"@ {
        Some(0xe7u8)
    } else if w == "OP_RETURN_232"@ {
        Some(0xe8u8)
    } else if w == "OP_RETURN_233"@ {
        Some(0xe9u8)
    } else if w == "OP_RETURN_234"@ {
        Some(0xeau8)
    } else if w == "OP_RETURN_235"@ {
        Some(0xebu8)
    } else if w == "OP_RETURN_236"@ {
        Some(0xecu8)
    } else if w == "OP_RETURN_237"@ {
        Some(0xedu8)
    } else if w == "OP_RETURN_238"@ {
        Some(0xeeu8)
    } else if w == "OP_RETURN_239"@ {
        Some(0xefu8)
    } else if w == "OP_RETURN_240"@ {
        Some(0xf0u8)
    } else if w == "OP_RETURN_241"@ {
        Some(0xf1u8)
    } else if w == "OP_RETURN_242"@ {
        Some(0xf2u8)
    } else if w == "OP_RETURN_243"@ {
        Some(0xf3u8)
    } else if w == "OP_RETURN_244"@ {
        Some(0xf4u8)
    } else if w == "OP_RETURN_245"@ {
        Some(0xf5u8)
    } else if w == "OP_RETURN_246"@ {
        Some(0xf6u8)
    } else if w == "OP_RETURN_247"@ {
        Some(0xf7u8)
    } else if w == "OP_RETURN_248"@ {
        Some(0xf8u8)
    } else if w == "OP_RETURN_249"@ {
        Some(0xf9u8)
    } else if w == "OP_RETURN_250"@ {
        Some(0xfau8)
    } else if w == "OP_RETURN_251"@ {
        Some(0xfbu8)
    } else if w == "OP_RETURN_252"@ {
        Some(0xfcu8)
    } else if w == "OP_RETURN_253"@ {
        Some(0xfdu8)
    } else if w == "OP_RETURN_254"@ {
        Some(0xfeu8)
    } else if w == "OP_INVALIDOPCODE"@ {
        Some(0xffu8)
    } else {
        None
    }
}

#[verifier::rlimit(60)]
fn opcode_name_d(w: &Vec<char>) -> (r: Option<u8>)
    ensures
        r == spec_opcode_name_d(w@),
{
    if eq_chars(w, "OP_RETURN_192") {
        return Some(0xc0);
    }
    if eq_chars(w, "OP_RETURN_193") {
        return Some(0xc1);
    }
    if eq_chars(w, "OP_RETURN_194") {
        return Some(0xc2);
    }
    if eq_chars(w, "OP_RETURN_195") {
        return Some(0xc3);
    }
    if eq_chars(w, "OP_RETURN_196") {
        return Some(0xc4);
    }
    if eq_chars(w, "OP_RETURN_197") {
        return Some(0xc5);
    }
    if eq_chars(w, "OP_RETURN_198") {
        return Some(0xc6);
    }
    if eq_chars(w, "OP_RETURN_199") {
        return Some(0xc7);
    }
    if eq_chars(w, "OP_RETURN_200") {
        return Some(0xc8);
    }
    if eq_chars(w, "OP_RETURN_201") {
        return Some(0xc9);
    }
    if eq_chars(w, "OP_RETURN_202") {
        return Some(0xca);
    }
    if eq_chars(w, "OP_RETURN_203") {
        return Some(0xcb);
    }
    if eq_chars(w, "OP_RETURN_204") {
        return Some(0xcc);
    }
    if eq_chars(w, "OP_RETURN_205") {
        return Some(0xcd);
    }
    if eq_chars(w, "OP_RETURN_206") {
        return Some(0xce);
    }
    if eq_chars(w, "OP_RETURN_207") {
        return Some(0xcf);
    }
    if eq_chars(w, "OP_RETURN_208") {
        return Some(0xd0);
    }
    if eq_chars(w, "OP_RETURN_209") {
        return Some(0xd1);
    }
    if eq_chars(w, "OP_RETURN_210") {
        return Some(0xd2);
    }
    if eq_chars(w, "OP_RETURN_211") {
        return Some(0xd3);
    }
    if eq_chars(w, "OP_RETURN_212") {
        return Some(0xd4);
    }
    if eq_chars(w, "OP_RETURN_213") {
        return Some(0xd5);
    }
    if eq_chars(w, "OP_RETURN_214") {
        return Some(0xd6);
    }
    if eq_chars(w, "OP_RETURN_215") {
        return Some(0xd7);
    }
    if eq_chars(w, "OP_RETURN_216") {
        return Some(0xd8);
    }
    if eq_chars(w, "OP_RETURN_217") {
        return Some(0xd9);
    }
    if eq_chars(w, "OP_RETURN_218") {
        return Some(0xda);
    }
    if eq_chars(w, "OP_RETURN_219") {
        return Some(0xdb);
    }
    if eq_chars(w, "OP_RETURN_220") {
        return Some(0xdc);
    }
    if eq_chars(w, "OP_RETURN_221") {
        return Some(0xdd);
    }
    if eq_chars(w, "OP_RETURN_222") {
        return Some(0xde);
    }
    if eq_chars(w, "OP_RETURN_223") {
        return Some(0xdf);
    }
    if eq_chars(w, "OP_RETURN_224") {
        return Some(0xe0);
    }
    if eq_chars(w, "OP_RETURN_225") {
        return Some(0xe1);
    }
    if eq_chars(w, "OP_RETURN_226") {
        return Some(0xe2);
    }
    if eq_chars(w, "OP_RETURN_227") {
        return Some(0xe3);
    }
    if eq_chars(w, "OP_RETURN_228") {
        return Some(0xe4);
    }
    if eq_chars(w, "OP_RETURN_229") {
        return Some(0xe5);
    }
    if eq_chars(w, "OP_RETURN_230") {
        return Some(0xe6);
    }
    if eq_chars(w, "OP_RETURN_231") {
        return Some(0xe7);
    }
    if eq_chars(w, "OP_RETURN_232") {
        return Some(0xe8);
    }
    if eq_chars(w, "OP_RETURN_233") {
        return Some(0xe9);
    }
    if eq_chars(w, "OP_RETURN_234") {
        return Some(0xea);
    }
    if eq_chars(w, "OP_RETURN_235") {
        return Some(0xeb);
    }
    if eq_chars(w, "OP_RETURN_236") {
        return Some(0xec);
    }
    if eq_chars(w, "OP_RETURN_237") {
        return Some(0xed);
    }
    if eq_chars(w, "OP_RETURN_238") {
        return Some(0xee);
    }
    if eq_chars(w, "OP_RETURN_239") {
        return Some(0xef);
    }
    if eq_chars(w, "OP_RETURN_240") {
        return Some(0xf0);
    }
    if eq_chars(w, "OP_RETURN_241") {
        return Some(0xf1);
    }
    if eq_chars(w, "OP_RETURN_242") {
        return Some(0xf2);
    }
    if eq_chars(w, "OP_RETURN_243") {
        return Some(0xf3);
    }
    if eq_chars(w, "OP_RETURN_244") {
        return Some(0xf4);
    }
    if eq_chars(w, "OP_RETURN_245") {
        return Some(0xf5);
    }
    if eq_chars(w, "OP_RETURN_246") {
        return Some(0xf6);
    }
    if eq_chars(w, "OP_RETURN_247") {
        return Some(0xf7);
    }
    if eq_chars(w, "OP_RETURN_248") {
        return Some(0xf8);
    }
    if eq_chars(w, "OP_RETURN_249") {
        return Some(0xf9);
    }
    if eq_chars(w, "OP_RETURN_250") {
        return Some(0xfa);
    }
    if eq_chars(w, "OP_RETURN_251") {
        return Some(0xfb);
    }
    if eq_chars(w, "OP_RETURN_252") {
        return Some(0xfc);
    }
    if eq_chars(w, "OP_RETURN_253") {
        return Some(0xfd);
    }
    if eq_chars(w, "OP_RETURN_254") {
        return Some(0xfe);
    }
    if eq_chars(w, "OP_INVALIDOPCODE") {
        return Some(0xff);
    }
    None
}

/// The opcode byte a mnemonic resolves to, if it names one.
pub open spec fn spec_opcode_from_name(w: Seq<char>) -> Option<u8> {
    match spec_opcode_name_a(w) {
        Some(op) => Some(op),
        None => match spec_opcode_name_b(w) {
            Some(op) => Some(op),
            None => match spec_opcode_name_c(w) {
                Some(op) => Some(op),
                None => spec_opcode_name_d(w),
            },
        },
    }
}

/// Resolve an instruction mnemonic to its opcode byte.
pub fn opcode_from_name(w: &Vec<char>) -> (r: Option<u8>)
    ensures
        r == spec_opcode_from_name(w@),
{
    match opcode_name_a(w) {
        Some(op) => Some(op),
        None => match opcode_name_b(w) {
            Some(op) => Some(op),
            None => match opcode_name_c(w) {
                Some(op) => Some(op),
                None => opcode_name_d(w),
            },
        },
    }
}

} // verus!
