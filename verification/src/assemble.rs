//! The ASM-to-script assembler: a linear, single-pass translation of the
//! instruction words into the canonical binary script, with at most one word
//! of lookahead (a push opcode consumes the following word as its operand).
//! On any error the whole translation fails; no partial script escapes.
use vstd::prelude::*;
use crate::builder::builder_bytes;
use crate::builder::builder_into_script;
use crate::builder::builder_new;
use crate::builder::builder_push_int;
use crate::builder::builder_push_opcode;
use crate::builder::builder_push_slice;
use crate::builder::minimal_push;
use crate::builder::push_int_bytes;
use crate::builder::script_bytes;
use crate::hex::hex_decode_chars;
use crate::hex::spec_hex_decode;
use crate::numparse::i64_string_value;
use crate::numparse::is_i64_string;
use crate::numparse::parse_i64_chars;
use crate::opcodes::OP_PUSHDATA1_CODE;
use crate::opcodes::OP_PUSHDATA2_CODE;
use crate::opcodes::OP_PUSHDATA4_CODE;
use crate::opcodes::eq_chars;
use crate::opcodes::is_push_bytes;
use crate::opcodes::is_push_data;
use crate::opcodes::opcode_from_name;
use crate::opcodes::spec_is_push_bytes;
use crate::opcodes::spec_is_push_data;
use crate::opcodes::spec_opcode_from_name;
use crate::tokenize::Token;
use crate::tokenize::Word;
use crate::tokenize::iter_words;
use crate::tokenize::tokens_of;

verus! {

/// The different kinds of ASM parse error that can occur.
#[derive(Debug, Clone, PartialEq, Eq)]
#[non_exhaustive]
pub enum AsmParseErrorKind {
    /// ASM ended unexpectedly.
    UnexpectedEOF,
    /// We were not able to interpret the instruction.
    UnknownInstruction,
    /// Invalid hexadecimal bytes.
    InvalidHex,
    /// Byte push exceeding the maximum size.
    PushExceedsMaxSize,
    /// ASM contains a byte push with non-minimal size prefix.
    ///
    /// This is not necessarily invalid, but we can't construct such pushes.
    NonMinimalBytePush,
}

/// Error from parsing script ASM.
#[derive(Debug, PartialEq, Eq)]
pub struct ParseAsmError {
    /// The position of the instruction that caused the error.
    ///
    /// The value is (line, word) with word incremented after
    /// every chunk of whitespace.
    pub position: (usize, usize),
    /// The kind of error that occurred.
    pub kind: AsmParseErrorKind,
}

/// The mathematical image of a `ParseAsmError`.
pub ghost struct AsmErr {
    /// Zero-based line index of the word that caused the error.
    pub line: int,
    /// Zero-based word index within that line.
    pub word: int,
    /// The kind of error.
    pub kind: AsmParseErrorKind,
}

/// A word with one leading `<` and one trailing `>` stripped, when it has
/// both.
pub open spec fn strip_brackets(t: Seq<char>) -> Seq<char> {
    if t.len() >= 2 && t[0] == '<' && t[t.len() - 1] == '>' {
        t.subrange(1, t.len() - 1)
    } else {
        t
    }
}

/// A word with a leading `0x` stripped, when it has one.
pub open spec fn strip_hex_prefix(t: Seq<char>) -> Seq<char> {
    if t.len() >= 2 && t[0] == '0' && t[1] == 'x' {
        t.subrange(2, t.len() as int)
    } else {
        t
    }
}

/// The opcode that a minimal-form push of `len` data bytes starts with, or
/// nothing when no push can carry that much data.
pub open spec fn minimal_push_opcode(len: int) -> Option<u8> {
    if len < 0x4c {
        Some(len as u8)
    } else if len < 0x100 {
        Some(0x4cu8)
    } else if len < 0x10000 {
        Some(0x4du8)
    } else if len < 0x1_0000_0000 {
        Some(0x4eu8)
    } else {
        None
    }
}

/// Prepend emitted bytes to the rest of an assembly outcome.
pub open spec fn spec_emit(bytes: Seq<u8>, rest: Result<Seq<u8>, AsmErr>) -> Result<
    Seq<u8>,
    AsmErr,
> {
    match rest {
        Ok(r) => Ok(bytes + r),
        Err(e) => Err(e),
    }
}

/// The bytes the assembler emits for the words from `i` on, or the first
/// error, with its position. Each word is, in priority order: the `OP_0`
/// alias of the empty push; an opcode mnemonic (a push mnemonic consumes the
/// next word as strict hex and must name exactly the minimal push opcode for
/// that payload); after optional `<...>` stripping, a decimal 64-bit
/// integer, pushed minimally; after optional `0x` stripping, raw hex bytes,
/// pushed minimally; otherwise an unknown instruction.
pub open spec fn spec_assemble(toks: Seq<Token>, i: int) -> Result<Seq<u8>, AsmErr>
    decreases toks.len() - i,
{
    if i < 0 || i >= toks.len() {
        Ok(seq![])
    } else {
        let t = toks[i];
        if t.text == "OP_0"@ {
            spec_emit(seq![0x00u8], spec_assemble(toks, i + 1))
        } else if spec_opcode_from_name(t.text) is Some {
            let op = spec_opcode_from_name(t.text).unwrap();
            if spec_is_push_bytes(op) || spec_is_push_data(op) {
                if i + 1 >= toks.len() {
                    Err(AsmErr { line: t.line, word: t.word, kind: AsmParseErrorKind::UnexpectedEOF })
                } else {
                    let u = toks[i + 1];
                    match spec_hex_decode(u.text) {
                        None => Err(
                            AsmErr { line: u.line, word: u.word, kind: AsmParseErrorKind::InvalidHex },
                        ),
                        Some(data) => match minimal_push_opcode(data.len() as int) {
                            None => Err(
                                AsmErr {
                                    line: u.line,
                                    word: u.word,
                                    kind: AsmParseErrorKind::PushExceedsMaxSize,
                                },
                            ),
                            Some(expected) => {
                                if op != expected {
                                    Err(
                                        AsmErr {
                                            line: t.line,
                                            word: t.word,
                                            kind: AsmParseErrorKind::NonMinimalBytePush,
                                        },
                                    )
                                } else {
                                    spec_emit(minimal_push(data), spec_assemble(toks, i + 2))
                                }
                            },
                        },
                    }
                }
            } else {
                spec_emit(seq![op], spec_assemble(toks, i + 1))
            }
        } else {
            let w = strip_brackets(t.text);
            if is_i64_string(w) {
                spec_emit(push_int_bytes(i64_string_value(w)), spec_assemble(toks, i + 1))
            } else {
                let h = strip_hex_prefix(w);
                match spec_hex_decode(h) {
                    None => Err(
                        AsmErr {
                            line: t.line,
                            word: t.word,
                            kind: AsmParseErrorKind::UnknownInstruction,
                        },
                    ),
                    Some(data) => {
                        if data.len() >= 0x1_0000_0000 {
                            Err(
                                AsmErr {
                                    line: t.line,
                                    word: t.word,
                                    kind: AsmParseErrorKind::PushExceedsMaxSize,
                                },
                            )
                        } else {
                            spec_emit(minimal_push(data), spec_assemble(toks, i + 1))
                        }
                    },
                }
            }
        }
    }
}

/// What `parse_asm` produces for a text: the assembly of its words.
pub open spec fn spec_parse_asm(s: Seq<char>) -> Result<Seq<u8>, AsmErr> {
    spec_assemble(tokens_of(s), 0)
}

/// Whether a word would be read as the one decimal integer whose minimal
/// integer push the fixed-width scratch encoder cannot write.
pub open spec fn token_is_min_i64(t: Seq<char>) -> bool {
    let w = strip_brackets(t);
    is_i64_string(w) && i64_string_value(w) == i64::MIN as int
}

proof fn lemma_emit_assoc(a: Seq<u8>, b: Seq<u8>, rest: Result<Seq<u8>, AsmErr>)
    ensures
        spec_emit(a, spec_emit(b, rest)) == spec_emit(a + b, rest),
{
    match rest {
        Ok(r) => {
            assert(a + (b + r) =~= (a + b) + r);
        },
        Err(_) => {},
    }
}

fn copy_range(t: &Vec<char>, a: usize, b: usize) -> (r: Vec<char>)
    requires
        a <= b <= t@.len(),
    ensures
        r@ == t@.subrange(a as int, b as int),
{
    let mut r: Vec<char> = Vec::new();
    let mut k = a;
    while k < b
        invariant
            a <= k <= b <= t@.len(),
            r@ == t@.subrange(a as int, k as int),
        decreases b - k,
    {
        r.push(t[k]);
        k = k + 1;
        proof {
            assert(r@ =~= t@.subrange(a as int, k as int));
        }
    }
    proof {
        assert(r@ =~= t@.subrange(a as int, b as int));
    }
    r
}

fn strip_brackets_exec(t: &Vec<char>) -> (r: Vec<char>)
    ensures
        r@ == strip_brackets(t@),
{
    let n = t.len();
    if n >= 2 && t[0] == '<' && t[n - 1] == '>' {
        copy_range(t, 1, n - 1)
    } else {
        copy_range(t, 0, n)
    }
}

fn strip_hex_prefix_exec(t: &Vec<char>) -> (r: Vec<char>)
    ensures
        r@ == strip_hex_prefix(t@),
{
    let n = t.len();
    if n >= 2 && t[0] == '0' && t[1] == 'x' {
        copy_range(t, 2, n)
    } else {
        copy_range(t, 0, n)
    }
}

/// Assemble script ASM into the canonical binary script.
///
/// The input must not push the one decimal integer whose scriptint encoding
/// overflows the outside encoder's fixed scratch buffer; `parse_asm_checked`
/// screens for it first.
pub fn parse_asm(input: &str) -> (r: Result<bitcoin::ScriptBuf, ParseAsmError>)
    requires
        forall|k: int|
            0 <= k < tokens_of(input@).len() ==> !token_is_min_i64(
                #[trigger] tokens_of(input@)[k].text,
            ),
    ensures
        (match (r, spec_parse_asm(input@)) {
            (Ok(s), Ok(bytes)) => script_bytes(s) == bytes,
            (Err(e), Err(g)) => e.position.0 == g.line && e.position.1 == g.word && e.kind
                == g.kind,
            _ => false,
        }),
{
    let ghost toks = tokens_of(input@);
    let words = iter_words(input);
    proof {
        assert(words@.map_values(|w: Word| w@) == toks);
    }
    let n = words.len();
    let mut builder = builder_new();
    let mut i: usize = 0;
    while i < n
        invariant
            i <= n,
            n == toks.len(),
            words@.map_values(|w: Word| w@) == toks,
            toks == tokens_of(input@),
            forall|k: int| 0 <= k < toks.len() ==> !token_is_min_i64(#[trigger] toks[k].text),
            spec_assemble(toks, 0) == spec_emit(
                builder_bytes(builder),
                spec_assemble(toks, i as int),
            ),
        decreases n - i,
    {
        let ghost i0 = i as int;
        let ghost bb = builder_bytes(builder);
        let ghost t = toks[i0];
        proof {
            assert(words@[i0]@ == toks[i0]);
        }
        let wline = words[i].line;
        let wword = words[i].word;
        assert(wline == t.line && wword == t.word && words@[i0].text@ == t.text);
        if eq_chars(&words[i].text, "OP_0") {
            builder = builder_push_opcode(builder, 0x00);
            i = i + 1;
            proof {
                assert(builder_bytes(builder) =~= bb + seq![0x00u8]);
                assert(spec_assemble(toks, i0) == spec_emit(
                    seq![0x00u8],
                    spec_assemble(toks, i as int),
                ));
                lemma_emit_assoc(bb, seq![0x00u8], spec_assemble(toks, i as int));
            }
            continue ;
        }
        match opcode_from_name(&words[i].text) {
            Some(op) => {
                if is_push_bytes(op) || is_push_data(op) {
                    if i + 1 >= n {
                        proof {
                            assert(spec_assemble(toks, i0) == Err::<Seq<u8>, AsmErr>(
                                AsmErr {
                                    line: t.line,
                                    word: t.word,
                                    kind: AsmParseErrorKind::UnexpectedEOF,
                                },
                            ));
                        }
                        return Err(
                            ParseAsmError {
                                position: (wline, wword),
                                kind: AsmParseErrorKind::UnexpectedEOF,
                            },
                        );
                    }
                    let ghost u = toks[i0 + 1];
                    proof {
                        assert(words@[i0 + 1]@ == toks[i0 + 1]);
                    }
                    let uline = words[i + 1].line;
                    let uword = words[i + 1].word;
                    assert(uline == u.line && uword == u.word && words@[i0 + 1].text@ == u.text);
                    match hex_decode_chars(&words[i + 1].text) {
                        None => {
                            return Err(
                                ParseAsmError {
                                    position: (uline, uword),
                                    kind: AsmParseErrorKind::InvalidHex,
                                },
                            );
                        },
                        Some(data) => {
                            let dl = data.len();
                            let expected: u8 = if (dl as u64) < (OP_PUSHDATA1_CODE as u64) {
                                dl as u8
                            } else if (dl as u64) < 0x100 {
                                OP_PUSHDATA1_CODE
                            } else if (dl as u64) < 0x10000 {
                                OP_PUSHDATA2_CODE
                            } else if (dl as u64) < 0x1_0000_0000 {
                                OP_PUSHDATA4_CODE
                            } else {
                                return Err(
                                    ParseAsmError {
                                        position: (uline, uword),
                                        kind: AsmParseErrorKind::PushExceedsMaxSize,
                                    },
                                );
                            };
                            assert(minimal_push_opcode(data@.len() as int) == Some(expected));
                            if op != expected {
                                return Err(
                                    ParseAsmError {
                                        position: (wline, wword),
                                        kind: AsmParseErrorKind::NonMinimalBytePush,
                                    },
                                );
                            }
                            builder = match builder_push_slice(builder, &data) {
                                Some(b2) => b2,
                                None => vstd::pervasive::unreached(),
                            };
                            i = i + 2;
                            proof {
                                assert(spec_assemble(toks, i0) == spec_emit(
                                    minimal_push(data@),
                                    spec_assemble(toks, i as int),
                                ));
                                lemma_emit_assoc(
                                    bb,
                                    minimal_push(data@),
                                    spec_assemble(toks, i as int),
                                );
                            }
                        },
                    }
                } else {
                    builder = builder_push_opcode(builder, op);
                    i = i + 1;
                    proof {
                        assert(builder_bytes(builder) =~= bb + seq![op]);
                        assert(spec_assemble(toks, i0) == spec_emit(
                            seq![op],
                            spec_assemble(toks, i as int),
                        ));
                        lemma_emit_assoc(bb, seq![op], spec_assemble(toks, i as int));
                    }
                }
            },
            None => {
                let stripped = strip_brackets_exec(&words[i].text);
                match parse_i64_chars(&stripped) {
                    Some(v) => {
                        assert(!token_is_min_i64(toks[i0].text));
                        assert(v != i64::MIN);
                        builder = builder_push_int(builder, v);
                        i = i + 1;
                        proof {
                            assert(spec_assemble(toks, i0) == spec_emit(
                                push_int_bytes(v as int),
                                spec_assemble(toks, i as int),
                            ));
                            lemma_emit_assoc(
                                bb,
                                push_int_bytes(v as int),
                                spec_assemble(toks, i as int),
                            );
                        }
                    },
                    None => {
                        let hexword = strip_hex_prefix_exec(&stripped);
                        match hex_decode_chars(&hexword) {
                            None => {
                                return Err(
                                    ParseAsmError {
                                        position: (wline, wword),
                                        kind: AsmParseErrorKind::UnknownInstruction,
                                    },
                                );
                            },
                            Some(data) => {
                                match builder_push_slice(builder, &data) {
                                    Some(b2) => {
                                        builder = b2;
                                        i = i + 1;
                                        proof {
                                            assert(spec_assemble(toks, i0) == spec_emit(
                                                minimal_push(data@),
                                                spec_assemble(toks, i as int),
                                            ));
                                            lemma_emit_assoc(
                                                bb,
                                                minimal_push(data@),
                                                spec_assemble(toks, i as int),
                                            );
                                        }
                                    },
                                    None => {
                                        return Err(
                                            ParseAsmError {
                                                position: (wline, wword),
                                                kind: AsmParseErrorKind::PushExceedsMaxSize,
                                            },
                                        );
                                    },
                                }
                            },
                        }
                    },
                }
            },
        }
    }
    proof {
        assert(spec_assemble(toks, n as int) == Ok::<Seq<u8>, AsmErr>(seq![]));
        assert(builder_bytes(builder) + seq![] =~= builder_bytes(builder));
    }
    Ok(builder_into_script(builder))
}

/// Assemble script ASM after screening out the inputs `parse_asm` does not
/// accept: nothing is returned exactly when some word is the one decimal
/// integer push that cannot be encoded, and otherwise `parse_asm`'s result.
pub fn parse_asm_checked(input: &str) -> (r: Option<Result<bitcoin::ScriptBuf, ParseAsmError>>)
    ensures
        (r is None <==> exists|k: int|
            0 <= k < tokens_of(input@).len() && token_is_min_i64(
                #[trigger] tokens_of(input@)[k].text,
            )),
        r is Some ==> (match (r.unwrap(), spec_parse_asm(input@)) {
            (Ok(s), Ok(bytes)) => script_bytes(s) == bytes,
            (Err(e), Err(g)) => e.position.0 == g.line && e.position.1 == g.word && e.kind
                == g.kind,
            _ => false,
        }),
{
    let ghost toks = tokens_of(input@);
    let words = iter_words(input);
    proof {
        assert(words@.map_values(|w: Word| w@) == toks);
    }
    let n = words.len();
    let mut i: usize = 0;
    while i < n
        invariant
            i <= n,
            n == toks.len(),
            words@.map_values(|w: Word| w@) == toks,
            toks == tokens_of(input@),
            forall|k: int| 0 <= k < i ==> !token_is_min_i64(#[trigger] toks[k].text),
        decreases n - i,
    {
        proof {
            assert(words@[i as int]@ == toks[i as int]);
        }
        let stripped = strip_brackets_exec(&words[i].text);
        match parse_i64_chars(&stripped) {
            Some(v) => {
                if v == i64::MIN {
                    assert(token_is_min_i64(toks[i as int].text));
                    return None;
                }
            },
            None => {},
        }
        assert(!token_is_min_i64(toks[i as int].text));
        i = i + 1;
    }
    Some(parse_asm(input))
}

} // verus!
