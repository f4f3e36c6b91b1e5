//! The minimal variable-length signed-integer encoding ("scriptint",
//! CScriptNum) used for numeric values on the stack machine: little-endian
//! magnitude with the sign carried in the top bit of the last byte.
use vstd::prelude::*;
use vstd::array::ArrayAdditionalExecFns;

verus! {

/// Ways parsing script integers might fail.
#[derive(Debug, Clone, PartialEq, Eq)]
pub enum ScriptIntError {
    /// Something did a non-minimal push.
    NonMinimalPush,
    /// Tried to read an array off the stack as a number when it was more than the allowed bytes.
    NumericOverflow,
}

impl ScriptIntError {
    /// The short, fixed, human-readable phrase for this error kind.
    pub fn message(&self) -> (r: &'static str)
        ensures
            self is NonMinimalPush ==> r@ == "non-minimal datapush"@,
            self is NumericOverflow ==> r@ == "numeric overflow (number on stack larger than 4 bytes)"@,
    {
        match self {
            ScriptIntError::NonMinimalPush => "non-minimal datapush",
            ScriptIntError::NumericOverflow => "numeric overflow (number on stack larger than 4 bytes)",
        }
    }
}

/// The broader error taxonomy of the script-execution engine that consumes
/// these primitives; the codec's two error kinds are mapped into it at the
/// boundary.
#[derive(Debug, Clone, PartialEq, Eq)]
pub enum ExecError {
    /// A stack item was not the minimal encoding of its numeric value.
    MinimalData,
    /// A stack item read as a number exceeded the allowed width.
    ScriptIntNumericOverflow,
}

/// The encoding of a non-zero magnitude `m`: its little-endian bytes, with
/// the sign bit placed in the top bit of the last byte, or in one extra byte
/// when the magnitude's own top byte already uses that bit.
pub open spec fn mag_bytes(m: nat, neg: bool) -> Seq<u8>
    decreases m,
{
    if m > 0xFF {
        seq![(m % 256) as u8] + mag_bytes(m / 256, neg)
    } else if m >= 0x80 {
        seq![m as u8, if neg { 0x80u8 } else { 0x00u8 }]
    } else {
        seq![(m + if neg { 0x80int } else { 0int }) as u8]
    }
}

/// The minimal scriptint encoding of `n`: zero is the empty sequence.
pub open spec fn scriptint_bytes(n: int) -> Seq<u8> {
    if n == 0 {
        seq![]
    } else if n > 0 {
        mag_bytes(n as nat, false)
    } else {
        mag_bytes((-n) as nat, true)
    }
}

/// The unsigned little-endian value of a byte sequence.
pub open spec fn le_value(v: Seq<u8>) -> int
    decreases v.len(),
{
    if v.len() == 0 {
        0
    } else {
        v[0] + 256 * le_value(v.drop_first())
    }
}

/// The signed value a byte sequence decodes to: the little-endian magnitude
/// with the top bit of the last byte cleared, negated when that bit was set.
pub open spec fn scriptint_value(v: Seq<u8>) -> int {
    if v.len() == 0 {
        0
    } else if v.last() < 0x80 {
        le_value(v)
    } else {
        -le_value(v.update(v.len() - 1, (v.last() - 0x80) as u8))
    }
}

/// Whether a byte sequence is a minimal scriptint encoding: the last byte
/// must carry value bits besides the sign bit, unless the byte below it
/// already uses its own top bit (so the last byte is structurally required).
pub open spec fn is_minimal_scriptint(v: Seq<u8>) -> bool {
    v.len() == 0 || v.last() % 0x80 != 0 || (v.len() >= 2 && v[v.len() - 2] >= 0x80)
}

/// What `read_scriptint_size` returns for a slice, a size cap and a
/// minimality policy.
pub open spec fn spec_read_scriptint_size(v: Seq<u8>, max_size: int, minimal: bool) -> Result<
    i64,
    ScriptIntError,
> {
    if v.len() > max_size {
        Err(ScriptIntError::NumericOverflow)
    } else if minimal && !is_minimal_scriptint(v) {
        Err(ScriptIntError::NonMinimalPush)
    } else {
        Ok(scriptint_value(v) as i64)
    }
}

/// What `read_scriptint` returns: the same as `spec_read_scriptint_size`,
/// with the codec's error kinds mapped into the execution-engine taxonomy.
pub open spec fn spec_read_scriptint(v: Seq<u8>, max_size: int, minimal: bool) -> Result<
    i64,
    ExecError,
> {
    match spec_read_scriptint_size(v, max_size, minimal) {
        Ok(n) => Ok(n),
        Err(ScriptIntError::NonMinimalPush) => Err(ExecError::MinimalData),
        Err(ScriptIntError::NumericOverflow) => Err(ExecError::ScriptIntNumericOverflow),
    }
}

/// 256 to the power `k`.
pub open spec fn pow256(k: nat) -> int
    decreases k,
{
    if k == 0 {
        1
    } else {
        256 * pow256((k - 1) as nat)
    }
}

proof fn lemma_le_value_single(b: u8)
    ensures
        le_value(seq![b]) == b,
{
    assert(seq![b].drop_first() =~= Seq::<u8>::empty());
    assert(le_value(Seq::<u8>::empty()) == 0);
}

proof fn lemma_le_value_pair(a: u8, b: u8)
    ensures
        le_value(seq![a, b]) == a + 256 * b,
{
    assert(seq![a, b].drop_first() =~= seq![b]);
    lemma_le_value_single(b);
}

proof fn lemma_mag_bytes_props(m: nat, neg: bool)
    requires
        m >= 1,
    ensures
        mag_bytes(m, neg).len() >= 1,
        (mag_bytes(m, neg).last() >= 0x80) == neg,
        is_minimal_scriptint(mag_bytes(m, neg)),
        neg ==> scriptint_value(mag_bytes(m, neg)) == -m,
        !neg ==> scriptint_value(mag_bytes(m, neg)) == m,
    decreases m,
{
    let s = mag_bytes(m, neg);
    if m > 0xFF {
        lemma_mag_bytes_props(m / 256, neg);
        let rest = mag_bytes(m / 256, neg);
        let b = (m % 256) as u8;
        assert(s == seq![b] + rest);
        assert(s.last() == rest.last());
        assert(s[s.len() - 2] == if rest.len() >= 2 {
            rest[rest.len() - 2]
        } else {
            b
        });
        if rest.len() == 1 {
            assert(is_minimal_scriptint(rest));
            assert(rest.last() % 0x80 != 0);
        }
        if neg {
            let cleared = s.update(s.len() - 1, (s.last() - 0x80) as u8);
            let rest_cleared = rest.update(rest.len() - 1, (rest.last() - 0x80) as u8);
            assert(cleared =~= seq![b] + rest_cleared);
            assert(cleared.drop_first() =~= rest_cleared);
            assert(le_value(cleared) == b + 256 * le_value(rest_cleared));
            assert(le_value(rest_cleared) == m / 256);
            assert(le_value(cleared) == m % 256 + 256 * (m / 256));
            assert(m % 256 + 256 * (m / 256) == m) by (nonlinear_arith);
        } else {
            assert(s.drop_first() =~= rest);
            assert(le_value(s) == b + 256 * le_value(rest));
            assert(le_value(rest) == m / 256);
            assert(m % 256 + 256 * (m / 256) == m) by (nonlinear_arith);
        }
    } else if m >= 0x80 {
        let sgn: u8 = if neg {
            0x80u8
        } else {
            0x00u8
        };
        assert(s == seq![m as u8, sgn]);
        assert(s.last() == sgn);
        if neg {
            let cleared = s.update(1int, 0u8);
            assert(cleared =~= seq![m as u8, 0u8]);
            lemma_le_value_pair(m as u8, 0u8);
            assert(le_value(cleared) == m);
        } else {
            lemma_le_value_pair(m as u8, 0u8);
            assert(le_value(s) == m);
        }
    } else {
        let b = (m + if neg {
            0x80int
        } else {
            0int
        }) as u8;
        assert(s == seq![b]);
        if neg {
            let cleared = s.update(0int, (b - 0x80) as u8);
            assert(cleared =~= seq![m as u8]);
            lemma_le_value_single(m as u8);
            assert(le_value(cleared) == m);
        } else {
            lemma_le_value_single(b);
            assert(le_value(s) == m);
        }
    }
}

proof fn lemma_mag_bytes_len(m: nat, neg: bool, k: nat)
    requires
        m >= 1,
        m < 0x80 * pow256(k),
    ensures
        mag_bytes(m, neg).len() <= k + 1,
    decreases m,
{
    if m > 0xFF {
        assert(k >= 1) by {
            if k == 0 {
                assert(pow256(0) == 1);
            }
        }
        assert(pow256(k) == 256 * pow256((k - 1) as nat));
        assert(m / 256 < 0x80 * pow256((k - 1) as nat)) by (nonlinear_arith)
            requires
                m < 0x80 * (256 * pow256((k - 1) as nat)),
                pow256((k - 1) as nat) >= 0,
        ;
        lemma_mag_bytes_len(m / 256, neg, (k - 1) as nat);
    }
}

proof fn lemma_pow256_values()
    ensures
        pow256(3) == 0x100_0000,
        pow256(7) == 0x100_0000_0000_0000,
{
    assert(pow256(0) == 1);
    assert(pow256(1) == 256);
    assert(pow256(2) == 0x1_0000);
    assert(pow256(3) == 0x100_0000);
    assert(pow256(4) == 0x1_0000_0000);
    assert(pow256(5) == 0x100_0000_0000);
    assert(pow256(6) == 0x1_0000_0000_0000);
    assert(pow256(7) == 0x100_0000_0000_0000);
}

proof fn lemma_pow256_pos(k: nat)
    ensures
        pow256(k) >= 1,
    decreases k,
{
    if k > 0 {
        lemma_pow256_pos((k - 1) as nat);
    }
}

proof fn lemma_pow256_mono(j: nat, k: nat)
    requires
        j <= k,
    ensures
        pow256(j) <= pow256(k),
    decreases k,
{
    if j < k {
        lemma_pow256_mono(j, (k - 1) as nat);
        lemma_pow256_pos((k - 1) as nat);
    }
}

/// Law: within the 4-byte range, encoding and then decoding with the default
/// size cap and required minimality gives back the starting value.
pub proof fn lemma_scriptint_roundtrip(n: i64)
    requires
        -0x7FFF_FFFF <= n <= 0x7FFF_FFFF,
    ensures
        spec_read_scriptint(scriptint_bytes(n as int), 4, true) == Ok::<i64, ExecError>(n),
{
    if n != 0 {
        let neg = n < 0;
        let m: nat = if n < 0 {
            (-(n as int)) as nat
        } else {
            n as nat
        };
        lemma_mag_bytes_props(m, neg);
        lemma_pow256_values();
        lemma_mag_bytes_len(m, neg, 3);
    }
}

/// Encodes an integer in script (minimal CScriptNum) format.
///
/// Writes bytes into the buffer and returns the number of bytes written.
///
/// Note that `write_scriptint`/`read_scriptint` do not round-trip if the
/// value written requires more than 4 bytes, matching the consensus
/// implementation this emulates.
#[verifier::rlimit(50)]
pub fn write_scriptint(out: &mut [u8; 8], n: i64) -> (len: usize)
    requires
        n != i64::MIN,
    ensures
        len == scriptint_bytes(n as int).len(),
        final(out)@.subrange(0, len as int) == scriptint_bytes(n as int),
        forall|i: int| len <= i < 8 ==> final(out)@[i] == old(out)@[i],
        len <= 8,
{
    if n == 0 {
        assert(final(out)@.subrange(0, 0) =~= scriptint_bytes(0));
        return 0;
    }
    let neg = n < 0;
    let mut abs: u64 = if neg {
        (-n) as u64
    } else {
        n as u64
    };
    let ghost m0: nat = abs as nat;
    proof {
        assert(scriptint_bytes(n as int) == mag_bytes(m0, neg));
        lemma_pow256_values();
        lemma_mag_bytes_len(m0, neg, 7);
        lemma_mag_bytes_props(m0, neg);
    }
    let ghost total: int = mag_bytes(m0, neg).len() as int;
    let mut len: usize = 0;
    while abs > 0xFF
        invariant
            1 <= abs,
            len + mag_bytes(abs as nat, neg).len() == total,
            out@.subrange(0, len as int) + mag_bytes(abs as nat, neg) == mag_bytes(m0, neg),
            forall|i: int| total <= i < 8 ==> out@[i] == old(out)@[i],
        decreases abs,
    {
        let ghost prev = abs;
        let ghost prev_out = out@;
        let b = (abs & 0xFF) as u8;
        proof {
            assert(prev & 0xFF == prev % 256) by (bit_vector);
            assert(prev >> 8 == prev / 256) by (bit_vector);
            assert(mag_bytes(prev as nat, neg) == seq![(prev as nat % 256) as u8] + mag_bytes(
                prev as nat / 256,
                neg,
            ));
            lemma_mag_bytes_props(prev as nat / 256, neg);
        }
        out.set(len, b);
        len = len + 1;
        abs = abs >> 8;
        proof {
            assert(out@.subrange(0, len as int) =~= prev_out.subrange(0, len - 1) + seq![b]);
            assert(out@.subrange(0, len as int) + mag_bytes(abs as nat, neg) =~= prev_out.subrange(
                0,
                len - 1,
            ) + mag_bytes(prev as nat, neg));
        }
    }
    proof {
        lemma_mag_bytes_props(abs as nat, neg);
        assert(abs <= 0xFF ==> ((abs & 0x80 != 0) <==> abs >= 0x80)) by (bit_vector);
    }
    let ghost loop_out = out@;
    let ghost loop_len = len as int;
    let ghost small = abs;
    if abs & 0x80 != 0 {
        assert(mag_bytes(abs as nat, neg) == seq![
            abs as u8,
            if neg {
                0x80u8
            } else {
                0x00u8
            },
        ]);
        out.set(len, abs as u8);
        len = len + 1;
        let sgn: u8 = if neg {
            0x80
        } else {
            0x00
        };
        out.set(len, sgn);
        len = len + 1;
        proof {
            assert(out@.subrange(0, len as int) =~= loop_out.subrange(0, loop_len) + seq![
                small as u8,
                sgn,
            ]);
            assert(out@.subrange(0, len as int) =~= mag_bytes(m0, neg));
        }
    } else {
        let b: u8 = if neg {
            assert(small < 0x80 ==> (small as u8 | 0x80u8) == (small + 0x80) as u8) by (bit_vector);
            (abs as u8) | 0x80
        } else {
            abs as u8
        };
        assert(mag_bytes(abs as nat, neg) == seq![b]);
        out.set(len, b);
        len = len + 1;
        proof {
            assert(out@.subrange(0, len as int) =~= loop_out.subrange(0, loop_len) + seq![b]);
            assert(out@.subrange(0, len as int) =~= mag_bytes(m0, neg));
        }
    }
    len
}

/// Returns the minimally encoded scriptint as a byte vector.
pub fn scriptint_vec(n: i64) -> (r: Vec<u8>)
    requires
        n != i64::MIN,
    ensures
        r@ == scriptint_bytes(n as int),
{
    let mut buf = [0u8; 8];
    let len = write_scriptint(&mut buf, n);
    let mut r: Vec<u8> = Vec::new();
    let mut i: usize = 0;
    while i < len
        invariant
            i <= len,
            r@ == scriptint_bytes(n as int).subrange(0, i as int),
            len == scriptint_bytes(n as int).len() <= 8,
            buf@.subrange(0, len as int) == scriptint_bytes(n as int),
        decreases len - i,
    {
        r.push(buf[i]);
        i = i + 1;
        proof {
            assert(r@ =~= scriptint_bytes(n as int).subrange(0, i as int));
        }
    }
    proof {
        assert(r@ =~= scriptint_bytes(n as int));
    }
    r
}

/// Decodes the signed value of a non-empty byte sequence of at most 8 bytes.
pub fn scriptint_parse(v: &[u8]) -> (r: i64)
    requires
        1 <= v@.len() <= 8,
    ensures
        r as int == scriptint_value(v@),
{
    let n = v.len();
    let last = v[n - 1];
    let top: u8 = last & 0x7f;
    proof {
        assert(last >= 0x80 ==> (last & 0x7f) == (last - 0x80) as u8) by (bit_vector);
        assert(last < 0x80 ==> (last & 0x7f) == last) by (bit_vector);
    }
    let ghost w: Seq<u8> = if last >= 0x80 {
        v@.update(v@.len() - 1, (last - 0x80) as u8)
    } else {
        v@
    };
    assert(w[w.len() - 1] == top && w.len() == n);
    let mut mag: u64 = top as u64;
    let mut j: usize = n - 1;
    proof {
        assert(w.subrange(n - 1, n as int) =~= seq![top]);
        lemma_le_value_single(top);
    }
    while j > 0
        invariant
            0 <= j < n,
            mag == le_value(w.subrange(j as int, n as int)),
            mag < 0x80 * pow256((n - 1 - j) as nat),
        decreases j,
    {
        proof {
            lemma_pow256_pos((n - 1 - j) as nat);
            assert(pow256((n - j) as nat) == 256 * pow256((n - 1 - j) as nat));
            lemma_pow256_mono((n - j) as nat, 7);
            lemma_pow256_values();
            assert(mag * 256 + 255 < 0x80 * pow256((n - j) as nat)) by (nonlinear_arith)
                requires
                    mag < 0x80 * pow256((n - 1 - j) as nat),
                    pow256((n - j) as nat) == 256 * pow256((n - 1 - j) as nat),
            ;
            assert(0x80 * pow256((n - j) as nat) <= 0x80 * pow256(7)) by (nonlinear_arith)
                requires
                    pow256((n - j) as nat) <= pow256(7),
                    pow256((n - j) as nat) >= 1,
            ;
        }
        j = j - 1;
        let b = if j == n - 1 {
            top
        } else {
            v[j]
        };
        assert(b == w[j as int]);
        mag = mag * 256 + (b as u64);
        proof {
            assert(w.subrange(j as int, n as int).drop_first() =~= w.subrange(j + 1, n as int));
            assert(le_value(w.subrange(j as int, n as int)) == b + 256 * le_value(
                w.subrange(j + 1, n as int),
            ));
        }
    }
    proof {
        assert(w.subrange(0, n as int) =~= w);
        lemma_pow256_mono((n - 1) as nat, 7);
        lemma_pow256_values();
        assert(0x80 * pow256((n - 1) as nat) <= 0x80 * pow256(7)) by (nonlinear_arith)
            requires
                pow256((n - 1) as nat) <= pow256(7),
                pow256((n - 1) as nat) >= 1,
        ;
    }
    if last & 0x80 != 0 {
        proof {
            assert((last & 0x80 != 0) <==> last >= 0x80) by (bit_vector);
        }
        -(mag as i64)
    } else {
        proof {
            assert((last & 0x80 != 0) <==> last >= 0x80) by (bit_vector);
        }
        mag as i64
    }
}

/// Decodes an integer in script format with a flexible size limit and
/// minimality policy.
pub fn read_scriptint_size(v: &[u8], max_size: usize, minimal: bool) -> (r: Result<
    i64,
    ScriptIntError,
>)
    requires
        max_size <= 8,
    ensures
        r == spec_read_scriptint_size(v@, max_size as int, minimal),
{
    if v.len() > max_size {
        return Err(ScriptIntError::NumericOverflow);
    }
    if v.len() == 0 {
        return Ok(0);
    }
    if minimal {
        let last = v[v.len() - 1];
        proof {
            assert((last & 0x7f == 0) <==> last % 0x80 == 0) by (bit_vector);
        }
        if last & 0x7f == 0 {
            if v.len() <= 1 {
                return Err(ScriptIntError::NonMinimalPush);
            }
            let below = v[v.len() - 2];
            proof {
                assert((below & 0x80 == 0) <==> below < 0x80) by (bit_vector);
            }
            if below & 0x80 == 0 {
                return Err(ScriptIntError::NonMinimalPush);
            }
        }
    }
    Ok(scriptint_parse(v))
}

/// Decodes an integer in script format under the execution engine's default
/// policy surface, mapping the codec's errors into the engine's taxonomy.
pub fn read_scriptint(item: &[u8], size: usize, minimal: bool) -> (r: Result<i64, ExecError>)
    requires
        size <= 8,
    ensures
        r == spec_read_scriptint(item@, size as int, minimal),
{
    match read_scriptint_size(item, size, minimal) {
        Ok(n) => Ok(n),
        Err(ScriptIntError::NonMinimalPush) => Err(ExecError::MinimalData),
        Err(ScriptIntError::NumericOverflow) => Err(ExecError::ScriptIntNumericOverflow),
    }
}

} // verus!
