//! Parsing an instruction word as a signed 64-bit decimal integer: an
//! optional `+` or `-` sign, then one or more decimal digits, with the value
//! in the range of `i64`.
use vstd::prelude::*;

verus! {

/// Whether `c` is a decimal digit.
pub open spec fn is_dec_digit(c: char) -> bool {
    48 <= c as u32 && c as u32 <= 57
}

/// The value of a string of decimal digits, most significant first.
pub open spec fn digits_value(s: Seq<char>) -> int
    decreases s.len(),
{
    if s.len() == 0 {
        0
    } else {
        digits_value(s.drop_last()) * 10 + (s.last() as u32 - 48)
    }
}

/// The digits of a candidate integer word: everything after one optional
/// leading `+` or `-`.
pub open spec fn int_body(s: Seq<char>) -> Seq<char> {
    if s.len() >= 1 && (s[0] == '+' || s[0] == '-') {
        s.drop_first()
    } else {
        s
    }
}

/// Whether the word is negative: a leading `-`.
pub open spec fn int_negative(s: Seq<char>) -> bool {
    s.len() >= 1 && s[0] == '-'
}

/// Whether a word is a valid decimal `i64`: an optional sign, at least one
/// digit, nothing else, and a value within the range of `i64`.
pub open spec fn is_i64_string(s: Seq<char>) -> bool {
    let b = int_body(s);
    b.len() >= 1 && (forall|i: int| 0 <= i < b.len() ==> is_dec_digit(b[i])) && (if int_negative(s) {
        digits_value(b) <= 0x8000_0000_0000_0000
    } else {
        digits_value(b) <= 0x7FFF_FFFF_FFFF_FFFF
    })
}

/// The value of a valid decimal `i64` word.
pub open spec fn i64_string_value(s: Seq<char>) -> int {
    if int_negative(s) {
        -digits_value(int_body(s))
    } else {
        digits_value(int_body(s))
    }
}

proof fn lemma_digits_nonneg(s: Seq<char>)
    requires
        forall|i: int| 0 <= i < s.len() ==> is_dec_digit(s[i]),
    ensures
        digits_value(s) >= 0,
    decreases s.len(),
{
    if s.len() > 0 {
        assert(forall|i: int|
            0 <= i < s.drop_last().len() ==> is_dec_digit(#[trigger] s.drop_last()[i]));
        lemma_digits_nonneg(s.drop_last());
    }
}

proof fn lemma_digits_prefix_le(s: Seq<char>, k: int)
    requires
        forall|i: int| 0 <= i < s.len() ==> is_dec_digit(s[i]),
        0 <= k <= s.len(),
    ensures
        digits_value(s.take(k)) <= digits_value(s),
    decreases s.len() - k,
{
    if k < s.len() {
        lemma_digits_prefix_le(s, k + 1);
        assert(s.take(k + 1).drop_last() =~= s.take(k));
        assert(forall|i: int| 0 <= i < s.take(k).len() ==> is_dec_digit(#[trigger] s.take(k)[i]));
        lemma_digits_nonneg(s.take(k));
        assert(digits_value(s.take(k + 1)) == digits_value(s.take(k)) * 10 + (s[k] as u32 - 48));
        assert(digits_value(s.take(k)) * 10 >= digits_value(s.take(k))) by (nonlinear_arith)
            requires
                digits_value(s.take(k)) >= 0,
        ;
    } else {
        assert(s.take(k) =~= s);
    }
}

/// Parse a word as a signed 64-bit decimal integer; yields nothing exactly
/// when the word is not a valid decimal `i64`.
pub fn parse_i64_chars(w: &Vec<char>) -> (r: Option<i64>)
    ensures
        r is Some <==> is_i64_string(w@),
        r is Some ==> r.unwrap() as int == i64_string_value(w@),
{
    let ghost s = w@;
    let mut start: usize = 0;
    let mut neg: bool = false;
    if w.len() >= 1 && (w[0] == '+' || w[0] == '-') {
        start = 1;
        neg = w[0] == '-';
    }
    let ghost b = int_body(s);
    proof {
        assert(b =~= s.subrange(start as int, s.len() as int));
    }
    let n = w.len();
    if start >= n {
        return None;
    }
    let limit: u64 = if neg {
        0x8000_0000_0000_0000
    } else {
        0x7FFF_FFFF_FFFF_FFFF
    };
    let mut acc: u64 = 0;
    let mut k: usize = start;
    while k < n
        invariant
            start <= k <= n,
            n == s.len(),
            w@ == s,
            start <= 1,
            b == s.subrange(start as int, n as int),
            forall|i: int| 0 <= i < k - start ==> is_dec_digit(b[i]),
            acc as int == digits_value(b.take(k - start)),
            acc <= limit,
            limit == if neg {
                0x8000_0000_0000_0000u64
            } else {
                0x7FFF_FFFF_FFFF_FFFFu64
            },
        decreases n - k,
    {
        let c = w[k];
        let cv = c as u32;
        if cv < 48 || cv > 57 {
            assert(!is_dec_digit(b[k - start]));
            return None;
        }
        let d = (cv - 48) as u64;
        proof {
            assert(b.take(k + 1 - start).drop_last() =~= b.take(k - start));
            assert(digits_value(b.take(k + 1 - start)) == acc * 10 + d);
        }
        if acc > (limit - d) / 10 {
            proof {
                assert(acc * 10 + d > limit) by (nonlinear_arith)
                    requires
                        acc > (limit - d) / 10,
                        acc >= 0,
                        0 <= d <= 9,
                        limit >= d,
                ;
                assert(forall|i: int| 0 <= i < k + 1 - start ==> is_dec_digit(b[i]));
                assert(forall|i: int|
                    k + 1 - start <= i < b.len() ==> is_dec_digit(b[i]) == is_dec_digit(
                        s[i + start],
                    ));
                if forall|i: int| 0 <= i < b.len() ==> is_dec_digit(b[i]) {
                    lemma_digits_prefix_le(b, k + 1 - start);
                    assert(digits_value(b) > limit);
                }
            }
            return None;
        }
        proof {
            assert(acc * 10 + d <= limit) by (nonlinear_arith)
                requires
                    acc <= (limit - d) / 10,
                    acc >= 0,
                    0 <= d <= 9,
                    limit >= d,
            ;
        }
        acc = acc * 10 + d;
        k = k + 1;
    }
    proof {
        assert(b.take(n - start) =~= b);
        assert(is_i64_string(s));
    }
    if neg {
        if acc == 0x8000_0000_0000_0000 {
            Some(i64::MIN)
        } else {
            Some(-(acc as i64))
        }
    } else {
        Some(acc as i64)
    }
}

} // verus!
