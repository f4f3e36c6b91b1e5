//! The ASM tokenizer: splits raw text into positioned words, stripping
//! comments. Per line the content is the prefix before the first `#` or
//! `//`; the content is split on runs of whitespace, and every word carries
//! its zero-based (line, word) position.
use vstd::prelude::*;
use vstd::string::StrSliceExecFns;

verus! {

/// A positioned instruction word: `line` and `word` are zero-based, the word
/// index restarts on every line.
pub struct Word {
    /// Zero-based line index.
    pub line: usize,
    /// Zero-based word index within the line.
    pub word: usize,
    /// The characters of the word.
    pub text: Vec<char>,
}

/// The mathematical image of a `Word`.
pub ghost struct Token {
    /// Zero-based line index.
    pub line: int,
    /// Zero-based word index within the line.
    pub word: int,
    /// The characters of the word.
    pub text: Seq<char>,
}

impl View for Word {
    type V = Token;

    open spec fn view(&self) -> Token {
        Token { line: self.line as int, word: self.word as int, text: self.text@ }
    }
}

/// Whitespace that separates words within a line.
pub open spec fn is_ws(c: char) -> bool {
    c == ' ' || c == '\t' || c == '\r' || c == '\x0b' || c == '\x0c'
}

fn is_ws_char(c: char) -> (b: bool)
    ensures
        b == is_ws(c),
{
    c == ' ' || c == '\t' || c == '\r' || c == '\x0b' || c == '\x0c'
}

/// Whether the character at `i` ends a word: a line break, whitespace, or
/// the start of a comment (`#` anywhere, or `//`).
pub open spec fn ends_word(s: Seq<char>, i: int) -> bool {
    s[i] == '\n' || is_ws(s[i]) || s[i] == '#' || (s[i] == '/' && i + 1 < s.len() && s[i + 1]
        == '/')
}

/// The index just past the word starting at `i`: the first position at or
/// after `i` that ends a word, or the end of the text.
pub open spec fn word_end(s: Seq<char>, i: int) -> int
    decreases s.len() - i,
{
    if i < 0 || i >= s.len() {
        i
    } else if ends_word(s, i) {
        i
    } else {
        word_end(s, i + 1)
    }
}

proof fn lemma_word_end_bounds(s: Seq<char>, i: int)
    requires
        0 <= i <= s.len(),
    ensures
        i <= word_end(s, i) <= s.len(),
    decreases s.len() - i,
{
    if i < s.len() && !ends_word(s, i) {
        lemma_word_end_bounds(s, i + 1);
    }
}

/// The words of the text from position `i` on, with their positions, given
/// the current line index, the word index within that line, and whether the
/// rest of the current line is inside a comment.
pub open spec fn scan_words(s: Seq<char>, i: int, line: int, word: int, comment: bool) -> Seq<
    Token,
>
    decreases s.len() - i,
{
    if i < 0 || i >= s.len() {
        seq![]
    } else if s[i] == '\n' {
        scan_words(s, i + 1, line + 1, 0, false)
    } else if comment {
        scan_words(s, i + 1, line, word, true)
    } else if s[i] == '#' || (s[i] == '/' && i + 1 < s.len() && s[i + 1] == '/') {
        scan_words(s, i + 1, line, word, true)
    } else if is_ws(s[i]) {
        scan_words(s, i + 1, line, word, false)
    } else {
        let j = word_end(s, i);
        seq![Token { line, word, text: s.subrange(i, j) }] + scan_words(
            s,
            if i < j && j <= s.len() {
                j
            } else {
                i + 1
            },
            line,
            word + 1,
            false,
        )
    }
}

/// The positioned words of a text, in order.
pub open spec fn tokens_of(s: Seq<char>) -> Seq<Token> {
    scan_words(s, 0, 0, 0, false)
}

fn chars_of(s: &str) -> (r: Vec<char>)
    ensures
        r@ == s@,
{
    let n = s.unicode_len();
    let mut r: Vec<char> = Vec::new();
    let mut i: usize = 0;
    while i < n
        invariant
            i <= n,
            n == s@.len(),
            r@ == s@.subrange(0, i as int),
        decreases n - i,
    {
        r.push(s.get_char(i));
        i = i + 1;
        proof {
            assert(r@ =~= s@.subrange(0, i as int));
        }
    }
    proof {
        assert(r@ =~= s@);
    }
    r
}

/// Produce the instruction words of the text and their positions, in order.
pub fn iter_words(input: &str) -> (r: Vec<Word>)
    ensures
        r@.map_values(|w: Word| w@) == tokens_of(input@),
{
    let ghost s = input@;
    let cs = chars_of(input);
    let n = cs.len();
    let mut r: Vec<Word> = Vec::new();
    let mut i: usize = 0;
    let mut line: usize = 0;
    let mut word: usize = 0;
    let mut comment: bool = false;
    while i < n
        invariant
            i <= n,
            n == s.len(),
            cs@ == s,
            line <= i,
            word <= i,
            r@.map_values(|w: Word| w@) + scan_words(s, i as int, line as int, word as int, comment)
                == tokens_of(s),
        decreases n - i,
    {
        let ghost r_pre = r@;
        let c = cs[i];
        if c == '\n' {
            i = i + 1;
            line = line + 1;
            word = 0;
            comment = false;
        } else if comment {
            i = i + 1;
        } else if c == '#' || (c == '/' && i + 1 < n && cs[i + 1] == '/') {
            comment = true;
            i = i + 1;
        } else if is_ws_char(c) {
            i = i + 1;
        } else {
            assert(!ends_word(s, i as int));
            let start = i;
            let mut j = i;
            while j < n && !(cs[j] == '\n' || is_ws_char(cs[j]) || cs[j] == '#' || (cs[j] == '/' &&
            j + 1 < n && cs[j + 1] == '/'))
                invariant
                    start <= j <= n,
                    n == s.len(),
                    cs@ == s,
                    word_end(s, start as int) == word_end(s, j as int),
                decreases n - j,
            {
                assert(!ends_word(s, j as int));
                j = j + 1;
            }
            assert(word_end(s, j as int) == j);
            proof {
                lemma_word_end_bounds(s, start as int);
            }
            let mut text: Vec<char> = Vec::new();
            let mut k = start;
            while k < j
                invariant
                    start <= k <= j <= n,
                    cs@ == s,
                    text@ == s.subrange(start as int, k as int),
                decreases j - k,
            {
                text.push(cs[k]);
                k = k + 1;
                proof {
                    assert(text@ =~= s.subrange(start as int, k as int));
                }
            }
            let w = Word { line, word, text };
            proof {
                assert(scan_words(s, start as int, line as int, word as int, false) == seq![w@]
                    + scan_words(s, j as int, line as int, word as int + 1, false));
            }
            r.push(w);
            word = word + 1;
            i = j;
            proof {
                assert(r@.map_values(|x: Word| x@) =~= r_pre.map_values(|x: Word| x@) + seq![w@]);
                assert(r@.map_values(|x: Word| x@) + scan_words(
                    s,
                    i as int,
                    line as int,
                    word as int,
                    comment,
                ) =~= tokens_of(s));
            }
        }
    }
    proof {
        assert(scan_words(s, n as int, line as int, word as int, comment) =~= Seq::<
            Token,
        >::empty());
        assert(r@.map_values(|w: Word| w@) =~= tokens_of(s));
    }
    r
}

} // verus!
