use vstd::prelude::*;
use vstd::string::*;

verus! {

/// The characters that separate words on a command line.
pub open spec fn is_ws(c: char) -> bool {
    c == ' ' || c == '\t' || c == '\n' || c == '\r' || c == '\x0b' || c == '\x0c'
}

/// The first index at or after `i` that holds no whitespace, or the length.
pub open spec fn skip_ws(s: Seq<char>, i: int) -> int
    decreases s.len() - i,
{
    if i >= s.len() {
        s.len() as int
    } else if is_ws(s[i]) {
        skip_ws(s, i + 1)
    } else {
        i
    }
}

/// The first index at or after `i` that holds whitespace, or the length.
pub open spec fn word_end(s: Seq<char>, i: int) -> int
    decreases s.len() - i,
{
    if i >= s.len() {
        s.len() as int
    } else if is_ws(s[i]) {
        i
    } else {
        word_end(s, i + 1)
    }
}

/// The end of `s[lo..hi]` once trailing whitespace is dropped.
pub open spec fn trim_end(s: Seq<char>, lo: int, hi: int) -> int
    decreases hi - lo,
{
    if hi <= lo {
        lo
    } else if is_ws(s[hi - 1]) {
        trim_end(s, lo, hi - 1)
    } else {
        hi
    }
}

/// Where the `k`-th whitespace-separated word of `s` starts (the length if there is none).
pub open spec fn tok_start(s: Seq<char>, k: nat) -> int
    decreases k,
{
    if k == 0 {
        skip_ws(s, 0)
    } else {
        skip_ws(s, word_end(s, tok_start(s, (k - 1) as nat)))
    }
}

/// Whether `s` has a `k`-th word.
pub open spec fn has_tok(s: Seq<char>, k: nat) -> bool {
    tok_start(s, k) < s.len()
}

/// The `k`-th word of `s`.
pub open spec fn tok(s: Seq<char>, k: nat) -> Seq<char> {
    s.subrange(tok_start(s, k), word_end(s, tok_start(s, k)))
}

/// `s` from its `k`-th word on, without trailing whitespace.
pub open spec fn rest(s: Seq<char>, k: nat) -> Seq<char> {
    s.subrange(tok_start(s, k), trim_end(s, tok_start(s, k), s.len() as int))
}

/// The value of a run of decimal digits.
pub open spec fn digits_value(s: Seq<char>) -> nat
    decreases s.len(),
{
    if s.len() == 0 {
        0
    } else {
        digits_value(s.drop_last()) * 10 + ((s.last() as nat) - ('0' as nat)) as nat
    }
}

pub open spec fn all_digits(s: Seq<char>) -> bool {
    forall|i: int| 0 <= i < s.len() ==> '0' <= #[trigger] s[i] <= '9'
}

/// The digits of `s` after an optional leading `+`.
pub open spec fn unsigned_digits(s: Seq<char>) -> Seq<char> {
    if s.len() > 0 && s[0] == '+' {
        s.drop_first()
    } else {
        s
    }
}

/// The `usize` that `s` spells in decimal: an optional `+`, then at least one digit,
/// with a value that fits.
pub open spec fn usize_text(s: Seq<char>) -> Option<usize> {
    let d = unsigned_digits(s);
    if d.len() > 0 && all_digits(d) && digits_value(d) <= usize::MAX {
        Some(digits_value(d) as usize)
    } else {
        None
    }
}

pub fn is_ws_char(c: char) -> (r: bool)
    ensures
        r == is_ws(c),
{
    c == ' ' || c == '\t' || c == '\n' || c == '\r' || c == '\x0b' || c == '\x0c'
}

/// The characters of `s`.
pub fn chars_of(s: &str) -> (r: Vec<char>)
    ensures
        r@ == s@,
{
    let n = s.unicode_len();
    let mut out: Vec<char> = Vec::new();
    let mut i: usize = 0;
    while i < n
        invariant
            n == s@.len(),
            i <= n,
            out@ == s@.subrange(0, i as int),
        decreases n - i,
    {
        out.push(s.get_char(i));
        i = i + 1;
        assert(out@ =~= s@.subrange(0, i as int));
    }
    assert(out@ =~= s@);
    out
}

pub fn skip_ws_at(s: &Vec<char>, i: usize) -> (r: usize)
    requires
        i <= s@.len(),
    ensures
        r == skip_ws(s@, i as int),
{
    let mut j = i;
    while j < s.len() && is_ws_char(s[j])
        invariant
            i <= j <= s@.len(),
            skip_ws(s@, i as int) == skip_ws(s@, j as int),
        decreases s@.len() - j,
    {
        j = j + 1;
    }
    j
}

pub fn word_end_at(s: &Vec<char>, i: usize) -> (r: usize)
    requires
        i <= s@.len(),
    ensures
        r == word_end(s@, i as int),
{
    let mut j = i;
    while j < s.len() && !is_ws_char(s[j])
        invariant
            i <= j <= s@.len(),
            word_end(s@, i as int) == word_end(s@, j as int),
        decreases s@.len() - j,
    {
        j = j + 1;
    }
    j
}

pub fn trim_end_at(s: &Vec<char>, lo: usize, hi: usize) -> (r: usize)
    requires
        lo <= hi <= s@.len(),
    ensures
        r == trim_end(s@, lo as int, hi as int),
        lo <= r <= hi,
{
    let mut j = hi;
    while j > lo && is_ws_char(s[j - 1])
        invariant
            lo <= j <= hi,
            hi <= s@.len(),
            trim_end(s@, lo as int, hi as int) == trim_end(s@, lo as int, j as int),
        decreases j,
    {
        j = j - 1;
    }
    j
}

proof fn lemma_skip_ws_bounds(s: Seq<char>, i: int)
    requires
        0 <= i <= s.len(),
    ensures
        i <= skip_ws(s, i) <= s.len(),
    decreases s.len() - i,
{
    if i < s.len() && is_ws(s[i]) {
        lemma_skip_ws_bounds(s, i + 1);
    }
}

proof fn lemma_word_end_bounds(s: Seq<char>, i: int)
    requires
        0 <= i <= s.len(),
    ensures
        i <= word_end(s, i) <= s.len(),
    decreases s.len() - i,
{
    if i < s.len() && !is_ws(s[i]) {
        lemma_word_end_bounds(s, i + 1);
    }
}

pub proof fn lemma_tok_start_bounds(s: Seq<char>, k: nat)
    ensures
        0 <= tok_start(s, k) <= s.len(),
        0 <= tok_start(s, k) <= word_end(s, tok_start(s, k)) <= s.len(),
    decreases k,
{
    if k == 0 {
        lemma_skip_ws_bounds(s, 0);
    } else {
        lemma_tok_start_bounds(s, (k - 1) as nat);
        let p = tok_start(s, (k - 1) as nat);
        lemma_word_end_bounds(s, p);
        lemma_skip_ws_bounds(s, word_end(s, p));
    }
    lemma_word_end_bounds(s, tok_start(s, k));
}

/// A line with a word after the `k`-th has a `k`-th word.
pub proof fn lemma_has_tok_earlier(s: Seq<char>, k: nat)
    ensures
        has_tok(s, k + 1) ==> has_tok(s, k),
{
    lemma_tok_start_bounds(s, k);
    let p = tok_start(s, k);
    if p >= s.len() {
        assert(word_end(s, p) == s.len());
        assert(skip_ws(s, s.len() as int) == s.len());
    }
}

/// Where the `k`-th word of `s` starts and ends.
pub fn token_span(s: &Vec<char>, k: usize) -> (r: (usize, usize))
    ensures
        r.0 == tok_start(s@, k as nat),
        r.1 == word_end(s@, tok_start(s@, k as nat)),
        r.0 <= r.1 <= s@.len(),
{
    proof {
        lemma_tok_start_bounds(s@, 0);
    }
    let mut start = skip_ws_at(s, 0);
    let mut i: usize = 0;
    while i < k
        invariant
            i <= k,
            start == tok_start(s@, i as nat),
            start <= s@.len(),
        decreases k - i,
    {
        proof {
            lemma_tok_start_bounds(s@, i as nat);
            lemma_tok_start_bounds(s@, (i + 1) as nat);
        }
        let e = word_end_at(s, start);
        start = skip_ws_at(s, e);
        i = i + 1;
    }
    proof {
        lemma_tok_start_bounds(s@, k as nat);
    }
    let end = word_end_at(s, start);
    (start, end)
}

/// The `k`-th word of `line`, if it has one.
pub fn token(line: &str, chars: &Vec<char>, k: usize) -> (r: Option<String>)
    requires
        chars@ == line@,
    ensures
        has_tok(line@, k as nat) ==> (r matches Some(t) && t@ == tok(line@, k as nat)),
        !has_tok(line@, k as nat) ==> r is None,
{
    let (a, b) = token_span(chars, k);
    if a < chars.len() {
        Some(String::from_str(line.substring_char(a, b)))
    } else {
        None
    }
}

/// `line` from its `k`-th word on, without trailing whitespace.
pub fn rest_from(line: &str, chars: &Vec<char>, k: usize) -> (r: String)
    requires
        chars@ == line@,
    ensures
        r@ == rest(line@, k as nat),
{
    let (a, _b) = token_span(chars, k);
    let e = trim_end_at(chars, a, chars.len());
    String::from_str(line.substring_char(a, e))
}

proof fn lemma_digits_monotone(s: Seq<char>, i: int, j: int)
    requires
        0 <= i <= j <= s.len(),
        all_digits(s),
    ensures
        digits_value(s.subrange(0, i)) <= digits_value(s.subrange(0, j)),
    decreases j - i,
{
    if i < j {
        lemma_digits_monotone(s, i, j - 1);
        assert(s.subrange(0, j).drop_last() =~= s.subrange(0, j - 1));
    }
}

/// The `usize` that `s` spells in decimal, as `str::parse` reads it.
pub fn parse_usize(s: &str) -> (r: Option<usize>)
    ensures
        r == usize_text(s@),
{
    let c = chars_of(s);
    let n = c.len();
    let mut i: usize = 0;
    if n > 0 && c[0] == '+' {
        i = 1;
    }
    let ghost d = unsigned_digits(s@);
    assert(d =~= c@.subrange(i as int, n as int));
    if i == n {
        return None;
    }
    let start = i;
    let mut acc: usize = 0;
    while i < n
        invariant
            start <= i <= n,
            n == c@.len(),
            d == c@.subrange(start as int, n as int),
            d == unsigned_digits(s@),
            c@ == s@,
            acc == digits_value(d.subrange(0, i - start)),
            all_digits(d.subrange(0, i - start)),
        decreases n - i,
    {
        let ch = c[i];
        if ch < '0' || ch > '9' {
            assert(d[i - start] == c@[i as int]);
            assert(!('0' <= d[i - start] <= '9'));
            return None;
        }
        let dv = (ch as u32 - '0' as u32) as usize;
        assert(d.subrange(0, i + 1 - start).drop_last() =~= d.subrange(0, i - start));
        assert(d.subrange(0, i + 1 - start).last() == ch);
        assert(digits_value(d.subrange(0, i + 1 - start)) == acc * 10 + dv);
        if acc > (usize::MAX - dv) / 10 {
            proof {
                assert(all_digits(d.subrange(0, i + 1 - start)));
                assert(acc * 10 + dv > usize::MAX) by (nonlinear_arith)
                    requires
                        acc > (usize::MAX - dv) / 10,
                        dv <= 9,
                ;
                if all_digits(d) {
                    lemma_digits_monotone(d, i + 1 - start, d.len() as int);
                    assert(d.subrange(0, d.len() as int) =~= d);
                }
            }
            return None;
        }
        assert(acc * 10 + dv <= usize::MAX) by (nonlinear_arith)
            requires
                acc <= (usize::MAX - dv) / 10,
                dv <= 9,
        ;
        acc = acc * 10 + dv;
        i = i + 1;
        assert(all_digits(d.subrange(0, i - start)));
    }
    assert(d.subrange(0, n - start) =~= d);
    Some(acc)
}

/// The lower-case form of an ASCII character.
pub open spec fn ascii_lower(c: char) -> char {
    if 'A' <= c <= 'Z' {
        ((c as u32) + 32) as char
    } else {
        c
    }
}

/// Every character of `s` is ASCII.
pub open spec fn all_ascii(s: Seq<char>) -> bool {
    forall|i: int| 0 <= i < s.len() ==> (#[trigger] s[i] as u32) < 128
}

/// Relies on str::to_lowercase: the result depends on the characters alone, and ASCII
/// text maps letter by letter to its ASCII lower case (Unicode's case mapping agrees there).
#[verifier::external_body]
pub(crate) fn lowercase(s: &str) -> (r: String)
    ensures
        r@ == lower_of(s@),
        all_ascii(s@) ==> r@ == s@.map_values(|c: char| ascii_lower(c)),
{
    s.to_lowercase()
}

/// The lower-case form of `s`, as Unicode defines it.
pub uninterp spec fn lower_of(s: Seq<char>) -> Seq<char>;

} // verus!
