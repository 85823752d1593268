//! Character-level text model shared by the rest of the library.
//!
//! Strings are viewed as `Seq<char>`; the functions here give executable
//! counterparts (verified) of the spec-level operations that the chat
//! pipeline, the title logic and the UI helpers are specified with.
use vstd::prelude::*;

verus! {

pub assume_specification[ String::push ](s: &mut String, ch: char)
    ensures
        final(s)@ == old(s)@.push(ch),
;

pub assume_specification[ String::push_str ](s: &mut String, t: &str)
    ensures
        final(s)@ == old(s)@ + t@,
;

/// Whether `c` has the Unicode `White_Space` property, the predicate that
/// `char::is_whitespace`, `str::trim` and `str::split_whitespace` use.
pub open spec fn is_space(c: char) -> bool {
    ||| ('\u{9}' <= c && c <= '\u{d}')
    ||| c == ' '
    ||| c == '\u{85}'
    ||| c == '\u{a0}'
    ||| c == '\u{1680}'
    ||| ('\u{2000}' <= c && c <= '\u{200a}')
    ||| c == '\u{2028}'
    ||| c == '\u{2029}'
    ||| c == '\u{202f}'
    ||| c == '\u{205f}'
    ||| c == '\u{3000}'
}

pub fn is_whitespace_char(c: char) -> (r: bool)
    ensures
        r == is_space(c),
{
    ('\u{9}' <= c && c <= '\u{d}') || c == ' ' || c == '\u{85}' || c == '\u{a0}' || c
        == '\u{1680}' || ('\u{2000}' <= c && c <= '\u{200a}') || c == '\u{2028}' || c
        == '\u{2029}' || c == '\u{202f}' || c == '\u{205f}' || c == '\u{3000}'
}

/// Number of whitespace characters at the start of `s`.
pub open spec fn leading_spaces(s: Seq<char>) -> nat
    decreases s.len(),
{
    if s.len() > 0 && is_space(s[0]) {
        1 + leading_spaces(s.drop_first())
    } else {
        0
    }
}

/// Number of whitespace characters at the end of `s`.
pub open spec fn trailing_spaces(s: Seq<char>) -> nat
    decreases s.len(),
{
    if s.len() > 0 && is_space(s.last()) {
        1 + trailing_spaces(s.drop_last())
    } else {
        0
    }
}

/// `str::trim_start`.
pub open spec fn trim_start(s: Seq<char>) -> Seq<char> {
    s.skip(leading_spaces(s) as int)
}

/// `str::trim_end`.
pub open spec fn trim_end(s: Seq<char>) -> Seq<char> {
    s.take(s.len() - trailing_spaces(s))
}

/// `str::trim`.
pub open spec fn trim(s: Seq<char>) -> Seq<char> {
    trim_end(trim_start(s))
}

pub proof fn lemma_leading_spaces(s: Seq<char>, k: int)
    requires
        0 <= k <= s.len(),
        forall|j: int| 0 <= j < k ==> is_space(#[trigger] s[j]),
        k == s.len() || !is_space(s[k]),
    ensures
        leading_spaces(s) == k,
    decreases k,
{
    if k > 0 {
        let t = s.drop_first();
        assert forall|j: int| 0 <= j < k - 1 implies is_space(#[trigger] t[j]) by {
            assert(t[j] == s[j + 1]);
        }
        if k < s.len() {
            assert(t[k - 1] == s[k]);
        }
        lemma_leading_spaces(t, k - 1);
    }
}

pub proof fn lemma_trailing_spaces(s: Seq<char>, e: int)
    requires
        0 <= e <= s.len(),
        forall|j: int| e <= j < s.len() ==> is_space(#[trigger] s[j]),
        e == 0 || !is_space(s[e - 1]),
    ensures
        trailing_spaces(s) == s.len() - e,
    decreases s.len() - e,
{
    if e < s.len() {
        let t = s.drop_last();
        assert forall|j: int| e <= j < t.len() implies is_space(#[trigger] t[j]) by {
            assert(t[j] == s[j]);
        }
        if e > 0 {
            assert(t[e - 1] == s[e - 1]);
        }
        assert(is_space(s[s.len() - 1]));
        lemma_trailing_spaces(t, e);
    }
}

/// Whether `s` holds no character other than whitespace.
pub open spec fn is_blank(s: Seq<char>) -> bool {
    forall|i: int| 0 <= i < s.len() ==> is_space(#[trigger] s[i])
}

pub proof fn lemma_trim_empty_iff_blank(s: Seq<char>)
    ensures
        (trim(s).len() == 0) == is_blank(s),
{
    let k = leading_spaces(s);
    lemma_leading_count(s);
    if is_blank(s) {
        lemma_leading_spaces(s, s.len() as int);
    } else {
        let t = trim_start(s);
        assert(k < s.len());
        assert(!is_space(t[0]));
        lemma_trailing_bound(t);
    }
}

proof fn lemma_leading_count(s: Seq<char>)
    ensures
        leading_spaces(s) <= s.len(),
        forall|j: int| 0 <= j < leading_spaces(s) ==> is_space(#[trigger] s[j]),
        leading_spaces(s) == s.len() || !is_space(s[leading_spaces(s) as int]),
    decreases s.len(),
{
    if s.len() > 0 && is_space(s[0]) {
        let t = s.drop_first();
        lemma_leading_count(t);
        assert forall|j: int| 0 <= j < leading_spaces(s) implies is_space(#[trigger] s[j]) by {
            if j > 0 {
                assert(s[j] == t[j - 1]);
            }
        }
        if leading_spaces(s) < s.len() {
            assert(s[leading_spaces(s) as int] == t[leading_spaces(t) as int]);
        }
    }
}

proof fn lemma_trailing_bound(s: Seq<char>)
    requires
        s.len() > 0,
        !is_space(s[0]),
    ensures
        trailing_spaces(s) < s.len(),
    decreases s.len(),
{
    if is_space(s.last()) {
        assert(s.len() > 1);
        let t = s.drop_last();
        assert(t[0] == s[0]);
        lemma_trailing_bound(t);
    }
}

/// Copies `s[a..b]` into a new vector.
pub fn copy_range(s: &[char], a: usize, b: usize) -> (r: Vec<char>)
    requires
        a <= b <= s@.len(),
    ensures
        r@ == s@.subrange(a as int, b as int),
{
    let mut r: Vec<char> = Vec::new();
    let mut i = a;
    while i < b
        invariant
            a <= i <= b <= s@.len(),
            r@ == s@.subrange(a as int, i as int),
        decreases b - i,
    {
        r.push(s[i]);
        i += 1;
        assert(r@ =~= s@.subrange(a as int, i as int));
    }
    r
}

/// Index of the first non-whitespace character (or the length).
pub fn leading_space_count(s: &[char]) -> (k: usize)
    ensures
        k == leading_spaces(s@),
        k <= s@.len(),
{
    let mut k: usize = 0;
    while k < s.len() && is_whitespace_char(s[k])
        invariant
            k <= s@.len(),
            forall|j: int| 0 <= j < k ==> is_space(#[trigger] s@[j]),
        decreases s.len() - k,
    {
        k += 1;
    }
    proof {
        lemma_leading_spaces(s@, k as int);
    }
    k
}

/// Bounds `(a, b)` such that `s[a..b]` is `s` trimmed on both sides.
pub fn trim_bounds(s: &[char]) -> (r: (usize, usize))
    ensures
        r.0 <= r.1 <= s@.len(),
        s@.subrange(r.0 as int, r.1 as int) == trim(s@),
        r.0 == leading_spaces(s@),
{
    let a = leading_space_count(s);
    let mut e = s.len();
    while e > a && is_whitespace_char(s[e - 1])
        invariant
            a <= e <= s@.len(),
            forall|j: int| e <= j < s@.len() ==> is_space(#[trigger] s@[j]),
        decreases e,
    {
        e -= 1;
    }
    proof {
        let t = s@.skip(a as int);
        assert forall|j: int| e - a <= j < t.len() implies is_space(#[trigger] t[j]) by {
            assert(t[j] == s@[j + a]);
        }
        if e > a {
            assert(t[e - a - 1] == s@[e - 1]);
        }
        lemma_trailing_spaces(t, e - a);
        assert(trim(s@) =~= s@.subrange(a as int, e as int));
    }
    (a, e)
}

/// `s.trim()` on a character vector.
pub fn trim_chars(s: &[char]) -> (r: Vec<char>)
    ensures
        r@ == trim(s@),
{
    let (a, b) = trim_bounds(s);
    copy_range(s, a, b)
}

/// `s.trim_start()` on a character vector.
pub fn trim_start_chars(s: &[char]) -> (r: Vec<char>)
    ensures
        r@ == trim_start(s@),
{
    let a = leading_space_count(s);
    copy_range(s, a, s.len())
}

/// Whether `s` is blank, i.e. `s.trim().is_empty()`.
pub fn is_blank_chars(s: &[char]) -> (r: bool)
    ensures
        r == is_blank(s@),
        r == (trim(s@).len() == 0),
{
    let (a, b) = trim_bounds(s);
    proof {
        lemma_trim_empty_iff_blank(s@);
    }
    a == b
}

/// The characters of a string slice.
pub fn chars_of(s: &str) -> (r: Vec<char>)
    ensures
        r@ == s@,
{
    let mut r: Vec<char> = Vec::new();
    for c in it: s.chars()
        invariant
            r@ == it.seq().take(it.index() as int),
    {
        r.push(c);
    }
    proof {
        broadcast use vstd::string::axiom_spec_iter;

    }
    assert(r@ == s@);
    r
}

/// A string holding exactly the given characters.
pub fn string_of(cs: &[char]) -> (r: String)
    ensures
        r@ == cs@,
{
    let mut r = String::new();
    let mut i: usize = 0;
    while i < cs.len()
        invariant
            i <= cs.len(),
            r@ == cs@.take(i as int),
        decreases cs.len() - i,
    {
        r.push(cs[i]);
        i += 1;
        assert(r@ =~= cs@.take(i as int));
    }
    assert(cs@.take(cs.len() as int) =~= cs@);
    r
}

/// Appends the characters of `s` to `out`.
pub fn push_all(out: &mut Vec<char>, s: &[char])
    ensures
        final(out)@ == old(out)@ + s@,
{
    let mut i: usize = 0;
    while i < s.len()
        invariant
            i <= s.len(),
            out@ == old(out)@ + s@.take(i as int),
        decreases s.len() - i,
    {
        out.push(s[i]);
        i += 1;
        assert(out@ =~= old(out)@ + s@.take(i as int));
    }
    assert(s@.take(s.len() as int) =~= s@);
}

/// `s.trim_end_matches(c)`: `s` without the copies of `c` at its end.
pub open spec fn strip_trailing(s: Seq<char>, c: char) -> Seq<char>
    decreases s.len(),
{
    if s.len() > 0 && s.last() == c {
        strip_trailing(s.drop_last(), c)
    } else {
        s
    }
}

proof fn lemma_strip_trailing(s: Seq<char>, c: char, e: int)
    requires
        0 <= e <= s.len(),
        forall|j: int| e <= j < s.len() ==> #[trigger] s[j] == c,
        e == 0 || s[e - 1] != c,
    ensures
        strip_trailing(s, c) == s.take(e),
    decreases s.len() - e,
{
    if e < s.len() {
        let t = s.drop_last();
        assert forall|j: int| e <= j < t.len() implies #[trigger] t[j] == c by {
            assert(t[j] == s[j]);
        }
        if e > 0 {
            assert(t[e - 1] == s[e - 1]);
        }
        assert(s[s.len() - 1] == c);
        lemma_strip_trailing(t, c, e);
        assert(t.take(e) =~= s.take(e));
    } else {
        assert(s.take(e) =~= s);
    }
}

/// `s.trim_end_matches(c)` on a character vector.
pub fn strip_trailing_chars(s: &[char], c: char) -> (r: Vec<char>)
    ensures
        r@ == strip_trailing(s@, c),
{
    let mut e = s.len();
    while e > 0 && s[e - 1] == c
        invariant
            e <= s@.len(),
            forall|j: int| e <= j < s@.len() ==> #[trigger] s@[j] == c,
        decreases e,
    {
        e -= 1;
    }
    proof {
        lemma_strip_trailing(s@, c, e as int);
    }
    copy_range(s, 0, e)
}

/// `s` begins with `p`.
pub open spec fn starts_with(s: Seq<char>, p: Seq<char>) -> bool {
    p.len() <= s.len() && s.take(p.len() as int) == p
}

/// `s` ends with `p`.
pub open spec fn ends_with(s: Seq<char>, p: Seq<char>) -> bool {
    p.len() <= s.len() && s.skip(s.len() - p.len()) == p
}

pub fn starts_with_chars(s: &[char], p: &[char]) -> (r: bool)
    ensures
        r == starts_with(s@, p@),
{
    if p.len() > s.len() {
        return false;
    }
    let mut i: usize = 0;
    while i < p.len()
        invariant
            p@.len() <= s@.len(),
            i <= p@.len(),
            forall|j: int| 0 <= j < i ==> s@[j] == p@[j],
        decreases p.len() - i,
    {
        if s[i] != p[i] {
            assert(s@.take(p@.len() as int)[i as int] != p@[i as int]);
            return false;
        }
        i += 1;
    }
    assert(s@.take(p@.len() as int) =~= p@);
    true
}

pub fn ends_with_chars(s: &[char], p: &[char]) -> (r: bool)
    ensures
        r == ends_with(s@, p@),
{
    if p.len() > s.len() {
        return false;
    }
    let off = s.len() - p.len();
    let slen = s.len();
    let mut i: usize = 0;
    while i < p.len()
        invariant
            slen == s@.len(),
            p@.len() <= s@.len(),
            off == s@.len() - p@.len(),
            i <= p@.len(),
            forall|j: int| 0 <= j < i ==> s@[off + j] == p@[j],
        decreases p.len() - i,
    {
        if s[off + i] != p[i] {
            assert(s@.skip(off as int)[i as int] != p@[i as int]);
            return false;
        }
        i += 1;
    }
    assert(s@.skip(off as int) =~= p@);
    true
}

/// `s` holds `needle` as a contiguous part.
pub open spec fn contains_seq(s: Seq<char>, needle: Seq<char>) -> bool {
    exists|i: int|
        0 <= i && i + needle.len() <= s.len() && #[trigger] s.subrange(i, i + needle.len())
            == needle
}

/// Whether `needle` occurs in `s` starting at index `i`.
fn occurs_at(s: &[char], needle: &[char], i: usize) -> (r: bool)
    requires
        i + needle@.len() <= s@.len(),
    ensures
        r == (s@.subrange(i as int, i + needle@.len()) == needle@),
{
    let mut j: usize = 0;
    let slen = s.len();
    while j < needle.len()
        invariant
            slen == s@.len(),
            i + needle@.len() <= s@.len(),
            j <= needle@.len(),
            forall|k: int| 0 <= k < j ==> s@[i + k] == needle@[k],
        decreases needle.len() - j,
    {
        if s[i + j] != needle[j] {
            assert(s@.subrange(i as int, i + needle@.len())[j as int] != needle@[j as int]);
            return false;
        }
        j += 1;
    }
    assert(s@.subrange(i as int, i + needle@.len()) =~= needle@);
    true
}

pub fn contains_chars(s: &[char], needle: &[char]) -> (r: bool)
    ensures
        r == contains_seq(s@, needle@),
{
    if needle.len() > s.len() {
        return false;
    }
    let last = s.len() - needle.len();
    let mut i: usize = 0;
    while i <= last
        invariant
            i <= last,
            last == s@.len() - needle@.len(),
            needle@.len() <= s@.len(),
            forall|k: int|
                0 <= k < i ==> #[trigger] s@.subrange(k, k + needle@.len()) != needle@,
        decreases last - i,
    {
        if occurs_at(s, needle, i) {
            return true;
        }
        if i == last {
            return false;
        }
        i += 1;
    }
    false
}

/// ASCII lower-casing of one character (`char::to_ascii_lowercase`).
pub open spec fn lower_char(c: char) -> char {
    if 'A' <= c && c <= 'Z' {
        ((c as u32) + 32) as char
    } else {
        c
    }
}

/// ASCII upper-casing of one character (`char::to_ascii_uppercase`).
pub open spec fn upper_char(c: char) -> char {
    if 'a' <= c && c <= 'z' {
        ((c as u32) - 32) as char
    } else {
        c
    }
}

/// `str::to_ascii_lowercase`.
pub open spec fn ascii_lower(s: Seq<char>) -> Seq<char> {
    Seq::new(s.len(), |i: int| lower_char(s[i]))
}

pub fn lower_char_exec(c: char) -> (r: char)
    ensures
        r == lower_char(c),
{
    if 'A' <= c && c <= 'Z' {
        let b: u8 = c as u8;
        ((b + 32) as char)
    } else {
        c
    }
}

pub fn upper_char_exec(c: char) -> (r: char)
    ensures
        r == upper_char(c),
{
    if 'a' <= c && c <= 'z' {
        let b: u8 = c as u8;
        ((b - 32) as char)
    } else {
        c
    }
}

pub fn ascii_lower_chars(s: &[char]) -> (r: Vec<char>)
    ensures
        r@ == ascii_lower(s@),
{
    let mut r: Vec<char> = Vec::new();
    let mut i: usize = 0;
    while i < s.len()
        invariant
            i <= s@.len(),
            r@ == ascii_lower(s@).take(i as int),
        decreases s.len() - i,
    {
        r.push(lower_char_exec(s[i]));
        i += 1;
        assert(r@ =~= ascii_lower(s@).take(i as int));
    }
    assert(ascii_lower(s@).take(s@.len() as int) =~= ascii_lower(s@));
    r
}

/// The whitespace-separated words of the first `n` characters of `s`
/// (`str::split_whitespace` restricted to a prefix).
pub open spec fn words_upto(s: Seq<char>, n: int) -> Seq<Seq<char>>
    decreases n,
{
    if n <= 0 {
        seq![]
    } else {
        let w = words_upto(s, n - 1);
        let c = s[n - 1];
        if is_space(c) {
            w
        } else if n == 1 || is_space(s[n - 2]) || w.len() == 0 {
            w.push(seq![c])
        } else {
            w.update(w.len() - 1, w.last().push(c))
        }
    }
}

/// `str::split_whitespace`: the maximal runs of non-whitespace characters.
pub open spec fn words(s: Seq<char>) -> Seq<Seq<char>> {
    words_upto(s, s.len() as int)
}

proof fn lemma_words_upto_len(s: Seq<char>, n: int)
    requires
        0 <= n <= s.len(),
    ensures
        words_upto(s, n).len() <= n,
    decreases n,
{
    if n > 0 {
        lemma_words_upto_len(s, n - 1);
    }
}

pub proof fn lemma_words_len(s: Seq<char>)
    ensures
        words(s).len() <= s.len(),
{
    lemma_words_upto_len(s, s.len() as int);
}

/// The character sequences held by a vector of character vectors.
pub open spec fn seqs_of(v: Seq<Vec<char>>) -> Seq<Seq<char>> {
    Seq::new(v.len(), |i: int| v[i]@)
}

/// The words of `s`, as `split_whitespace` yields them.
pub fn split_words(s: &[char]) -> (r: Vec<Vec<char>>)
    ensures
        seqs_of(r@) == words(s@),
{
    let mut ws: Vec<Vec<char>> = Vec::new();
    let mut i: usize = 0;
    while i < s.len()
        invariant
            i <= s@.len(),
            seqs_of(ws@) == words_upto(s@, i as int),
        decreases s.len() - i,
    {
        let c = s[i];
        let ghost prev = seqs_of(ws@);
        if is_whitespace_char(c) {
        } else if i == 0 || is_whitespace_char(s[i - 1]) || ws.len() == 0 {
            let mut w: Vec<char> = Vec::new();
            w.push(c);
            ws.push(w);
            assert(seqs_of(ws@) =~= prev.push(seq![c]));
        } else {
            let mut w = ws.pop().unwrap();
            w.push(c);
            ws.push(w);
            assert(seqs_of(ws@) =~= prev.update(prev.len() - 1, prev.last().push(c)));
        }
        i += 1;
    }
    ws
}

/// `parts.join(sep)`.
pub open spec fn join(parts: Seq<Seq<char>>, sep: Seq<char>) -> Seq<char>
    decreases parts.len(),
{
    if parts.len() == 0 {
        seq![]
    } else if parts.len() == 1 {
        parts[0]
    } else {
        join(parts.drop_last(), sep) + sep + parts.last()
    }
}

/// Joins the first `n` parts with `sep`.
pub fn join_chars(parts: &Vec<Vec<char>>, n: usize, sep: &[char]) -> (r: Vec<char>)
    requires
        n <= parts@.len(),
    ensures
        r@ == join(seqs_of(parts@).take(n as int), sep@),
{
    let mut r: Vec<char> = Vec::new();
    let mut i: usize = 0;
    while i < n
        invariant
            i <= n <= parts@.len(),
            r@ == join(seqs_of(parts@).take(i as int), sep@),
        decreases n - i,
    {
        let ghost before = seqs_of(parts@).take(i as int);
        if i > 0 {
            push_all(&mut r, sep);
        }
        push_all(&mut r, parts[i].as_slice());
        i += 1;
        proof {
            let now = seqs_of(parts@).take(i as int);
            assert(now.drop_last() =~= before);
            assert(now.last() == parts[i - 1]@);
        }
    }
    r
}

/// `str::split_whitespace().collect::<Vec<_>>().join(" ")`.
pub open spec fn collapse_spaces(s: Seq<char>) -> Seq<char> {
    join(words(s), seq![' '])
}

pub fn collapse_whitespace_chars(s: &[char]) -> (r: Vec<char>)
    ensures
        r@ == collapse_spaces(s@),
{
    let ws = split_words(s);
    let sep = vec![' '];
    assert(sep@ =~= seq![' ']);
    let r = join_chars(&ws, ws.len(), sep.as_slice());
    assert(seqs_of(ws@).take(ws@.len() as int) =~= seqs_of(ws@));
    r
}

/// The decimal digit character for `d < 10`.
pub open spec fn digit_char(d: nat) -> char {
    (('0' as u32) + d) as char
}

/// Decimal representation of `n` (`n.to_string()`).
pub open spec fn decimal(n: nat) -> Seq<char>
    decreases n,
{
    if n < 10 {
        seq![digit_char(n)]
    } else {
        decimal(n / 10).push(digit_char(n % 10))
    }
}

/// Appends the decimal representation of `n`.
pub fn push_decimal(out: &mut Vec<char>, n: usize)
    ensures
        final(out)@ == old(out)@ + decimal(n as nat),
    decreases n,
{
    if n >= 10 {
        push_decimal(out, n / 10);
    }
    let d: u8 = (n % 10) as u8;
    let c = (48u8 + d) as char;
    assert(c == digit_char((n % 10) as nat));
    out.push(c);
    proof {
        if n < 10 {
            assert(old(out)@ + decimal(n as nat) =~= old(out)@.push(c));
        } else {
            assert(old(out)@ + decimal(n as nat) =~= (old(out)@ + decimal((n / 10) as nat)).push(c));
        }
    }
}

/// `input.trim()`.
pub fn trim_str(input: &str) -> (r: String)
    ensures
        r@ == trim(input@),
{
    let cs = chars_of(input);
    let t = trim_chars(cs.as_slice());
    string_of(t.as_slice())
}

/// `collapse_whitespace`: the words of `input` joined by single spaces.
pub fn collapse_whitespace(input: &str) -> (r: String)
    ensures
        r@ == collapse_spaces(input@),
{
    let cs = chars_of(input);
    let c = collapse_whitespace_chars(cs.as_slice());
    string_of(c.as_slice())
}

/// `truncate_chars`: the first `max_chars` characters of `input`.
pub fn truncate_chars(input: &str, max_chars: usize) -> (r: String)
    ensures
        r@ == input@.take(if max_chars < input@.len() { max_chars as int } else { input@.len() as int }),
{
    let cs = chars_of(input);
    let n = if max_chars < cs.len() {
        max_chars
    } else {
        cs.len()
    };
    let t = copy_range(cs.as_slice(), 0, n);
    string_of(t.as_slice())
}

/// `input.trim_end_matches(c)`.
pub fn strip_trailing_str(input: &str, c: char) -> (r: String)
    ensures
        r@ == strip_trailing(input@, c),
{
    let cs = chars_of(input);
    let t = strip_trailing_chars(cs.as_slice(), c);
    string_of(t.as_slice())
}

/// Whether `s` ends with `suffix`.
pub fn ends_with_str(s: &str, suffix: &str) -> (r: bool)
    ensures
        r == ends_with(s@, suffix@),
{
    let a = chars_of(s);
    let b = chars_of(suffix);
    ends_with_chars(a.as_slice(), b.as_slice())
}

/// Whether `s` contains `needle`.
pub fn contains_str(s: &str, needle: &str) -> (r: bool)
    ensures
        r == contains_seq(s@, needle@),
{
    let a = chars_of(s);
    let b = chars_of(needle);
    contains_chars(a.as_slice(), b.as_slice())
}

/// The decimal representation of `n` (`n.to_string()`).
pub fn decimal_string(n: usize) -> (r: String)
    ensures
        r@ == decimal(n as nat),
{
    let mut v: Vec<char> = Vec::new();
    push_decimal(&mut v, n);
    assert(v@ =~= decimal(n as nat));
    string_of(v.as_slice())
}

/// `s.trim().is_empty()`.
pub fn is_blank_str(s: &str) -> (r: bool)
    ensures
        r == is_blank(s@),
        r == (trim(s@).len() == 0),
{
    let cs = chars_of(s);
    is_blank_chars(cs.as_slice())
}

} // verus!
