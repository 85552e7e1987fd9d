//! Character-level text model shared by the SIP builders and parsers.
//!
//! Strings are specified by their `Seq<char>` view.  Executable helpers read a
//! `&str` into a `Vec<char>`, search it by index, and build `String`s by
//! appending.  Index-based spec functions (`skip_ws`, `find_char`, ...) mirror
//! the scanning loops one step at a time.
use vstd::prelude::*;
use vstd::utf8::*;

verus! {

// ---------------------------------------------------------------------------
// Characters
// ---------------------------------------------------------------------------

/// ASCII lowercase of one character (other characters are kept).
pub open spec fn lower(c: char) -> char {
    if 'A' <= c && c <= 'Z' {
        ((c as u32) + 32) as char
    } else {
        c
    }
}

/// ASCII uppercase of one character (other characters are kept).
pub open spec fn upper(c: char) -> char {
    if 'a' <= c && c <= 'z' {
        ((c as u32) - 32) as char
    } else {
        c
    }
}

/// ASCII lowercase of a character sequence.
pub open spec fn lower_seq(s: Seq<char>) -> Seq<char> {
    s.map_values(|c: char| lower(c))
}

/// ASCII uppercase of a character sequence.
pub open spec fn upper_seq(s: Seq<char>) -> Seq<char> {
    s.map_values(|c: char| upper(c))
}

pub open spec fn is_ascii_digit(c: char) -> bool {
    '0' <= c && c <= '9'
}

pub open spec fn is_ascii_alpha(c: char) -> bool {
    ('a' <= c && c <= 'z') || ('A' <= c && c <= 'Z')
}

pub open spec fn is_ascii_alnum(c: char) -> bool {
    is_ascii_digit(c) || is_ascii_alpha(c)
}

/// The Unicode `White_Space` property, which `char::is_whitespace` and
/// `str::trim` go by.
pub open spec fn is_ws(c: char) -> bool {
    let u = c as u32;
    ||| (0x09 <= u && u <= 0x0d)
    ||| u == 0x20
    ||| u == 0x85
    ||| u == 0xa0
    ||| u == 0x1680
    ||| (0x2000 <= u && u <= 0x200a)
    ||| u == 0x2028
    ||| u == 0x2029
    ||| u == 0x202f
    ||| u == 0x205f
    ||| u == 0x3000
}

pub fn char_lower(c: char) -> (r: char)
    ensures
        r == lower(c),
{
    if c >= 'A' && c <= 'Z' {
        let b: u8 = c as u8;
        (b + 32) as char
    } else {
        c
    }
}

pub fn char_upper(c: char) -> (r: char)
    ensures
        r == upper(c),
{
    if c >= 'a' && c <= 'z' {
        let b: u8 = c as u8;
        (b - 32) as char
    } else {
        c
    }
}

pub fn char_is_ws(c: char) -> (r: bool)
    ensures
        r == is_ws(c),
{
    let u: u32 = c as u32;
    (0x09 <= u && u <= 0x0d) || u == 0x20 || u == 0x85 || u == 0xa0 || u == 0x1680 || (0x2000 <= u
        && u <= 0x200a) || u == 0x2028 || u == 0x2029 || u == 0x202f || u == 0x205f || u == 0x3000
}

pub fn char_is_ascii_alnum(c: char) -> (r: bool)
    ensures
        r == is_ascii_alnum(c),
{
    (c >= '0' && c <= '9') || (c >= 'a' && c <= 'z') || (c >= 'A' && c <= 'Z')
}

// ---------------------------------------------------------------------------
// Index-based scanning specs
// ---------------------------------------------------------------------------

/// First index in `[lo, hi)` whose character is not whitespace, or `hi`.
pub open spec fn skip_ws(s: Seq<char>, lo: int, hi: int) -> int
    decreases hi - lo,
{
    if lo >= hi {
        hi
    } else if is_ws(s[lo]) {
        skip_ws(s, lo + 1, hi)
    } else {
        lo
    }
}

/// One past the last index in `[lo, hi)` whose character is not whitespace, or `lo`.
pub open spec fn back_ws(s: Seq<char>, lo: int, hi: int) -> int
    decreases hi - lo,
{
    if hi <= lo {
        lo
    } else if is_ws(s[hi - 1]) {
        back_ws(s, lo, hi - 1)
    } else {
        hi
    }
}

/// `str::trim`: the sequence without leading and trailing whitespace.
pub open spec fn trim_ws(t: Seq<char>) -> Seq<char> {
    let lo = skip_ws(t, 0, t.len() as int);
    t.subrange(lo, back_ws(t, lo, t.len() as int))
}

/// `str::trim_start`.
pub open spec fn trim_start_ws(t: Seq<char>) -> Seq<char> {
    t.subrange(skip_ws(t, 0, t.len() as int), t.len() as int)
}

/// First index in `[lo, hi)` holding `c`, or `-1`.
pub open spec fn find_char(s: Seq<char>, c: char, lo: int, hi: int) -> int
    decreases hi - lo,
{
    if lo >= hi {
        -1
    } else if s[lo] == c {
        lo
    } else {
        find_char(s, c, lo + 1, hi)
    }
}

/// Whether `p` occurs in `s` at index `i`.
pub open spec fn occurs_at(s: Seq<char>, p: Seq<char>, i: int) -> bool {
    0 <= i && i + p.len() <= s.len() && s.subrange(i, i + p.len()) == p
}

/// First index `i >= lo` at which `p` occurs in `s`, or `-1` (`str::find`).
pub open spec fn find_seq(s: Seq<char>, p: Seq<char>, lo: int) -> int
    decreases s.len() + 1 - lo,
{
    if lo < 0 || lo + p.len() > s.len() {
        -1
    } else if occurs_at(s, p, lo) {
        lo
    } else {
        find_seq(s, p, lo + 1)
    }
}

pub proof fn lemma_find_seq_range(s: Seq<char>, p: Seq<char>, lo: int)
    ensures
        find_seq(s, p, lo) == -1 || (lo <= find_seq(s, p, lo) && occurs_at(s, p, find_seq(s, p, lo))),
    decreases s.len() + 1 - lo,
{
    if !(lo < 0 || lo + p.len() > s.len()) && !occurs_at(s, p, lo) {
        lemma_find_seq_range(s, p, lo + 1);
    }
}

/// `str::replace(p, to)` applied to `s[pos..]`: every non-overlapping
/// occurrence of `p`, left to right, replaced by `to`.
pub open spec fn replace_from(s: Seq<char>, p: Seq<char>, to: Seq<char>, pos: int) -> Seq<char>
    decreases s.len() + 1 - pos,
{
    if p.len() == 0 || pos < 0 || pos > s.len() {
        s.subrange(pos, s.len() as int)
    } else {
        let i = find_seq(s, p, pos);
        proof {
            lemma_find_seq_range(s, p, pos);
        }
        if i < 0 {
            s.subrange(pos, s.len() as int)
        } else {
            s.subrange(pos, i) + to + replace_from(s, p, to, i + p.len())
        }
    }
}

/// `str::replace(p, to)` for a non-empty pattern.
pub open spec fn replace_all(s: Seq<char>, p: Seq<char>, to: Seq<char>) -> Seq<char> {
    replace_from(s, p, to, 0)
}

/// `str::contains`.
pub open spec fn contains_seq(s: Seq<char>, p: Seq<char>) -> bool {
    find_seq(s, p, 0) >= 0
}

/// `str::starts_with`.
pub open spec fn starts_with(s: Seq<char>, p: Seq<char>) -> bool {
    p.len() <= s.len() && s.take(p.len() as int) == p
}

/// `str::ends_with`.
pub open spec fn ends_with(s: Seq<char>, p: Seq<char>) -> bool {
    p.len() <= s.len() && s.skip(s.len() - p.len()) == p
}

pub proof fn lemma_find_char_range(s: Seq<char>, c: char, lo: int, hi: int)
    ensures
        find_char(s, c, lo, hi) == -1 || (lo <= find_char(s, c, lo, hi) < hi && s[find_char(s, c, lo, hi)] == c),
    decreases hi - lo,
{
    if lo < hi && s[lo] != c {
        lemma_find_char_range(s, c, lo + 1, hi);
    }
}

/// First index in `[lo, hi)` whose character is not `c`, or `hi`.
pub open spec fn skip_char(s: Seq<char>, c: char, lo: int, hi: int) -> int
    decreases hi - lo,
{
    if lo >= hi {
        hi
    } else if s[lo] == c {
        skip_char(s, c, lo + 1, hi)
    } else {
        lo
    }
}

/// One past the last index in `[lo, hi)` whose character is not `c`, or `lo`.
pub open spec fn back_char(s: Seq<char>, c: char, lo: int, hi: int) -> int
    decreases hi - lo,
{
    if hi <= lo {
        lo
    } else if s[hi - 1] == c {
        back_char(s, c, lo, hi - 1)
    } else {
        hi
    }
}

/// `str::trim_matches(c)`: drops copies of `c` at both ends.
pub open spec fn trim_char(t: Seq<char>, c: char) -> Seq<char> {
    let lo = skip_char(t, c, 0, t.len() as int);
    t.subrange(lo, back_char(t, c, lo, t.len() as int))
}

/// `str::trim_end_matches(c)`: drops copies of `c` at the end.
pub open spec fn trim_end_char(t: Seq<char>, c: char) -> Seq<char> {
    t.take(back_char(t, c, 0, t.len() as int))
}

/// `split(c).next()`: the text before the first `c` (all of it when there is none).
pub open spec fn before_char(t: Seq<char>, c: char) -> Seq<char> {
    let i = find_char(t, c, 0, t.len() as int);
    if i < 0 {
        t
    } else {
        t.take(i)
    }
}

/// Number of bytes in the UTF-8 encoding (`str::len`).
pub open spec fn utf8_len(s: Seq<char>) -> nat {
    encode_utf8(s).len()
}

/// Scanning a subrange agrees with scanning the whole sequence shifted by `lo`.
pub proof fn lemma_skip_ws_shift(s: Seq<char>, lo: int, i: int, hi: int)
    requires
        0 <= lo <= i <= hi <= s.len(),
    ensures
        skip_ws(s.subrange(lo, hi), i - lo, hi - lo) + lo == skip_ws(s, i, hi),
    decreases hi - i,
{
    if i < hi {
        lemma_skip_ws_shift(s, lo, i + 1, hi);
    }
}

pub proof fn lemma_back_ws_shift(s: Seq<char>, lo: int, a: int, j: int, hi: int)
    requires
        0 <= lo <= a <= j <= hi <= s.len(),
    ensures
        back_ws(s.subrange(lo, hi), a - lo, j - lo) + lo == back_ws(s, a, j),
    decreases j - a,
{
    if a < j {
        lemma_back_ws_shift(s, lo, a, j - 1, hi);
    }
}

pub proof fn lemma_trim_shift(s: Seq<char>, lo: int, hi: int)
    requires
        0 <= lo <= hi <= s.len(),
    ensures
        ({
            let a = skip_ws(s, lo, hi);
            let b = back_ws(s, a, hi);
            lo <= a <= b <= hi && s.subrange(a, b) == trim_ws(s.subrange(lo, hi))
        }),
{
    let t = s.subrange(lo, hi);
    lemma_skip_ws_shift(s, lo, lo, hi);
    lemma_skip_ws_range(s, lo, hi);
    let a = skip_ws(s, lo, hi);
    lemma_back_ws_shift(s, lo, a, hi, hi);
    lemma_back_ws_range(s, a, hi);
    assert(t.subrange(a - lo, back_ws(s, a, hi) - lo) =~= s.subrange(a, back_ws(s, a, hi)));
}

pub proof fn lemma_skip_ws_range(s: Seq<char>, lo: int, hi: int)
    requires
        lo <= hi,
    ensures
        lo <= skip_ws(s, lo, hi) <= hi,
    decreases hi - lo,
{
    if lo < hi {
        lemma_skip_ws_range(s, lo + 1, hi);
    }
}

pub proof fn lemma_back_ws_range(s: Seq<char>, lo: int, hi: int)
    requires
        lo <= hi,
    ensures
        lo <= back_ws(s, lo, hi) <= hi,
    decreases hi - lo,
{
    if lo < hi {
        lemma_back_ws_range(s, lo, hi - 1);
    }
}

// ---------------------------------------------------------------------------
// Decimal and hexadecimal rendering
// ---------------------------------------------------------------------------

pub open spec fn digit_char(d: nat) -> char {
    if d == 0 {
        '0'
    } else if d == 1 {
        '1'
    } else if d == 2 {
        '2'
    } else if d == 3 {
        '3'
    } else if d == 4 {
        '4'
    } else if d == 5 {
        '5'
    } else if d == 6 {
        '6'
    } else if d == 7 {
        '7'
    } else if d == 8 {
        '8'
    } else if d == 9 {
        '9'
    } else if d == 10 {
        'a'
    } else if d == 11 {
        'b'
    } else if d == 12 {
        'c'
    } else if d == 13 {
        'd'
    } else if d == 14 {
        'e'
    } else {
        'f'
    }
}

/// Rendering of `n` in base `b` without leading zeros (`"0"` for zero),
/// lowercase digits: `Display` for `b == 10`, `{:x}` for `b == 16`.
pub open spec fn radix_text(n: nat, b: nat) -> Seq<char>
    recommends
        2 <= b <= 16,
    decreases n,
{
    if b < 2 || n < b {
        seq![digit_char(n % 16)]
    } else {
        proof {
            assert(n / b < n) by (nonlinear_arith)
                requires
                    b >= 2,
                    n >= b,
            ;
        }
        radix_text(n / b, b).push(digit_char(n % b))
    }
}

pub open spec fn dec(n: nat) -> Seq<char> {
    radix_text(n, 10)
}

pub open spec fn hex(n: nat) -> Seq<char> {
    radix_text(n, 16)
}

fn digit_of(d: u64) -> (r: char)
    requires
        d < 16,
    ensures
        r == digit_char(d as nat),
{
    if d == 0 {
        '0'
    } else if d == 1 {
        '1'
    } else if d == 2 {
        '2'
    } else if d == 3 {
        '3'
    } else if d == 4 {
        '4'
    } else if d == 5 {
        '5'
    } else if d == 6 {
        '6'
    } else if d == 7 {
        '7'
    } else if d == 8 {
        '8'
    } else if d == 9 {
        '9'
    } else if d == 10 {
        'a'
    } else if d == 11 {
        'b'
    } else if d == 12 {
        'c'
    } else if d == 13 {
        'd'
    } else if d == 14 {
        'e'
    } else {
        'f'
    }
}

/// Appends the base-`b` rendering of `n`.
pub fn push_radix(out: &mut String, n: u64, b: u64)
    requires
        2 <= b <= 16,
    ensures
        final(out)@ == old(out)@ + radix_text(n as nat, b as nat),
    decreases n,
{
    if n < b {
        push_char(out, digit_of(n));
        assert(radix_text(n as nat, b as nat) == seq![digit_char(n as nat % 16)]);
    } else {
        assert(n / b < n) by (nonlinear_arith)
            requires
                b >= 2,
                n >= b,
        ;
        push_radix(out, n / b, b);
        push_char(out, digit_of(n % b));
        assert(old(out)@ + radix_text(n as nat, b as nat) =~= old(out)@ + radix_text(
            (n / b) as nat,
            b as nat,
        ) + seq![digit_char((n % b) as nat)]);
    }
}

pub fn push_dec(out: &mut String, n: u64)
    ensures
        final(out)@ == old(out)@ + dec(n as nat),
{
    push_radix(out, n, 10);
}

// ---------------------------------------------------------------------------
// std wrappers for building strings
// ---------------------------------------------------------------------------

/// `String::push_str`: appends the characters of `t`.
#[verifier::external_body]
pub(crate) fn push_str(s: &mut String, t: &str)
    ensures
        final(s)@ == old(s)@ + t@,
{
    s.push_str(t)
}

/// `String::push`: appends one character.
#[verifier::external_body]
pub(crate) fn push_char(s: &mut String, c: char)
    ensures
        final(s)@ == old(s)@.push(c),
{
    s.push(c)
}

/// `String::into_bytes`: the UTF-8 encoding of the string.
#[verifier::external_body]
pub(crate) fn into_bytes(s: String) -> (r: Vec<u8>)
    ensures
        r@ == encode_utf8(s@),
{
    s.into_bytes()
}

/// `std::str::from_utf8`: succeeds exactly on valid UTF-8, which it decodes.
#[verifier::external_body]
pub(crate) fn utf8_to_str(b: &[u8]) -> (r: Option<&str>)
    ensures
        r is Some <==> valid_utf8(b@),
        r matches Some(s) ==> s@ == decode_utf8(b@),
{
    std::str::from_utf8(b).ok()
}

/// `<str as PartialEq>::eq`.
#[verifier::external_body]
pub(crate) fn str_eq(a: &str, b: &str) -> (r: bool)
    ensures
        r == (a@ == b@),
{
    a == b
}

/// Unicode uppercase of a string as `str::to_uppercase` gives it (the
/// Unicode `Uppercase` mapping, where one character may become several).
pub uninterp spec fn unicode_upper(s: Seq<char>) -> Seq<char>;

/// `str::to_uppercase`; its result is named `unicode_upper` of the argument.
#[verifier::external_body]
pub(crate) fn to_uppercase(s: &str) -> (r: String)
    ensures
        r@ == unicode_upper(s@),
{
    s.to_uppercase()
}

/// Unicode lowercase of a string as `str::to_lowercase` gives it (the
/// Unicode `Lowercase` mapping, with the final-sigma rule).
pub uninterp spec fn unicode_lower(s: Seq<char>) -> Seq<char>;

/// `str::to_lowercase`; its result is named `unicode_lower` of the argument.
#[verifier::external_body]
pub(crate) fn to_lowercase(s: &str) -> (r: String)
    ensures
        r@ == unicode_lower(s@),
{
    s.to_lowercase()
}

// ---------------------------------------------------------------------------
// Executable helpers over Vec<char>
// ---------------------------------------------------------------------------

/// `str::len`: the number of bytes in the UTF-8 encoding.
pub fn byte_len(s: &str) -> (r: usize)
    ensures
        r as nat == utf8_len(s@),
{
    s.as_bytes().len()
}

/// Reads the characters of a string slice.
pub fn chars_of(s: &str) -> (r: Vec<char>)
    ensures
        r@ == s@,
{
    let mut out: Vec<char> = Vec::new();
    for c in it: s.chars()
        invariant
            out@ == it.seq().take(it.index() as int),
            it.seq() == s@,
    {
        out.push(c);
    }
    out
}

/// Appends `v[lo..hi]`.
pub fn push_range(out: &mut String, v: &Vec<char>, lo: usize, hi: usize)
    requires
        lo <= hi <= v@.len(),
    ensures
        final(out)@ == old(out)@ + v@.subrange(lo as int, hi as int),
{
    let mut i = lo;
    while i < hi
        invariant
            lo <= i <= hi <= v@.len(),
            out@ == old(out)@ + v@.subrange(lo as int, i as int),
        decreases hi - i,
    {
        push_char(out, v[i]);
        i = i + 1;
        assert(out@ =~= old(out)@ + v@.subrange(lo as int, i as int));
    }
}

/// A new string holding `v[lo..hi]`.
pub fn string_range(v: &Vec<char>, lo: usize, hi: usize) -> (r: String)
    requires
        lo <= hi <= v@.len(),
    ensures
        r@ == v@.subrange(lo as int, hi as int),
{
    let mut out = String::new();
    push_range(&mut out, v, lo, hi);
    assert(out@ =~= v@.subrange(lo as int, hi as int));
    out
}

pub fn exec_skip_ws(v: &Vec<char>, lo: usize, hi: usize) -> (r: usize)
    requires
        lo <= hi <= v@.len(),
    ensures
        r == skip_ws(v@, lo as int, hi as int),
        lo <= r <= hi,
{
    let mut i = lo;
    while i < hi && char_is_ws(v[i])
        invariant
            lo <= i <= hi <= v@.len(),
            skip_ws(v@, lo as int, hi as int) == skip_ws(v@, i as int, hi as int),
        decreases hi - i,
    {
        i = i + 1;
    }
    i
}

pub fn exec_back_ws(v: &Vec<char>, lo: usize, hi: usize) -> (r: usize)
    requires
        lo <= hi <= v@.len(),
    ensures
        r == back_ws(v@, lo as int, hi as int),
        lo <= r <= hi,
{
    let mut j = hi;
    while j > lo && char_is_ws(v[j - 1])
        invariant
            lo <= j <= hi <= v@.len(),
            back_ws(v@, lo as int, hi as int) == back_ws(v@, lo as int, j as int),
        decreases j - lo,
    {
        j = j - 1;
    }
    j
}

pub fn exec_skip_char(v: &Vec<char>, c: char, lo: usize, hi: usize) -> (r: usize)
    requires
        lo <= hi <= v@.len(),
    ensures
        r == skip_char(v@, c, lo as int, hi as int),
        lo <= r <= hi,
{
    let mut i = lo;
    while i < hi && v[i] == c
        invariant
            lo <= i <= hi <= v@.len(),
            skip_char(v@, c, lo as int, hi as int) == skip_char(v@, c, i as int, hi as int),
        decreases hi - i,
    {
        i = i + 1;
    }
    i
}

pub fn exec_back_char(v: &Vec<char>, c: char, lo: usize, hi: usize) -> (r: usize)
    requires
        lo <= hi <= v@.len(),
    ensures
        r == back_char(v@, c, lo as int, hi as int),
        lo <= r <= hi,
{
    let mut j = hi;
    while j > lo && v[j - 1] == c
        invariant
            lo <= j <= hi <= v@.len(),
            back_char(v@, c, lo as int, hi as int) == back_char(v@, c, lo as int, j as int),
        decreases j - lo,
    {
        j = j - 1;
    }
    j
}

/// Index range of `v[lo..hi]` without leading and trailing whitespace.
pub fn exec_trim_range(v: &Vec<char>, lo: usize, hi: usize) -> (r: (usize, usize))
    requires
        lo <= hi <= v@.len(),
    ensures
        lo <= r.0 <= r.1 <= hi,
        v@.subrange(r.0 as int, r.1 as int) == trim_ws(v@.subrange(lo as int, hi as int)),
{
    let a = exec_skip_ws(v, lo, hi);
    let b = exec_back_ws(v, a, hi);
    proof {
        lemma_trim_shift(v@, lo as int, hi as int);
    }
    (a, b)
}

pub fn exec_find_char(v: &Vec<char>, c: char, lo: usize, hi: usize) -> (r: Option<usize>)
    requires
        lo <= hi <= v@.len(),
    ensures
        match r {
            Some(i) => i as int == find_char(v@, c, lo as int, hi as int) && lo <= i < hi && v@[i as int] == c,
            None => find_char(v@, c, lo as int, hi as int) == -1,
        },
{
    let mut i = lo;
    while i < hi
        invariant
            lo <= i <= hi <= v@.len(),
            find_char(v@, c, lo as int, hi as int) == find_char(v@, c, i as int, hi as int),
        decreases hi - i,
    {
        if v[i] == c {
            return Some(i);
        }
        i = i + 1;
    }
    None
}

/// Whether `p` occurs in `v` at index `i`.
pub fn exec_occurs_at(v: &Vec<char>, p: &Vec<char>, i: usize) -> (r: bool)
    requires
        i <= v@.len(),
    ensures
        r == occurs_at(v@, p@, i as int),
{
    if p.len() > v.len() - i {
        return false;
    }
    let mut k: usize = 0;
    while k < p.len()
        invariant
            i + p@.len() <= v@.len(),
            v@.len() == v.len(),
            0 <= k <= p@.len(),
            forall|j: int| 0 <= j < k ==> v@[i + j] == p@[j],
        decreases p@.len() - k,
    {
        assert(i + k < v@.len());
        if v[i + k] != p[k] {
            assert(v@.subrange(i as int, i + p@.len())[k as int] != p@[k as int]);
            return false;
        }
        k = k + 1;
    }
    assert(v@.subrange(i as int, i + p@.len()) =~= p@);
    true
}

/// `str::find` from index `lo`.
pub fn exec_find_seq(v: &Vec<char>, p: &Vec<char>, lo: usize) -> (r: Option<usize>)
    requires
        lo <= v@.len(),
    ensures
        match r {
            Some(i) => i as int == find_seq(v@, p@, lo as int) && occurs_at(v@, p@, i as int),
            None => find_seq(v@, p@, lo as int) == -1,
        },
{
    if p.len() > v.len() {
        assert(find_seq(v@, p@, lo as int) == -1);
        return None;
    }
    let last = v.len() - p.len();
    let mut i = lo;
    loop
        invariant
            lo <= i <= v@.len(),
            last + p@.len() == v@.len(),
            find_seq(v@, p@, lo as int) == find_seq(v@, p@, i as int),
        decreases v@.len() - i,
    {
        if i > last {
            return None;
        }
        if exec_occurs_at(v, p, i) {
            return Some(i);
        }
        if i == last {
            assert(find_seq(v@, p@, i + 1) == -1);
            return None;
        }
        i = i + 1;
    }
}

pub fn exec_starts_with(v: &Vec<char>, p: &Vec<char>) -> (r: bool)
    ensures
        r == starts_with(v@, p@),
{
    let r = exec_occurs_at(v, p, 0);
    assert(r ==> v@.take(p@.len() as int) =~= v@.subrange(0, p@.len() as int));
    assert(starts_with(v@, p@) ==> v@.subrange(0, p@.len() as int) =~= v@.take(p@.len() as int));
    r
}

pub fn exec_ends_with(v: &Vec<char>, p: &Vec<char>) -> (r: bool)
    ensures
        r == ends_with(v@, p@),
{
    if p.len() > v.len() {
        return false;
    }
    let r = exec_occurs_at(v, p, v.len() - p.len());
    assert(v@.skip(v@.len() - p@.len()) =~= v@.subrange(
        v@.len() - p@.len(),
        v@.len() - p@.len() + p@.len(),
    ));
    r
}

/// A new vector holding `v[lo..hi]`.
pub fn vec_range(v: &Vec<char>, lo: usize, hi: usize) -> (r: Vec<char>)
    requires
        lo <= hi <= v@.len(),
    ensures
        r@ == v@.subrange(lo as int, hi as int),
{
    let mut out: Vec<char> = Vec::new();
    let mut i = lo;
    while i < hi
        invariant
            lo <= i <= hi <= v@.len(),
            out@ == v@.subrange(lo as int, i as int),
        decreases hi - i,
    {
        out.push(v[i]);
        i = i + 1;
        assert(out@ =~= v@.subrange(lo as int, i as int));
    }
    out
}

/// The string holding exactly the characters of `v`.
pub fn string_of(v: &Vec<char>) -> (r: String)
    ensures
        r@ == v@,
{
    let r = string_range(v, 0, v.len());
    assert(v@.subrange(0, v@.len() as int) =~= v@);
    r
}

/// A new string holding the characters of `t`.
pub fn string_from(t: &str) -> (r: String)
    ensures
        r@ == t@,
{
    let mut out = String::new();
    push_str(&mut out, t);
    assert(out@ =~= t@);
    out
}

/// ASCII lowercase of a character vector.
pub fn lower_vec(v: &Vec<char>) -> (r: Vec<char>)
    ensures
        r@ == lower_seq(v@),
{
    let mut out: Vec<char> = Vec::new();
    let mut i: usize = 0;
    while i < v.len()
        invariant
            0 <= i <= v@.len(),
            out@ == lower_seq(v@.take(i as int)),
        decreases v@.len() - i,
    {
        out.push(char_lower(v[i]));
        i = i + 1;
        assert(out@ =~= lower_seq(v@.take(i as int)));
    }
    assert(v@.take(v@.len() as int) =~= v@);
    out
}

/// Whether `c` occurs in `s`.
pub open spec fn has_char(s: Seq<char>, c: char) -> bool {
    find_char(s, c, 0, s.len() as int) >= 0
}

/// Whether two character vectors are equal ignoring ASCII case.
pub fn chars_eq_ignore_case(a: &Vec<char>, b: &Vec<char>) -> (r: bool)
    ensures
        r == (lower_seq(a@) == lower_seq(b@)),
{
    if a.len() != b.len() {
        assert(lower_seq(a@).len() != lower_seq(b@).len());
        return false;
    }
    let mut i: usize = 0;
    while i < a.len()
        invariant
            a@.len() == b@.len(),
            0 <= i <= a@.len(),
            forall|j: int| 0 <= j < i ==> lower(a@[j]) == lower(b@[j]),
        decreases a@.len() - i,
    {
        if char_lower(a[i]) != char_lower(b[i]) {
            assert(lower_seq(a@)[i as int] != lower_seq(b@)[i as int]);
            return false;
        }
        i = i + 1;
    }
    assert(lower_seq(a@) =~= lower_seq(b@));
    true
}

/// `str::replace` with a non-empty pattern.
pub fn replace_chars(s: &Vec<char>, p: &Vec<char>, to: &str) -> (r: String)
    requires
        p@.len() > 0,
    ensures
        r@ == replace_all(s@, p@, to@),
{
    let mut out = String::new();
    let mut pos: usize = 0;
    loop
        invariant
            p@.len() > 0,
            0 <= pos <= s@.len(),
            out@ + replace_from(s@, p@, to@, pos as int) == replace_all(s@, p@, to@),
        decreases s@.len() - pos,
    {
        match exec_find_seq(s, p, pos) {
            None => {
                let ghost before = out@;
                push_range(&mut out, s, pos, s.len());
                assert(out@ == before + replace_from(s@, p@, to@, pos as int));
                return out;
            },
            Some(i) => {
                proof {
                    lemma_find_seq_range(s@, p@, pos as int);
                }
                let ghost before = out@;
                push_range(&mut out, s, pos, i);
                push_str(&mut out, to);
                assert(before + replace_from(s@, p@, to@, pos as int) =~= out@ + replace_from(
                    s@,
                    p@,
                    to@,
                    i + p@.len(),
                ));
                let slen = s.len();
                assert(i + p@.len() <= slen);
                pos = i + p.len();
            },
        }
    }
}

/// Whether two character vectors are equal.
pub fn chars_eq(a: &Vec<char>, b: &Vec<char>) -> (r: bool)
    ensures
        r == (a@ == b@),
{
    if a.len() != b.len() {
        return false;
    }
    let r = exec_occurs_at(a, b, 0);
    assert(r ==> a@ =~= a@.subrange(0, b@.len() as int));
    assert(a@ == b@ ==> a@.subrange(0, b@.len() as int) =~= a@);
    r
}

} // verus!
