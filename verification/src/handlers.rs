//! Decisions of the SIP request handlers that do not depend on the edge's
//! shared state: which handler a request goes to, header rewriting, DTMF
//! carried in INFO bodies, percent-decoding, PRACK's RAck check and the
//! user part of a SIP URI.
use vstd::prelude::*;
use vstd::utf8::*;
use crate::outbound::{forwardable_in_dialog, parse_u32, parse_u32_spec};
use crate::sip::Method;
use crate::text::{
    chars_eq, chars_of, contains_seq, exec_find_char, exec_find_seq, exec_starts_with, exec_trim_range,
    find_char, find_seq, is_ascii_digit, is_ws, skip_ws, lemma_find_char_range, lemma_find_seq_range,
    back_ws, before_char, lemma_back_ws_range, lemma_skip_ws_range, lemma_trim_shift, lower, lower_seq, lower_vec, push_char, push_str, starts_with, string_from, string_range, trim_ws,
    utf8_to_str, vec_range,
};

verus! {

// ---------------------------------------------------------------------------
// Request routing
// ---------------------------------------------------------------------------

/// The handler a request goes to.
#[derive(PartialEq, Eq, Structural, Debug)]
pub enum RequestRoute {
    Register,
    /// Within an established dialog.
    InDialog,
    /// A MESSAGE outside any dialog.
    OutOfDialogMessage,
    /// A new INVITE.
    Invite,
    /// Answered directly from the request.
    Stateless,
}

pub open spec fn route_spec(m: Method, has_to_tag: bool) -> RequestRoute {
    if m is Register {
        RequestRoute::Register
    } else if m is Message {
        if has_to_tag {
            RequestRoute::InDialog
        } else {
            RequestRoute::OutOfDialogMessage
        }
    } else if forwardable_in_dialog(m) {
        RequestRoute::InDialog
    } else if m is Invite && has_to_tag {
        RequestRoute::InDialog
    } else if m is Prack {
        RequestRoute::InDialog
    } else if m is Invite {
        RequestRoute::Invite
    } else {
        RequestRoute::Stateless
    }
}

/// Where a request goes: REGISTER to the registrar; MESSAGE into its dialog
/// when the To header has a tag, else to the out-of-dialog handler; BYE,
/// CANCEL, INFO, REFER, UPDATE, PRACK and a tagged INVITE into their dialog;
/// any other INVITE starts a call; the rest is answered directly.
pub fn route_request(method: &Method, has_to_tag: bool) -> (r: RequestRoute)
    ensures
        r == route_spec(*method, has_to_tag),
{
    match method {
        Method::Register => RequestRoute::Register,
        Method::Message => if has_to_tag {
            RequestRoute::InDialog
        } else {
            RequestRoute::OutOfDialogMessage
        },
        Method::Bye | Method::Cancel | Method::Info | Method::Refer | Method::Update => {
            RequestRoute::InDialog
        },
        Method::Invite => if has_to_tag {
            RequestRoute::InDialog
        } else {
            RequestRoute::Invite
        },
        Method::Prack => RequestRoute::InDialog,
        _ => RequestRoute::Stateless,
    }
}

// ---------------------------------------------------------------------------
// Header rewriting
// ---------------------------------------------------------------------------

pub open spec fn crlf() -> Seq<char> {
    seq!['\r', '\n']
}

/// One past the end of the line starting at `pos` (its `\r\n` included).
pub open spec fn line_end(raw: Seq<char>, pos: int) -> int {
    let i = find_seq(raw, crlf(), pos);
    if i < 0 {
        raw.len() as int
    } else {
        i + 2
    }
}

/// A line of the message as it is written back: a header line named `name`
/// (compared after trimming, ignoring ASCII case) is replaced whole.
pub open spec fn rewritten_line(line: Seq<char>, name: Seq<char>, value: Seq<char>) -> Seq<char> {
    if lower_seq(trim_ws(crate::text::before_char(line, ':'))) == lower_seq(name) {
        name + ": "@ + value + crlf()
    } else {
        line
    }
}

/// The lines of `raw` from `pos` on, each rewritten.
pub open spec fn rewritten_from(raw: Seq<char>, pos: int, name: Seq<char>, value: Seq<char>) -> Seq<char>
    decreases raw.len() - pos,
{
    if pos < 0 || pos >= raw.len() {
        Seq::empty()
    } else {
        let e = line_end(raw, pos);
        proof {
            lemma_find_seq_range(raw, crlf(), pos);
        }
        rewritten_line(raw.subrange(pos, e), name, value) + rewritten_from(raw, e, name, value)
    }
}

fn exec_rewritten_line(line: &Vec<char>, name: &str, name_lower: &Vec<char>, value: &str) -> (r: String)
    requires
        name_lower@ == lower_seq(name@),
    ensures
        r@ == rewritten_line(line@, name@, value@),
{
    let key_end = match exec_find_char(line, ':', 0, line.len()) {
        Some(i) => i,
        None => line.len(),
    };
    let (a, b) = exec_trim_range(line, 0, key_end);
    let key = vec_range(line, a, b);
    let key_lower = lower_vec(&key);
    proof {
        crate::text::lemma_find_char_range(line@, ':', 0, line@.len() as int);
        assert(line@.subrange(0, key_end as int) =~= crate::text::before_char(line@, ':'));
    }
    if chars_eq(&key_lower, name_lower) {
        let mut out = string_from(name);
        push_str(&mut out, ": ");
        push_str(&mut out, value);
        push_str(&mut out, "\r\n");
        proof {
            reveal_strlit("\r\n");
        }
        assert(out@ =~= name@ + ": "@ + value@ + crlf());
        out
    } else {
        let out = string_range(line, 0, line.len());
        assert(line@.subrange(0, line@.len() as int) =~= line@);
        out
    }
}

/// Replaces every header line named `header_name` with `header_name:
/// new_value`, keeping all other lines as they are.
pub fn replace_header_value(raw: &str, header_name: &str, new_value: &str) -> (r: String)
    ensures
        r@ == rewritten_from(raw@, 0, header_name@, new_value@),
{
    let v = chars_of(raw);
    let nv = chars_of(header_name);
    let name_lower = lower_vec(&nv);
    let mut sep: Vec<char> = Vec::new();
    sep.push('\r');
    sep.push('\n');
    assert(sep@ =~= crlf());
    let mut out = String::new();
    let mut pos: usize = 0;
    while pos < v.len()
        invariant
            sep@ == crlf(),
            name_lower@ == lower_seq(header_name@),
            0 <= pos <= v@.len(),
            v@ == raw@,
            out@ + rewritten_from(v@, pos as int, header_name@, new_value@) == rewritten_from(
                v@,
                0,
                header_name@,
                new_value@,
            ),
        decreases v@.len() - pos,
    {
        proof {
            lemma_find_seq_range(v@, crlf(), pos as int);
        }
        let end = match exec_find_seq(&v, &sep, pos) {
            Some(i) => i + 2,
            None => v.len(),
        };
        let line = vec_range(&v, pos, end);
        let piece = exec_rewritten_line(&line, header_name, &name_lower, new_value);
        let ghost before = out@;
        push_str(&mut out, piece.as_str());
        assert(out@ + rewritten_from(v@, end as int, header_name@, new_value@) =~= before
            + rewritten_from(v@, pos as int, header_name@, new_value@));
        pos = end;
    }
    assert(out@ =~= out@ + rewritten_from(v@, pos as int, header_name@, new_value@));
    out
}

// ---------------------------------------------------------------------------
// DTMF in INFO bodies
// ---------------------------------------------------------------------------

/// A key a DTMF INFO may carry: a digit, `*`, `#` or `A`..`D`.
pub open spec fn dtmf_key(c: char) -> bool {
    is_ascii_digit(c) || c == '*' || c == '#' || ('A' <= c && c <= 'D')
}

/// The key of a trimmed `Signal=<key>` line (name ignoring ASCII case, a
/// single `=`, one key character after it, surrounding blanks allowed).
pub open spec fn signal_line(line: Seq<char>) -> Option<char> {
    let i = find_char(line, '=', 0, line.len() as int);
    if starts_with(lower_seq(line), "signal="@) && i >= 0 && find_char(line, '=', i + 1, line.len() as int) < 0 {
        let sig = trim_ws(line.skip(i + 1));
        if sig.len() == 1 && dtmf_key(sig[0]) {
            Some(sig[0])
        } else {
            None
        }
    } else {
        None
    }
}

/// The key of the first `Signal=` line at or after `pos` that carries one.
pub open spec fn signal_lines(b: Seq<char>, pos: int) -> Option<char>
    decreases b.len() - pos,
{
    if pos < 0 || pos > b.len() {
        None
    } else {
        let e = find_char(b, '\n', pos, b.len() as int);
        proof {
            lemma_find_char_range(b, '\n', pos, b.len() as int);
        }
        let end = if e < 0 {
            b.len() as int
        } else {
            e
        };
        match signal_line(trim_ws(b.subrange(pos, end))) {
            Some(c) => Some(c),
            None => if e < 0 {
                None
            } else {
                signal_lines(b, e + 1)
            },
        }
    }
}

/// The DTMF key an INFO body carries: `application/dtmf-relay` bodies by
/// their `Signal=` line, `application/dtmf` bodies that are one key.
pub open spec fn info_dtmf_spec(content_type: Seq<char>, body: Seq<u8>) -> Option<char> {
    if !valid_utf8(body) {
        None
    } else {
        let b = trim_ws(decode_utf8(body));
        if contains_seq(content_type, "application/dtmf-relay"@) {
            signal_lines(b, 0)
        } else if contains_seq(content_type, "application/dtmf"@) && b.len() == 1 && dtmf_key(b[0]) {
            Some(b[0])
        } else {
            None
        }
    }
}

fn exec_dtmf_key(c: char) -> (r: bool)
    ensures
        r == dtmf_key(c),
{
    (c >= '0' && c <= '9') || c == '*' || c == '#' || (c >= 'A' && c <= 'D')
}

fn exec_signal_line(line: &Vec<char>) -> (r: Option<char>)
    ensures
        r == signal_line(line@),
{
    let lower = lower_vec(line);
    let prefix = chars_of("signal=");
    if !exec_starts_with(&lower, &prefix) {
        return None;
    }
    let i = match exec_find_char(line, '=', 0, line.len()) {
        Some(i) => i,
        None => {
            return None;
        },
    };
    if exec_find_char(line, '=', i + 1, line.len()).is_some() {
        return None;
    }
    let (a, b) = exec_trim_range(line, i + 1, line.len());
    proof {
        assert(line@.subrange(i + 1, line@.len() as int) =~= line@.skip(i + 1));
    }
    if b - a == 1 && exec_dtmf_key(line[a]) {
        assert(line@.subrange(a as int, b as int)[0] == line@[a as int]);
        Some(line[a])
    } else {
        None
    }
}

/// The DTMF key of a SIP INFO request's body, by its content type.
pub fn parse_sip_info_dtmf(content_type: &str, body: &[u8]) -> (r: Option<char>)
    ensures
        r == info_dtmf_spec(content_type@, body@),
{
    let text = match utf8_to_str(body) {
        Some(t) => t,
        None => {
            return None;
        },
    };
    let all = chars_of(text);
    let (lo, hi) = exec_trim_range(&all, 0, all.len());
    let b = vec_range(&all, lo, hi);
    assert(all@.subrange(0, all@.len() as int) =~= all@);
    let ct = chars_of(content_type);
    let relay = chars_of("application/dtmf-relay");
    let plain = chars_of("application/dtmf");
    assert(b@ == trim_ws(decode_utf8(body@)));
    if exec_find_seq(&ct, &relay, 0).is_some() {
        assert(info_dtmf_spec(content_type@, body@) == signal_lines(b@, 0));
        let mut pos: usize = 0;
        loop
            invariant
                0 <= pos <= b@.len(),
                info_dtmf_spec(content_type@, body@) == signal_lines(b@, pos as int),
            decreases b@.len() - pos,
        {
            let found = exec_find_char(&b, '\n', pos, b.len());
            let end = match found {
                Some(e) => e,
                None => b.len(),
            };
            let (x, y) = exec_trim_range(&b, pos, end);
            let line = vec_range(&b, x, y);
            match exec_signal_line(&line) {
                Some(c) => {
                    return Some(c);
                },
                None => {},
            }
            match found {
                Some(e) => {
                    pos = e + 1;
                },
                None => {
                    return None;
                },
            }
        }
    } else if exec_find_seq(&ct, &plain, 0).is_some() && b.len() == 1 && exec_dtmf_key(b[0]) {
        Some(b[0])
    } else {
        None
    }
}

// ---------------------------------------------------------------------------
// Percent-decoding
// ---------------------------------------------------------------------------

pub open spec fn hex_value(c: char) -> Option<nat> {
    if '0' <= c && c <= '9' {
        Some((c as u32 - '0' as u32) as nat)
    } else if 'a' <= c && c <= 'f' {
        Some((c as u32 - 'a' as u32 + 10) as nat)
    } else if 'A' <= c && c <= 'F' {
        Some((c as u32 - 'A' as u32 + 10) as nat)
    } else {
        None
    }
}

/// `u8::from_str_radix(h, 16)` for at most two characters: an optional `+`
/// then one or two hexadecimal digits.
pub open spec fn hex_byte(h: Seq<char>) -> Option<u8> {
    let d = if h.len() > 0 && h[0] == '+' {
        h.drop_first()
    } else {
        h
    };
    if d.len() == 1 {
        match hex_value(d[0]) {
            Some(v) => Some(v as u8),
            None => None,
        }
    } else if d.len() == 2 {
        match (hex_value(d[0]), hex_value(d[1])) {
            (Some(a), Some(b)) => Some((a * 16 + b) as u8),
            _ => None,
        }
    } else {
        None
    }
}

/// Percent-decoding from index `i`: each `%` takes up to two following
/// characters; when they read as a byte, that byte's character (Latin-1)
/// replaces them, otherwise they are kept after the `%`.
pub open spec fn percent_from(s: Seq<char>, i: int) -> Seq<char>
    decreases s.len() - i,
{
    if i < 0 || i >= s.len() {
        Seq::empty()
    } else if s[i] != '%' {
        seq![s[i]] + percent_from(s, i + 1)
    } else {
        let e = if i + 3 <= s.len() {
            i + 3
        } else {
            s.len() as int
        };
        let h = s.subrange(i + 1, e);
        match hex_byte(h) {
            Some(v) => seq![(v as u32) as char] + percent_from(s, e),
            None => seq!['%'] + h + percent_from(s, e),
        }
    }
}

fn exec_hex_value(c: char) -> (r: Option<u8>)
    ensures
        match r {
            Some(v) => hex_value(c) == Some(v as nat) && v < 16,
            None => hex_value(c) is None,
        },
{
    if c >= '0' && c <= '9' {
        Some((c as u32 - '0' as u32) as u8)
    } else if c >= 'a' && c <= 'f' {
        Some((c as u32 - 'a' as u32 + 10) as u8)
    } else if c >= 'A' && c <= 'F' {
        Some((c as u32 - 'A' as u32 + 10) as u8)
    } else {
        None
    }
}

fn exec_hex_byte(h: &Vec<char>) -> (r: Option<u8>)
    requires
        h@.len() <= 2,
    ensures
        r == hex_byte(h@),
{
    let start: usize = if h.len() > 0 && h[0] == '+' {
        1
    } else {
        0
    };
    let n = h.len() - start;
    proof {
        let d = if h@.len() > 0 && h@[0] == '+' {
            h@.drop_first()
        } else {
            h@
        };
        assert(d =~= h@.skip(start as int));
    }
    if n == 1 {
        match exec_hex_value(h[start]) {
            Some(v) => Some(v),
            None => None,
        }
    } else if n == 2 {
        match (exec_hex_value(h[start]), exec_hex_value(h[start + 1])) {
            (Some(a), Some(b)) => Some(a * 16 + b),
            _ => None,
        }
    } else {
        None
    }
}

/// Decodes `%XX` escapes.
pub fn percent_decode(s: &str) -> (r: String)
    ensures
        r@ == percent_from(s@, 0),
{
    let v = chars_of(s);
    let mut out = String::new();
    let mut i: usize = 0;
    while i < v.len()
        invariant
            0 <= i <= v@.len(),
            v@ == s@,
            out@ + percent_from(v@, i as int) == percent_from(v@, 0),
        decreases v@.len() - i,
    {
        let ghost before = out@;
        if v[i] != '%' {
            push_char(&mut out, v[i]);
            assert(out@ + percent_from(v@, i + 1) =~= before + percent_from(v@, i as int));
            i = i + 1;
        } else {
            let e = if v.len() - i >= 3 {
                i + 3
            } else {
                v.len()
            };
            let h = vec_range(&v, i + 1, e);
            match exec_hex_byte(&h) {
                Some(b) => {
                    push_char(&mut out, b as char);
                },
                None => {
                    push_char(&mut out, '%');
                    let ht = string_range(&h, 0, h.len());
                    assert(h@.subrange(0, h@.len() as int) =~= h@);
                    push_str(&mut out, ht.as_str());
                },
            }
            assert(out@ + percent_from(v@, e as int) =~= before + percent_from(v@, i as int));
            i = e;
        }
    }
    assert(out@ =~= out@ + percent_from(v@, i as int));
    out
}


// ---------------------------------------------------------------------------
// PRACK
// ---------------------------------------------------------------------------

/// End of the run of non-blank characters starting at `i`.
pub open spec fn word_end(s: Seq<char>, i: int) -> int
    decreases s.len() - i,
{
    if i < 0 || i >= s.len() || is_ws(s[i]) {
        i
    } else {
        word_end(s, i + 1)
    }
}

pub proof fn lemma_word_end_range(s: Seq<char>, i: int)
    requires
        0 <= i <= s.len(),
    ensures
        i <= word_end(s, i) <= s.len(),
        i < s.len() && !is_ws(s[i]) ==> word_end(s, i) > i,
    decreases s.len() - i,
{
    if i < s.len() && !is_ws(s[i]) {
        lemma_word_end_range(s, i + 1);
    }
}

pub proof fn lemma_skip_ws_stop(s: Seq<char>, lo: int, hi: int)
    requires
        0 <= lo <= hi <= s.len(),
    ensures
        lo <= skip_ws(s, lo, hi) <= hi,
        skip_ws(s, lo, hi) < hi ==> !is_ws(s[skip_ws(s, lo, hi)]),
    decreases hi - lo,
{
    if lo < hi && is_ws(s[lo]) {
        lemma_skip_ws_stop(s, lo + 1, hi);
    }
}

/// `split_whitespace` from index `i`: the maximal runs of non-blank
/// characters, in order.
pub open spec fn words_from(s: Seq<char>, i: int) -> Seq<Seq<char>>
    decreases s.len() - i,
{
    if i < 0 || i >= s.len() {
        Seq::empty()
    } else {
        let a = skip_ws(s, i, s.len() as int);
        proof {
            lemma_skip_ws_stop(s, i, s.len() as int);
        }
        if a >= s.len() {
            Seq::empty()
        } else {
            let b = word_end(s, a);
            proof {
                lemma_word_end_range(s, a);
            }
            seq![s.subrange(a, b)] + words_from(s, b)
        }
    }
}

/// A RAck value is valid when it is three words: the RSeq and CSeq
/// numbers (as `u32`) and a method.
pub open spec fn rack_valid_spec(rack: Option<Seq<char>>) -> bool {
    match rack {
        Some(r) => {
            let w = words_from(r, 0);
            w.len() == 3 && parse_u32_spec(w[0]) is Some && parse_u32_spec(w[1]) is Some && w[2].len() > 0
        },
        None => false,
    }
}

fn exec_words(v: &Vec<char>) -> (r: Vec<Vec<char>>)
    ensures
        r@.map_values(|w: Vec<char>| w@) == words_from(v@, 0),
{
    let mut out: Vec<Vec<char>> = Vec::new();
    let mut i: usize = 0;
    while i < v.len()
        invariant
            0 <= i <= v@.len(),
            out@.map_values(|w: Vec<char>| w@) + words_from(v@, i as int) == words_from(v@, 0),
        decreases v@.len() - i,
    {
        let a = crate::text::exec_skip_ws(v, i, v.len());
        proof {
            lemma_skip_ws_stop(v@, i as int, v@.len() as int);
        }
        if a >= v.len() {
            assert(words_from(v@, i as int) =~= Seq::<Seq<char>>::empty());
            i = v.len();
            assert(words_from(v@, i as int) =~= Seq::<Seq<char>>::empty());
        } else {
            let mut b = a;
            while b < v.len() && !crate::text::char_is_ws(v[b])
                invariant
                    a <= b <= v@.len(),
                    word_end(v@, a as int) == word_end(v@, b as int),
                decreases v@.len() - b,
            {
                b = b + 1;
            }
            proof {
                lemma_word_end_range(v@, a as int);
            }
            let ghost prev = out@.map_values(|w: Vec<char>| w@);
            let w = vec_range(v, a, b);
            out.push(w);
            assert(out@.map_values(|w: Vec<char>| w@) =~= prev.push(v@.subrange(a as int, b as int)));
            assert(words_from(v@, i as int) == seq![v@.subrange(a as int, b as int)] + words_from(v@, b as int));
            assert(out@.map_values(|w: Vec<char>| w@) + words_from(v@, b as int) =~= prev
                + words_from(v@, i as int));
            i = b;
        }
    }
    assert(words_from(v@, i as int) =~= Seq::<Seq<char>>::empty());
    assert(out@.map_values(|w: Vec<char>| w@) =~= out@.map_values(|w: Vec<char>| w@) + words_from(v@, i as int));
    out
}

/// Whether a PRACK's RAck header value is well formed.
pub fn rack_valid(rack: Option<&str>) -> (r: bool)
    ensures
        r == rack_valid_spec(
            match rack {
                Some(s) => Some(s@),
                None => None,
            },
        ),
{
    match rack {
        None => false,
        Some(s) => {
            let v = chars_of(s);
            let words = exec_words(&v);
            proof {
                assert(words@.map_values(|w: Vec<char>| w@).len() == words@.len());
            }
            if words.len() != 3 {
                return false;
            }
            let w0 = crate::text::string_of(&words[0]);
            let w1 = crate::text::string_of(&words[1]);
            assert(words@.map_values(|w: Vec<char>| w@)[0] == words@[0]@);
            assert(words@.map_values(|w: Vec<char>| w@)[1] == words@[1]@);
            assert(words@.map_values(|w: Vec<char>| w@)[2] == words@[2]@);
            parse_u32(w0.as_str()).is_some() && parse_u32(w1.as_str()).is_some() && words[2].len() > 0
        },
    }
}

// ---------------------------------------------------------------------------
// Laws
// ---------------------------------------------------------------------------

proof fn lemma_percent_plain_from(s: Seq<char>, i: int)
    requires
        0 <= i <= s.len(),
        forall|j: int| 0 <= j < s.len() ==> s[j] != '%',
    ensures
        percent_from(s, i) == s.subrange(i, s.len() as int),
    decreases s.len() - i,
{
    if i < s.len() {
        lemma_percent_plain_from(s, i + 1);
        assert(seq![s[i]] + s.subrange(i + 1, s.len() as int) =~= s.subrange(i, s.len() as int));
    } else {
        assert(s.subrange(i, s.len() as int) =~= Seq::<char>::empty());
    }
}

/// Text without `%` decodes to itself.
pub proof fn lemma_percent_decode_plain(s: Seq<char>)
    requires
        forall|j: int| 0 <= j < s.len() ==> s[j] != '%',
    ensures
        percent_from(s, 0) == s,
{
    lemma_percent_plain_from(s, 0);
    assert(s.subrange(0, s.len() as int) =~= s);
}

proof fn lemma_signal_lines_keys(b: Seq<char>, pos: int)
    ensures
        signal_lines(b, pos) matches Some(c) ==> dtmf_key(c),
    decreases b.len() - pos,
{
    if 0 <= pos <= b.len() {
        let e = find_char(b, '\n', pos, b.len() as int);
        lemma_find_char_range(b, '\n', pos, b.len() as int);
        if e >= 0 {
            lemma_signal_lines_keys(b, e + 1);
        }
    }
}

/// An INFO body only ever yields one of the sixteen DTMF keys.
pub proof fn lemma_info_dtmf_is_a_key(content_type: Seq<char>, body: Seq<u8>)
    ensures
        info_dtmf_spec(content_type, body) matches Some(c) ==> dtmf_key(c),
{
    if valid_utf8(body) {
        lemma_signal_lines_keys(trim_ws(decode_utf8(body)), 0);
    }
}

} // verus!

verus! {

// ---------------------------------------------------------------------------
// Laws of header rewriting
// ---------------------------------------------------------------------------

/// A `\r\n` starts at `i` in `s`.
pub open spec fn crlf_at(s: Seq<char>, i: int) -> bool {
    0 <= i && i + 1 < s.len() && s[i] == '\r' && s[i + 1] == '\n'
}

proof fn lemma_occurs_crlf(s: Seq<char>, i: int)
    ensures
        crate::text::occurs_at(s, crlf(), i) <==> crlf_at(s, i),
{
    if crlf_at(s, i) {
        assert(s.subrange(i, i + 2) =~= crlf());
    }
    if crate::text::occurs_at(s, crlf(), i) {
        assert(s.subrange(i, i + 2)[0] == s[i]);
        assert(s.subrange(i, i + 2)[1] == s[i + 1]);
    }
}

/// No `\r\n` starts in `[lo, hi)`.
pub open spec fn crlf_free(s: Seq<char>, lo: int, hi: int) -> bool {
    forall|i: int| lo <= i < hi ==> !#[trigger] crlf_at(s, i)
}

proof fn lemma_find_crlf_first(s: Seq<char>, lo: int, j: int)
    requires
        0 <= lo <= j,
        crlf_at(s, j),
        crlf_free(s, lo, j),
    ensures
        find_seq(s, crlf(), lo) == j,
    decreases j - lo,
{
    lemma_occurs_crlf(s, lo);
    if lo < j {
        lemma_find_crlf_first(s, lo + 1, j);
    }
}

proof fn lemma_find_crlf_none(s: Seq<char>, lo: int)
    requires
        0 <= lo,
        crlf_free(s, lo, s.len() as int),
    ensures
        find_seq(s, crlf(), lo) == -1,
    decreases s.len() + 1 - lo,
{
    lemma_occurs_crlf(s, lo);
    if lo + 2 <= s.len() {
        lemma_find_crlf_none(s, lo + 1);
    }
}

proof fn lemma_find_crlf_min(s: Seq<char>, lo: int)
    requires
        0 <= lo,
    ensures
        find_seq(s, crlf(), lo) == -1 ==> crlf_free(s, lo, s.len() as int),
        find_seq(s, crlf(), lo) >= 0 ==> find_seq(s, crlf(), lo) >= lo && crlf_at(s, find_seq(s, crlf(), lo))
            && crlf_free(s, lo, find_seq(s, crlf(), lo)),
    decreases s.len() + 1 - lo,
{
    lemma_occurs_crlf(s, lo);
    if lo + 2 <= s.len() && !crate::text::occurs_at(s, crlf(), lo) {
        lemma_find_crlf_min(s, lo + 1);
    }
    if lo + 2 > s.len() {
        assert forall|i: int| lo <= i < s.len() implies !#[trigger] crlf_at(s, i) by {}
    }
}

/// `find_seq` on the second part of a concatenation.
proof fn lemma_find_crlf_shift(a: Seq<char>, b: Seq<char>, k: int)
    requires
        0 <= k,
    ensures
        find_seq(a + b, crlf(), a.len() + k) == (if find_seq(b, crlf(), k) < 0 {
            -1
        } else {
            a.len() + find_seq(b, crlf(), k)
        }),
    decreases b.len() + 1 - k,
{
    lemma_occurs_crlf(a + b, a.len() + k);
    lemma_occurs_crlf(b, k);
    if k + 2 <= b.len() {
        assert((a + b)[a.len() + k] == b[k]);
        assert((a + b)[a.len() + k + 1] == b[k + 1]);
        lemma_find_crlf_shift(a, b, k + 1);
    }
}

/// Rewriting the lines of `a + b` from inside `b` is rewriting `b`.
proof fn lemma_rewritten_shift(a: Seq<char>, b: Seq<char>, k: int, name: Seq<char>, value: Seq<char>)
    requires
        0 <= k,
    ensures
        rewritten_from(a + b, a.len() + k, name, value) == rewritten_from(b, k, name, value),
    decreases b.len() - k,
{
    if k < b.len() {
        lemma_find_crlf_shift(a, b, k);
        lemma_find_seq_range(b, crlf(), k);
        let e = line_end(b, k);
        assert(line_end(a + b, a.len() + k) == a.len() + e);
        assert((a + b).subrange(a.len() + k, a.len() + e) =~= b.subrange(k, e));
        lemma_rewritten_shift(a, b, e, name, value);
    }
}

/// A line ending in its only `\r\n`.
pub open spec fn terminated(l: Seq<char>) -> bool {
    l.len() >= 2 && crlf_at(l, l.len() - 2) && crlf_free(l, 0, l.len() - 2)
}

/// A line as splitting after each `\r\n` yields it: ended by its only
/// `\r\n`, or the last one, with none.
pub open spec fn proper_line(l: Seq<char>) -> bool {
    terminated(l) || crlf_free(l, 0, l.len() as int)
}

/// A terminated line comes off the front of a text whole.
proof fn lemma_first_line(l: Seq<char>, r: Seq<char>, name: Seq<char>, value: Seq<char>)
    requires
        terminated(l),
    ensures
        rewritten_from(l + r, 0, name, value) == rewritten_line(l, name, value) + rewritten_from(r, 0, name, value),
{
    let s = l + r;
    assert forall|i: int| 0 <= i < l.len() - 2 implies !#[trigger] crlf_at(s, i) by {
        assert(s[i] == l[i] && s[i + 1] == l[i + 1]);
        assert(!crlf_at(l, i));
    }
    assert(s[l.len() - 2] == l[l.len() - 2] && s[l.len() - 1] == l[l.len() - 1]);
    lemma_find_crlf_first(s, 0, l.len() - 2);
    assert(s.subrange(0, l.len() as int) =~= l);
    lemma_rewritten_shift(l, r, 0, name, value);
}

/// An unterminated line is rewritten whole.
proof fn lemma_last_line(l: Seq<char>, name: Seq<char>, value: Seq<char>)
    requires
        l.len() > 0,
        crlf_free(l, 0, l.len() as int),
    ensures
        rewritten_from(l, 0, name, value) == rewritten_line(l, name, value),
{
    lemma_find_crlf_none(l, 0);
    assert(l.subrange(0, l.len() as int) =~= l);
    assert(rewritten_from(l, l.len() as int, name, value) == Seq::<char>::empty());
    assert(rewritten_line(l, name, value) + Seq::<char>::empty() =~= rewritten_line(l, name, value));
}

/// Splitting a text yields proper lines.
proof fn lemma_split_proper(raw: Seq<char>, pos: int)
    requires
        0 <= pos < raw.len(),
    ensures
        pos < line_end(raw, pos) <= raw.len(),
        proper_line(raw.subrange(pos, line_end(raw, pos))),
        line_end(raw, pos) < raw.len() ==> terminated(raw.subrange(pos, line_end(raw, pos))),
{
    lemma_find_crlf_min(raw, pos);
    lemma_find_seq_range(raw, crlf(), pos);
    let e = line_end(raw, pos);
    let l = raw.subrange(pos, e);
    let j = find_seq(raw, crlf(), pos);
    if j >= 0 {
        assert(l[j - pos] == raw[j] && l[j - pos + 1] == raw[j + 1]);
        assert forall|i: int| 0 <= i < l.len() - 2 implies !#[trigger] crlf_at(l, i) by {
            assert(l[i] == raw[pos + i] && l[i + 1] == raw[pos + i + 1]);
            assert(!crlf_at(raw, pos + i));
        }
    } else {
        assert forall|i: int| 0 <= i < l.len() implies !#[trigger] crlf_at(l, i) by {
            if i + 1 < l.len() {
                assert(l[i] == raw[pos + i] && l[i + 1] == raw[pos + i + 1]);
                assert(!crlf_at(raw, pos + i));
            }
        }
    }
}

proof fn lemma_back_ws_stop(s: Seq<char>, lo: int, hi: int)
    requires
        0 <= lo <= hi <= s.len(),
    ensures
        back_ws(s, lo, hi) > lo ==> !is_ws(s[back_ws(s, lo, hi) - 1]),
    decreases hi - lo,
{
    if lo < hi && is_ws(s[hi - 1]) {
        lemma_back_ws_stop(s, lo, hi - 1);
    }
}

proof fn lemma_find_char_min(s: Seq<char>, c: char, lo: int, hi: int)
    requires
        0 <= lo,
        hi <= s.len(),
    ensures
        forall|k: int| lo <= k < (if find_char(s, c, lo, hi) < 0 { hi } else { find_char(s, c, lo, hi) }) ==> s[k] != c,
    decreases hi - lo,
{
    if lo < hi && s[lo] != c {
        lemma_find_char_min(s, c, lo + 1, hi);
    }
}

proof fn lemma_find_char_at(s: Seq<char>, c: char, lo: int, j: int, hi: int)
    requires
        0 <= lo <= j < hi <= s.len(),
        s[j] == c,
        forall|k: int| lo <= k < j ==> s[k] != c,
    ensures
        find_char(s, c, lo, hi) == j,
    decreases j - lo,
{
    if lo < j {
        lemma_find_char_at(s, c, lo + 1, j, hi);
    }
}

/// ASCII lowercasing keeps `\r`, `\n`, `:` and whitespace apart from
/// everything else.
proof fn lemma_lower_keeps(c: char, d: char)
    requires
        lower(c) == lower(d),
    ensures
        c == '\r' <==> d == '\r',
        c == '\n' <==> d == '\n',
        c == ':' <==> d == ':',
        is_ws(c) <==> is_ws(d),
{
}

/// A trimmed text whose ends are not whitespace is itself.
proof fn lemma_trim_id(s: Seq<char>)
    requires
        s.len() > 0 ==> !is_ws(s[0]) && !is_ws(s[s.len() - 1]),
    ensures
        trim_ws(s) == s,
{
    assert(s.subrange(0, s.len() as int) =~= s);
}

/// The name a line was matched by: no `\r\n`, no `:`, no whitespace at
/// either end.
proof fn lemma_matched_name(l: Seq<char>, name: Seq<char>)
    requires
        proper_line(l),
        lower_seq(trim_ws(before_char(l, ':'))) == lower_seq(name),
    ensures
        crlf_free(name, 0, name.len() as int),
        forall|i: int| 0 <= i < name.len() ==> name[i] != ':',
        name.len() > 0 ==> !is_ws(name[0]) && !is_ws(name[name.len() - 1]),
{
    let f = find_char(l, ':', 0, l.len() as int);
    lemma_find_char_range(l, ':', 0, l.len() as int);
    lemma_find_char_min(l, ':', 0, l.len() as int);
    let t = before_char(l, ':');
    let kend = if f < 0 { l.len() as int } else { f };
    assert(t =~= l.subrange(0, kend));
    lemma_trim_shift(l, 0, kend);
    let a = skip_ws(l, 0, kend);
    let b = back_ws(l, a, kend);
    let k = trim_ws(t);
    assert(k == l.subrange(a, b));
    lemma_skip_ws_range(l, 0, kend);
    lemma_back_ws_range(l, a, kend);
    lemma_skip_ws_stop(l, 0, kend);
    lemma_back_ws_stop(l, a, kend);
    assert(lower_seq(k).len() == k.len());
    assert(name.len() == k.len());
    assert forall|i: int| 0 <= i < name.len() implies lower(#[trigger] name[i]) == lower(k[i]) by {
        assert(lower_seq(name)[i] == lower_seq(k)[i]);
    }
    // No `\r\n` in the matched key.
    assert forall|i: int| 0 <= i < k.len() implies !#[trigger] crlf_at(k, i) by {
        if crlf_at(k, i) {
            assert(l[a + i] == k[i] && l[a + i + 1] == k[i + 1]);
            assert(crlf_at(l, a + i));
            if terminated(l) {
                assert(a + i == l.len() - 2);
                assert(k[k.len() - 1] == l[b - 1]);
            }
        }
    }
    assert forall|i: int| 0 <= i < name.len() implies !#[trigger] crlf_at(name, i) by {
        if crlf_at(name, i) {
            lemma_lower_keeps(name[i], k[i]);
            lemma_lower_keeps(name[i + 1], k[i + 1]);
            assert(crlf_at(k, i));
        }
    }
    assert forall|i: int| 0 <= i < name.len() implies #[trigger] name[i] != ':' by {
        lemma_lower_keeps(name[i], k[i]);
        assert(k[i] == l[a + i]);
    }
    if name.len() > 0 {
        lemma_lower_keeps(name[0], k[0]);
        lemma_lower_keeps(name[name.len() - 1], k[k.len() - 1]);
        assert(k[0] == l[a]);
        assert(k[k.len() - 1] == l[b - 1]);
    }
}

/// A rewritten line is a proper line that rewriting leaves as it is; one
/// that is not terminated is the line itself.
proof fn lemma_rewritten_line_fix(l: Seq<char>, name: Seq<char>, value: Seq<char>)
    requires
        proper_line(l),
        crlf_free(value, 0, value.len() as int),
    ensures
        proper_line(rewritten_line(l, name, value)),
        rewritten_line(rewritten_line(l, name, value), name, value) == rewritten_line(l, name, value),
        !terminated(rewritten_line(l, name, value)) ==> rewritten_line(l, name, value) == l,
{
    if lower_seq(trim_ws(before_char(l, ':'))) == lower_seq(name) {
        lemma_matched_name(l, name);
        let m = name + ": "@ + value + crlf();
        reveal_strlit(": ");
        let n = name.len() as int;
        let v = value.len() as int;
        assert(m.len() == n + 2 + v + 2);
        assert forall|i: int| 0 <= i < n implies #[trigger] m[i] == name[i] by {}
        assert(m[n] == ':' && m[n + 1] == ' ');
        assert forall|j: int| 0 <= j < v implies #[trigger] m[n + 2 + j] == value[j] by {}
        assert(m[n + 2 + v] == '\r' && m[n + 2 + v + 1] == '\n');
        assert forall|i: int| 0 <= i < m.len() - 2 implies !#[trigger] crlf_at(m, i) by {
            if i < n - 1 {
                assert(m[i + 1] == name[i + 1]);
                assert(!crlf_at(name, i));
            } else if i == n - 1 {
            } else if i < n + 2 {
            } else if i < n + 2 + v - 1 {
                let j = i - n - 2;
                assert(m[i] == value[j] && m[i + 1] == value[j + 1]);
                assert(!crlf_at(value, j));
            } else {
            }
        }
        assert(terminated(m));
        lemma_find_char_at(m, ':', 0, n, m.len() as int);
        assert(before_char(m, ':') =~= name);
        lemma_trim_id(name);
    }
}

proof fn lemma_rewrite_idempotent_from(raw: Seq<char>, pos: int, name: Seq<char>, value: Seq<char>)
    requires
        0 <= pos,
        crlf_free(value, 0, value.len() as int),
    ensures
        rewritten_from(rewritten_from(raw, pos, name, value), 0, name, value) == rewritten_from(raw, pos, name, value),
    decreases raw.len() - pos,
{
    if pos < raw.len() {
        lemma_split_proper(raw, pos);
        let e = line_end(raw, pos);
        let l = raw.subrange(pos, e);
        lemma_rewritten_line_fix(l, name, value);
        let m = rewritten_line(l, name, value);
        let rest = rewritten_from(raw, e, name, value);
        assert(rewritten_from(raw, pos, name, value) == m + rest);
        lemma_rewrite_idempotent_from(raw, e, name, value);
        if terminated(m) {
            lemma_first_line(m, rest, name, value);
        } else {
            assert(e == raw.len());
            assert(rest == Seq::<char>::empty());
            assert(m + rest =~= m);
            lemma_last_line(m, name, value);
        }
    } else {
        assert(rewritten_from(Seq::<char>::empty(), 0, name, value) == Seq::<char>::empty());
    }
}

/// Replacing a header twice with the same value, which holds no line
/// break, gives what replacing it once gives.
pub proof fn lemma_replace_header_idempotent(raw: Seq<char>, name: Seq<char>, value: Seq<char>)
    requires
        !contains_seq(value, crlf()),
    ensures
        rewritten_from(rewritten_from(raw, 0, name, value), 0, name, value) == rewritten_from(raw, 0, name, value),
{
    lemma_find_seq_range(value, crlf(), 0);
    lemma_find_crlf_min(value, 0);
    lemma_rewrite_idempotent_from(raw, 0, name, value);
}

/// No line from `pos` on is named `name` (trimmed, ASCII case ignored).
pub open spec fn no_line_named(raw: Seq<char>, pos: int, name: Seq<char>) -> bool
    decreases raw.len() - pos,
{
    if pos < 0 || pos >= raw.len() {
        true
    } else {
        let e = line_end(raw, pos);
        proof {
            lemma_find_seq_range(raw, crlf(), pos);
        }
        lower_seq(trim_ws(before_char(raw.subrange(pos, e), ':'))) != lower_seq(name) && no_line_named(raw, e, name)
    }
}

proof fn lemma_no_match_keeps_from(raw: Seq<char>, pos: int, name: Seq<char>, value: Seq<char>)
    requires
        0 <= pos <= raw.len(),
        no_line_named(raw, pos, name),
    ensures
        rewritten_from(raw, pos, name, value) == raw.subrange(pos, raw.len() as int),
    decreases raw.len() - pos,
{
    if pos < raw.len() {
        lemma_split_proper(raw, pos);
        let e = line_end(raw, pos);
        lemma_no_match_keeps_from(raw, e, name, value);
        assert(raw.subrange(pos, e) + raw.subrange(e, raw.len() as int) =~= raw.subrange(pos, raw.len() as int));
    } else {
        assert(raw.subrange(pos, raw.len() as int) =~= Seq::<char>::empty());
    }
}

/// Replacing a header that no line carries changes nothing.
pub proof fn lemma_replace_absent_header_keeps_text(raw: Seq<char>, name: Seq<char>, value: Seq<char>)
    requires
        no_line_named(raw, 0, name),
    ensures
        rewritten_from(raw, 0, name, value) == raw,
{
    lemma_no_match_keeps_from(raw, 0, name, value);
    assert(raw.subrange(0, raw.len() as int) =~= raw);
}

} // verus!
