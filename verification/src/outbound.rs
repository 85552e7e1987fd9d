//! Outbound SIP request text: NOTIFY/OPTIONS/PRACK/INVITE/in-dialog builders
//! and the header helpers they share (tag/URI extraction, branch tokens,
//! caller identity).
use vstd::prelude::*;
use crate::sip::{header_lookup, header_lookup_from, method_name, HeaderMap, Method, SipRequest, SipUri};
use crate::text::{
    before_char, byte_len, has_char, lower_vec, char_is_ascii_alnum, char_lower, chars_eq_ignore_case, chars_of, dec,
    exec_back_char, exec_find_char, exec_find_seq, exec_skip_char, exec_starts_with,
    exec_trim_range, find_char, find_seq, into_bytes, is_ascii_alnum, is_ascii_digit,
    lemma_find_char_range, lower, lower_seq, push_dec, push_range, push_str,
    starts_with, string_from, string_of, string_range, trim_char, trim_end_char, trim_ws,
    utf8_len, vec_range,
};
use vstd::utf8::encode_utf8;

verus! {

// ---------------------------------------------------------------------------
// Branch tokens
// ---------------------------------------------------------------------------

/// Character used for `c` in a branch token: lowercase alphanumerics, `-` otherwise.
pub open spec fn token_char(c: char) -> char {
    if is_ascii_alnum(c) {
        lower(c)
    } else {
        '-'
    }
}

/// Token built from an arbitrary header value for use inside a Via branch.
pub open spec fn token_fragment_spec(v: Seq<char>) -> Seq<char> {
    let t = trim_char(v.map_values(|c: char| token_char(c)), '-');
    if t.len() == 0 {
        "empty"@
    } else {
        t
    }
}

/// Maps every non-alphanumeric character to `-`, lowercases the rest, trims
/// `-` at both ends and falls back to `"empty"`.
pub fn token_fragment(value: &str) -> (r: String)
    ensures
        r@ == token_fragment_spec(value@),
{
    let v = chars_of(value);
    let mut m: Vec<char> = Vec::new();
    let mut i: usize = 0;
    while i < v.len()
        invariant
            0 <= i <= v@.len(),
            m@ == v@.take(i as int).map_values(|c: char| token_char(c)),
        decreases v@.len() - i,
    {
        let c = v[i];
        let t = if char_is_ascii_alnum(c) {
            char_lower(c)
        } else {
            '-'
        };
        m.push(t);
        i = i + 1;
        assert(m@ =~= v@.take(i as int).map_values(|c: char| token_char(c)));
    }
    assert(v@.take(v@.len() as int) =~= v@);
    let lo = exec_skip_char(&m, '-', 0, m.len());
    let hi = exec_back_char(&m, '-', lo, m.len());
    if lo == hi {
        string_from("empty")
    } else {
        string_range(&m, lo, hi)
    }
}

// ---------------------------------------------------------------------------
// Header URIs and parameters
// ---------------------------------------------------------------------------

pub open spec fn sip_scheme(u: Seq<char>) -> bool {
    starts_with(u, "sip:"@) || starts_with(u, "sips:"@)
}

/// URI taken from the text before the first `;` of a header value.
pub open spec fn header_uri_plain(t: Seq<char>) -> Option<Seq<char>> {
    let f = trim_ws(before_char(t, ';'));
    if sip_scheme(f) {
        Some(f)
    } else {
        None
    }
}

/// The SIP URI named by a header value: the `<...>` part when it holds a
/// `sip:`/`sips:` URI, else the text before the first `;`.  An unclosed `<`
/// yields nothing.
pub open spec fn header_uri_spec(h: Seq<char>) -> Option<Seq<char>> {
    let t = trim_ws(h);
    let lt = find_char(t, '<', 0, t.len() as int);
    if lt >= 0 {
        let gt = find_char(t, '>', lt + 1, t.len() as int);
        if gt < 0 {
            None
        } else {
            let u = trim_ws(t.subrange(lt + 1, gt));
            if sip_scheme(u) {
                Some(u)
            } else {
                header_uri_plain(t)
            }
        }
    } else {
        header_uri_plain(t)
    }
}

fn exec_sip_scheme(u: &Vec<char>) -> (r: bool)
    ensures
        r == sip_scheme(u@),
{
    let sip = chars_of("sip:");
    let sips = chars_of("sips:");
    exec_starts_with(u, &sip) || exec_starts_with(u, &sips)
}

fn exec_header_uri_plain(t: &Vec<char>) -> (r: Option<String>)
    ensures
        match r {
            Some(s) => header_uri_plain(t@) == Some(s@),
            None => header_uri_plain(t@) is None,
        },
{
    let end = match exec_find_char(t, ';', 0, t.len()) {
        Some(i) => i,
        None => t.len(),
    };
    let (a, b) = exec_trim_range(t, 0, end);
    assert(before_char(t@, ';') =~= t@.subrange(0, end as int));
    let f = vec_range(t, a, b);
    if exec_sip_scheme(&f) {
        Some(string_of(&f))
    } else {
        None
    }
}

/// `header_uri`: the SIP URI a From/To/Contact/Refer value names.
pub fn header_uri(header: &str) -> (r: Option<String>)
    ensures
        match r {
            Some(s) => header_uri_spec(header@) == Some(s@),
            None => header_uri_spec(header@) is None,
        },
{
    let v = chars_of(header);
    let (a, b) = exec_trim_range(&v, 0, v.len());
    assert(v@.subrange(0, v@.len() as int) =~= v@);
    let t = vec_range(&v, a, b);
    match exec_find_char(&t, '<', 0, t.len()) {
        Some(lt) => {
            match exec_find_char(&t, '>', lt + 1, t.len()) {
                None => None,
                Some(gt) => {
                    let (ua, ub) = exec_trim_range(&t, lt + 1, gt);
                    let u = vec_range(&t, ua, ub);
                    if exec_sip_scheme(&u) {
                        Some(string_of(&u))
                    } else {
                        exec_header_uri_plain(&t)
                    }
                }
            }
        }
        None => exec_header_uri_plain(&t),
    }
}

/// Value of `name=value` in one `;`-separated piece.  With `trim_key` the
/// key is trimmed before the comparison; the value is trimmed and loses
/// trailing `>`.
pub open spec fn param_piece(p: Seq<char>, name: Seq<char>, trim_key: bool) -> Option<Seq<char>> {
    let tp = trim_ws(p);
    let e = find_char(tp, '=', 0, tp.len() as int);
    if e < 0 {
        None
    } else {
        let key = if trim_key {
            trim_ws(tp.take(e))
        } else {
            tp.take(e)
        };
        if lower_seq(key) == lower_seq(name) {
            Some(trim_end_char(trim_ws(tp.skip(e + 1)), '>'))
        } else {
            None
        }
    }
}

/// First parameter match among the pieces starting at `pos`.
pub open spec fn param_scan(s: Seq<char>, name: Seq<char>, trim_key: bool, pos: int) -> Option<
    Seq<char>,
>
    decreases s.len() + 1 - pos,
{
    if pos < 0 || pos > s.len() {
        None
    } else {
        let e = find_char(s, ';', pos, s.len() as int);
        proof {
            lemma_find_char_range(s, ';', pos, s.len() as int);
        }
        let end = if e < 0 {
            s.len() as int
        } else {
            e
        };
        let r = param_piece(s.subrange(pos, end), name, trim_key);
        if r is Some {
            r
        } else if e < 0 {
            None
        } else {
            param_scan(s, name, trim_key, e + 1)
        }
    }
}

/// Parameter `name` of a header value: the first match among the pieces after
/// the first `;` (`split(';').skip(1).find_map(..)`).
pub open spec fn header_param_spec(s: Seq<char>, name: Seq<char>, trim_key: bool) -> Option<Seq<char>> {
    let e = find_char(s, ';', 0, s.len() as int);
    if e < 0 {
        None
    } else {
        param_scan(s, name, trim_key, e + 1)
    }
}

fn exec_param_piece(p: &Vec<char>, name: &Vec<char>, trim_key: bool) -> (r: Option<String>)
    ensures
        match r {
            Some(s) => param_piece(p@, name@, trim_key) == Some(s@),
            None => param_piece(p@, name@, trim_key) is None,
        },
{
    let (a, b) = exec_trim_range(p, 0, p.len());
    assert(p@.subrange(0, p@.len() as int) =~= p@);
    let tp = vec_range(p, a, b);
    match exec_find_char(&tp, '=', 0, tp.len()) {
        None => None,
        Some(e) => {
            let key = if trim_key {
                let (ka, kb) = exec_trim_range(&tp, 0, e);
                assert(tp@.subrange(0, e as int) =~= tp@.take(e as int));
                vec_range(&tp, ka, kb)
            } else {
                let k = vec_range(&tp, 0, e);
                assert(k@ =~= tp@.take(e as int));
                k
            };
            if chars_eq_ignore_case(&key, name) {
                let (va, vb) = exec_trim_range(&tp, e + 1, tp.len());
                assert(tp@.subrange(e + 1, tp@.len() as int) =~= tp@.skip(e + 1));
                let val = vec_range(&tp, va, vb);
                let end = exec_back_char(&val, '>', 0, val.len());
                let out = string_range(&val, 0, end);
                assert(out@ =~= trim_end_char(val@, '>'));
                Some(out)
            } else {
                None
            }
        }
    }
}

fn exec_header_param(s: &Vec<char>, name: &Vec<char>, trim_key: bool) -> (r: Option<String>)
    ensures
        match r {
            Some(x) => header_param_spec(s@, name@, trim_key) == Some(x@),
            None => header_param_spec(s@, name@, trim_key) is None,
        },
{
    let first = exec_find_char(s, ';', 0, s.len());
    let mut pos = match first {
        None => {
            return None;
        },
        Some(e) => e + 1,
    };
    loop
        invariant
            0 <= pos <= s@.len(),
            header_param_spec(s@, name@, trim_key) == param_scan(s@, name@, trim_key, pos as int),
        decreases s@.len() + 1 - pos,
    {
        let found = exec_find_char(s, ';', pos, s.len());
        let end = match found {
            Some(e) => e,
            None => s.len(),
        };
        let piece = vec_range(s, pos, end);
        let r = exec_param_piece(&piece, name, trim_key);
        if r.is_some() {
            return r;
        }
        match found {
            None => {
                return None;
            },
            Some(e) => {
                pos = e + 1;
            },
        }
    }
}

/// `header_parameter`: parameter `name` (key compared ignoring ASCII case,
/// untrimmed) among the pieces after the first `;`.
pub fn header_parameter(header: &str, name: &str) -> (r: Option<String>)
    ensures
        match r {
            Some(x) => header_param_spec(header@, name@, false) == Some(x@),
            None => header_param_spec(header@, name@, false) is None,
        },
{
    let s = chars_of(header);
    let n = chars_of(name);
    exec_header_param(&s, &n, false)
}

/// `tag` parameter of a header value, the key trimmed before comparison.
pub fn tag_param(header: &str) -> (r: Option<String>)
    ensures
        match r {
            Some(x) => header_param_spec(header@, "tag"@, true) == Some(x@),
            None => header_param_spec(header@, "tag"@, true) is None,
        },
{
    let s = chars_of(header);
    let n = chars_of("tag");
    exec_header_param(&s, &n, true)
}

// ---------------------------------------------------------------------------
// Caller numbers and token bytes
// ---------------------------------------------------------------------------

/// A presented caller number: optional `+`, then at least one ASCII digit.
pub open spec fn caller_digits(n: Seq<char>) -> Seq<char> {
    if n.len() > 0 && n[0] == '+' {
        n.drop_first()
    } else {
        n
    }
}

pub open spec fn all_digits(d: Seq<char>) -> bool {
    forall|i: int| 0 <= i < d.len() ==> is_ascii_digit(#[trigger] d[i])
}

pub open spec fn valid_caller_number_spec(n: Seq<char>) -> bool {
    caller_digits(n).len() > 0 && all_digits(caller_digits(n))
}

pub fn valid_caller_number(number: &str) -> (r: bool)
    ensures
        r == valid_caller_number_spec(number@),
{
    let v = chars_of(number);
    let start: usize = if v.len() > 0 && v[0] == '+' {
        1
    } else {
        0
    };
    let ghost d = caller_digits(v@);
    assert(d =~= v@.skip(start as int));
    if start >= v.len() {
        return false;
    }
    let mut i = start;
    while i < v.len()
        invariant
            start <= i <= v@.len(),
            v@ == number@,
            d == caller_digits(number@),
            d =~= v@.skip(start as int),
            forall|j: int| start <= j < i ==> is_ascii_digit(#[trigger] v@[j]),
        decreases v@.len() - i,
    {
        if !(v[i] >= '0' && v[i] <= '9') {
            assert(!is_ascii_digit(d[i - start]));
            assert(!valid_caller_number_spec(number@));
            return false;
        }
        i = i + 1;
    }
    assert forall|k: int| 0 <= k < d.len() implies is_ascii_digit(#[trigger] d[k]) by {
        assert(d[k] == v@[k + start]);
    }
    true
}

pub open spec fn is_token_byte(b: u8) -> bool {
    (0x30 <= b <= 0x39) || (0x41 <= b <= 0x5a) || (0x61 <= b <= 0x7a) || b == 0x2d || b == 0x2e
        || b == 0x5f || b == 0x2b
}

/// Bytes allowed in a forwarded tag: ASCII alphanumerics and `- . _ +`.
pub fn valid_token_byte(byte: u8) -> (r: bool)
    ensures
        r == is_token_byte(byte),
{
    (byte >= 0x30 && byte <= 0x39) || (byte >= 0x41 && byte <= 0x5a) || (byte >= 0x61 && byte
        <= 0x7a) || byte == 0x2d || byte == 0x2e || byte == 0x5f || byte == 0x2b
}

} // verus!

verus! {

// ---------------------------------------------------------------------------
// Max-Forwards
// ---------------------------------------------------------------------------

/// Value of a run of ASCII digits.
pub open spec fn digits_value(d: Seq<char>) -> nat
    decreases d.len(),
{
    if d.len() == 0 {
        0
    } else {
        digits_value(d.drop_last()) * 10 + ((d.last() as u32) - 48) as nat
    }
}

/// `str::parse::<u32>`: optional `+`, at least one digit, value in range.
pub open spec fn parse_u32_spec(s: Seq<char>) -> Option<u32> {
    let d = caller_digits(s);
    if d.len() > 0 && all_digits(d) && digits_value(d) <= u32::MAX {
        Some(digits_value(d) as u32)
    } else {
        None
    }
}

proof fn lemma_digits_value_mono(d: Seq<char>, i: int)
    requires
        0 <= i <= d.len(),
        all_digits(d),
    ensures
        digits_value(d.take(i)) <= digits_value(d),
    decreases d.len() - i,
{
    if i < d.len() {
        lemma_digits_value_mono(d, i + 1);
        assert(d.take(i + 1).drop_last() =~= d.take(i));
        assert(is_ascii_digit(d[i]));
        assert(d.take(i + 1).last() == d[i]);
    } else {
        assert(d.take(i) =~= d);
    }
}

pub fn parse_u32(s: &str) -> (r: Option<u32>)
    ensures
        r == parse_u32_spec(s@),
{
    let v = chars_of(s);
    let start: usize = if v.len() > 0 && v[0] == '+' {
        1
    } else {
        0
    };
    let ghost d = caller_digits(v@);
    assert(d =~= v@.skip(start as int));
    if start >= v.len() {
        return None;
    }
    let mut acc: u64 = 0;
    let mut i = start;
    while i < v.len()
        invariant
            start <= i <= v@.len(),
            v@ == s@,
            d == caller_digits(s@),
            d =~= v@.skip(start as int),
            forall|j: int| start <= j < i ==> is_ascii_digit(#[trigger] v@[j]),
            acc == digits_value(d.take(i - start)),
            acc <= u32::MAX,
        decreases v@.len() - i,
    {
        let c = v[i];
        if !(c >= '0' && c <= '9') {
            assert(!is_ascii_digit(d[i - start]));
            assert(!all_digits(d));
            return None;
        }
        let digit: u64 = (c as u32 - 48) as u64;
        assert(d.take(i - start + 1).drop_last() =~= d.take(i - start));
        acc = acc * 10 + digit;
        i = i + 1;
        if acc > 0xffff_ffff {
            proof {
                if all_digits(d) {
                    lemma_digits_value_mono(d, i - start);
                }
            }
            return None;
        }
    }
    assert(d.take(i - start) =~= d);
    assert forall|k: int| 0 <= k < d.len() implies is_ascii_digit(#[trigger] d[k]) by {
        assert(d[k] == v@[k + start]);
    }
    Some(acc as u32)
}

/// `Max-Forwards` for a forwarded request: one less than the inbound value
/// (not below zero), 69 when missing or unparsable.
pub open spec fn next_max_forwards_spec(h: Seq<(Seq<char>, Seq<char>)>) -> u32 {
    match header_lookup(h, "max-forwards"@) {
        Some(v) => match parse_u32_spec(v) {
            Some(n) => if n == 0 {
                0
            } else {
                (n - 1) as u32
            },
            None => 69,
        },
        None => 69,
    }
}

pub fn next_max_forwards(headers: &HeaderMap) -> (r: u32)
    ensures
        r == next_max_forwards_spec(headers@),
{
    match headers.get("max-forwards") {
        Some(v) => match parse_u32(v.as_str()) {
            Some(n) => n.saturating_sub(1),
            None => 69,
        },
        None => 69,
    }
}

// ---------------------------------------------------------------------------
// Target addresses
// ---------------------------------------------------------------------------

pub open spec fn target_addr_spec(host: Seq<char>, port: Option<u16>) -> Seq<char> {
    host + ":"@ + dec(
        match port {
            Some(p) => p as nat,
            None => 5060,
        },
    )
}

/// `host:port` to send to, the port defaulting to 5060.
pub fn target_addr_for(uri: &SipUri) -> (r: String)
    ensures
        r@ == target_addr_spec(uri.host@, uri.port),
{
    let mut out = String::new();
    push_str(&mut out, uri.host.as_str());
    push_str(&mut out, ":");
    let port: u16 = match uri.port {
        Some(p) => p,
        None => 5060,
    };
    push_dec(&mut out, port as u64);
    assert(out@ =~= target_addr_spec(uri.host@, uri.port));
    out
}

/// Drops every leading copy of `p` (`str::trim_start_matches` with a string).
pub open spec fn strip_prefix_all(s: Seq<char>, p: Seq<char>) -> Seq<char>
    decreases s.len(),
{
    if p.len() > 0 && starts_with(s, p) {
        strip_prefix_all(s.skip(p.len() as int), p)
    } else {
        s
    }
}

/// Best-effort `host:port` from raw URI text that did not parse as a SIP URI.
pub open spec fn raw_target_spec(raw: Seq<char>) -> Seq<char> {
    let host = strip_prefix_all(strip_prefix_all(raw, "sip:"@), "sips:"@);
    if find_char(host, ':', 0, host.len() as int) >= 0 {
        host
    } else {
        host + ":5060"@
    }
}

fn exec_strip_prefix_all(v: &Vec<char>, p: &Vec<char>) -> (r: Vec<char>)
    ensures
        r@ == strip_prefix_all(v@, p@),
{
    let mut cur = vec_range(v, 0, v.len());
    assert(cur@ =~= v@);
    if p.len() == 0 {
        return cur;
    }
    while exec_starts_with(&cur, p)
        invariant
            p@.len() > 0,
            strip_prefix_all(cur@, p@) == strip_prefix_all(v@, p@),
        decreases cur@.len(),
    {
        cur = vec_range(&cur, p.len(), cur.len());
        assert(cur@ =~= cur@);
    }
    cur
}

/// `target_addr_for_str`: the address of `parsed` when the raw text parsed as
/// a SIP URI, else the raw text without its `sip:`/`sips:` prefix and with
/// port 5060 added when it has no `:`.
pub fn target_addr_for_str(raw_uri: &str, parsed: Option<&SipUri>) -> (r: String)
    ensures
        r@ == match parsed {
            Some(u) => target_addr_spec(u.host@, u.port),
            None => raw_target_spec(raw_uri@),
        },
{
    match parsed {
        Some(uri) => target_addr_for(uri),
        None => {
            let v = chars_of(raw_uri);
            let sip = chars_of("sip:");
            let sips = chars_of("sips:");
            let h1 = exec_strip_prefix_all(&v, &sip);
            let host = exec_strip_prefix_all(&h1, &sips);
            let mut out = string_of(&host);
            if exec_find_char(&host, ':', 0, host.len()).is_none() {
                push_str(&mut out, ":5060");
            }
            out
        },
    }
}

/// Methods forwarded within an established dialog.
pub open spec fn forwardable_in_dialog(m: Method) -> bool {
    m is Bye || m is Cancel || m is Info || m is Refer || m is Update
}

pub fn is_forwardable_in_dialog_method(method: &Method) -> (r: bool)
    ensures
        r == forwardable_in_dialog(*method),
{
    match method {
        Method::Bye | Method::Cancel | Method::Info | Method::Refer | Method::Update => true,
        _ => false,
    }
}

// ---------------------------------------------------------------------------
// NOTIFY with message/sipfrag
// ---------------------------------------------------------------------------

/// Request URI of a REFER progress NOTIFY: the URI of the REFER's From, else
/// a placeholder at the advertised address.
pub open spec fn sipfrag_target(refer_from: Seq<char>, addr: Seq<char>) -> Seq<char> {
    match header_uri_spec(refer_from) {
        Some(u) => u,
        None => "sip:refer-subscription@"@ + addr,
    }
}

/// Text of a REFER progress NOTIFY carrying a `message/sipfrag` body.
pub open spec fn notify_sipfrag_text(
    call_id: Seq<char>,
    refer_from: Seq<char>,
    refer_to: Seq<char>,
    cseq: u32,
    addr: Seq<char>,
    body: Seq<char>,
    sub_state: Seq<char>,
) -> Seq<char> {
    "NOTIFY "@ + sipfrag_target(refer_from, addr) + " SIP/2.0\r\nVia: SIP/2.0/UDP "@ + addr
        + ";branch=z9hG4bK-notify-"@ + token_fragment_spec(call_id) + "-"@ + dec(cseq as nat)
        + "\r\nMax-Forwards: 70\r\nFrom: "@ + refer_to + "\r\nTo: "@ + refer_from
        + "\r\nCall-ID: "@ + call_id + "\r\nCSeq: "@ + dec(cseq as nat)
        + " NOTIFY\r\nContact: <sip:vosrs@"@ + addr
        + ">\r\nEvent: refer\r\nSubscription-State: "@ + sub_state
        + "\r\nContent-Type: message/sipfrag;version=2.0\r\nContent-Length: "@ + dec(utf8_len(body))
        + "\r\n\r\n"@ + body
}

/// NOTIFY reporting REFER progress; From and To are swapped relative to the
/// REFER, and Content-Length is the body's byte length.
pub fn build_notify_sipfrag_with_state(
    call_id: &str,
    refer_from: &str,
    refer_to: &str,
    cseq: u32,
    advertised_addr: &str,
    body: &str,
    sub_state: &str,
) -> (r: Vec<u8>)
    ensures
        r@ == encode_utf8(
            notify_sipfrag_text(call_id@, refer_from@, refer_to@, cseq, advertised_addr@, body@, sub_state@),
        ),
{
    let target = match header_uri(refer_from) {
        Some(u) => u,
        None => {
            let mut t = String::new();
            push_str(&mut t, "sip:refer-subscription@");
            push_str(&mut t, advertised_addr);
            assert(t@ =~= "sip:refer-subscription@"@ + advertised_addr@);
            t
        },
    };
    assert(target@ == sipfrag_target(refer_from@, advertised_addr@));
    let mut out = String::new();
    push_str(&mut out, "NOTIFY ");
    push_str(&mut out, target.as_str());
    push_str(&mut out, " SIP/2.0\r\nVia: SIP/2.0/UDP ");
    push_str(&mut out, advertised_addr);
    push_str(&mut out, ";branch=z9hG4bK-notify-");
    let tf = token_fragment(call_id);
    push_str(&mut out, tf.as_str());
    push_str(&mut out, "-");
    push_dec(&mut out, cseq as u64);
    push_str(&mut out, "\r\nMax-Forwards: 70\r\nFrom: ");
    push_str(&mut out, refer_to);
    push_str(&mut out, "\r\nTo: ");
    push_str(&mut out, refer_from);
    push_str(&mut out, "\r\nCall-ID: ");
    push_str(&mut out, call_id);
    push_str(&mut out, "\r\nCSeq: ");
    push_dec(&mut out, cseq as u64);
    push_str(&mut out, " NOTIFY\r\nContact: <sip:vosrs@");
    push_str(&mut out, advertised_addr);
    push_str(&mut out, ">\r\nEvent: refer\r\nSubscription-State: ");
    push_str(&mut out, sub_state);
    push_str(&mut out, "\r\nContent-Type: message/sipfrag;version=2.0\r\nContent-Length: ");
    push_dec(&mut out, byte_len(body) as u64);
    push_str(&mut out, "\r\n\r\n");
    push_str(&mut out, body);
    assert(out@ =~= notify_sipfrag_text(
        call_id@,
        refer_from@,
        refer_to@,
        cseq,
        advertised_addr@,
        body@,
        sub_state@,
    ));
    into_bytes(out)
}

/// The REFER progress NOTIFY with subscription state `active;expires=60`.
pub fn build_notify_sipfrag(
    call_id: &str,
    refer_from: &str,
    refer_to: &str,
    cseq: u32,
    advertised_addr: &str,
    body: &str,
) -> (r: Vec<u8>)
    ensures
        r@ == encode_utf8(
            notify_sipfrag_text(
                call_id@,
                refer_from@,
                refer_to@,
                cseq,
                advertised_addr@,
                body@,
                "active;expires=60"@,
            ),
        ),
{
    build_notify_sipfrag_with_state(
        call_id,
        refer_from,
        refer_to,
        cseq,
        advertised_addr,
        body,
        "active;expires=60",
    )
}

} // verus!

verus! {

// ---------------------------------------------------------------------------
// OPTIONS probe and PRACK
// ---------------------------------------------------------------------------

/// Text of the out-of-dialog OPTIONS used to probe a gateway.
pub open spec fn gateway_options_text(target: Seq<char>, addr: Seq<char>, call_id: Seq<char>, cseq: u32) -> Seq<char> {
    "OPTIONS "@ + target + " SIP/2.0\r\nVia: SIP/2.0/UDP "@ + addr + ";branch=z9hG4bK-health-"@
        + dec(cseq as nat) + "\r\nMax-Forwards: 70\r\nFrom: <sip:health-check@"@ + addr
        + ">;tag=health-"@ + dec(cseq as nat) + "\r\nTo: <"@ + target + ">\r\nCall-ID: "@ + call_id
        + "\r\nCSeq: "@ + dec(cseq as nat) + " OPTIONS\r\nContact: <sip:health-check@"@ + addr
        + ">\r\nAccept: application/sdp\r\nContent-Length: 0\r\n\r\n"@
}

pub fn build_gateway_options(target_uri: &SipUri, advertised_addr: &str, call_id: &str, cseq: u32) -> (r: Vec<u8>)
    ensures
        r@ == encode_utf8(gateway_options_text(target_uri.text@, advertised_addr@, call_id@, cseq)),
{
    let target = target_uri.text.as_str();
    let mut out = String::new();
    push_str(&mut out, "OPTIONS ");
    push_str(&mut out, target);
    push_str(&mut out, " SIP/2.0\r\nVia: SIP/2.0/UDP ");
    push_str(&mut out, advertised_addr);
    push_str(&mut out, ";branch=z9hG4bK-health-");
    push_dec(&mut out, cseq as u64);
    push_str(&mut out, "\r\nMax-Forwards: 70\r\nFrom: <sip:health-check@");
    push_str(&mut out, advertised_addr);
    push_str(&mut out, ">;tag=health-");
    push_dec(&mut out, cseq as u64);
    push_str(&mut out, "\r\nTo: <");
    push_str(&mut out, target);
    push_str(&mut out, ">\r\nCall-ID: ");
    push_str(&mut out, call_id);
    push_str(&mut out, "\r\nCSeq: ");
    push_dec(&mut out, cseq as u64);
    push_str(&mut out, " OPTIONS\r\nContact: <sip:health-check@");
    push_str(&mut out, advertised_addr);
    push_str(&mut out, ">\r\nAccept: application/sdp\r\nContent-Length: 0\r\n\r\n");
    assert(out@ =~= gateway_options_text(target_uri.text@, advertised_addr@, call_id@, cseq));
    into_bytes(out)
}

/// Text of a PRACK acknowledging a reliable provisional response.
pub open spec fn prack_text(
    call_id: Seq<char>,
    from: Seq<char>,
    to: Seq<char>,
    cseq: u32,
    rack: Seq<char>,
    addr: Seq<char>,
    target: Seq<char>,
) -> Seq<char> {
    "PRACK "@ + target + " SIP/2.0\r\nVia: SIP/2.0/UDP "@ + addr + ";branch=z9hG4bK-prack-"@
        + token_fragment_spec(call_id) + "-"@ + dec(cseq as nat) + "\r\nMax-Forwards: 70\r\nFrom: "@
        + from + "\r\nTo: "@ + to + "\r\nCall-ID: "@ + call_id + "\r\nCSeq: "@ + dec(cseq as nat)
        + " PRACK\r\nContact: <sip:vosrs@"@ + addr + ">\r\nRAck: "@ + rack
        + "\r\nContent-Length: 0\r\n\r\n"@
}

pub fn build_outbound_prack(
    call_id: &str,
    from: &str,
    to: &str,
    cseq: u32,
    rack_value: &str,
    advertised_addr: &str,
    target_uri: &SipUri,
) -> (r: Vec<u8>)
    ensures
        r@ == encode_utf8(
            prack_text(call_id@, from@, to@, cseq, rack_value@, advertised_addr@, target_uri.text@),
        ),
{
    let mut out = String::new();
    push_str(&mut out, "PRACK ");
    push_str(&mut out, target_uri.text.as_str());
    push_str(&mut out, " SIP/2.0\r\nVia: SIP/2.0/UDP ");
    push_str(&mut out, advertised_addr);
    push_str(&mut out, ";branch=z9hG4bK-prack-");
    let tf = token_fragment(call_id);
    push_str(&mut out, tf.as_str());
    push_str(&mut out, "-");
    push_dec(&mut out, cseq as u64);
    push_str(&mut out, "\r\nMax-Forwards: 70\r\nFrom: ");
    push_str(&mut out, from);
    push_str(&mut out, "\r\nTo: ");
    push_str(&mut out, to);
    push_str(&mut out, "\r\nCall-ID: ");
    push_str(&mut out, call_id);
    push_str(&mut out, "\r\nCSeq: ");
    push_dec(&mut out, cseq as u64);
    push_str(&mut out, " PRACK\r\nContact: <sip:vosrs@");
    push_str(&mut out, advertised_addr);
    push_str(&mut out, ">\r\nRAck: ");
    push_str(&mut out, rack_value);
    push_str(&mut out, "\r\nContent-Length: 0\r\n\r\n");
    assert(out@ =~= prack_text(
        call_id@,
        from@,
        to@,
        cseq,
        rack_value@,
        advertised_addr@,
        target_uri.text@,
    ));
    into_bytes(out)
}

// ---------------------------------------------------------------------------
// Transfer INVITE
// ---------------------------------------------------------------------------

/// The dialog identifiers of one B2BUA leg.
pub struct DialogLegState {
    pub call_id: String,
    pub local_cseq: u32,
    pub remote_target: String,
    pub local_uri: String,
    pub local_tag: String,
    pub remote_uri: String,
    pub remote_tag: Option<String>,
}

pub open spec fn to_with_tag(uri: Seq<char>, tag: Option<String>) -> Seq<char> {
    match tag {
        Some(t) => "<"@ + uri + ">;tag="@ + t@,
        None => "<"@ + uri + ">"@,
    }
}

pub open spec fn replaces_text(replaces: Option<Seq<char>>) -> Seq<char> {
    match replaces {
        Some(v) => "Replaces: "@ + v + "\r\n"@,
        None => Seq::empty(),
    }
}

/// Header text of an INVITE sent on `dialog` to complete a transfer.
pub open spec fn transfer_invite_text(
    d: DialogLegState,
    addr: Seq<char>,
    sdp_len: nat,
    replaces: Option<Seq<char>>,
) -> Seq<char> {
    "INVITE "@ + d.remote_target@ + " SIP/2.0\r\nVia: SIP/2.0/UDP "@ + addr
        + ";branch=z9hG4bK-transfer-"@ + token_fragment_spec(d.call_id@) + "-"@ + dec(
        d.local_cseq as nat,
    ) + "\r\nMax-Forwards: 70\r\nFrom: <"@ + d.local_uri@ + ">;tag="@ + d.local_tag@
        + "\r\nTo: "@ + to_with_tag(d.remote_uri@, d.remote_tag) + "\r\nCall-ID: "@ + d.call_id@
        + "\r\nCSeq: "@ + dec(d.local_cseq as nat) + " INVITE\r\nContact: <sip:vosrs@"@ + addr
        + ">\r\n"@ + replaces_text(replaces) + "Content-Type: application/sdp\r\nContent-Length: "@
        + dec(sdp_len) + "\r\n\r\n"@
}

pub open spec fn opt_view(o: Option<&str>) -> Option<Seq<char>> {
    match o {
        Some(s) => Some(s@),
        None => None,
    }
}

pub fn build_transfer_invite(
    dialog: &DialogLegState,
    advertised_addr: &str,
    sdp_body: &[u8],
    replaces: Option<&str>,
) -> (r: Vec<u8>)
    ensures
        r@ == encode_utf8(
            transfer_invite_text(*dialog, advertised_addr@, sdp_body@.len(), opt_view(replaces)),
        ) + sdp_body@,
{
    let mut out = String::new();
    push_str(&mut out, "INVITE ");
    push_str(&mut out, dialog.remote_target.as_str());
    push_str(&mut out, " SIP/2.0\r\nVia: SIP/2.0/UDP ");
    push_str(&mut out, advertised_addr);
    push_str(&mut out, ";branch=z9hG4bK-transfer-");
    let tf = token_fragment(dialog.call_id.as_str());
    push_str(&mut out, tf.as_str());
    push_str(&mut out, "-");
    push_dec(&mut out, dialog.local_cseq as u64);
    push_str(&mut out, "\r\nMax-Forwards: 70\r\nFrom: <");
    push_str(&mut out, dialog.local_uri.as_str());
    push_str(&mut out, ">;tag=");
    push_str(&mut out, dialog.local_tag.as_str());
    push_str(&mut out, "\r\nTo: ");
    let ghost before_to = out@;
    push_str(&mut out, "<");
    push_str(&mut out, dialog.remote_uri.as_str());
    match &dialog.remote_tag {
        Some(tag) => {
            push_str(&mut out, ">;tag=");
            push_str(&mut out, tag.as_str());
        },
        None => {
            push_str(&mut out, ">");
        },
    }
    assert(out@ =~= before_to + to_with_tag(dialog.remote_uri@, dialog.remote_tag));
    push_str(&mut out, "\r\nCall-ID: ");
    push_str(&mut out, dialog.call_id.as_str());
    push_str(&mut out, "\r\nCSeq: ");
    push_dec(&mut out, dialog.local_cseq as u64);
    push_str(&mut out, " INVITE\r\nContact: <sip:vosrs@");
    push_str(&mut out, advertised_addr);
    push_str(&mut out, ">\r\n");
    let ghost before_rep = out@;
    match replaces {
        Some(v) => {
            push_str(&mut out, "Replaces: ");
            push_str(&mut out, v);
            push_str(&mut out, "\r\n");
        },
        None => {},
    }
    assert(out@ =~= before_rep + replaces_text(opt_view(replaces)));
    push_str(&mut out, "Content-Type: application/sdp\r\nContent-Length: ");
    push_dec(&mut out, sdp_body.len() as u64);
    push_str(&mut out, "\r\n\r\n");
    assert(out@ =~= transfer_invite_text(
        *dialog,
        advertised_addr@,
        sdp_body@.len(),
        opt_view(replaces),
    ));
    let mut bytes = into_bytes(out);
    bytes.extend_from_slice(sdp_body);
    bytes
}

} // verus!

verus! {

// ---------------------------------------------------------------------------
// Header copying
// ---------------------------------------------------------------------------

/// `Name: value\r\n` for the first header `lookup`, nothing when absent.
pub open spec fn single_header(h: Seq<(Seq<char>, Seq<char>)>, lookup: Seq<char>, out: Seq<char>) -> Seq<char> {
    match header_lookup(h, lookup) {
        Some(v) => out + ": "@ + v + "\r\n"@,
        None => Seq::empty(),
    }
}

pub fn append_single_header(request: &mut String, headers: &HeaderMap, lookup_name: &str, output_name: &str)
    ensures
        final(request)@ == old(request)@ + single_header(headers@, lookup_name@, output_name@),
{
    match headers.get(lookup_name) {
        Some(value) => {
            push_str(request, output_name);
            push_str(request, ": ");
            push_str(request, value.as_str());
            push_str(request, "\r\n");
            assert(final(request)@ =~= old(request)@ + single_header(headers@, lookup_name@, output_name@));
        },
        None => {
            assert(request@ =~= old(request)@ + single_header(headers@, lookup_name@, output_name@));
        },
    }
}

/// A header value with its first `;tag=...` parameter (matched ignoring
/// ASCII case, up to the next `;`) removed.
pub open spec fn without_tag(v: Seq<char>) -> Seq<char> {
    let start = find_seq(lower_seq(v), ";tag="@, 0);
    if start < 0 {
        v
    } else {
        let e = find_char(v, ';', start + 1, v.len() as int);
        let end = if e < 0 {
            v.len() as int
        } else {
            e
        };
        v.take(start) + v.skip(end)
    }
}

/// `Name: value;tag=tag\r\n` where `value` is the header without its own tag.
pub open spec fn header_with_tag(h: Seq<(Seq<char>, Seq<char>)>, lookup: Seq<char>, out: Seq<char>, tag: Seq<char>) -> Seq<char> {
    match header_lookup(h, lookup) {
        Some(v) => out + ": "@ + without_tag(v) + ";tag="@ + tag + "\r\n"@,
        None => Seq::empty(),
    }
}

pub fn append_header_with_tag(
    request: &mut String,
    headers: &HeaderMap,
    lookup_name: &str,
    output_name: &str,
    tag: &str,
)
    ensures
        final(request)@ == old(request)@ + header_with_tag(headers@, lookup_name@, output_name@, tag@),
{
    let value = match headers.get(lookup_name) {
        Some(v) => v,
        None => {
            assert(request@ =~= old(request)@ + header_with_tag(headers@, lookup_name@, output_name@, tag@));
            return ;
        },
    };
    let v = chars_of(value.as_str());
    let lower = lower_vec(&v);
    let pat = chars_of(";tag=");
    proof {
        reveal_strlit(";tag=");
    }
    push_str(request, output_name);
    push_str(request, ": ");
    let ghost before = request@;
    match exec_find_seq(&lower, &pat, 0) {
        Some(start) => {
            assert(lower@.len() == v@.len());
            assert(start < v.len());
            let end = match exec_find_char(&v, ';', start + 1, v.len()) {
                Some(e) => e,
                None => v.len(),
            };
            push_range(request, &v, 0, start);
            push_range(request, &v, end, v.len());
            assert(request@ =~= before + without_tag(v@));
        },
        None => {
            push_range(request, &v, 0, v.len());
            assert(request@ =~= before + without_tag(v@));
        },
    }
    push_str(request, ";tag=");
    push_str(request, tag);
    push_str(request, "\r\n");
    assert(final(request)@ =~= old(request)@ + header_with_tag(headers@, lookup_name@, output_name@, tag@));
}

/// `Route: r\r\n` for every entry of the route set, in order.
pub open spec fn routes_text(rs: Seq<String>) -> Seq<char>
    decreases rs.len(),
{
    if rs.len() == 0 {
        Seq::empty()
    } else {
        routes_text(rs.drop_last()) + "Route: "@ + rs.last()@ + "\r\n"@
    }
}

pub fn append_routes(request: &mut String, route_set: &[String])
    ensures
        final(request)@ == old(request)@ + routes_text(route_set@),
{
    let mut i: usize = 0;
    while i < route_set.len()
        invariant
            0 <= i <= route_set@.len(),
            request@ == old(request)@ + routes_text(route_set@.take(i as int)),
        decreases route_set@.len() - i,
    {
        push_str(request, "Route: ");
        push_str(request, route_set[i].as_str());
        push_str(request, "\r\n");
        assert(route_set@.take(i + 1).drop_last() =~= route_set@.take(i as int));
        i = i + 1;
        assert(request@ =~= old(request)@ + routes_text(route_set@.take(i as int)));
    }
    assert(route_set@.take(route_set@.len() as int) =~= route_set@);
}

/// Via branch of a forwarded request, derived from its Call-ID and CSeq.
pub open spec fn branch_spec(h: Seq<(Seq<char>, Seq<char>)>) -> Seq<char> {
    let cid = match header_lookup(h, "call-id"@) {
        Some(v) => v,
        None => "missing-call-id"@,
    };
    let cs = match header_lookup(h, "cseq"@) {
        Some(v) => v,
        None => "missing-cseq"@,
    };
    "z9hG4bK-vosrs-"@ + token_fragment_spec(cid) + "-"@ + token_fragment_spec(cs)
}

pub fn branch_for(request: &SipRequest) -> (r: String)
    ensures
        r@ == branch_spec(request.headers@),
{
    let cid = match request.headers.get("call-id") {
        Some(v) => token_fragment(v.as_str()),
        None => token_fragment("missing-call-id"),
    };
    let cs = match request.headers.get("cseq") {
        Some(v) => token_fragment(v.as_str()),
        None => token_fragment("missing-cseq"),
    };
    let mut out = String::new();
    push_str(&mut out, "z9hG4bK-vosrs-");
    push_str(&mut out, cid.as_str());
    push_str(&mut out, "-");
    push_str(&mut out, cs.as_str());
    assert(out@ =~= branch_spec(request.headers@));
    out
}

// ---------------------------------------------------------------------------
// Caller identity
// ---------------------------------------------------------------------------

/// The caller identity chosen for an outbound leg.
pub struct CallerIdentity {
    pub original_number: String,
    pub presented_number: String,
}

pub open spec fn is_token_char(c: char) -> bool {
    is_ascii_alnum(c) || c == '-' || c == '.' || c == '_' || c == '+'
}

pub open spec fn token_chars(t: Seq<char>) -> bool {
    forall|i: int| 0 <= i < t.len() ==> is_token_char(#[trigger] t[i])
}

/// The inbound From tag, kept only when it is made of token characters.
pub open spec fn forwarded_tag(h: Seq<(Seq<char>, Seq<char>)>) -> Option<Seq<char>> {
    match header_lookup(h, "from"@) {
        Some(v) => match header_param_spec(v, "tag"@, false) {
            Some(t) => if token_chars(t) {
                Some(t)
            } else {
                None
            },
            None => None,
        },
        None => None,
    }
}

/// `From` and `P-Asserted-Identity` lines naming `number` at `domain`.
pub open spec fn identity_text(number: Seq<char>, domain: Seq<char>, tag_part: Seq<char>) -> Seq<char> {
    "From: <sip:"@ + number + "@"@ + domain + ">"@ + tag_part + "\r\nP-Asserted-Identity: <sip:"@
        + number + "@"@ + domain + ">\r\n"@
}

pub open spec fn tag_part(t: Option<Seq<char>>) -> Seq<char> {
    match t {
        Some(x) => ";tag="@ + x,
        None => Seq::empty(),
    }
}

/// Identity headers, or nothing when the advertised address holds CR/LF or
/// the presented number is not a caller number.
pub open spec fn caller_identity_spec(h: Seq<(Seq<char>, Seq<char>)>, addr: Seq<char>, number: Seq<char>) -> Option<Seq<char>> {
    if has_char(addr, '\r') || has_char(addr, '\n') || !valid_caller_number_spec(number) {
        None
    } else {
        Some(identity_text(number, addr, tag_part(forwarded_tag(h))))
    }
}

fn exec_token_chars(v: &Vec<char>) -> (r: bool)
    ensures
        r == token_chars(v@),
{
    let mut i: usize = 0;
    while i < v.len()
        invariant
            0 <= i <= v@.len(),
            forall|j: int| 0 <= j < i ==> is_token_char(#[trigger] v@[j]),
        decreases v@.len() - i,
    {
        let c = v[i];
        if !(char_is_ascii_alnum(c) || c == '-' || c == '.' || c == '_' || c == '+') {
            return false;
        }
        i = i + 1;
    }
    true
}

fn exec_forwarded_tag(headers: &HeaderMap) -> (r: Option<String>)
    ensures
        match r {
            Some(t) => forwarded_tag(headers@) == Some(t@),
            None => forwarded_tag(headers@) is None,
        },
{
    match headers.get("from") {
        Some(v) => match header_parameter(v.as_str(), "tag") {
            Some(t) => {
                let tv = chars_of(t.as_str());
                if exec_token_chars(&tv) {
                    Some(t)
                } else {
                    None
                }
            },
            None => None,
        },
        None => None,
    }
}

fn push_identity(out: &mut String, number: &str, domain: &str, tag: Option<&str>)
    ensures
        final(out)@ == old(out)@ + identity_text(number@, domain@, tag_part(opt_view(tag))),
{
    push_str(out, "From: <sip:");
    push_str(out, number);
    push_str(out, "@");
    push_str(out, domain);
    push_str(out, ">");
    match tag {
        Some(t) => {
            push_str(out, ";tag=");
            push_str(out, t);
        },
        None => {},
    }
    push_str(out, "\r\nP-Asserted-Identity: <sip:");
    push_str(out, number);
    push_str(out, "@");
    push_str(out, domain);
    push_str(out, ">\r\n");
    assert(final(out)@ =~= old(out)@ + identity_text(number@, domain@, tag_part(opt_view(tag))));
}

/// `From`/`P-Asserted-Identity` rebuilt from the presented number instead of
/// the inbound display name.
pub fn caller_identity_headers(inbound: &SipRequest, advertised_addr: &str, identity: &CallerIdentity) -> (r: Option<String>)
    ensures
        match r {
            Some(x) => caller_identity_spec(inbound.headers@, advertised_addr@, identity.presented_number@) == Some(x@),
            None => caller_identity_spec(inbound.headers@, advertised_addr@, identity.presented_number@) is None,
        },
{
    let a = chars_of(advertised_addr);
    if exec_find_char(&a, '\r', 0, a.len()).is_some() || exec_find_char(&a, '\n', 0, a.len()).is_some() {
        return None;
    }
    if !valid_caller_number(identity.presented_number.as_str()) {
        return None;
    }
    let tag = exec_forwarded_tag(&inbound.headers);
    let mut out = String::new();
    match &tag {
        Some(t) => push_identity(&mut out, identity.presented_number.as_str(), advertised_addr, Some(t.as_str())),
        None => push_identity(&mut out, identity.presented_number.as_str(), advertised_addr, None),
    }
    assert(out@ =~= identity_text(
        identity.presented_number@,
        advertised_addr@,
        tag_part(forwarded_tag(inbound.headers@)),
    ));
    Some(out)
}

/// Identity headers of a leg: with a local From tag they are rebuilt with that
/// tag when the number is valid; otherwise as `caller_identity_headers`.
pub open spec fn identity_part(h: Seq<(Seq<char>, Seq<char>)>, addr: Seq<char>, number: Seq<char>, local_tag: Option<Seq<char>>) -> Seq<char> {
    match local_tag {
        Some(lt) => if valid_caller_number_spec(number) {
            identity_text(number, addr, ";tag="@ + lt)
        } else {
            Seq::empty()
        },
        None => match caller_identity_spec(h, addr, number) {
            Some(x) => x,
            None => Seq::empty(),
        },
    }
}

pub fn append_caller_identity_headers(
    request: &mut String,
    inbound: &SipRequest,
    advertised_addr: &str,
    identity: &CallerIdentity,
    local_from_tag: Option<&str>,
)
    ensures
        final(request)@ == old(request)@ + identity_part(
            inbound.headers@,
            advertised_addr@,
            identity.presented_number@,
            opt_view(local_from_tag),
        ),
{
    match local_from_tag {
        Some(lt) => {
            if valid_caller_number(identity.presented_number.as_str()) {
                push_identity(request, identity.presented_number.as_str(), advertised_addr, Some(lt));
            }
        },
        None => match caller_identity_headers(inbound, advertised_addr, identity) {
            Some(h) => push_str(request, h.as_str()),
            None => {},
        },
    }
    assert(final(request)@ =~= old(request)@ + identity_part(
        inbound.headers@,
        advertised_addr@,
        identity.presented_number@,
        opt_view(local_from_tag),
    ));
}

} // verus!

verus! {

// ---------------------------------------------------------------------------
// Forwarded requests
// ---------------------------------------------------------------------------

pub open spec fn from_part(
    h: Seq<(Seq<char>, Seq<char>)>,
    addr: Seq<char>,
    identity: Option<&CallerIdentity>,
    local_tag: Option<Seq<char>>,
) -> Seq<char> {
    match identity {
        Some(id) => identity_part(h, addr, id.presented_number@, local_tag),
        None => match local_tag {
            Some(lt) => header_with_tag(h, "from"@, "From"@, lt),
            None => single_header(h, "from"@, "From"@),
        },
    }
}

pub open spec fn call_id_part(h: Seq<(Seq<char>, Seq<char>)>, over: Option<Seq<char>>) -> Seq<char> {
    match over {
        Some(c) => "Call-ID: "@ + c + "\r\n"@,
        None => single_header(h, "call-id"@, "Call-ID"@),
    }
}

pub open spec fn content_type_part(h: Seq<(Seq<char>, Seq<char>)>, body_len: nat) -> Seq<char> {
    if body_len > 0 {
        single_header(h, "content-type"@, "Content-Type"@)
    } else {
        Seq::empty()
    }
}

/// Header text of a request forwarded on a new leg: a single Via of the edge,
/// the inbound routing headers replaced by `route_set`, identity and dialog
/// headers from the inbound request (or the overrides), and `extra` headers.
pub open spec fn outbound_request_text(
    req: SipRequest,
    outbound_uri: Seq<char>,
    addr: Seq<char>,
    routes: Seq<String>,
    body_len: nat,
    extra: Seq<char>,
    over_call_id: Option<Seq<char>>,
    identity: Option<&CallerIdentity>,
    local_tag: Option<Seq<char>>,
) -> Seq<char> {
    let h = req.headers@;
    method_name(req.method) + " "@ + outbound_uri + " SIP/2.0\r\n"@ + "Via: SIP/2.0/UDP "@ + addr
        + ";branch="@ + branch_spec(h) + "\r\n"@ + "Max-Forwards: "@ + dec(
        next_max_forwards_spec(h) as nat,
    ) + "\r\n"@ + routes_text(routes) + from_part(h, addr, identity, local_tag) + single_header(
        h,
        "to"@,
        "To"@,
    ) + call_id_part(h, over_call_id) + single_header(h, "cseq"@, "CSeq"@) + single_header(
        h,
        "refer-to"@,
        "Refer-To"@,
    ) + single_header(h, "referred-by"@, "Referred-By"@) + single_header(
        h,
        "refer-sub"@,
        "Refer-Sub"@,
    ) + "Contact: <sip:vosrs@"@ + addr + ">\r\n"@ + extra + content_type_part(h, body_len)
        + "Content-Length: "@ + dec(body_len) + "\r\n"@ + "\r\n"@
}

#[verifier::rlimit(40)]
fn build_outbound_request_with_extra(
    inbound: &SipRequest,
    outbound_uri: &SipUri,
    advertised_addr: &str,
    route_set: &[String],
    body: &[u8],
    extra_headers: &str,
    override_call_id: Option<&str>,
    caller_identity: Option<&CallerIdentity>,
    local_from_tag: Option<&str>,
) -> (r: Vec<u8>)
    ensures
        r@ == encode_utf8(
            outbound_request_text(
                *inbound,
                outbound_uri.text@,
                advertised_addr@,
                route_set@,
                body@.len(),
                extra_headers@,
                opt_view(override_call_id),
                caller_identity,
                opt_view(local_from_tag),
            ),
        ) + body@,
{
    let h = &inbound.headers;
    let mut request = String::new();
    push_str(&mut request, inbound.method.as_str());
    push_str(&mut request, " ");
    push_str(&mut request, outbound_uri.text.as_str());
    push_str(&mut request, " SIP/2.0\r\n");
    push_str(&mut request, "Via: SIP/2.0/UDP ");
    push_str(&mut request, advertised_addr);
    push_str(&mut request, ";branch=");
    let branch = branch_for(inbound);
    push_str(&mut request, branch.as_str());
    push_str(&mut request, "\r\n");
    push_str(&mut request, "Max-Forwards: ");
    push_dec(&mut request, next_max_forwards(h) as u64);
    push_str(&mut request, "\r\n");
    append_routes(&mut request, route_set);
    let ghost before_from = request@;
    match caller_identity {
        Some(identity) => append_caller_identity_headers(
            &mut request,
            inbound,
            advertised_addr,
            identity,
            local_from_tag,
        ),
        None => match local_from_tag {
            Some(local_tag) => append_header_with_tag(&mut request, h, "from", "From", local_tag),
            None => append_single_header(&mut request, h, "from", "From"),
        },
    }
    assert(request@ =~= before_from + from_part(
        h@,
        advertised_addr@,
        caller_identity,
        opt_view(local_from_tag),
    ));
    append_single_header(&mut request, h, "to", "To");
    let ghost before_cid = request@;
    match override_call_id {
        Some(cid) => {
            push_str(&mut request, "Call-ID: ");
            push_str(&mut request, cid);
            push_str(&mut request, "\r\n");
        },
        None => append_single_header(&mut request, h, "call-id", "Call-ID"),
    }
    assert(request@ =~= before_cid + call_id_part(h@, opt_view(override_call_id)));
    append_single_header(&mut request, h, "cseq", "CSeq");
    append_single_header(&mut request, h, "refer-to", "Refer-To");
    append_single_header(&mut request, h, "referred-by", "Referred-By");
    append_single_header(&mut request, h, "refer-sub", "Refer-Sub");
    push_str(&mut request, "Contact: <sip:vosrs@");
    push_str(&mut request, advertised_addr);
    push_str(&mut request, ">\r\n");
    push_str(&mut request, extra_headers);
    let ghost before_ct = request@;
    if body.len() > 0 {
        append_single_header(&mut request, h, "content-type", "Content-Type");
    }
    assert(request@ =~= before_ct + content_type_part(h@, body@.len()));
    push_str(&mut request, "Content-Length: ");
    push_dec(&mut request, body.len() as u64);
    push_str(&mut request, "\r\n");
    push_str(&mut request, "\r\n");
    assert(request@ =~= outbound_request_text(
        *inbound,
        outbound_uri.text@,
        advertised_addr@,
        route_set@,
        body@.len(),
        extra_headers@,
        opt_view(override_call_id),
        caller_identity,
        opt_view(local_from_tag),
    ));
    let mut bytes = into_bytes(request);
    bytes.extend_from_slice(body);
    bytes
}

/// Session-timer headers added to the initial INVITE of the gateway leg.
pub open spec fn session_timer_headers(session_expires: u32) -> Seq<char> {
    "Supported: timer,100rel\r\nSession-Expires: "@ + dec(session_expires as nat)
        + ";refresher=uac\r\nMin-SE: 90\r\n"@
}

/// Initial INVITE of the gateway leg: the leg's own Call-ID and From tag,
/// session-timer headers, and the caller identity when one is given.
pub fn build_b2bua_outbound_invite(
    inbound: &SipRequest,
    outbound_uri: &SipUri,
    advertised_addr: &str,
    body: &[u8],
    session_expires: u32,
    route_set: &[String],
    gateway_call_id: &str,
    gateway_local_tag: &str,
    caller_identity: Option<&CallerIdentity>,
) -> (r: Vec<u8>)
    ensures
        r@ == encode_utf8(
            outbound_request_text(
                *inbound,
                outbound_uri.text@,
                advertised_addr@,
                route_set@,
                body@.len(),
                session_timer_headers(session_expires),
                Some(gateway_call_id@),
                caller_identity,
                Some(gateway_local_tag@),
            ),
        ) + body@,
{
    let mut extra = String::new();
    push_str(&mut extra, "Supported: timer,100rel\r\nSession-Expires: ");
    push_dec(&mut extra, session_expires as u64);
    push_str(&mut extra, ";refresher=uac\r\nMin-SE: 90\r\n");
    assert(extra@ =~= session_timer_headers(session_expires));
    build_outbound_request_with_extra(
        inbound,
        outbound_uri,
        advertised_addr,
        route_set,
        body,
        extra.as_str(),
        Some(gateway_call_id),
        caller_identity,
        Some(gateway_local_tag),
    )
}

/// Headers carried over from the inbound request into a leg's in-dialog request.
pub open spec fn transferred_headers(h: Seq<(Seq<char>, Seq<char>)>) -> Seq<char> {
    single_header(h, "refer-to"@, "Refer-To"@) + single_header(h, "referred-by"@, "Referred-By"@)
        + single_header(h, "refer-sub"@, "Refer-Sub"@) + single_header(h, "rack"@, "RAck"@)
        + single_header(h, "reason"@, "Reason"@) + single_header(h, "event"@, "Event"@)
        + single_header(h, "subscription-state"@, "Subscription-State"@) + single_header(
        h,
        "require"@,
        "Require"@,
    ) + single_header(h, "supported"@, "Supported"@) + single_header(
        h,
        "session-expires"@,
        "Session-Expires"@,
    ) + single_header(h, "min-se"@, "Min-SE"@)
}

/// Header text of a request on one B2BUA leg: every dialog identifier comes
/// from the target leg; the inbound request gives only the method, the hop
/// limit, the carried-over headers and the content type.
pub open spec fn in_dialog_request_text(
    req: SipRequest,
    request_uri: Seq<char>,
    addr: Seq<char>,
    routes: Seq<String>,
    call_id: Seq<char>,
    local_uri: Seq<char>,
    local_tag: Seq<char>,
    remote_uri: Seq<char>,
    remote_tag: Option<Seq<char>>,
    cseq: u32,
    body_len: nat,
) -> Seq<char> {
    let h = req.headers@;
    let m = method_name(req.method);
    m + " "@ + request_uri + " SIP/2.0\r\nVia: SIP/2.0/UDP "@ + addr + ";branch="@
        + "z9hG4bK-vosrs-"@ + token_fragment_spec(call_id) + "-"@ + dec(cseq as nat) + "-"@
        + lower_seq(m) + "\r\nMax-Forwards: "@ + dec(next_max_forwards_spec(h) as nat) + "\r\n"@
        + routes_text(routes) + "From: <"@ + local_uri + ">;tag="@ + local_tag + "\r\n"@
        + "To: <"@ + remote_uri + ">"@ + tag_part(remote_tag) + "\r\nCall-ID: "@ + call_id
        + "\r\nCSeq: "@ + dec(cseq as nat) + " "@ + m + "\r\nContact: <sip:vosrs@"@ + addr
        + ">\r\n"@ + transferred_headers(h) + content_type_part(h, body_len) + "Content-Length: "@
        + dec(body_len) + "\r\n\r\n"@
}

#[verifier::rlimit(40)]
pub fn build_b2bua_in_dialog_request(
    inbound: &SipRequest,
    request_uri: &SipUri,
    advertised_addr: &str,
    route_set: &[String],
    call_id: &str,
    local_uri: &SipUri,
    local_tag: &str,
    remote_uri: &SipUri,
    remote_tag: Option<&str>,
    cseq: u32,
    body: &[u8],
) -> (r: Vec<u8>)
    ensures
        r@ == encode_utf8(
            in_dialog_request_text(
                *inbound,
                request_uri.text@,
                advertised_addr@,
                route_set@,
                call_id@,
                local_uri.text@,
                local_tag@,
                remote_uri.text@,
                opt_view(remote_tag),
                cseq,
                body@.len(),
            ),
        ) + body@,
{
    let h = &inbound.headers;
    let m = inbound.method.as_str();
    let mv = chars_of(m);
    let ml = lower_vec(&mv);
    let mut request = String::new();
    push_str(&mut request, m);
    push_str(&mut request, " ");
    push_str(&mut request, request_uri.text.as_str());
    push_str(&mut request, " SIP/2.0\r\nVia: SIP/2.0/UDP ");
    push_str(&mut request, advertised_addr);
    push_str(&mut request, ";branch=");
    push_str(&mut request, "z9hG4bK-vosrs-");
    let tf = token_fragment(call_id);
    push_str(&mut request, tf.as_str());
    push_str(&mut request, "-");
    push_dec(&mut request, cseq as u64);
    push_str(&mut request, "-");
    push_range(&mut request, &ml, 0, ml.len());
    assert(ml@.subrange(0, ml@.len() as int) =~= ml@);
    push_str(&mut request, "\r\nMax-Forwards: ");
    push_dec(&mut request, next_max_forwards(h) as u64);
    push_str(&mut request, "\r\n");
    append_routes(&mut request, route_set);
    push_str(&mut request, "From: <");
    push_str(&mut request, local_uri.text.as_str());
    push_str(&mut request, ">;tag=");
    push_str(&mut request, local_tag);
    push_str(&mut request, "\r\n");
    push_str(&mut request, "To: <");
    push_str(&mut request, remote_uri.text.as_str());
    push_str(&mut request, ">");
    let ghost before_tag = request@;
    match remote_tag {
        Some(t) => {
            push_str(&mut request, ";tag=");
            push_str(&mut request, t);
        },
        None => {},
    }
    assert(request@ =~= before_tag + tag_part(opt_view(remote_tag)));
    push_str(&mut request, "\r\nCall-ID: ");
    push_str(&mut request, call_id);
    push_str(&mut request, "\r\nCSeq: ");
    push_dec(&mut request, cseq as u64);
    push_str(&mut request, " ");
    push_str(&mut request, m);
    push_str(&mut request, "\r\nContact: <sip:vosrs@");
    push_str(&mut request, advertised_addr);
    push_str(&mut request, ">\r\n");
    let ghost before_tr = request@;
    append_single_header(&mut request, h, "refer-to", "Refer-To");
    append_single_header(&mut request, h, "referred-by", "Referred-By");
    append_single_header(&mut request, h, "refer-sub", "Refer-Sub");
    append_single_header(&mut request, h, "rack", "RAck");
    append_single_header(&mut request, h, "reason", "Reason");
    append_single_header(&mut request, h, "event", "Event");
    append_single_header(&mut request, h, "subscription-state", "Subscription-State");
    append_single_header(&mut request, h, "require", "Require");
    append_single_header(&mut request, h, "supported", "Supported");
    append_single_header(&mut request, h, "session-expires", "Session-Expires");
    append_single_header(&mut request, h, "min-se", "Min-SE");
    assert(request@ =~= before_tr + transferred_headers(h@));
    let ghost before_ct = request@;
    if body.len() > 0 {
        append_single_header(&mut request, h, "content-type", "Content-Type");
    }
    assert(request@ =~= before_ct + content_type_part(h@, body@.len()));
    push_str(&mut request, "Content-Length: ");
    push_dec(&mut request, body.len() as u64);
    push_str(&mut request, "\r\n\r\n");
    assert(request@ =~= in_dialog_request_text(
        *inbound,
        request_uri.text@,
        advertised_addr@,
        route_set@,
        call_id@,
        local_uri.text@,
        local_tag@,
        remote_uri.text@,
        opt_view(remote_tag),
        cseq,
        body@.len(),
    ));
    let mut bytes = into_bytes(request);
    bytes.extend_from_slice(body);
    bytes
}

// ---------------------------------------------------------------------------
// Laws
// ---------------------------------------------------------------------------

/// No carriage return or line feed in `s`.
pub open spec fn single_line(s: Seq<char>) -> bool {
    forall|i: int| 0 <= i < s.len() ==> s[i] != '\r' && s[i] != '\n'
}

proof fn lemma_find_char_absent(s: Seq<char>, c: char, lo: int, hi: int)
    requires
        0 <= lo <= hi <= s.len(),
    ensures
        find_char(s, c, lo, hi) < 0 <==> forall|j: int| lo <= j < hi ==> s[j] != c,
    decreases hi - lo,
{
    if lo < hi {
        lemma_find_char_absent(s, c, lo + 1, hi);
    }
}

proof fn lemma_single_line_concat(a: Seq<char>, b: Seq<char>)
    requires
        single_line(a),
        single_line(b),
    ensures
        single_line(a + b),
{
    assert forall|i: int| 0 <= i < (a + b).len() implies (a + b)[i] != '\r' && (a + b)[i] != '\n' by {
        if i >= a.len() {
            assert((a + b)[i] == b[i - a.len()]);
        }
    }
}

/// The `From` line of the identity headers, without its line end.
pub open spec fn identity_from_line(number: Seq<char>, domain: Seq<char>, tag_part: Seq<char>) -> Seq<char> {
    "From: <sip:"@ + number + "@"@ + domain + ">"@ + tag_part
}

/// The `P-Asserted-Identity` line of the identity headers, without its line end.
pub open spec fn identity_pai_line(number: Seq<char>, domain: Seq<char>) -> Seq<char> {
    "P-Asserted-Identity: <sip:"@ + number + "@"@ + domain + ">"@
}

/// Caller identity headers cannot carry extra headers: when there are any,
/// they are exactly a `From` line and a `P-Asserted-Identity` line, each
/// ended by CRLF and holding no other line break, whatever the inbound
/// request, the advertised address or the presented number.
pub proof fn lemma_identity_headers_two_lines(
    h: Seq<(Seq<char>, Seq<char>)>,
    addr: Seq<char>,
    number: Seq<char>,
)
    ensures
        caller_identity_spec(h, addr, number) matches Some(x) ==> {
            let from = identity_from_line(number, addr, tag_part(forwarded_tag(h)));
            let pai = identity_pai_line(number, addr);
            &&& x == from + "\r\n"@ + pai + "\r\n"@
            &&& single_line(from)
            &&& single_line(pai)
        },
{
    reveal_strlit("From: <sip:");
    reveal_strlit("@");
    reveal_strlit(">");
    reveal_strlit(";tag=");
    reveal_strlit("\r\nP-Asserted-Identity: <sip:");
    reveal_strlit("P-Asserted-Identity: <sip:");
    reveal_strlit(">\r\n");
    reveal_strlit("\r\n");
    if caller_identity_spec(h, addr, number) is Some {
        lemma_find_char_absent(addr, '\r', 0, addr.len() as int);
        lemma_find_char_absent(addr, '\n', 0, addr.len() as int);
        assert(single_line(number)) by {
            assert forall|i: int| 0 <= i < number.len() implies number[i] != '\r' && number[i] != '\n' by {
                if number.len() > 0 && number[0] == '+' {
                    if i > 0 {
                        assert(caller_digits(number)[i - 1] == number[i]);
                        assert(is_ascii_digit(caller_digits(number)[i - 1]));
                    }
                } else {
                    assert(is_ascii_digit(caller_digits(number)[i]));
                }
            }
        }
        let tp = tag_part(forwarded_tag(h));
        assert(single_line(tp)) by {
            match forwarded_tag(h) {
                Some(t) => {
                    assert(single_line(t)) by {
                        assert forall|i: int| 0 <= i < t.len() implies t[i] != '\r' && t[i] != '\n' by {
                            assert(is_token_char(t[i]));
                        }
                    }
                    assert(single_line(";tag="@));
                    lemma_single_line_concat(";tag="@, t);
                },
                None => {},
            }
        }
        assert(single_line("From: <sip:"@));
        assert(single_line("@"@));
        assert(single_line(">"@));
        assert(single_line("P-Asserted-Identity: <sip:"@));
        lemma_single_line_concat("From: <sip:"@, number);
        lemma_single_line_concat("From: <sip:"@ + number, "@"@);
        lemma_single_line_concat("From: <sip:"@ + number + "@"@, addr);
        lemma_single_line_concat("From: <sip:"@ + number + "@"@ + addr, ">"@);
        lemma_single_line_concat("From: <sip:"@ + number + "@"@ + addr + ">"@, tp);
        lemma_single_line_concat("P-Asserted-Identity: <sip:"@, number);
        lemma_single_line_concat("P-Asserted-Identity: <sip:"@ + number, "@"@);
        lemma_single_line_concat("P-Asserted-Identity: <sip:"@ + number + "@"@, addr);
        lemma_single_line_concat("P-Asserted-Identity: <sip:"@ + number + "@"@ + addr, ">"@);
        assert(identity_text(number, addr, tp) =~= identity_from_line(number, addr, tp) + "\r\n"@
            + identity_pai_line(number, addr) + "\r\n"@);
    }
}

/// Lookup past an entry whose name is not the one looked up: removing that
/// entry changes nothing.
proof fn lemma_lookup_removed(h: Seq<(Seq<char>, Seq<char>)>, pos: int, name: Seq<char>, i: int)
    requires
        0 <= pos < h.len(),
        lower_seq(h[pos].0) != lower_seq(name),
        0 <= i <= h.len(),
    ensures
        header_lookup_from(h, name, i) == header_lookup_from(
            h.remove(pos),
            name,
            if i <= pos {
                i
            } else {
                i - 1
            },
        ),
    decreases h.len() - i,
{
    if i < h.len() {
        lemma_lookup_removed(h, pos, name, i + 1);
        if i < pos {
            assert(h.remove(pos)[i] == h[i]);
        } else if i > pos {
            assert(h.remove(pos)[i - 1] == h[i]);
        }
    }
}

/// A header naming one end of the inbound dialog: From, To, Call-ID, Via
/// or CSeq (ASCII case ignored).
pub open spec fn dialog_identifier_header(name: Seq<char>) -> bool {
    let n = lower_seq(name);
    n == "from"@ || n == "to"@ || n == "call-id"@ || n == "via"@ || n == "cseq"@
}

/// The headers an in-dialog request reads from the inbound request.
pub open spec fn read_by_in_dialog_request(name: Seq<char>) -> bool {
    name == "max-forwards"@ || name == "refer-to"@ || name == "referred-by"@ || name == "refer-sub"@
        || name == "rack"@ || name == "reason"@ || name == "event"@ || name == "subscription-state"@
        || name == "require"@ || name == "supported"@ || name == "session-expires"@ || name
        == "min-se"@ || name == "content-type"@
}

#[verifier::rlimit(60)]
proof fn lemma_dialog_header_not_read(n: Seq<char>, name: Seq<char>)
    requires
        dialog_identifier_header(n),
        read_by_in_dialog_request(name),
    ensures
        lower_seq(n) != lower_seq(name),
{
    reveal_strlit("from");
    reveal_strlit("to");
    reveal_strlit("call-id");
    reveal_strlit("via");
    reveal_strlit("cseq");
    reveal_strlit("max-forwards");
    reveal_strlit("refer-to");
    reveal_strlit("referred-by");
    reveal_strlit("refer-sub");
    reveal_strlit("rack");
    reveal_strlit("reason");
    reveal_strlit("event");
    reveal_strlit("subscription-state");
    reveal_strlit("require");
    reveal_strlit("supported");
    reveal_strlit("session-expires");
    reveal_strlit("min-se");
    reveal_strlit("content-type");
    let l = lower_seq(n);
    let m = lower_seq(name);
    assert(m =~= name);
    if l.len() == m.len() {
        assert(l[0] != m[0]);
    }
}

proof fn lemma_lookup_unaffected(h: Seq<(Seq<char>, Seq<char>)>, pos: int, name: Seq<char>)
    requires
        0 <= pos < h.len(),
        dialog_identifier_header(h[pos].0),
        read_by_in_dialog_request(name),
    ensures
        header_lookup(h, name) == header_lookup(h.remove(pos), name),
{
    lemma_dialog_header_not_read(h[pos].0, name);
    lemma_lookup_removed(h, pos, name, 0);
}

/// A B2BUA in-dialog request takes every dialog identifier from the target
/// leg: adding a From, To, Call-ID, Via or CSeq header anywhere in the
/// inbound request does not change the request sent on the other leg.
pub proof fn lemma_in_dialog_request_ignores_inbound_dialog(
    inbound: SipRequest,
    with_extra: SipRequest,
    pos: int,
    request_uri: Seq<char>,
    addr: Seq<char>,
    routes: Seq<String>,
    call_id: Seq<char>,
    local_uri: Seq<char>,
    local_tag: Seq<char>,
    remote_uri: Seq<char>,
    remote_tag: Option<Seq<char>>,
    cseq: u32,
    body_len: nat,
)
    requires
        with_extra.method == inbound.method,
        0 <= pos < with_extra.headers@.len(),
        inbound.headers@ == with_extra.headers@.remove(pos),
        dialog_identifier_header(with_extra.headers@[pos].0),
    ensures
        in_dialog_request_text(
            with_extra,
            request_uri,
            addr,
            routes,
            call_id,
            local_uri,
            local_tag,
            remote_uri,
            remote_tag,
            cseq,
            body_len,
        ) == in_dialog_request_text(
            inbound,
            request_uri,
            addr,
            routes,
            call_id,
            local_uri,
            local_tag,
            remote_uri,
            remote_tag,
            cseq,
            body_len,
        ),
{
    let h = with_extra.headers@;
    let g = inbound.headers@;
    lemma_lookup_unaffected(h, pos, "max-forwards"@);
    lemma_lookup_unaffected(h, pos, "refer-to"@);
    lemma_lookup_unaffected(h, pos, "referred-by"@);
    lemma_lookup_unaffected(h, pos, "refer-sub"@);
    lemma_lookup_unaffected(h, pos, "rack"@);
    lemma_lookup_unaffected(h, pos, "reason"@);
    lemma_lookup_unaffected(h, pos, "event"@);
    lemma_lookup_unaffected(h, pos, "subscription-state"@);
    lemma_lookup_unaffected(h, pos, "require"@);
    lemma_lookup_unaffected(h, pos, "supported"@);
    lemma_lookup_unaffected(h, pos, "session-expires"@);
    lemma_lookup_unaffected(h, pos, "min-se"@);
    lemma_lookup_unaffected(h, pos, "content-type"@);
    assert(next_max_forwards_spec(h) == next_max_forwards_spec(g));
    assert(transferred_headers(h) == transferred_headers(g));
    assert(content_type_part(h, body_len) == content_type_part(g, body_len));
}

/// A branch fragment is a non-empty run of lowercase ASCII letters, digits
/// and `-`, never starting or ending with `-`: valid inside a SIP token
/// whatever the Call-ID it is built from.
pub proof fn lemma_token_fragment_is_token(v: Seq<char>)
    ensures
        token_fragment_spec(v).len() > 0,
        forall|i: int|
            0 <= i < token_fragment_spec(v).len() ==> {
                let c = #[trigger] token_fragment_spec(v)[i];
                ('a' <= c && c <= 'z') || ('0' <= c && c <= '9') || c == '-'
            },
        token_fragment_spec(v)[0] != '-',
        token_fragment_spec(v).last() != '-',
{
    reveal_strlit("empty");
    let m = v.map_values(|c: char| token_char(c));
    let lo = crate::text::skip_char(m, '-', 0, m.len() as int);
    let hi = crate::text::back_char(m, '-', lo, m.len() as int);
    lemma_skip_char_stop(m, '-', 0, m.len() as int);
    lemma_back_char_stop(m, '-', lo, m.len() as int);
    let t = trim_char(m, '-');
    if t.len() > 0 {
        assert forall|i: int| 0 <= i < t.len() implies {
            let c = #[trigger] t[i];
            ('a' <= c && c <= 'z') || ('0' <= c && c <= '9') || c == '-'
        } by {
            assert(t[i] == m[lo + i]);
            assert(m[lo + i] == token_char(v[lo + i]));
        }
        assert(t[0] == m[lo]);
        assert(t.last() == m[hi - 1]);
    }
}

proof fn lemma_skip_char_stop(s: Seq<char>, c: char, lo: int, hi: int)
    requires
        0 <= lo <= hi <= s.len(),
    ensures
        lo <= crate::text::skip_char(s, c, lo, hi) <= hi,
        crate::text::skip_char(s, c, lo, hi) < hi ==> s[crate::text::skip_char(s, c, lo, hi)] != c,
    decreases hi - lo,
{
    if lo < hi && s[lo] == c {
        lemma_skip_char_stop(s, c, lo + 1, hi);
    }
}

proof fn lemma_back_char_stop(s: Seq<char>, c: char, lo: int, hi: int)
    requires
        0 <= lo <= hi <= s.len(),
    ensures
        lo <= crate::text::back_char(s, c, lo, hi) <= hi,
        crate::text::back_char(s, c, lo, hi) > lo ==> s[crate::text::back_char(s, c, lo, hi) - 1] != c,
    decreases hi - lo,
{
    if lo < hi && s[hi - 1] == c {
        lemma_back_char_stop(s, c, lo, hi - 1);
    }
}

/// The inbound headers a forwarded request reads.
pub open spec fn forwarding_reads_same(h1: Seq<(Seq<char>, Seq<char>)>, h2: Seq<(Seq<char>, Seq<char>)>) -> bool {
    &&& header_lookup(h1, "from"@) == header_lookup(h2, "from"@)
    &&& header_lookup(h1, "to"@) == header_lookup(h2, "to"@)
    &&& header_lookup(h1, "call-id"@) == header_lookup(h2, "call-id"@)
    &&& header_lookup(h1, "cseq"@) == header_lookup(h2, "cseq"@)
    &&& header_lookup(h1, "max-forwards"@) == header_lookup(h2, "max-forwards"@)
    &&& header_lookup(h1, "refer-to"@) == header_lookup(h2, "refer-to"@)
    &&& header_lookup(h1, "referred-by"@) == header_lookup(h2, "referred-by"@)
    &&& header_lookup(h1, "refer-sub"@) == header_lookup(h2, "refer-sub"@)
    &&& header_lookup(h1, "content-type"@) == header_lookup(h2, "content-type"@)
}

/// Topology hiding (the law of `build_outbound_request_with_extra`, whose
/// bytes are the UTF-8 of `outbound_request_text`): a request forwarded on a
/// new leg reads the inbound request only through its method and its From,
/// To, Call-ID, CSeq, Max-Forwards, Refer-To, Referred-By, Refer-Sub and
/// Content-Type headers; two requests that agree on those are forwarded
/// alike, whatever their request URI, Via, Record-Route, Contact or other
/// headers.  The forwarded request starts with the outbound URI and the
/// edge's own single Via.
#[verifier::spinoff_prover]
pub proof fn lemma_forwarding_hides_topology(
    inbound1: SipRequest,
    inbound2: SipRequest,
    outbound_uri: Seq<char>,
    addr: Seq<char>,
    routes: Seq<String>,
    body_len: nat,
    extra: Seq<char>,
    over_call_id: Option<Seq<char>>,
    identity: Option<&CallerIdentity>,
    local_tag: Option<Seq<char>>,
)
    requires
        inbound1.method == inbound2.method,
        forwarding_reads_same(inbound1.headers@, inbound2.headers@),
    ensures
        outbound_request_text(inbound1, outbound_uri, addr, routes, body_len, extra, over_call_id, identity, local_tag)
            == outbound_request_text(inbound2, outbound_uri, addr, routes, body_len, extra, over_call_id, identity, local_tag),
        encode_utf8(outbound_request_text(inbound1, outbound_uri, addr, routes, body_len, extra, over_call_id, identity, local_tag))
            == encode_utf8(outbound_request_text(inbound2, outbound_uri, addr, routes, body_len, extra, over_call_id, identity, local_tag)),
{
    let h1 = inbound1.headers@;
    let h2 = inbound2.headers@;
    assert(branch_spec(h1) == branch_spec(h2));
    assert(next_max_forwards_spec(h1) == next_max_forwards_spec(h2));
    assert(forwarded_tag(h1) == forwarded_tag(h2));
    assert(from_part(h1, addr, identity, local_tag) == from_part(h2, addr, identity, local_tag));
    assert(single_header(h1, "to"@, "To"@) == single_header(h2, "to"@, "To"@));
    assert(call_id_part(h1, over_call_id) == call_id_part(h2, over_call_id));
    assert(single_header(h1, "cseq"@, "CSeq"@) == single_header(h2, "cseq"@, "CSeq"@));
    assert(single_header(h1, "refer-to"@, "Refer-To"@) == single_header(h2, "refer-to"@, "Refer-To"@));
    assert(single_header(h1, "referred-by"@, "Referred-By"@) == single_header(h2, "referred-by"@, "Referred-By"@));
    assert(single_header(h1, "refer-sub"@, "Refer-Sub"@) == single_header(h2, "refer-sub"@, "Refer-Sub"@));
    assert(content_type_part(h1, body_len) == content_type_part(h2, body_len));
}

/// A forwarded request starts with its request line to the outbound URI
/// and the edge's own Via: no inbound request URI or Via comes first.
#[verifier::spinoff_prover]
#[verifier::rlimit(80)]
pub proof fn lemma_forwarded_request_opens_with_edge_via(
    inbound: SipRequest,
    outbound_uri: Seq<char>,
    addr: Seq<char>,
    routes: Seq<String>,
    body_len: nat,
    extra: Seq<char>,
    over_call_id: Option<Seq<char>>,
    identity: Option<&CallerIdentity>,
    local_tag: Option<Seq<char>>,
)
    ensures
        starts_with(
            outbound_request_text(inbound, outbound_uri, addr, routes, body_len, extra, over_call_id, identity, local_tag),
            method_name(inbound.method) + " "@ + outbound_uri + " SIP/2.0\r\n"@ + "Via: SIP/2.0/UDP "@ + addr + ";branch="@,
        ),
{
    let t = outbound_request_text(inbound, outbound_uri, addr, routes, body_len, extra, over_call_id, identity, local_tag);
    let p = method_name(inbound.method) + " "@ + outbound_uri + " SIP/2.0\r\n"@ + "Via: SIP/2.0/UDP "@ + addr + ";branch="@;
    assert(t.take(p.len() as int) =~= p);
}

} // verus!
