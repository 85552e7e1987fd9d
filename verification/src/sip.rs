//! The parts of a SIP request that the edge's builders read: method,
//! request URI, header list and body.
use vstd::prelude::*;
use crate::text::{chars_eq_ignore_case, chars_of, lower_seq};

verus! {

/// SIP request methods.
#[derive(Debug)]
pub enum Method {
    Invite,
    Ack,
    Bye,
    Cancel,
    Options,
    Register,
    Info,
    Prack,
    Update,
    Refer,
    Subscribe,
    Notify,
    Message,
    Publish,
    Extension(String),
}

pub open spec fn method_name(m: Method) -> Seq<char> {
    match m {
        Method::Invite => "INVITE"@,
        Method::Ack => "ACK"@,
        Method::Bye => "BYE"@,
        Method::Cancel => "CANCEL"@,
        Method::Options => "OPTIONS"@,
        Method::Register => "REGISTER"@,
        Method::Info => "INFO"@,
        Method::Prack => "PRACK"@,
        Method::Update => "UPDATE"@,
        Method::Refer => "REFER"@,
        Method::Subscribe => "SUBSCRIBE"@,
        Method::Notify => "NOTIFY"@,
        Method::Message => "MESSAGE"@,
        Method::Publish => "PUBLISH"@,
        Method::Extension(s) => s@,
    }
}

impl Method {
    /// The method token as it appears on the request line.
    pub fn as_str(&self) -> (r: &str)
        ensures
            r@ == method_name(*self),
    {
        match self {
            Method::Invite => "INVITE",
            Method::Ack => "ACK",
            Method::Bye => "BYE",
            Method::Cancel => "CANCEL",
            Method::Options => "OPTIONS",
            Method::Register => "REGISTER",
            Method::Info => "INFO",
            Method::Prack => "PRACK",
            Method::Update => "UPDATE",
            Method::Refer => "REFER",
            Method::Subscribe => "SUBSCRIBE",
            Method::Notify => "NOTIFY",
            Method::Message => "MESSAGE",
            Method::Publish => "PUBLISH",
            Method::Extension(s) => s.as_str(),
        }
    }
}

/// Header list in message order.  Lookup by name ignores ASCII case and
/// yields the first header of that name.
pub struct HeaderMap {
    pub entries: Vec<(String, String)>,
}

pub open spec fn header_view(entries: Seq<(String, String)>) -> Seq<(Seq<char>, Seq<char>)> {
    entries.map_values(|e: (String, String)| (e.0@, e.1@))
}

impl View for HeaderMap {
    type V = Seq<(Seq<char>, Seq<char>)>;

    open spec fn view(&self) -> Seq<(Seq<char>, Seq<char>)> {
        header_view(self.entries@)
    }
}

/// Value of the first header named `name` (ASCII case ignored) at index `i` or later.
pub open spec fn header_lookup_from(h: Seq<(Seq<char>, Seq<char>)>, name: Seq<char>, i: int) -> Option<Seq<char>>
    decreases h.len() - i,
{
    if i < 0 || i >= h.len() {
        None
    } else if lower_seq(h[i].0) == lower_seq(name) {
        Some(h[i].1)
    } else {
        header_lookup_from(h, name, i + 1)
    }
}

pub open spec fn header_lookup(h: Seq<(Seq<char>, Seq<char>)>, name: Seq<char>) -> Option<Seq<char>> {
    header_lookup_from(h, name, 0)
}

/// Whether two strings are equal ignoring ASCII case.
pub fn eq_ignore_case(a: &str, b: &str) -> (r: bool)
    ensures
        r == (lower_seq(a@) == lower_seq(b@)),
{
    let va = chars_of(a);
    let vb = chars_of(b);
    chars_eq_ignore_case(&va, &vb)
}

impl HeaderMap {
    pub fn new() -> (r: HeaderMap)
        ensures
            r@ == Seq::<(Seq<char>, Seq<char>)>::empty(),
    {
        let h = HeaderMap { entries: Vec::new() };
        assert(h@ =~= Seq::<(Seq<char>, Seq<char>)>::empty());
        h
    }

    /// Appends a header at the end of the list.
    pub fn push(&mut self, name: String, value: String)
        ensures
            final(self)@ == old(self)@.push((name@, value@)),
    {
        self.entries.push((name, value));
        assert(self@ =~= old(self)@.push((name@, value@)));
    }

    /// First header value named `name`, ASCII case ignored.
    pub fn get(&self, name: &str) -> (r: Option<&String>)
        ensures
            match r {
                Some(v) => header_lookup(self@, name@) == Some(v@),
                None => header_lookup(self@, name@) is None,
            },
    {
        let mut i: usize = 0;
        while i < self.entries.len()
            invariant
                0 <= i <= self@.len(),
                self@.len() == self.entries@.len(),
                header_lookup(self@, name@) == header_lookup_from(self@, name@, i as int),
            decreases self.entries@.len() - i,
        {
            if eq_ignore_case(self.entries[i].0.as_str(), name) {
                return Some(&self.entries[i].1);
            }
            i = i + 1;
        }
        None
    }
}

/// Values of every header named `name` (ASCII case ignored) among the
/// first `n`, in message order.
pub open spec fn header_values(h: Seq<(Seq<char>, Seq<char>)>, name: Seq<char>, n: int) -> Seq<Seq<char>>
    decreases n,
{
    if n <= 0 || n > h.len() {
        Seq::empty()
    } else if lower_seq(h[n - 1].0) == lower_seq(name) {
        header_values(h, name, n - 1).push(h[n - 1].1)
    } else {
        header_values(h, name, n - 1)
    }
}

impl HeaderMap {
    /// Values of every header named `name`, ASCII case ignored, in order.
    pub fn get_all(&self, name: &str) -> (r: Vec<String>)
        ensures
            r@.map_values(|s: String| s@) == header_values(self@, name@, self@.len() as int),
    {
        let mut out: Vec<String> = Vec::new();
        let mut i: usize = 0;
        while i < self.entries.len()
            invariant
                0 <= i <= self@.len(),
                self@.len() == self.entries@.len(),
                out@.map_values(|s: String| s@) == header_values(self@, name@, i as int),
            decreases self.entries@.len() - i,
        {
            if eq_ignore_case(self.entries[i].0.as_str(), name) {
                let ghost prev = out@.map_values(|s: String| s@);
                out.push(self.entries[i].1.clone());
                assert(out@.map_values(|s: String| s@) =~= prev.push(self@[i as int].1));
            }
            i = i + 1;
        }
        out
    }
}

/// A SIP request: method, request URI text, headers and body.
pub struct SipRequest {
    pub method: Method,
    pub uri: String,
    pub headers: HeaderMap,
    pub body: Vec<u8>,
}

/// A SIP URI: its rendered text and the host and port the edge routes by.
pub struct SipUri {
    pub text: String,
    pub host: String,
    pub port: Option<u16>,
}

} // verus!
