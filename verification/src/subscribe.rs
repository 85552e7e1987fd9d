//! SUBSCRIBE / NOTIFY (RFC 6665): the event packages the edge serves, the
//! initial state bodies, the stable local tag of a subscription and the
//! NOTIFY request sent to a subscriber.
use vstd::prelude::*;
use vstd::utf8::*;
use crate::outbound::{header_uri, header_uri_spec, tag_param, header_param_spec, token_fragment, token_fragment_spec};
use crate::outbound::{parse_u32, parse_u32_spec};
use crate::sip::{header_lookup, header_values, SipRequest, SipUri};
use crate::text::{
    byte_len, chars_of, dec, hex, into_bytes, push_dec, push_radix, push_str, string_from, trim_ws,
    utf8_len,
};

verus! {

/// Event packages a subscription can be for.
#[derive(Clone, Copy, PartialEq, Eq, Structural, Debug)]
pub enum EventPackage {
    Presence,
    Dialog,
    MessageSummary,
}

pub open spec fn event_name(e: EventPackage) -> Seq<char> {
    match e {
        EventPackage::Presence => "presence"@,
        EventPackage::Dialog => "dialog"@,
        EventPackage::MessageSummary => "message-summary"@,
    }
}

impl EventPackage {
    /// The package's name in the `Event` header.
    pub fn as_str(&self) -> (r: &'static str)
        ensures
            r@ == event_name(*self),
    {
        match self {
            EventPackage::Presence => "presence",
            EventPackage::Dialog => "dialog",
            EventPackage::MessageSummary => "message-summary",
        }
    }
}

pub open spec fn content_type_spec(e: EventPackage) -> Seq<char> {
    match e {
        EventPackage::Presence => "application/pidf+xml"@,
        EventPackage::Dialog => "application/dialog-info+xml"@,
        EventPackage::MessageSummary => "application/simple-message-summary"@,
    }
}

/// The body type of a package's NOTIFY.
pub fn content_type_for(event_package: EventPackage) -> (r: &'static str)
    ensures
        r@ == content_type_spec(event_package),
{
    match event_package {
        EventPackage::Presence => "application/pidf+xml",
        EventPackage::Dialog => "application/dialog-info+xml",
        EventPackage::MessageSummary => "application/simple-message-summary",
    }
}

/// The initial NOTIFY body: an open PIDF presence document or an empty full
/// dialog-info document for `aor`, or an empty message summary.
pub open spec fn initial_body_spec(e: EventPackage, aor: Seq<char>) -> Seq<char> {
    match e {
        EventPackage::Presence => "<?xml version=\"1.0\" encoding=\"UTF-8\"?>\n<presence xmlns=\"urn:ietf:params:xml:ns:pidf\"\nentity=\""@
            + aor
            + "\">\n<tuple id=\"vosrs\">\n<status><basic>open</basic></status>\n</tuple>\n</presence>"@,
        EventPackage::Dialog => "<?xml version=\"1.0\" encoding=\"UTF-8\"?>\n<dialog-info xmlns=\"urn:ietf:params:xml:ns:dialog-info\"\nversion=\"1\" state=\"full\" entity=\""@
            + aor + "\">\n</dialog-info>"@,
        EventPackage::MessageSummary => "Messages-Waiting: no\r\nMessage-Account: sip:vm@localhost\r\nVoice-Message: 0/0 (0/0)"@,
    }
}

pub fn initial_body_for(event_package: EventPackage, aor: &str) -> (r: String)
    ensures
        r@ == initial_body_spec(event_package, aor@),
{
    match event_package {
        EventPackage::Presence => {
            let mut out = string_from(
                "<?xml version=\"1.0\" encoding=\"UTF-8\"?>\n<presence xmlns=\"urn:ietf:params:xml:ns:pidf\"\nentity=\"",
            );
            push_str(&mut out, aor);
            push_str(
                &mut out,
                "\">\n<tuple id=\"vosrs\">\n<status><basic>open</basic></status>\n</tuple>\n</presence>",
            );
            out
        },
        EventPackage::Dialog => {
            let mut out = string_from(
                "<?xml version=\"1.0\" encoding=\"UTF-8\"?>\n<dialog-info xmlns=\"urn:ietf:params:xml:ns:dialog-info\"\nversion=\"1\" state=\"full\" entity=\"",
            );
            push_str(&mut out, aor);
            push_str(&mut out, "\">\n</dialog-info>");
            out
        },
        EventPackage::MessageSummary => string_from(
            "Messages-Waiting: no\r\nMessage-Account: sip:vm@localhost\r\nVoice-Message: 0/0 (0/0)",
        ),
    }
}

/// The `tag` parameter of a From/To value.
pub fn extract_tag_param(header: &str) -> (r: Option<String>)
    ensures
        match r {
            Some(x) => header_param_spec(header@, "tag"@, true) == Some(x@),
            None => header_param_spec(header@, "tag"@, true) is None,
        },
{
    tag_param(header)
}

/// The URI a From/To/Contact value names.
pub fn extract_uri(header: &str) -> (r: Option<String>)
    ensures
        match r {
            Some(s) => header_uri_spec(header@) == Some(s@),
            None => header_uri_spec(header@) is None,
        },
{
    header_uri(header)
}

// ---------------------------------------------------------------------------
// Local tag
// ---------------------------------------------------------------------------

pub open spec fn fnv_step(h: u64, b: u8) -> u64 {
    ((h ^ (b as u64)) as int * 0x100000001b3int % 0x1_0000_0000_0000_0000int) as u64
}

/// 64-bit FNV-1a over `bytes`, starting from `h`.
pub open spec fn fnv_from(h: u64, bytes: Seq<u8>) -> u64
    decreases bytes.len(),
{
    if bytes.len() == 0 {
        h
    } else {
        fnv_step(fnv_from(h, bytes.drop_last()), bytes.last())
    }
}

/// FNV-1a of the UTF-8 bytes of the Call-ID followed by those of the From tag.
pub open spec fn local_tag_hash(call_id: Seq<char>, from_tag: Seq<char>) -> u64 {
    fnv_from(0xcbf29ce484222325, encode_utf8(call_id) + encode_utf8(from_tag))
}

fn fnv_fold(h: u64, bytes: &[u8]) -> (r: u64)
    ensures
        r == fnv_from(h, bytes@),
{
    let mut acc = h;
    let mut i: usize = 0;
    while i < bytes.len()
        invariant
            0 <= i <= bytes@.len(),
            acc == fnv_from(h, bytes@.take(i as int)),
        decreases bytes@.len() - i,
    {
        assert(bytes@.take(i + 1).drop_last() =~= bytes@.take(i as int));
        acc = (acc ^ (bytes[i] as u64)).wrapping_mul(0x100000001b3);
        i = i + 1;
    }
    assert(bytes@.take(bytes@.len() as int) =~= bytes@);
    acc
}

proof fn lemma_fnv_concat(h: u64, a: Seq<u8>, b: Seq<u8>)
    ensures
        fnv_from(fnv_from(h, a), b) == fnv_from(h, a + b),
    decreases b.len(),
{
    if b.len() == 0 {
        assert(a + b =~= a);
    } else {
        lemma_fnv_concat(h, a, b.drop_last());
        assert((a + b).drop_last() =~= a + b.drop_last());
        assert((a + b).last() == b.last());
    }
}

/// A stable local tag for a subscription, the same on every refresh:
/// `vosrs-sub-` and the lower-case hex of `local_tag_hash`.
pub fn generate_local_tag(call_id: &str, from_tag: &str) -> (r: String)
    ensures
        r@ == "vosrs-sub-"@ + hex(local_tag_hash(call_id@, from_tag@) as nat),
{
    let h1 = fnv_fold(0xcbf29ce484222325, call_id.as_bytes());
    let h2 = fnv_fold(h1, from_tag.as_bytes());
    proof {
        lemma_fnv_concat(0xcbf29ce484222325, encode_utf8(call_id@), encode_utf8(from_tag@));
    }
    let mut out = string_from("vosrs-sub-");
    push_radix(&mut out, h2, 16);
    out
}

// ---------------------------------------------------------------------------
// NOTIFY
// ---------------------------------------------------------------------------

/// The state a NOTIFY reports.
pub enum SubscriptionState {
    Active { expires: u32 },
    Terminated { reason: Option<String> },
}

/// The `Subscription-State` header value.
pub open spec fn state_text(s: SubscriptionState) -> Seq<char> {
    match s {
        SubscriptionState::Active { expires } => "active;expires="@ + dec(expires as nat),
        SubscriptionState::Terminated { reason } => match reason {
            Some(r) => "terminated;reason="@ + r@,
            None => "terminated"@,
        },
    }
}

impl SubscriptionState {
    pub fn to_header_value(&self) -> (r: String)
        ensures
            r@ == state_text(*self),
    {
        match self {
            SubscriptionState::Active { expires } => {
                let mut out = string_from("active;expires=");
                push_dec(&mut out, *expires as u64);
                out
            },
            SubscriptionState::Terminated { reason } => match reason {
                Some(r) => {
                    let mut out = string_from("terminated;reason=");
                    push_str(&mut out, r.as_str());
                    out
                },
                None => string_from("terminated"),
            },
        }
    }
}

/// One subscription dialog, as the notifier keeps it.
pub struct Subscription {
    pub id: String,
    /// The subscribed address of record.
    pub aor: String,
    pub event_package: EventPackage,
    /// Where NOTIFY requests go.
    pub contact_uri: String,
    pub from_uri: String,
    pub to_uri: String,
    pub dialog_call_id: String,
    pub local_tag: String,
    pub remote_tag: Option<String>,
    pub route_set: Vec<String>,
    /// CSeq of the last NOTIFY sent in the dialog.
    pub last_cseq: u32,
}

impl Subscription {
    /// CSeq of the next NOTIFY.
    pub fn next_cseq(&self) -> (r: u32)
        requires
            self.last_cseq < u32::MAX,
        ensures
            r == self.last_cseq + 1,
    {
        self.last_cseq + 1
    }
}

/// The Request-URI of a NOTIFY: the subscriber's contact where it parsed,
/// else `sip:subscriber@<advertised address>`.
pub open spec fn notify_target_spec(contact: Option<SipUri>, addr: Seq<char>) -> Seq<char> {
    match contact {
        Some(u) => u.text@,
        None => "sip:subscriber@"@ + addr,
    }
}

pub open spec fn remote_tag_part(t: Option<String>) -> Seq<char> {
    match t {
        Some(x) => ";tag="@ + x@,
        None => Seq::empty(),
    }
}

/// The text of the NOTIFY for `sub`, sent with CSeq `cseq`.
pub open spec fn notify_text(
    sub: Subscription,
    target: Seq<char>,
    body: Seq<char>,
    state: Seq<char>,
    addr: Seq<char>,
    cseq: nat,
) -> Seq<char> {
    "NOTIFY "@ + target + " SIP/2.0\r\nVia: SIP/2.0/UDP "@ + addr + ";branch=z9hG4bK-notify-"@
        + token_fragment_spec(sub.dialog_call_id@) + "-"@ + dec(cseq) + "\r\nMax-Forwards: 70\r\nFrom: <"@
        + sub.to_uri@ + ">;tag="@ + sub.local_tag@ + "\r\nTo: <"@ + sub.from_uri@ + ">"@
        + remote_tag_part(sub.remote_tag) + "\r\nCall-ID: "@ + sub.dialog_call_id@ + "\r\nCSeq: "@
        + dec(cseq) + " NOTIFY\r\nContact: <sip:vosrs@"@ + addr + ">\r\nEvent: "@ + event_name(
        sub.event_package,
    ) + "\r\nSubscription-State: "@ + state + "\r\nContent-Type: "@ + content_type_spec(
        sub.event_package,
    ) + "\r\nContent-Length: "@ + dec(utf8_len(body)) + "\r\n\r\n"@ + body
}

/// The NOTIFY request for a subscription: the next CSeq of its dialog, its
/// tags swapped into From and To, the package's `Event` and body type, the
/// given state and body.  `contact` is the subscription's contact URI as
/// parsed, none where it did not parse.
#[verifier::spinoff_prover]
#[verifier::rlimit(100)]
pub fn build_notify(
    subscription: &Subscription,
    body: &str,
    state: &SubscriptionState,
    advertised_addr: &str,
    contact: Option<&SipUri>,
) -> (r: Vec<u8>)
    requires
        subscription.last_cseq < u32::MAX,
    ensures
        r@ == encode_utf8(
            notify_text(
                *subscription,
                notify_target_spec(
                    match contact {
                        Some(u) => Some(*u),
                        None => None,
                    },
                    advertised_addr@,
                ),
                body@,
                state_text(*state),
                advertised_addr@,
                subscription.last_cseq as nat + 1,
            ),
        ),
{
    let cseq = subscription.next_cseq();
    let mut out = string_from("NOTIFY ");
    match contact {
        Some(u) => push_str(&mut out, u.text.as_str()),
        None => {
            push_str(&mut out, "sip:subscriber@");
            push_str(&mut out, advertised_addr);
        },
    }
    push_str(&mut out, " SIP/2.0\r\nVia: SIP/2.0/UDP ");
    push_str(&mut out, advertised_addr);
    push_str(&mut out, ";branch=z9hG4bK-notify-");
    let frag = token_fragment(subscription.dialog_call_id.as_str());
    push_str(&mut out, frag.as_str());
    push_str(&mut out, "-");
    push_dec(&mut out, cseq as u64);
    push_str(&mut out, "\r\nMax-Forwards: 70\r\nFrom: <");
    push_str(&mut out, subscription.to_uri.as_str());
    push_str(&mut out, ">;tag=");
    push_str(&mut out, subscription.local_tag.as_str());
    push_str(&mut out, "\r\nTo: <");
    push_str(&mut out, subscription.from_uri.as_str());
    push_str(&mut out, ">");
    match &subscription.remote_tag {
        Some(t) => {
            push_str(&mut out, ";tag=");
            push_str(&mut out, t.as_str());
        },
        None => {},
    }
    push_str(&mut out, "\r\nCall-ID: ");
    push_str(&mut out, subscription.dialog_call_id.as_str());
    push_str(&mut out, "\r\nCSeq: ");
    push_dec(&mut out, cseq as u64);
    push_str(&mut out, " NOTIFY\r\nContact: <sip:vosrs@");
    push_str(&mut out, advertised_addr);
    push_str(&mut out, ">\r\nEvent: ");
    push_str(&mut out, subscription.event_package.as_str());
    push_str(&mut out, "\r\nSubscription-State: ");
    let st = state.to_header_value();
    push_str(&mut out, st.as_str());
    push_str(&mut out, "\r\nContent-Type: ");
    push_str(&mut out, content_type_for(subscription.event_package));
    push_str(&mut out, "\r\nContent-Length: ");
    push_dec(&mut out, byte_len(body) as u64);
    push_str(&mut out, "\r\n\r\n");
    push_str(&mut out, body);
    proof {
        reveal_strlit("");
    }
    assert(out@ =~= notify_text(
        *subscription,
        notify_target_spec(
            match contact {
                Some(u) => Some(*u),
                None => None,
            },
            advertised_addr@,
        ),
        body@,
        state_text(*state),
        advertised_addr@,
        subscription.last_cseq as nat + 1,
    ));
    into_bytes(out)
}

/// A subscriber to notify: its subscription, the seconds it has left, its
/// contact URI as parsed (none where it did not parse) and the address its
/// SUBSCRIBE came from, where its NOTIFYs are sent.
pub struct NotifyTarget {
    pub subscription: Subscription,
    pub remaining_secs: u32,
    pub contact: Option<SipUri>,
    pub peer: String,
}

/// The state reported to a subscriber with `remaining` seconds left:
/// terminated by timeout once none are left, active otherwise.
pub open spec fn remaining_state_text(remaining: u32) -> Seq<char> {
    if remaining == 0 {
        "terminated;reason=timeout"@
    } else {
        "active;expires="@ + dec(remaining as nat)
    }
}

/// The NOTIFY for one subscriber of a state change.
pub open spec fn target_notify(t: NotifyTarget, body: Seq<char>, addr: Seq<char>) -> Seq<u8> {
    encode_utf8(
        notify_text(
            t.subscription,
            notify_target_spec(t.contact, addr),
            body,
            remaining_state_text(t.remaining_secs),
            addr,
            t.subscription.last_cseq as nat + 1,
        ),
    )
}

/// The NOTIFYs announcing a state change to every subscriber of an address
/// of record, one per subscriber in order (none when there are none), each
/// addressed to the peer its subscription came from.
pub fn notify_subscribers(subscribers: &Vec<NotifyTarget>, body: &str, advertised_addr: &str) -> (r: Vec<
    (String, Vec<u8>),
>)
    requires
        forall|i: int| 0 <= i < subscribers@.len() ==> (#[trigger] subscribers@[i]).subscription.last_cseq < u32::MAX,
    ensures
        r@.len() == subscribers@.len(),
        forall|i: int| 0 <= i < r@.len() ==> (#[trigger] r@[i]).0@ == subscribers@[i].peer@ && r@[i].1@
            == target_notify(subscribers@[i], body@, advertised_addr@),
{
    let mut out: Vec<(String, Vec<u8>)> = Vec::new();
    let mut i: usize = 0;
    while i < subscribers.len()
        invariant
            0 <= i <= subscribers@.len(),
            out@.len() == i,
            forall|j: int| 0 <= j < subscribers@.len() ==> (#[trigger] subscribers@[j]).subscription.last_cseq < u32::MAX,
            forall|j: int| 0 <= j < i ==> (#[trigger] out@[j]).0@ == subscribers@[j].peer@ && out@[j].1@
                == target_notify(subscribers@[j], body@, advertised_addr@),
        decreases subscribers@.len() - i,
    {
        let t = &subscribers[i];
        let state = if t.remaining_secs == 0 {
            SubscriptionState::Terminated { reason: Some(string_from("timeout")) }
        } else {
            SubscriptionState::Active { expires: t.remaining_secs }
        };
        proof {
            reveal_strlit("terminated;reason=");
            reveal_strlit("timeout");
            reveal_strlit("terminated;reason=timeout");
            assert(state_text(state) =~= remaining_state_text(t.remaining_secs));
        }
        let contact: Option<&SipUri> = match &t.contact {
            Some(u) => Some(u),
            None => None,
        };
        let bytes = build_notify(&t.subscription, body, &state, advertised_addr, contact);
        out.push((t.peer.clone(), bytes));
        i = i + 1;
    }
    out
}

// ---------------------------------------------------------------------------
// Accepting a SUBSCRIBE
// ---------------------------------------------------------------------------

/// Why a SUBSCRIBE is refused.
#[derive(PartialEq, Eq, Structural, Debug, Clone, Copy)]
pub enum SubscribeRejection {
    MissingCallId,
    MissingFromTag,
    /// The event package is not one the edge serves.
    BadEvent,
    InvalidContact,
}

pub open spec fn or_empty_spec(o: Option<Seq<char>>) -> Seq<char> {
    match o {
        Some(s) => s,
        None => Seq::empty(),
    }
}

/// The subscription a SUBSCRIBE asks for, or why it is refused, checked in
/// this order: a Call-ID, a From tag, a served event package (`event`, as
/// the caller parsed it), a Contact URI.  The subscribed address is the To
/// URI (`sip:unknown@localhost` without one); the local tag is the stable
/// one of the Call-ID and From tag; the route set is the Record-Route
/// headers; no NOTIFY has been sent yet.
pub open spec fn subscription_spec(
    h: Seq<(Seq<char>, Seq<char>)>,
    id: Seq<char>,
    event: Option<EventPackage>,
) -> Result<(Seq<char>, EventPackage, Seq<char>, Seq<char>, Seq<char>, Seq<char>, Seq<char>, Seq<char>, Seq<Seq<char>>), SubscribeRejection> {
    let from = or_empty_spec(header_lookup(h, "from"@));
    let to = or_empty_spec(header_lookup(h, "to"@));
    let tag = or_empty_spec(header_param_spec(from, "tag"@, true));
    match header_lookup(h, "call-id"@) {
        None => Err(SubscribeRejection::MissingCallId),
        Some(call_id) => if tag.len() == 0 {
            Err(SubscribeRejection::MissingFromTag)
        } else {
            match event {
                None => Err(SubscribeRejection::BadEvent),
                Some(e) => match header_uri_spec(or_empty_spec(header_lookup(h, "contact"@))) {
                    None => Err(SubscribeRejection::InvalidContact),
                    Some(contact) => Ok(
                        (
                            match header_uri_spec(to) {
                                Some(a) => a,
                                None => "sip:unknown@localhost"@,
                            },
                            e,
                            contact,
                            or_empty_spec(header_uri_spec(from)),
                            or_empty_spec(header_uri_spec(to)),
                            call_id,
                            "vosrs-sub-"@ + hex(local_tag_hash(call_id, tag) as nat),
                            tag,
                            header_values(h, "record-route"@, h.len() as int),
                        ),
                    ),
                },
            }
        },
    }
}

/// `s` is the subscription with id `id` and the fields `v` that
/// `subscription_spec` gives, with no NOTIFY sent yet.
pub open spec fn subscription_is(
    s: Subscription,
    id: Seq<char>,
    v: (Seq<char>, EventPackage, Seq<char>, Seq<char>, Seq<char>, Seq<char>, Seq<char>, Seq<char>, Seq<Seq<char>>),
) -> bool {
    s.id@ == id && (
        s.aor@,
        s.event_package,
        s.contact_uri@,
        s.from_uri@,
        s.to_uri@,
        s.dialog_call_id@,
        s.local_tag@,
        match s.remote_tag {
            Some(t) => t@,
            None => Seq::empty(),
        },
        s.route_set@.map_values(|x: String| x@),
    ) == v && s.remote_tag is Some && s.last_cseq == 0
}

fn header_or_empty(request: &SipRequest, name: &str) -> (r: String)
    ensures
        r@ == or_empty_spec(header_lookup(request.headers@, name@)),
{
    match request.headers.get(name) {
        Some(v) => v.clone(),
        None => String::new(),
    }
}

/// Builds the subscription a SUBSCRIBE asks for.
pub fn new_subscription(request: &SipRequest, subscription_id: &str, event: Option<EventPackage>) -> (r: Result<
    Subscription,
    SubscribeRejection,
>)
    ensures
        match subscription_spec(request.headers@, subscription_id@, event) {
            Err(e) => r == Err::<Subscription, SubscribeRejection>(e),
            Ok(v) => r matches Ok(s) && subscription_is(s, subscription_id@, v),
        },
{
    let call_id = match request.headers.get("call-id") {
        Some(c) => c.clone(),
        None => {
            return Err(SubscribeRejection::MissingCallId);
        },
    };
    let from = header_or_empty(request, "from");
    let to = header_or_empty(request, "to");
    let tag = match extract_tag_param(from.as_str()) {
        Some(t) => t,
        None => String::new(),
    };
    if tag.as_str().is_empty() {
        return Err(SubscribeRejection::MissingFromTag);
    }
    let event_package = match event {
        Some(e) => e,
        None => {
            return Err(SubscribeRejection::BadEvent);
        },
    };
    let contact = header_or_empty(request, "contact");
    let contact_uri = match header_uri(contact.as_str()) {
        Some(u) => u,
        None => {
            return Err(SubscribeRejection::InvalidContact);
        },
    };
    let aor = match header_uri(to.as_str()) {
        Some(a) => a,
        None => string_from("sip:unknown@localhost"),
    };
    let from_uri = match extract_uri(from.as_str()) {
        Some(u) => u,
        None => String::new(),
    };
    let to_uri = match extract_uri(to.as_str()) {
        Some(u) => u,
        None => String::new(),
    };
    let local_tag = generate_local_tag(call_id.as_str(), tag.as_str());
    let route_set = request.headers.get_all("record-route");
    Ok(Subscription {
        id: string_from(subscription_id),
        aor,
        event_package,
        contact_uri,
        from_uri,
        to_uri,
        dialog_call_id: call_id,
        local_tag,
        remote_tag: Some(tag),
        route_set,
        last_cseq: 0,
    })
}

/// The lifetime a SUBSCRIBE asks for: its Expires header read as a number
/// after trimming, or `default`; 0 ends the subscription.
pub open spec fn requested_expires_spec(expires: Option<Seq<char>>, default: u32) -> u32 {
    match expires {
        Some(v) => match parse_u32_spec(trim_ws(v)) {
            Some(n) => n,
            None => default,
        },
        None => default,
    }
}

pub fn requested_expires(expires: Option<&str>, default: u32) -> (r: u32)
    ensures
        r == requested_expires_spec(
            match expires {
                Some(v) => Some(v@),
                None => None,
            },
            default,
        ),
{
    match expires {
        Some(v) => {
            let cs = chars_of(v);
            let (a, b) = crate::text::exec_trim_range(&cs, 0, cs.len());
            assert(cs@.subrange(0, cs@.len() as int) =~= cs@);
            let t = crate::text::string_range(&cs, a, b);
            match parse_u32(t.as_str()) {
                Some(n) => n,
                None => default,
            }
        },
        None => default,
    }
}

/// The answer to a SUBSCRIBE.
pub struct SubscribeReply {
    pub status: u16,
    pub reason: &'static str,
    pub headers: Vec<(String, String)>,
}

pub open spec fn reply_spec(rejection: Option<SubscribeRejection>, expires: u32) -> (u16, Seq<char>, Seq<(Seq<char>, Seq<char>)>) {
    match rejection {
        None => (200, "OK"@, seq![("Expires"@, dec(expires as nat))]),
        Some(SubscribeRejection::BadEvent) => (489, "Bad Event"@, seq![("Allow-Events"@, "presence,dialog,message-summary"@)]),
        Some(SubscribeRejection::MissingCallId) => (400, "Bad Request"@, seq![("X-VOS-RS-Error"@, "missing Call-ID"@)]),
        Some(SubscribeRejection::MissingFromTag) => (400, "Bad Request"@, seq![("X-VOS-RS-Error"@, "missing From tag"@)]),
        Some(SubscribeRejection::InvalidContact) => (400, "Bad Request"@, seq![("X-VOS-RS-Error"@, "missing or invalid Contact"@)]),
    }
}

/// `200 OK` with the granted `Expires`; `489 Bad Event` listing the served
/// packages; `400 Bad Request` naming what is missing.
pub fn subscribe_reply(rejection: Option<SubscribeRejection>, expires: u32) -> (r: SubscribeReply)
    ensures
        (r.status, r.reason@, r.headers@.map_values(|p: (String, String)| (p.0@, p.1@))) == reply_spec(rejection, expires),
{
    let (status, reason, name, value): (u16, &'static str, &str, String) = match rejection {
        None => {
            let mut v = String::new();
            push_dec(&mut v, expires as u64);
            (200, "OK", "Expires", v)
        },
        Some(SubscribeRejection::BadEvent) => (489, "Bad Event", "Allow-Events", string_from("presence,dialog,message-summary")),
        Some(SubscribeRejection::MissingCallId) => (400, "Bad Request", "X-VOS-RS-Error", string_from("missing Call-ID")),
        Some(SubscribeRejection::MissingFromTag) => (400, "Bad Request", "X-VOS-RS-Error", string_from("missing From tag")),
        Some(SubscribeRejection::InvalidContact) => (400, "Bad Request", "X-VOS-RS-Error", string_from("missing or invalid Contact")),
    };
    let mut headers: Vec<(String, String)> = Vec::new();
    headers.push((string_from(name), value));
    assert(headers@.map_values(|p: (String, String)| (p.0@, p.1@)) =~= seq![(name@, headers@[0].1@)]);
    SubscribeReply { status, reason, headers }
}

// ---------------------------------------------------------------------------
// A SUBSCRIBE as a whole
// ---------------------------------------------------------------------------

/// What the subscription layer says of a SUBSCRIBE: the event package it
/// serves (none when the Event is not served), the expiry it grants and
/// the subscription's id; the default expiry; and the subscriber's contact
/// URI as parsed (none where it does not parse).
pub struct SubscribeFacts {
    pub event: Option<EventPackage>,
    pub granted_expires: u32,
    pub subscription_id: String,
    pub default_expires: u32,
    pub contact: Option<SipUri>,
}

/// What a SUBSCRIBE does.
pub enum SubscribeAction {
    /// Answer the sender with `reply`; the store is not touched.
    Refuse { reply: SubscribeReply },
    /// `Expires: 0`: remove subscription `id` from the store and answer the
    /// sender with `reply` (then `unsubscribe_notify` on what was removed).
    Unsubscribe { id: String, reply: SubscribeReply },
    /// Upsert `subscription` into the store, answer the sender with
    /// `reply`, then send `notify` (an address and the NOTIFY's bytes).
    Subscribe { subscription: Subscription, reply: SubscribeReply, notify: (String, Vec<u8>) },
}

pub open spec fn reply_is(reply: SubscribeReply, v: (u16, Seq<char>, Seq<(Seq<char>, Seq<char>)>)) -> bool {
    (reply.status, reply.reason@, reply.headers@.map_values(|p: (String, String)| (p.0@, p.1@))) == v
}

pub open spec fn header_opt(h: Seq<(Seq<char>, Seq<char>)>, name: Seq<char>) -> Option<Seq<char>> {
    header_lookup(h, name)
}

/// A SUBSCRIBE from `peer`: refused with `400` or `489` as
/// `subscription_spec` says, leaving the store alone; with a requested
/// expiry of 0, the subscription is removed and `200 OK` answers with the
/// granted expiry; otherwise the subscription is upserted, `200 OK`
/// answers with the granted expiry and the first NOTIFY (active for the
/// granted expiry, with the package's initial body for the subscribed
/// address, CSeq 1) goes to `peer`.
pub fn subscribe_step(request: &SipRequest, peer: &str, facts: SubscribeFacts, advertised_addr: &str) -> (r: SubscribeAction)
    ensures
        match subscription_spec(request.headers@, facts.subscription_id@, facts.event) {
            Err(e) => r matches SubscribeAction::Refuse { reply } && reply_is(reply, reply_spec(Some(e), 0)),
            Ok(v) => if requested_expires_spec(header_opt(request.headers@, "expires"@), facts.default_expires) == 0 {
                r matches SubscribeAction::Unsubscribe { id, reply } && id@ == facts.subscription_id@
                    && reply_is(reply, reply_spec(None, facts.granted_expires))
            } else {
                r matches SubscribeAction::Subscribe { subscription, reply, notify }
                    && subscription_is(subscription, facts.subscription_id@, v)
                    && reply_is(reply, reply_spec(None, facts.granted_expires))
                    && notify.0@ == peer@
                    && notify.1@ == encode_utf8(
                        notify_text(
                            subscription,
                            notify_target_spec(facts.contact, advertised_addr@),
                            initial_body_spec(v.1, v.0),
                            state_text(SubscriptionState::Active { expires: facts.granted_expires }),
                            advertised_addr@,
                            1,
                        ),
                    )
            },
        },
{
    let ghost f0 = facts;
    let SubscribeFacts { event, granted_expires, subscription_id, default_expires, contact } = facts;
    match new_subscription(request, subscription_id.as_str(), event) {
        Err(e) => SubscribeAction::Refuse { reply: subscribe_reply(Some(e), 0) },
        Ok(sub) => {
            let expires_header: Option<&str> = match request.headers.get("expires") {
                Some(v) => Some(v.as_str()),
                None => None,
            };
            let requested = requested_expires(expires_header, default_expires);
            let reply = subscribe_reply(None, granted_expires);
            if requested == 0 {
                SubscribeAction::Unsubscribe { id: subscription_id, reply }
            } else {
                let body = initial_body_for(sub.event_package, sub.aor.as_str());
                let state = SubscriptionState::Active { expires: granted_expires };
                let target: Option<&SipUri> = match &contact {
                    Some(u) => Some(u),
                    None => None,
                };
                let bytes = build_notify(&sub, body.as_str(), &state, advertised_addr, target);
                assert(match target {
                    Some(u) => Some(*u),
                    None => None::<SipUri>,
                } == f0.contact);
                SubscribeAction::Subscribe { subscription: sub, reply, notify: (string_from(peer), bytes) }
            }
        },
    }
}

/// After an unsubscribe: the final NOTIFY (state `terminated`, empty body)
/// to the peer of the subscription that was removed, if there was one.
pub fn unsubscribe_notify(removed: Option<&NotifyTarget>, advertised_addr: &str) -> (r: Option<(String, Vec<u8>)>)
    requires
        removed matches Some(t) ==> t.subscription.last_cseq < u32::MAX,
    ensures
        match removed {
            None => r is None,
            Some(t) => r matches Some(p) && p.0@ == t.peer@ && p.1@ == encode_utf8(
                notify_text(
                    t.subscription,
                    notify_target_spec(t.contact, advertised_addr@),
                    Seq::empty(),
                    "terminated"@,
                    advertised_addr@,
                    t.subscription.last_cseq as nat + 1,
                ),
            ),
        },
{
    match removed {
        None => None,
        Some(t) => {
            let state = SubscriptionState::Terminated { reason: None };
            let target: Option<&SipUri> = match &t.contact {
                Some(u) => Some(u),
                None => None,
            };
            let bytes = build_notify(&t.subscription, "", &state, advertised_addr, target);
            proof {
                reveal_strlit("");
                assert(""@ =~= Seq::<char>::empty());
            }
            Some((t.peer.clone(), bytes))
        },
    }
}

// ---------------------------------------------------------------------------
// Busy-lamp watchers when a call ends
// ---------------------------------------------------------------------------

/// The full dialog-info document announcing that dialog `call_id` of `aor`
/// has ended.
pub open spec fn dialog_terminated_body_spec(aor: Seq<char>, call_id: Seq<char>) -> Seq<char> {
    "<?xml version=\"1.0\" encoding=\"UTF-8\"?>\n<dialog-info xmlns=\"urn:ietf:params:xml:ns:dialog-info\"\nversion=\"1\" state=\"full\" entity=\""@
        + aor + "\">\n<dialog id=\""@ + call_id + "\">\n<state>terminated</state>\n</dialog>\n</dialog-info>"@
}

pub fn dialog_terminated_body(aor: &str, call_id: &str) -> (r: String)
    ensures
        r@ == dialog_terminated_body_spec(aor@, call_id@),
{
    let mut out = string_from(
        "<?xml version=\"1.0\" encoding=\"UTF-8\"?>\n<dialog-info xmlns=\"urn:ietf:params:xml:ns:dialog-info\"\nversion=\"1\" state=\"full\" entity=\"",
    );
    push_str(&mut out, aor);
    push_str(&mut out, "\">\n<dialog id=\"");
    push_str(&mut out, call_id);
    push_str(&mut out, "\">\n<state>terminated</state>\n</dialog>\n</dialog-info>");
    out
}

/// The NOTIFYs telling `watchers` (with their peers) that a dialog ended,
/// `body` being the dialog document.
pub open spec fn watcher_notifies_ok(r: Seq<(String, Vec<u8>)>, watchers: Seq<NotifyTarget>, body: Seq<char>, addr: Seq<char>) -> bool {
    &&& r.len() == watchers.len()
    &&& forall|i: int| 0 <= i < r.len() ==> (#[trigger] r[i]).0@ == watchers[i].peer@ && r[i].1@
        == target_notify(watchers[i], body, addr)
}

/// The dialog-event watchers of a call's two addresses of record, with
/// what is known when its session ends.
pub struct DialogEndFacts {
    /// The call had been answered.
    pub established: bool,
    pub call_id: String,
    pub caller_aor: String,
    pub callee_aor: String,
    /// The dialog-package subscribers of the caller's and the callee's address.
    pub caller_watchers: Vec<NotifyTarget>,
    pub callee_watchers: Vec<NotifyTarget>,
}

/// The busy-lamp NOTIFYs sent when a session ends: none for a call that
/// was never answered; otherwise one per watcher of the caller's address
/// (the caller's dialog document), then one per watcher of the callee's.
pub open spec fn dialog_end_ok(r: Seq<(String, Vec<u8>)>, facts: DialogEndFacts, addr: Seq<char>) -> bool {
    let n = facts.caller_watchers@.len() as int;
    &&& !facts.established ==> r.len() == 0
    &&& facts.established ==> r.len() == facts.caller_watchers@.len() + facts.callee_watchers@.len()
        && watcher_notifies_ok(
        r.subrange(0, n),
        facts.caller_watchers@,
        dialog_terminated_body_spec(facts.caller_aor@, facts.call_id@),
        addr,
    ) && watcher_notifies_ok(
        r.subrange(n, r.len() as int),
        facts.callee_watchers@,
        dialog_terminated_body_spec(facts.callee_aor@, facts.call_id@),
        addr,
    )
}

pub fn dialog_end_notifies(facts: &DialogEndFacts, advertised_addr: &str) -> (r: Vec<(String, Vec<u8>)>)
    requires
        forall|i: int| 0 <= i < facts.caller_watchers@.len() ==> (#[trigger] facts.caller_watchers@[i]).subscription.last_cseq < u32::MAX,
        forall|i: int| 0 <= i < facts.callee_watchers@.len() ==> (#[trigger] facts.callee_watchers@[i]).subscription.last_cseq < u32::MAX,
    ensures
        dialog_end_ok(r@, *facts, advertised_addr@),
{
    if !facts.established {
        return Vec::new();
    }
    let caller_body = dialog_terminated_body(facts.caller_aor.as_str(), facts.call_id.as_str());
    let callee_body = dialog_terminated_body(facts.callee_aor.as_str(), facts.call_id.as_str());
    let mut out = notify_subscribers(&facts.caller_watchers, caller_body.as_str(), advertised_addr);
    let mut rest = notify_subscribers(&facts.callee_watchers, callee_body.as_str(), advertised_addr);
    let ghost a = out@;
    let ghost b = rest@;
    out.append(&mut rest);
    assert(out@ == a + b);
    assert(out@.subrange(0, a.len() as int) =~= a);
    assert(out@.subrange(a.len() as int, out@.len() as int) =~= b);
    out
}

} // verus!
