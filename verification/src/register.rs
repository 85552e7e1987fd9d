//! REGISTER handling decisions: the transport a registration arrived on,
//! what is synchronised to the cluster store, and the headers of the 200 OK.
use vstd::prelude::*;
use crate::sip::{header_lookup, SipRequest};
use crate::text::{
    chars_of, contains_seq, dec, exec_find_seq, push_dec, push_str, string_from, upper_seq,
};

verus! {

/// The transport a Via value names, checked in this order: WSS, WS, TLS,
/// TCP (ASCII case ignored); none for anything else.
pub open spec fn via_transport_spec(via: Seq<char>) -> Option<Seq<char>> {
    let u = upper_seq(via);
    if contains_seq(u, "SIP/2.0/WSS"@) {
        Some("wss"@)
    } else if contains_seq(u, "SIP/2.0/WS"@) {
        Some("ws"@)
    } else if contains_seq(u, "SIP/2.0/TLS"@) {
        Some("tls"@)
    } else if contains_seq(u, "SIP/2.0/TCP"@) {
        Some("tcp"@)
    } else {
        None
    }
}

fn upper_chars(s: &str) -> (r: Vec<char>)
    ensures
        r@ == upper_seq(s@),
{
    let v = chars_of(s);
    let mut out: Vec<char> = Vec::new();
    let mut i: usize = 0;
    while i < v.len()
        invariant
            0 <= i <= v@.len(),
            v@ == s@,
            out@ == upper_seq(v@.take(i as int)),
        decreases v@.len() - i,
    {
        out.push(crate::text::char_upper(v[i]));
        i = i + 1;
        assert(out@ =~= upper_seq(v@.take(i as int)));
    }
    assert(v@.take(v@.len() as int) =~= v@);
    out
}

fn has(u: &Vec<char>, p: &str) -> (r: bool)
    ensures
        r == contains_seq(u@, p@),
{
    let pv = chars_of(p);
    exec_find_seq(u, &pv, 0).is_some()
}

/// The transport of a REGISTER, by its (first) Via header.
pub fn registration_transport(request: &SipRequest) -> (r: Option<&'static str>)
    ensures
        match header_lookup(request.headers@, "via"@) {
            Some(via) => match r {
                Some(t) => via_transport_spec(via) == Some(t@),
                None => via_transport_spec(via) is None,
            },
            None => r is None,
        },
{
    let via = match request.headers.get("via") {
        Some(v) => v,
        None => {
            return None;
        },
    };
    let u = upper_chars(via.as_str());
    if has(&u, "SIP/2.0/WSS") {
        Some("wss")
    } else if has(&u, "SIP/2.0/WS") {
        Some("ws")
    } else if has(&u, "SIP/2.0/TLS") {
        Some("tls")
    } else if has(&u, "SIP/2.0/TCP") {
        Some("tcp")
    } else {
        None
    }
}

/// A binding the registrar holds for an address of record.
pub struct RegisteredContact {
    pub uri: String,
    /// Seconds the binding stays valid.
    pub expires: u32,
}

/// The registrar's answer to a REGISTER.
pub struct RegisterOutcome {
    pub aor: String,
    pub contacts: Vec<RegisteredContact>,
}

/// The longest remaining lifetime among the first `n` bindings (0 for none).
pub open spec fn max_expires(cs: Seq<RegisteredContact>, n: int) -> nat
    decreases n,
{
    if n <= 0 || n > cs.len() {
        0
    } else {
        let m = max_expires(cs, n - 1);
        if cs[n - 1].expires as nat > m {
            cs[n - 1].expires as nat
        } else {
            m
        }
    }
}

/// What a registration writes to the cluster store.
pub struct RegistrationSyncPlan {
    /// `vos_rs:reg:<aor>`.
    pub registration_key: String,
    /// The longest binding lifetime; 0 means the registration is removed.
    pub ttl_secs: u64,
    /// Whether the entry (and its flow) are deleted rather than written.
    pub delete: bool,
    /// The transport of the flow record written beside the bindings: only
    /// for a written entry, with clustering on and a known transport.
    pub flow_transport: Option<&'static str>,
}

/// The cluster-store write for a registration: removal when no binding
/// remains (the longest lifetime is 0), else the bindings with that
/// lifetime, and a flow record where clustering is on and the REGISTER came
/// over WSS, WS, TLS or TCP.
pub fn registration_sync_plan(request: &SipRequest, outcome: &RegisterOutcome, cluster_enabled: bool) -> (r:
    RegistrationSyncPlan)
    ensures
        r.registration_key@ == "vos_rs:reg:"@ + outcome.aor@,
        r.ttl_secs == max_expires(outcome.contacts@, outcome.contacts@.len() as int),
        r.delete == (r.ttl_secs == 0),
        r.delete ==> r.flow_transport is None,
        !r.delete ==> match (header_lookup(request.headers@, "via"@), cluster_enabled) {
            (Some(via), true) => match r.flow_transport {
                Some(t) => via_transport_spec(via) == Some(t@),
                None => via_transport_spec(via) is None,
            },
            _ => r.flow_transport is None,
        },
{
    let mut key = string_from("vos_rs:reg:");
    push_str(&mut key, outcome.aor.as_str());
    let mut ttl: u64 = 0;
    let mut i: usize = 0;
    while i < outcome.contacts.len()
        invariant
            0 <= i <= outcome.contacts@.len(),
            ttl == max_expires(outcome.contacts@, i as int),
            ttl <= u32::MAX,
        decreases outcome.contacts@.len() - i,
    {
        let e = outcome.contacts[i].expires as u64;
        if e > ttl {
            ttl = e;
        }
        i = i + 1;
    }
    if ttl == 0 {
        return RegistrationSyncPlan { registration_key: key, ttl_secs: 0, delete: true, flow_transport: None };
    }
    let flow_transport = if cluster_enabled {
        registration_transport(request)
    } else {
        None
    };
    RegistrationSyncPlan { registration_key: key, ttl_secs: ttl, delete: false, flow_transport }
}

pub open spec fn contact_headers(cs: Seq<RegisteredContact>, n: int) -> Seq<(Seq<char>, Seq<char>)>
    decreases n,
{
    if n <= 0 || n > cs.len() {
        Seq::empty()
    } else {
        contact_headers(cs, n - 1).push(
            ("Contact"@, "<"@ + cs[n - 1].uri@ + ">;expires="@ + dec(cs[n - 1].expires as nat)),
        )
    }
}

pub open spec fn pairs_of(s: Seq<(String, String)>) -> Seq<(Seq<char>, Seq<char>)> {
    s.map_values(|p: (String, String)| (p.0@, p.1@))
}

/// The extra headers of the 200 OK to a REGISTER: the address of record,
/// one `Contact` per binding with its lifetime, and the edge as the
/// `Service-Route`.
pub fn register_ok_headers(outcome: &RegisterOutcome, advertised_addr: &str) -> (r: Vec<(String, String)>)
    ensures
        pairs_of(r@) == seq![("X-VOS-RS-AOR"@, outcome.aor@)] + contact_headers(
            outcome.contacts@,
            outcome.contacts@.len() as int,
        ) + seq![("Service-Route"@, "<sip:"@ + advertised_addr@ + ";lr>"@)],
{
    let mut out: Vec<(String, String)> = Vec::new();
    out.push((string_from("X-VOS-RS-AOR"), outcome.aor.clone()));
    let mut i: usize = 0;
    while i < outcome.contacts.len()
        invariant
            0 <= i <= outcome.contacts@.len(),
            pairs_of(out@) == seq![("X-VOS-RS-AOR"@, outcome.aor@)] + contact_headers(
                outcome.contacts@,
                i as int,
            ),
        decreases outcome.contacts@.len() - i,
    {
        let c = &outcome.contacts[i];
        let mut v = string_from("<");
        push_str(&mut v, c.uri.as_str());
        push_str(&mut v, ">;expires=");
        push_dec(&mut v, c.expires as u64);
        assert(v@ =~= "<"@ + outcome.contacts@[i as int].uri@ + ">;expires="@ + dec(
            outcome.contacts@[i as int].expires as nat,
        ));
        let ghost prev = out@;
        out.push((string_from("Contact"), v));
        assert(pairs_of(out@) =~= pairs_of(prev).push(
            ("Contact"@, "<"@ + outcome.contacts@[i as int].uri@ + ">;expires="@ + dec(
                outcome.contacts@[i as int].expires as nat,
            )),
        ));
        i = i + 1;
        assert(pairs_of(out@) =~= seq![("X-VOS-RS-AOR"@, outcome.aor@)] + contact_headers(
            outcome.contacts@,
            i as int,
        ));
    }
    let mut route = string_from("<sip:");
    push_str(&mut route, advertised_addr);
    push_str(&mut route, ";lr>");
    out.push((string_from("Service-Route"), route));
    assert(pairs_of(out@) =~= seq![("X-VOS-RS-AOR"@, outcome.aor@)] + contact_headers(
        outcome.contacts@,
        outcome.contacts@.len() as int,
    ) + seq![("Service-Route"@, "<sip:"@ + advertised_addr@ + ";lr>"@)]);
    out
}

} // verus!
