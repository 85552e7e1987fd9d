//! A MESSAGE outside any dialog: the edge relays it as a B2BUA, opening a
//! dialog pair whose gateway leg carries it to the destination.
use vstd::prelude::*;
use vstd::utf8::encode_utf8;
use crate::outbound::{
    build_b2bua_in_dialog_request, in_dialog_request_text, target_addr_for, target_addr_spec,
};
use crate::sip::{header_lookup, SipRequest, SipUri};
use crate::text::string_from;

verus! {

/// A registered contact of the called user: its contact URI as parsed (none
/// where it does not parse) and the address it registered from.
pub struct ContactView {
    pub uri: Option<SipUri>,
    pub received_from: String,
}

/// What the edge looked up and generated for the MESSAGE: the called user's
/// registered contact, else the URI the routing table gives; the URIs named
/// by the From, To and Contact headers and the From tag and CSeq number
/// (as the dialog layer reads them); the parsed request URI; the sender's
/// address; the gateway leg's Call-ID and the two local tags.
pub struct RouteLookup {
    pub contact: Option<ContactView>,
    pub routed_uri: Option<SipUri>,
    pub from_uri: Option<String>,
    pub to_uri: Option<String>,
    pub contact_uri: Option<String>,
    pub from_tag: Option<String>,
    pub cseq: Option<u32>,
    pub request_uri: SipUri,
    pub peer: String,
    pub gateway_call_id: String,
    pub caller_tag: String,
    pub gateway_tag: String,
}

/// One leg of the dialog pair.
pub struct MessageLeg {
    pub call_id: String,
    pub local_uri: String,
    pub remote_uri: String,
    pub local_tag: String,
    pub remote_tag: Option<String>,
    pub local_cseq: u32,
    pub remote_cseq: Option<u32>,
    pub remote_target: String,
    pub peer: String,
}

/// What the edge does with the MESSAGE.
pub enum MessageAction {
    /// `400 Bad Request`: it has no Call-ID.
    RefuseBadRequest,
    /// No destination: refused as having no route.
    NoRoute,
    /// Relay `bytes` to `target`, keeping the dialog pair.
    Relay { target: String, caller: MessageLeg, gateway: MessageLeg, bytes: Vec<u8> },
}

pub open spec fn sopt(o: Option<String>) -> Option<Seq<char>> {
    match o {
        Some(s) => Some(s@),
        None => None,
    }
}

pub open spec fn seq_or(o: Option<String>, d: Seq<char>) -> Seq<char> {
    match o {
        Some(s) => s@,
        None => d,
    }
}

/// The URI the MESSAGE goes to: the registered contact's (none when it does
/// not parse), else the routed one.
pub open spec fn outbound_uri_of(l: RouteLookup) -> Option<SipUri> {
    match l.contact {
        Some(c) => c.uri,
        None => l.routed_uri,
    }
}

/// The leg towards the sender: its dialog as the MESSAGE opened it.
pub open spec fn caller_leg_ok(leg: MessageLeg, call_id: Seq<char>, l: RouteLookup) -> bool {
    let remote = seq_or(l.from_uri, l.request_uri.text@);
    &&& leg.call_id@ == call_id
    &&& leg.local_uri@ == seq_or(l.to_uri, l.request_uri.text@)
    &&& leg.remote_uri@ == remote
    &&& leg.local_tag@ == l.caller_tag@
    &&& sopt(leg.remote_tag) == sopt(l.from_tag)
    &&& leg.local_cseq == 0
    &&& leg.remote_cseq == l.cseq
    &&& leg.remote_target@ == seq_or(l.contact_uri, remote)
    &&& leg.peer@ == l.peer@
}

/// The leg towards the destination: a new Call-ID and tag, the sender as
/// local party, the sender's CSeq (1 without one).
pub open spec fn gateway_leg_ok(leg: MessageLeg, l: RouteLookup, out: SipUri, target: Seq<char>) -> bool {
    &&& leg.call_id@ == l.gateway_call_id@
    &&& leg.local_uri@ == seq_or(l.from_uri, l.request_uri.text@)
    &&& leg.remote_uri@ == out.text@
    &&& leg.local_tag@ == l.gateway_tag@
    &&& leg.remote_tag is None
    &&& leg.local_cseq == (match l.cseq {
        Some(c) => c,
        None => 1,
    })
    &&& leg.remote_cseq is None
    &&& leg.remote_target@ == out.text@
    &&& leg.peer@ == target
}

fn take_or_text(o: &Option<String>, d: &String) -> (r: String)
    ensures
        r@ == seq_or(*o, d@),
{
    match o {
        Some(s) => s.clone(),
        None => d.clone(),
    }
}

fn local_uri_for(o: &Option<String>, fallback: &SipUri) -> (r: SipUri)
    ensures
        r.text@ == seq_or(*o, fallback.text@),
{
    match o {
        Some(s) => SipUri { text: s.clone(), host: fallback.host.clone(), port: fallback.port },
        None => SipUri { text: fallback.text.clone(), host: fallback.host.clone(), port: fallback.port },
    }
}

fn clone_opt(o: &Option<String>) -> (r: Option<String>)
    ensures
        sopt(r) == sopt(*o),
{
    match o {
        Some(s) => Some(s.clone()),
        None => None,
    }
}

/// Routes a MESSAGE outside any dialog: refused without a Call-ID, refused
/// without a destination, otherwise relayed on the gateway leg as an
/// in-dialog request to the destination's address (the contact's source
/// address, or the outbound URI's host and port).
pub fn message_route(req: &SipRequest, lookup: RouteLookup, advertised_addr: &str) -> (r: MessageAction)
    ensures
        match header_lookup(req.headers@, "call-id"@) {
            None => r is RefuseBadRequest,
            Some(call_id) => match outbound_uri_of(lookup) {
                None => r is NoRoute,
                Some(out) => {
                    let target = match lookup.contact {
                        Some(c) => c.received_from@,
                        None => target_addr_spec(out.host@, out.port),
                    };
                    r matches MessageAction::Relay { target: t, caller, gateway, bytes }
                        && t@ == target
                        && caller_leg_ok(caller, call_id, lookup)
                        && gateway_leg_ok(gateway, lookup, out, target)
                        && bytes@ == encode_utf8(
                            in_dialog_request_text(
                                *req,
                                out.text@,
                                advertised_addr@,
                                Seq::empty(),
                                lookup.gateway_call_id@,
                                seq_or(lookup.from_uri, lookup.request_uri.text@),
                                lookup.gateway_tag@,
                                out.text@,
                                None,
                                gateway.local_cseq,
                                req.body@.len(),
                            ),
                        ) + req.body@
                },
            },
        },
{
    let call_id = match req.headers.get("call-id") {
        Some(c) => c.clone(),
        None => {
            return MessageAction::RefuseBadRequest;
        },
    };
    let ghost l0 = lookup;
    let RouteLookup {
        contact,
        routed_uri,
        from_uri,
        to_uri,
        contact_uri,
        from_tag,
        cseq,
        request_uri,
        peer,
        gateway_call_id,
        caller_tag,
        gateway_tag,
    } = lookup;
    let (out, target) = match contact {
        Some(c) => match c.uri {
            Some(u) => (u, c.received_from),
            None => {
                return MessageAction::NoRoute;
            },
        },
        None => match routed_uri {
            Some(u) => {
                let t = target_addr_for(&u);
                (u, t)
            },
            None => {
                return MessageAction::NoRoute;
            },
        },
    };
    let caller_remote = take_or_text(&from_uri, &request_uri.text);
    let caller_local = take_or_text(&to_uri, &request_uri.text);
    let caller_target = take_or_text(&contact_uri, &caller_remote);
    let gateway_local = local_uri_for(&from_uri, &request_uri);
    let gateway_cseq: u32 = match cseq {
        Some(c) => c,
        None => 1,
    };
    let routes: Vec<String> = Vec::new();
    let bytes = build_b2bua_in_dialog_request(
        req,
        &out,
        advertised_addr,
        routes.as_slice(),
        gateway_call_id.as_str(),
        &gateway_local,
        gateway_tag.as_str(),
        &out,
        None,
        gateway_cseq,
        req.body.as_slice(),
    );
    assert(routes@ =~= Seq::<String>::empty());
    let caller = MessageLeg {
        call_id,
        local_uri: caller_local,
        remote_uri: caller_remote,
        local_tag: caller_tag,
        remote_tag: clone_opt(&from_tag),
        local_cseq: 0,
        remote_cseq: cseq,
        remote_target: caller_target,
        peer,
    };
    let gateway = MessageLeg {
        call_id: gateway_call_id,
        local_uri: string_from(gateway_local.text.as_str()),
        remote_uri: string_from(out.text.as_str()),
        local_tag: gateway_tag,
        remote_tag: None,
        local_cseq: gateway_cseq,
        remote_cseq: None,
        remote_target: string_from(out.text.as_str()),
        peer: string_from(target.as_str()),
    };
    MessageAction::Relay { target, caller, gateway, bytes }
}

} // verus!
