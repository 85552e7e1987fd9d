//! Admission of a new INVITE, as a step function: each step takes the
//! answer to the question asked before (a store lookup, a rule check, a
//! routing result) and says what to ask next or how the call ends.  The
//! caller of the step performs the lookups and sends what it is told.
use vstd::prelude::*;
use crate::invite::{DidRoute, FraudBlock};
use crate::text::{chars_of, exec_starts_with, starts_with, str_eq};

verus! {

// ---------------------------------------------------------------------------
// Call source
// ---------------------------------------------------------------------------

/// Whether a call came in over a trunk or from a registered extension.
#[derive(PartialEq, Eq, Structural, Debug, Clone, Copy)]
pub enum SourceKind {
    Trunk,
    Extension,
}

/// Where a call comes from: a trunk or an extension, by its id.
pub struct CallSource {
    pub kind: SourceKind,
    pub id: String,
}

/// Why the source of a call is refused.
#[derive(PartialEq, Eq, Structural, Debug, Clone, Copy)]
pub enum SourceReject {
    /// `403 Forbidden - Number Ownership Validation Failed`.
    NotNumberOwner,
    /// `403 Forbidden - DID Rejected`.
    DidRejected,
    /// `500 Internal Server Error - Invalid DID Target Type`.
    InvalidDidTarget,
    /// `403 Forbidden - Overlapping IP Rules`.
    OverlappingIpRules,
    /// `407 Proxy Authentication Required`.
    Challenge,
    /// `407 Proxy Authentication Required`, the failure counted against the peer.
    ChallengeAfterFailure,
}

/// The answer of a digest check.
#[derive(PartialEq, Eq, Structural, Debug, Clone, Copy)]
pub enum AuthDecision {
    Challenge,
    ChallengeWithFailure,
    Accepted,
}

/// How far the resolution of a call's source has come.
pub enum SourceState {
    /// Nothing known yet.
    Start,
    /// No egress trunk: the access trunks are looked up next.
    Access { username: Option<String> },
    /// An access trunk that also wants a digest.
    TrunkDigest { trunk: String },
    /// No trunk matched and authentication is on: whether the user is a
    /// registered trunk username is asked next.
    User { username: String },
    /// The user's digest is being checked.
    UserDigest { username: String, is_trunk: bool },
    /// Resolved (or refused): nothing more is asked.
    Done,
}

/// An answer the resolution was waiting for.
pub enum SourceEvent {
    /// The egress trunk the peer belongs to, whether it owns the called
    /// number, the called DID's target type, and the authenticated or From
    /// user name.
    Egress { trunk: Option<String>, owns_number: bool, did_target_type: Option<String>, username: Option<String> },
    /// The access trunk matching the peer (`Err` when several overlap), its
    /// authentication mode, whether authentication is on and whether it is
    /// bypassed.
    Access { trunk: Result<Option<String>, ()>, mode: String, auth_enabled: bool, bypass: bool },
    /// Whether the user name is a registered trunk username.
    UserKind { is_trunk: bool },
    /// The digest check, and the trunk a trunk username belongs to.
    Verified { decision: AuthDecision, trunk_for_user: Option<String> },
}

/// What the resolution does next.
pub enum SourceAction {
    AskAccessTrunk,
    VerifyDigest { as_trunk: bool },
    AskUserKind,
    /// The source is known: `from_gateway` when it is an egress trunk, with
    /// the DID's route for calls from a gateway.
    Resolved { source: CallSource, from_gateway: bool, did: Option<DidRoute> },
    Refuse { reject: SourceReject },
    /// The answer did not fit the state; nothing changes.
    Ignore,
}

pub open spec fn did_route_spec(t: Seq<char>) -> DidRoute {
    if t == "ivr"@ {
        DidRoute::Ivr
    } else if t == "extension_group"@ {
        DidRoute::ExtensionGroup
    } else {
        DidRoute::Extension
    }
}

pub open spec fn string_or(o: Option<String>, d: String) -> String {
    match o {
        Some(s) => s,
        None => d,
    }
}

/// One step of the resolution of a call's source.  An egress trunk must own
/// the called number (the `test-gateway` and `default` trunks excepted) and
/// its DID must not be `reject` or of an unknown type; otherwise the access
/// trunks are asked.  An access trunk is the source, after a digest when
/// its mode is `ip_and_digest` and authentication is on and not bypassed.
/// Without a trunk, a user is the source: with authentication off the
/// authenticated or From user (`default_user` when none), with it on after
/// a digest, as the trunk a registered trunk username belongs to or as the
/// extension of that name.
pub open spec fn source_step_spec(state: SourceState, event: SourceEvent, empty: String, default_user: String) -> (SourceState, SourceAction) {
    match (state, event) {
        (SourceState::Start, SourceEvent::Egress { trunk, owns_number, did_target_type, username }) => match trunk {
            Some(t) => if t@ != "test-gateway"@ && t@ != "default"@ && !owns_number {
                (SourceState::Done, SourceAction::Refuse { reject: SourceReject::NotNumberOwner })
            } else {
                match did_target_type {
                    Some(d) => if d@ == "reject"@ {
                        (SourceState::Done, SourceAction::Refuse { reject: SourceReject::DidRejected })
                    } else if d@ != "extension"@ && d@ != "extension_group"@ && d@ != "ivr"@ {
                        (SourceState::Done, SourceAction::Refuse { reject: SourceReject::InvalidDidTarget })
                    } else {
                        (SourceState::Done, SourceAction::Resolved {
                            source: CallSource { kind: SourceKind::Trunk, id: t },
                            from_gateway: true,
                            did: Some(did_route_spec(d@)),
                        })
                    },
                    None => (SourceState::Done, SourceAction::Resolved {
                        source: CallSource { kind: SourceKind::Trunk, id: t },
                        from_gateway: true,
                        did: None,
                    }),
                }
            },
            None => (SourceState::Access { username }, SourceAction::AskAccessTrunk),
        },
        (SourceState::Access { username }, SourceEvent::Access { trunk, mode, auth_enabled, bypass }) => match trunk {
            Err(_) => (SourceState::Done, SourceAction::Refuse { reject: SourceReject::OverlappingIpRules }),
            Ok(Some(t)) => if mode@ == "ip_allowlist"@ || !auth_enabled || bypass || mode@ != "ip_and_digest"@ {
                (SourceState::Done, SourceAction::Resolved {
                    source: CallSource { kind: SourceKind::Trunk, id: t },
                    from_gateway: false,
                    did: None,
                })
            } else {
                (SourceState::TrunkDigest { trunk: t }, SourceAction::VerifyDigest { as_trunk: true })
            },
            Ok(None) => if auth_enabled {
                (SourceState::User { username: string_or(username, empty) }, SourceAction::AskUserKind)
            } else {
                (SourceState::Done, SourceAction::Resolved {
                    source: CallSource { kind: SourceKind::Extension, id: string_or(username, default_user) },
                    from_gateway: false,
                    did: None,
                })
            },
        },
        (SourceState::TrunkDigest { trunk }, SourceEvent::Verified { decision, .. }) => match decision {
            AuthDecision::Challenge => (SourceState::Done, SourceAction::Refuse { reject: SourceReject::Challenge }),
            AuthDecision::ChallengeWithFailure => (SourceState::Done, SourceAction::Refuse {
                reject: SourceReject::ChallengeAfterFailure,
            }),
            AuthDecision::Accepted => (SourceState::Done, SourceAction::Resolved {
                source: CallSource { kind: SourceKind::Trunk, id: trunk },
                from_gateway: false,
                did: None,
            }),
        },
        (SourceState::User { username }, SourceEvent::UserKind { is_trunk }) => (
            SourceState::UserDigest { username, is_trunk },
            SourceAction::VerifyDigest { as_trunk: is_trunk },
        ),
        (SourceState::UserDigest { username, is_trunk }, SourceEvent::Verified { decision, trunk_for_user }) => match decision {
            AuthDecision::Challenge => (SourceState::Done, SourceAction::Refuse { reject: SourceReject::Challenge }),
            AuthDecision::ChallengeWithFailure => (SourceState::Done, SourceAction::Refuse {
                reject: SourceReject::ChallengeAfterFailure,
            }),
            AuthDecision::Accepted => (SourceState::Done, SourceAction::Resolved {
                source: if is_trunk {
                    CallSource { kind: SourceKind::Trunk, id: string_or(trunk_for_user, username) }
                } else {
                    CallSource { kind: SourceKind::Extension, id: username }
                },
                from_gateway: false,
                did: None,
            }),
        },
        (s, _) => (s, SourceAction::Ignore),
    }
}

fn did_route_of(t: &str) -> (r: DidRoute)
    ensures
        r == did_route_spec(t@),
{
    if str_eq(t, "ivr") {
        DidRoute::Ivr
    } else if str_eq(t, "extension_group") {
        DidRoute::ExtensionGroup
    } else {
        DidRoute::Extension
    }
}

fn take_or(o: Option<String>, d: String) -> (r: String)
    ensures
        r == string_or(o, d),
{
    match o {
        Some(s) => s,
        None => d,
    }
}

/// One step of the resolution of a call's source; the user name of an
/// unauthenticated extension defaults to `1001`.
pub fn source_step(state: SourceState, event: SourceEvent) -> (r: (SourceState, SourceAction))
    ensures
        exists|empty: String, default_user: String| empty@ == Seq::<char>::empty() && default_user@ == "1001"@
            && r == source_step_spec(state, event, empty, default_user),
{
    let ghost s0 = state;
    let ghost ev0 = event;
    let empty = String::new();
    let default_user = crate::text::string_from("1001");
    proof {
        reveal_strlit("1001");
    }
    let ghost e = empty;
    let ghost d = default_user;
    let r = match (state, event) {
        (SourceState::Start, SourceEvent::Egress { trunk, owns_number, did_target_type, username }) => match trunk {
            Some(t) => if !str_eq(t.as_str(), "test-gateway") && !str_eq(t.as_str(), "default") && !owns_number {
                (SourceState::Done, SourceAction::Refuse { reject: SourceReject::NotNumberOwner })
            } else {
                match did_target_type {
                    Some(dt) => if str_eq(dt.as_str(), "reject") {
                        (SourceState::Done, SourceAction::Refuse { reject: SourceReject::DidRejected })
                    } else if !str_eq(dt.as_str(), "extension") && !str_eq(dt.as_str(), "extension_group")
                        && !str_eq(dt.as_str(), "ivr") {
                        (SourceState::Done, SourceAction::Refuse { reject: SourceReject::InvalidDidTarget })
                    } else {
                        let route = did_route_of(dt.as_str());
                        (SourceState::Done, SourceAction::Resolved {
                            source: CallSource { kind: SourceKind::Trunk, id: t },
                            from_gateway: true,
                            did: Some(route),
                        })
                    },
                    None => (SourceState::Done, SourceAction::Resolved {
                        source: CallSource { kind: SourceKind::Trunk, id: t },
                        from_gateway: true,
                        did: None,
                    }),
                }
            },
            None => (SourceState::Access { username }, SourceAction::AskAccessTrunk),
        },
        (SourceState::Access { username }, SourceEvent::Access { trunk, mode, auth_enabled, bypass }) => match trunk {
            Err(_) => (SourceState::Done, SourceAction::Refuse { reject: SourceReject::OverlappingIpRules }),
            Ok(Some(t)) => if str_eq(mode.as_str(), "ip_allowlist") || !auth_enabled || bypass || !str_eq(
                mode.as_str(),
                "ip_and_digest",
            ) {
                (SourceState::Done, SourceAction::Resolved {
                    source: CallSource { kind: SourceKind::Trunk, id: t },
                    from_gateway: false,
                    did: None,
                })
            } else {
                (SourceState::TrunkDigest { trunk: t }, SourceAction::VerifyDigest { as_trunk: true })
            },
            Ok(None) => if auth_enabled {
                (SourceState::User { username: take_or(username, empty) }, SourceAction::AskUserKind)
            } else {
                (SourceState::Done, SourceAction::Resolved {
                    source: CallSource { kind: SourceKind::Extension, id: take_or(username, default_user) },
                    from_gateway: false,
                    did: None,
                })
            },
        },
        (SourceState::TrunkDigest { trunk }, SourceEvent::Verified { decision, .. }) => match decision {
            AuthDecision::Challenge => (SourceState::Done, SourceAction::Refuse { reject: SourceReject::Challenge }),
            AuthDecision::ChallengeWithFailure => (SourceState::Done, SourceAction::Refuse {
                reject: SourceReject::ChallengeAfterFailure,
            }),
            AuthDecision::Accepted => (SourceState::Done, SourceAction::Resolved {
                source: CallSource { kind: SourceKind::Trunk, id: trunk },
                from_gateway: false,
                did: None,
            }),
        },
        (SourceState::User { username }, SourceEvent::UserKind { is_trunk }) => (
            SourceState::UserDigest { username, is_trunk },
            SourceAction::VerifyDigest { as_trunk: is_trunk },
        ),
        (SourceState::UserDigest { username, is_trunk }, SourceEvent::Verified { decision, trunk_for_user }) => match decision {
            AuthDecision::Challenge => (SourceState::Done, SourceAction::Refuse { reject: SourceReject::Challenge }),
            AuthDecision::ChallengeWithFailure => (SourceState::Done, SourceAction::Refuse {
                reject: SourceReject::ChallengeAfterFailure,
            }),
            AuthDecision::Accepted => (SourceState::Done, SourceAction::Resolved {
                source: if is_trunk {
                    CallSource { kind: SourceKind::Trunk, id: take_or(trunk_for_user, username) }
                } else {
                    CallSource { kind: SourceKind::Extension, id: username }
                },
                from_gateway: false,
                did: None,
            }),
        },
        (s, _) => (s, SourceAction::Ignore),
    };
    assert(r == source_step_spec(s0, ev0, e, d));
    r
}

// ---------------------------------------------------------------------------
// The INVITE itself
// ---------------------------------------------------------------------------

/// Why the pre-call billing check refuses a call.
#[derive(PartialEq, Eq, Structural, Debug, Clone, Copy)]
pub enum BillingFailure {
    /// The balance cache could not be asked.
    Unavailable,
    NoAccount,
    NoRate,
    NoBalance,
}

/// How a new call is refused.
#[derive(PartialEq, Eq, Structural, Debug, Clone, Copy)]
pub enum InviteReject {
    /// `503 Service Unavailable`: the edge is draining.
    Draining,
    Fraud { block: FraudBlock },
    /// `486 Busy Here - Concurrency Limit Exceeded`.
    UserBusy,
    Source { reject: SourceReject },
    /// `403 Forbidden - Cross-Tenant Calling Disabled`.
    CrossTenant,
    /// `480 Temporarily Unavailable - DID Extension Offline`.
    DidExtensionOffline,
    /// `480 Temporarily Unavailable - Extension Group Offline`.
    GroupOffline,
    /// `500 Internal Server Error - Invalid Group Contact`.
    InvalidGroupContact,
    /// `403 Forbidden - Gateway Domain Mismatch`.
    GatewayDomainMismatch,
    /// Refused as a gateway that is unavailable, for billing.
    Billing { failure: BillingFailure },
    /// Refused as a gateway that is unavailable: no resource lease.
    NoLease,
}

/// How far the admission of a new INVITE has come, with what it has learnt.
#[derive(PartialEq, Eq, Structural, Debug, Clone, Copy)]
pub enum InviteStage {
    Arrived,
    Fraud,
    UserLoad,
    Source,
    Tenant,
    Destination,
    Routing,
    Domain,
    Balance,
    Lease,
    Done,
}

#[derive(PartialEq, Eq, Structural, Debug, Clone, Copy)]
pub struct InviteState {
    pub stage: InviteStage,
    /// The call came from an egress trunk.
    pub from_gateway: bool,
    /// The route of the called DID, for calls from a gateway.
    pub did: Option<DidRoute>,
}

/// How routing ended.
#[derive(PartialEq, Eq, Structural, Debug, Clone, Copy)]
pub enum RouteResult {
    GroupOffline,
    InvalidGroupContact,
    /// Routed; `has_plan` when an outbound INVITE is to be sent.
    Routed { has_plan: bool },
}

/// The answer to what the admission asked last.
pub enum InviteEvent {
    /// The INVITE: whether it has a Call-ID and credentials, whether one
    /// with its Call-ID came in the last 500 ms, whether the edge drains,
    /// and the user parts of its To header and of its request URI.
    Arrived { has_call_id: bool, has_auth: bool, seen_within_500ms: bool, draining: bool, to_user: String, uri_user: String },
    FraudChecked { block: Option<FraudBlock> },
    /// Calls in progress of the From user (none without one) and the limit.
    UserLoad { active: Option<usize>, limit: usize },
    SourceResolved { result: Result<(bool, Option<DidRoute>), SourceReject> },
    TenantChecked { refused: bool },
    /// Whether call control belongs to a webhook, and whether the called
    /// user is registered.
    Destination { webhook_control: bool, registered: bool },
    Routed { result: RouteResult },
    DomainChecked { mismatch: bool },
    /// The billing cache's answer when the check applies (enforcement on,
    /// a cache, an outbound INVITE and a billing account).
    BalanceChecked { applies: bool, check: Option<(bool, bool, bool)> },
    LeaseDone { acquired: bool },
}

/// What the admission does next.
pub enum InviteAction {
    /// A retransmission: nothing is sent.
    Ignore,
    Refuse { reject: InviteReject },
    JoinConference { conf_id: String },
    CheckFraud,
    CheckUserLoad,
    ResolveSource,
    CheckTenant,
    FindDestination,
    HandToWebhookControl,
    HandToIvr,
    RouteGroup,
    RouteStandard,
    /// Only the routing's own response is sent.
    SendRouteResponse,
    CheckGatewayDomain,
    CheckBalance,
    AcquireLease,
    /// The outbound INVITE is sent (forked or on one leg).
    Forward,
}

pub open spec fn is_conf_name(u: Seq<char>) -> bool {
    starts_with(u, "conf_"@) || starts_with(u, "room_"@)
}

pub open spec fn billing_failure_spec(check: Option<(bool, bool, bool)>) -> Option<BillingFailure> {
    match check {
        None => Some(BillingFailure::Unavailable),
        Some((account, rate, balance)) => if !account {
            Some(BillingFailure::NoAccount)
        } else if !rate {
            Some(BillingFailure::NoRate)
        } else if !balance {
            Some(BillingFailure::NoBalance)
        } else {
            None
        },
    }
}

pub open spec fn at(stage: InviteStage, s: InviteState) -> InviteState {
    InviteState { stage, from_gateway: s.from_gateway, did: s.did }
}

pub open spec fn refuse(s: InviteState, reject: InviteReject) -> (InviteState, InviteAction) {
    (at(InviteStage::Done, s), InviteAction::Refuse { reject })
}

/// One step of admitting a new INVITE, in the order the edge checks: a
/// retransmission within 500 ms without credentials is dropped; a draining
/// edge refuses; a conference callee (`conf_`/`room_`, in the To user first,
/// then in the URI) joins the room; then the anti-fraud rules, the user's
/// concurrency, the call source, tenant isolation, the destination (webhook
/// control, a DID extension that is offline, the IVR, an extension group or
/// standard routing), the gateway's tenant domain, the balance and the
/// resource lease, after which the INVITE goes out.
pub open spec fn invite_step_spec(state: InviteState, event: InviteEvent) -> (InviteState, InviteAction) {
    match (state.stage, event) {
        (InviteStage::Arrived, InviteEvent::Arrived { has_call_id, has_auth, seen_within_500ms, draining, to_user, uri_user }) => {
            if has_call_id && !has_auth && seen_within_500ms {
                (at(InviteStage::Done, state), InviteAction::Ignore)
            } else if draining {
                refuse(state, InviteReject::Draining)
            } else if is_conf_name(to_user@) {
                (at(InviteStage::Done, state), InviteAction::JoinConference { conf_id: to_user })
            } else if is_conf_name(uri_user@) {
                (at(InviteStage::Done, state), InviteAction::JoinConference { conf_id: uri_user })
            } else {
                (at(InviteStage::Fraud, state), InviteAction::CheckFraud)
            }
        },
        (InviteStage::Fraud, InviteEvent::FraudChecked { block }) => match block {
            Some(b) => refuse(state, InviteReject::Fraud { block: b }),
            None => (at(InviteStage::UserLoad, state), InviteAction::CheckUserLoad),
        },
        (InviteStage::UserLoad, InviteEvent::UserLoad { active, limit }) => match active {
            Some(a) if a >= limit => refuse(state, InviteReject::UserBusy),
            _ => (at(InviteStage::Source, state), InviteAction::ResolveSource),
        },
        (InviteStage::Source, InviteEvent::SourceResolved { result }) => match result {
            Err(e) => refuse(state, InviteReject::Source { reject: e }),
            Ok((from_gateway, did)) => (
                InviteState { stage: InviteStage::Tenant, from_gateway, did },
                InviteAction::CheckTenant,
            ),
        },
        (InviteStage::Tenant, InviteEvent::TenantChecked { refused }) => if refused {
            refuse(state, InviteReject::CrossTenant)
        } else {
            (at(InviteStage::Destination, state), InviteAction::FindDestination)
        },
        (InviteStage::Destination, InviteEvent::Destination { webhook_control, registered }) => {
            if webhook_control {
                (at(InviteStage::Done, state), InviteAction::HandToWebhookControl)
            } else if state.from_gateway && !registered && state.did == Some(DidRoute::Extension) {
                refuse(state, InviteReject::DidExtensionOffline)
            } else if state.did == Some(DidRoute::Ivr) {
                (at(InviteStage::Done, state), InviteAction::HandToIvr)
            } else if state.did == Some(DidRoute::ExtensionGroup) {
                (at(InviteStage::Routing, state), InviteAction::RouteGroup)
            } else {
                (at(InviteStage::Routing, state), InviteAction::RouteStandard)
            }
        },
        (InviteStage::Routing, InviteEvent::Routed { result }) => match result {
            RouteResult::GroupOffline => refuse(state, InviteReject::GroupOffline),
            RouteResult::InvalidGroupContact => refuse(state, InviteReject::InvalidGroupContact),
            RouteResult::Routed { has_plan } => if has_plan {
                (at(InviteStage::Domain, state), InviteAction::CheckGatewayDomain)
            } else {
                (at(InviteStage::Done, state), InviteAction::SendRouteResponse)
            },
        },
        (InviteStage::Domain, InviteEvent::DomainChecked { mismatch }) => if mismatch {
            refuse(state, InviteReject::GatewayDomainMismatch)
        } else {
            (at(InviteStage::Balance, state), InviteAction::CheckBalance)
        },
        (InviteStage::Balance, InviteEvent::BalanceChecked { applies, check }) => if applies && billing_failure_spec(
            check,
        ) is Some {
            refuse(state, InviteReject::Billing { failure: billing_failure_spec(check).unwrap() })
        } else {
            (at(InviteStage::Lease, state), InviteAction::AcquireLease)
        },
        (InviteStage::Lease, InviteEvent::LeaseDone { acquired }) => if acquired {
            (at(InviteStage::Done, state), InviteAction::Forward)
        } else {
            refuse(state, InviteReject::NoLease)
        },
        _ => (state, InviteAction::Ignore),
    }
}

/// A call to a DID whose route is an extension group, once call control is
/// not a webhook's, rings that group: the step asks for group routing,
/// whether the call came from a gateway and whether the called user is
/// registered.
pub proof fn lemma_extension_group_did_routes_to_group(s: InviteState, registered: bool)
    requires
        s.stage == InviteStage::Destination,
        s.did == Some(DidRoute::ExtensionGroup),
    ensures
        invite_step_spec(s, InviteEvent::Destination { webhook_control: false, registered }).1 is RouteGroup,
        invite_step_spec(s, InviteEvent::Destination { webhook_control: false, registered }).0 == (InviteState {
            stage: InviteStage::Routing,
            from_gateway: s.from_gateway,
            did: s.did,
        }),
{
}

/// Group routing is asked for only at the destination step, for a DID routed
/// to an extension group, without webhook control.
pub proof fn lemma_group_routing_only_for_extension_group(s: InviteState, e: InviteEvent)
    ensures
        invite_step_spec(s, e).1 is RouteGroup ==> {
            &&& s.stage == InviteStage::Destination
            &&& s.did == Some(DidRoute::ExtensionGroup)
            &&& e matches InviteEvent::Destination { webhook_control, .. } && !webhook_control
        },
{
}

/// The destination step without webhook control: a call from a gateway to
/// a DID routed to an extension that is not registered is refused; a DID
/// routed to the IVR is handed to it; every other call is routed as a
/// standard extension, except a DID routed to an extension group.  Webhook
/// control takes the call whatever its DID.
pub proof fn lemma_destination_outcomes(s: InviteState, webhook_control: bool, registered: bool)
    requires
        s.stage == InviteStage::Destination,
    ensures
        ({
            let r = invite_step_spec(s, InviteEvent::Destination { webhook_control, registered });
            &&& webhook_control ==> r.1 is HandToWebhookControl && r.0.stage == InviteStage::Done
            &&& !webhook_control && s.from_gateway && !registered && s.did == Some(DidRoute::Extension)
                ==> r.1 == InviteAction::Refuse { reject: InviteReject::DidExtensionOffline }
            &&& !webhook_control && s.did == Some(DidRoute::Ivr) ==> r.1 is HandToIvr && r.0.stage == InviteStage::Done
            &&& !webhook_control && s.did != Some(DidRoute::Ivr) && s.did != Some(DidRoute::ExtensionGroup)
                && !(s.from_gateway && !registered && s.did == Some(DidRoute::Extension))
                ==> r.1 is RouteStandard && r.0.stage == InviteStage::Routing
        }),
{
}

fn billing_failure(check: Option<(bool, bool, bool)>) -> (r: Option<BillingFailure>)
    ensures
        r == billing_failure_spec(check),
{
    match check {
        None => Some(BillingFailure::Unavailable),
        Some((account, rate, balance)) => if !account {
            Some(BillingFailure::NoAccount)
        } else if !rate {
            Some(BillingFailure::NoRate)
        } else if !balance {
            Some(BillingFailure::NoBalance)
        } else {
            None
        },
    }
}

fn conf_name(u: &str) -> (r: bool)
    ensures
        r == is_conf_name(u@),
{
    let v = chars_of(u);
    let conf = chars_of("conf_");
    let room = chars_of("room_");
    exec_starts_with(&v, &conf) || exec_starts_with(&v, &room)
}

/// The state an INVITE's admission starts in.
pub fn invite_start() -> (r: InviteState)
    ensures
        r == (InviteState { stage: InviteStage::Arrived, from_gateway: false, did: None }),
{
    InviteState { stage: InviteStage::Arrived, from_gateway: false, did: None }
}

/// One step of admitting a new INVITE.
pub fn invite_step(state: &InviteState, event: InviteEvent) -> (r: (InviteState, InviteAction))
    ensures
        r == invite_step_spec(*state, event),
{
    let s = *state;
    let done = InviteState { stage: InviteStage::Done, from_gateway: s.from_gateway, did: s.did };
    match (s.stage, event) {
        (InviteStage::Arrived, InviteEvent::Arrived { has_call_id, has_auth, seen_within_500ms, draining, to_user, uri_user }) => {
            if has_call_id && !has_auth && seen_within_500ms {
                (done, InviteAction::Ignore)
            } else if draining {
                (done, InviteAction::Refuse { reject: InviteReject::Draining })
            } else if conf_name(to_user.as_str()) {
                (done, InviteAction::JoinConference { conf_id: to_user })
            } else if conf_name(uri_user.as_str()) {
                (done, InviteAction::JoinConference { conf_id: uri_user })
            } else {
                (InviteState { stage: InviteStage::Fraud, ..s }, InviteAction::CheckFraud)
            }
        },
        (InviteStage::Fraud, InviteEvent::FraudChecked { block }) => match block {
            Some(b) => (done, InviteAction::Refuse { reject: InviteReject::Fraud { block: b } }),
            None => (InviteState { stage: InviteStage::UserLoad, ..s }, InviteAction::CheckUserLoad),
        },
        (InviteStage::UserLoad, InviteEvent::UserLoad { active, limit }) => match active {
            Some(a) if a >= limit => (done, InviteAction::Refuse { reject: InviteReject::UserBusy }),
            _ => (InviteState { stage: InviteStage::Source, ..s }, InviteAction::ResolveSource),
        },
        (InviteStage::Source, InviteEvent::SourceResolved { result }) => match result {
            Err(e) => (done, InviteAction::Refuse { reject: InviteReject::Source { reject: e } }),
            Ok((from_gateway, did)) => (
                InviteState { stage: InviteStage::Tenant, from_gateway, did },
                InviteAction::CheckTenant,
            ),
        },
        (InviteStage::Tenant, InviteEvent::TenantChecked { refused }) => if refused {
            (done, InviteAction::Refuse { reject: InviteReject::CrossTenant })
        } else {
            (InviteState { stage: InviteStage::Destination, ..s }, InviteAction::FindDestination)
        },
        (InviteStage::Destination, InviteEvent::Destination { webhook_control, registered }) => {
            if webhook_control {
                (done, InviteAction::HandToWebhookControl)
            } else if s.from_gateway && !registered && s.did == Some(DidRoute::Extension) {
                (done, InviteAction::Refuse { reject: InviteReject::DidExtensionOffline })
            } else if s.did == Some(DidRoute::Ivr) {
                (done, InviteAction::HandToIvr)
            } else if s.did == Some(DidRoute::ExtensionGroup) {
                (InviteState { stage: InviteStage::Routing, ..s }, InviteAction::RouteGroup)
            } else {
                (InviteState { stage: InviteStage::Routing, ..s }, InviteAction::RouteStandard)
            }
        },
        (InviteStage::Routing, InviteEvent::Routed { result }) => match result {
            RouteResult::GroupOffline => (done, InviteAction::Refuse { reject: InviteReject::GroupOffline }),
            RouteResult::InvalidGroupContact => (done, InviteAction::Refuse {
                reject: InviteReject::InvalidGroupContact,
            }),
            RouteResult::Routed { has_plan } => if has_plan {
                (InviteState { stage: InviteStage::Domain, ..s }, InviteAction::CheckGatewayDomain)
            } else {
                (done, InviteAction::SendRouteResponse)
            },
        },
        (InviteStage::Domain, InviteEvent::DomainChecked { mismatch }) => if mismatch {
            (done, InviteAction::Refuse { reject: InviteReject::GatewayDomainMismatch })
        } else {
            (InviteState { stage: InviteStage::Balance, ..s }, InviteAction::CheckBalance)
        },
        (InviteStage::Balance, InviteEvent::BalanceChecked { applies, check }) => {
            let failure = billing_failure(check);
            match failure {
                Some(f) if applies => (done, InviteAction::Refuse { reject: InviteReject::Billing { failure: f } }),
                _ => (InviteState { stage: InviteStage::Lease, ..s }, InviteAction::AcquireLease),
            }
        },
        (InviteStage::Lease, InviteEvent::LeaseDone { acquired }) => if acquired {
            (done, InviteAction::Forward)
        } else {
            (done, InviteAction::Refuse { reject: InviteReject::NoLease })
        },
        (_, _) => (s, InviteAction::Ignore),
    }
}

} // verus!
