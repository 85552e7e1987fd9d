//! INVITE admission decisions: the user part of the To/From URI, the
//! transport of the request, the anti-fraud rules and the tenant check of
//! the outbound gateway.
use vstd::prelude::*;
use crate::outbound::{parse_u32, parse_u32_spec};
use crate::outbound::{opt_view, target_addr_for, target_addr_spec};
use crate::sip::{header_lookup, SipRequest, SipUri};
use crate::text::{
    before_char, chars_of, contains_seq, exec_find_char, exec_find_seq, exec_starts_with,
    exec_trim_range, find_char, find_seq, has_char, starts_with, str_eq, string_from,
    string_range, to_lowercase, trim_ws, unicode_lower, upper_seq,
};

verus! {

/// The user part of the first `sip:` URI in a header value: the text
/// between `sip:` and the next `@`.
pub open spec fn sip_user_spec(s: Seq<char>) -> Option<Seq<char>> {
    let i = find_seq(s, "sip:"@, 0);
    if i < 0 {
        None
    } else {
        let j = find_char(s, '@', i + 4, s.len() as int);
        if j < 0 {
            None
        } else {
            Some(s.subrange(i + 4, j))
        }
    }
}

pub fn sip_user(header: &str) -> (r: Option<String>)
    ensures
        match r {
            Some(u) => sip_user_spec(header@) == Some(u@),
            None => sip_user_spec(header@) is None,
        },
{
    let v = chars_of(header);
    let p = chars_of("sip:");
    proof {
        reveal_strlit("sip:");
        crate::text::lemma_find_seq_range(v@, p@, 0);
    }
    assert(p@.len() == 4);
    let found = exec_find_seq(&v, &p, 0);
    if found.is_none() {
        return None;
    }
    let i = found.unwrap();
    assert(crate::text::occurs_at(v@, p@, i as int));
    let n = v.len();
    assert(i + 4 <= n);
    let start = i + 4;
    match exec_find_char(&v, '@', start, n) {
        None => None,
        Some(j) => {
            proof {
                crate::text::lemma_find_char_range(v@, '@', start as int, v@.len() as int);
            }
            Some(string_range(&v, start, j))
        },
    }
}

/// The callee of an INVITE: the user part of its To URI, empty when there
/// is none.
pub fn extract_callee_from_to_header(request: &SipRequest) -> (r: String)
    ensures
        r@ == match header_lookup(request.headers@, "to"@) {
            Some(to) => match sip_user_spec(to) {
                Some(u) => u,
                None => Seq::empty(),
            },
            None => Seq::empty(),
        },
{
    match request.headers.get("to") {
        Some(to) => match sip_user(to.as_str()) {
            Some(u) => u,
            None => String::new(),
        },
        None => String::new(),
    }
}

/// `tcp` when the Via header mentions TCP (ASCII case ignored), else `udp`.
pub fn request_transport(request: &SipRequest) -> (r: &'static str)
    ensures
        r@ == (if header_lookup(request.headers@, "via"@) matches Some(via) && contains_seq(
            upper_seq(via),
            "TCP"@,
        ) {
            "tcp"@
        } else {
            "udp"@
        }),
{
    match request.headers.get("via") {
        Some(via) => {
            let v = chars_of(via.as_str());
            let mut u: Vec<char> = Vec::new();
            let mut i: usize = 0;
            while i < v.len()
                invariant
                    0 <= i <= v@.len(),
                    u@ == upper_seq(v@.take(i as int)),
                decreases v@.len() - i,
            {
                u.push(crate::text::char_upper(v[i]));
                i = i + 1;
                assert(u@ =~= upper_seq(v@.take(i as int)));
            }
            assert(v@.take(v@.len() as int) =~= v@);
            let p = chars_of("TCP");
            if exec_find_seq(&u, &p, 0).is_some() {
                "tcp"
            } else {
                "udp"
            }
        },
        None => "udp",
    }
}

// ---------------------------------------------------------------------------
// Anti-fraud rules
// ---------------------------------------------------------------------------

/// A configured anti-fraud rule.
pub struct AntiFraudRule {
    pub enabled: bool,
    /// `blacklist`, `caller_blacklist`, `callee_blacklist`, or a
    /// concurrency limit: `ip_concurrency`, `user_concurrency`,
    /// `limit_concurrent`.
    pub rule_type: String,
    /// Number prefix, client IP or user name the rule applies to.
    pub target_value: String,
    pub limit_number: Option<i64>,
}

/// Why a call was refused.
#[derive(PartialEq, Eq, Structural, Debug, Clone, Copy)]
pub enum FraudBlock {
    Blacklisted,
    IpConcurrencyExceeded,
    UserConcurrencyExceeded,
}

impl FraudBlock {
    /// Status code of the refusal.
    pub fn status(&self) -> (r: u16)
        ensures
            r == (if *self is Blacklisted {
                403u16
            } else {
                503u16
            }),
    {
        match self {
            FraudBlock::Blacklisted => 403,
            _ => 503,
        }
    }

    /// Reason phrase of the refusal.
    pub fn reason(&self) -> (r: &'static str)
        ensures
            r@ == match *self {
                FraudBlock::Blacklisted => "Forbidden - Anti-Fraud Blacklist Match"@,
                FraudBlock::IpConcurrencyExceeded => "Service Unavailable - IP Concurrency Limit Exceeded"@,
                FraudBlock::UserConcurrencyExceeded => "Service Unavailable - User Concurrency Limit Exceeded"@,
            },
    {
        match self {
            FraudBlock::Blacklisted => "Forbidden - Anti-Fraud Blacklist Match",
            FraudBlock::IpConcurrencyExceeded => "Service Unavailable - IP Concurrency Limit Exceeded",
            FraudBlock::UserConcurrencyExceeded => "Service Unavailable - User Concurrency Limit Exceeded",
        }
    }

    /// The `X-VOS-RS-Error` text of the refusal.
    pub fn error_text(&self) -> (r: &'static str)
        ensures
            r@ == match *self {
                FraudBlock::Blacklisted => "Callee number is blacklisted"@,
                FraudBlock::IpConcurrencyExceeded => "IP concurrent call limit exceeded"@,
                FraudBlock::UserConcurrencyExceeded => "User concurrent call limit exceeded"@,
            },
    {
        match self {
            FraudBlock::Blacklisted => "Callee number is blacklisted",
            FraudBlock::IpConcurrencyExceeded => "IP concurrent call limit exceeded",
            FraudBlock::UserConcurrencyExceeded => "User concurrent call limit exceeded",
        }
    }
}

pub open spec fn is_blacklist_rule(t: Seq<char>) -> bool {
    t == "callee_blacklist"@ || t == "caller_blacklist"@ || t == "blacklist"@
}

pub open spec fn is_concurrency_rule(t: Seq<char>) -> bool {
    t == "user_concurrency"@ || t == "limit_concurrent"@ || t == "ip_concurrency"@
}

/// The limit of a concurrency rule: its number cut to 32 bits, 0 if unset.
pub open spec fn rule_limit(rule: AntiFraudRule) -> u32 {
    match rule.limit_number {
        Some(n) => n as u32,
        None => 0,
    }
}

/// Whether one rule refuses the call.  A blacklist rule refuses callee or
/// caller numbers starting with its non-empty target; a concurrency rule
/// whose target is the client IP refuses once the calls from that IP reach
/// the limit, one whose target is the (non-empty) caller once that user's
/// calls do.
pub open spec fn rule_block(
    rule: AntiFraudRule,
    caller: Seq<char>,
    callee: Seq<char>,
    client_ip: Seq<char>,
    ip_calls: u32,
    user_calls: u32,
) -> Option<FraudBlock> {
    let t = rule.target_value@;
    if !rule.enabled {
        None
    } else if is_blacklist_rule(rule.rule_type@) {
        if t.len() > 0 && (starts_with(callee, t) || starts_with(caller, t)) {
            Some(FraudBlock::Blacklisted)
        } else {
            None
        }
    } else if is_concurrency_rule(rule.rule_type@) {
        if t == client_ip {
            if ip_calls >= rule_limit(rule) {
                Some(FraudBlock::IpConcurrencyExceeded)
            } else {
                None
            }
        } else if t == caller && caller.len() > 0 {
            if user_calls >= rule_limit(rule) {
                Some(FraudBlock::UserConcurrencyExceeded)
            } else {
                None
            }
        } else {
            None
        }
    } else {
        None
    }
}

/// The first refusal among the rules from index `i` on.
pub open spec fn fraud_scan(
    rules: Seq<AntiFraudRule>,
    i: int,
    caller: Seq<char>,
    callee: Seq<char>,
    client_ip: Seq<char>,
    ip_calls: u32,
    user_calls: u32,
) -> Option<FraudBlock>
    decreases rules.len() - i,
{
    if i < 0 || i >= rules.len() {
        None
    } else {
        match rule_block(rules[i], caller, callee, client_ip, ip_calls, user_calls) {
            Some(b) => Some(b),
            None => fraud_scan(rules, i + 1, caller, callee, client_ip, ip_calls, user_calls),
        }
    }
}

fn exec_rule_block(
    rule: &AntiFraudRule,
    caller: &str,
    callee: &str,
    client_ip: &str,
    ip_calls: u32,
    user_calls: u32,
) -> (r: Option<FraudBlock>)
    ensures
        r == rule_block(*rule, caller@, callee@, client_ip@, ip_calls, user_calls),
{
    if !rule.enabled {
        return None;
    }
    let t = rule.rule_type.as_str();
    let target = rule.target_value.as_str();
    if str_eq(t, "callee_blacklist") || str_eq(t, "caller_blacklist") || str_eq(t, "blacklist") {
        let tv = chars_of(target);
        let ce = chars_of(callee);
        let cr = chars_of(caller);
        if tv.len() > 0 && (exec_starts_with(&ce, &tv) || exec_starts_with(&cr, &tv)) {
            Some(FraudBlock::Blacklisted)
        } else {
            None
        }
    } else if str_eq(t, "user_concurrency") || str_eq(t, "limit_concurrent") || str_eq(
        t,
        "ip_concurrency",
    ) {
        let limit: u32 = match rule.limit_number {
            Some(n) => n as u32,
            None => 0,
        };
        if str_eq(target, client_ip) {
            if ip_calls >= limit {
                Some(FraudBlock::IpConcurrencyExceeded)
            } else {
                None
            }
        } else if str_eq(target, caller) && !caller.is_empty() {
            if user_calls >= limit {
                Some(FraudBlock::UserConcurrencyExceeded)
            } else {
                None
            }
        } else {
            None
        }
    } else {
        None
    }
}

/// Checks the anti-fraud rules in order; the first that refuses the call
/// decides.  `ip_calls` counts the calls in progress from `client_ip`,
/// `user_calls` those of `caller`.
pub fn check_anti_fraud_rules(
    rules: &Vec<AntiFraudRule>,
    caller: &str,
    callee: &str,
    client_ip: &str,
    ip_calls: u32,
    user_calls: u32,
) -> (r: Option<FraudBlock>)
    ensures
        r == fraud_scan(rules@, 0, caller@, callee@, client_ip@, ip_calls, user_calls),
{
    let mut i: usize = 0;
    while i < rules.len()
        invariant
            0 <= i <= rules@.len(),
            fraud_scan(rules@, 0, caller@, callee@, client_ip@, ip_calls, user_calls) == fraud_scan(
                rules@,
                i as int,
                caller@,
                callee@,
                client_ip@,
                ip_calls,
                user_calls,
            ),
        decreases rules@.len() - i,
    {
        match exec_rule_block(&rules[i], caller, callee, client_ip, ip_calls, user_calls) {
            Some(b) => {
                return Some(b);
            },
            None => {},
        }
        i = i + 1;
    }
    None
}

// ---------------------------------------------------------------------------
// Gateway tenant check
// ---------------------------------------------------------------------------

/// Whether an outbound gateway is refused for the caller's tenant: without
/// a registered contact to call, a gateway id that is a domain (has a `.`)
/// must contain the caller's domain.
pub open spec fn domain_mismatch_spec(has_registered_contact: bool, gateway_id: Seq<char>, caller_domain: Option<Seq<char>>) -> bool {
    !has_registered_contact && gateway_id.len() > 0 && match caller_domain {
        Some(d) => has_char(gateway_id, '.') && !contains_seq(gateway_id, d),
        None => false,
    }
}

pub fn gateway_domain_mismatch(has_registered_contact: bool, gateway_id: &str, caller_domain: Option<&str>) -> (r: bool)
    ensures
        r == domain_mismatch_spec(
            has_registered_contact,
            gateway_id@,
            match caller_domain {
                Some(d) => Some(d@),
                None => None,
            },
        ),
{
    if has_registered_contact || gateway_id.is_empty() {
        return false;
    }
    match caller_domain {
        Some(d) => {
            let g = chars_of(gateway_id);
            let dv = chars_of(d);
            let dot = exec_find_char(&g, '.', 0, g.len()).is_some();
            proof {
                crate::text::lemma_find_char_range(g@, '.', 0, g@.len() as int);
            }
            dot && exec_find_seq(&g, &dv, 0).is_none()
        },
        None => false,
    }
}

/// Disabled rules never refuse a call.
pub proof fn lemma_disabled_rules_never_block(
    rules: Seq<AntiFraudRule>,
    i: int,
    caller: Seq<char>,
    callee: Seq<char>,
    client_ip: Seq<char>,
    ip_calls: u32,
    user_calls: u32,
)
    requires
        forall|j: int| 0 <= j < rules.len() ==> !(#[trigger] rules[j]).enabled,
    ensures
        fraud_scan(rules, i, caller, callee, client_ip, ip_calls, user_calls) is None,
    decreases rules.len() - i,
{
    if 0 <= i < rules.len() {
        lemma_disabled_rules_never_block(rules, i + 1, caller, callee, client_ip, ip_calls, user_calls);
    }
}

// ---------------------------------------------------------------------------
// DID routing and the balance check
// ---------------------------------------------------------------------------

/// Where a DID sends a call.
#[derive(PartialEq, Eq, Structural, Debug, Clone, Copy)]
pub enum DidRoute {
    /// Handled by the edge's IVR.
    Ivr,
    /// Rung on the members of an extension group.
    ExtensionGroup,
    /// Sent to one extension.
    Extension,
}

pub fn did_route(target_type: &str) -> (r: DidRoute)
    ensures
        r == (if target_type@ == "ivr"@ {
            DidRoute::Ivr
        } else if target_type@ == "extension_group"@ {
            DidRoute::ExtensionGroup
        } else {
            DidRoute::Extension
        }),
{
    if str_eq(target_type, "ivr") {
        DidRoute::Ivr
    } else if str_eq(target_type, "extension_group") {
        DidRoute::ExtensionGroup
    } else {
        DidRoute::Extension
    }
}

/// Whether a call from a gateway to a DID that names an extension is
/// refused because the extension is not registered (`480 Temporarily
/// Unavailable - DID Extension Offline`).
pub fn did_extension_offline(from_gateway: bool, has_registered_contact: bool, did_target_type: Option<&str>) -> (r: bool)
    ensures
        r == (from_gateway && !has_registered_contact && match did_target_type {
            Some(t) => t@ == "extension"@,
            None => false,
        }),
{
    if !from_gateway || has_registered_contact {
        return false;
    }
    match did_target_type {
        Some(t) => str_eq(t, "extension"),
        None => false,
    }
}

/// What the billing cache knows of a call before it is placed.
pub struct BalanceFlags {
    pub account_found: bool,
    pub rate_found: bool,
    pub has_balance: bool,
}

/// Why the pre-call balance check refuses a call, by the cache's answer
/// (none when the cache could not be asked): no account, no rate for the
/// callee, no balance, or the cache unavailable; nothing when the call may
/// go ahead.
pub fn balance_rejection(check: Option<&BalanceFlags>) -> (r: Option<&'static str>)
    ensures
        match check {
            None => r matches Some(m) && m@ == "计费服务暂不可用"@,
            Some(f) => if !f.account_found {
                r matches Some(m) && m@ == "计费账户未配置"@
            } else if !f.rate_found {
                r matches Some(m) && m@ == "被叫号码未配置费率"@
            } else if !f.has_balance {
                r matches Some(m) && m@ == "余额不足"@
            } else {
                r is None
            },
        },
{
    match check {
        None => Some("计费服务暂不可用"),
        Some(f) => if !f.account_found {
            Some("计费账户未配置")
        } else if !f.rate_found {
            Some("被叫号码未配置费率")
        } else if !f.has_balance {
            Some("余额不足")
        } else {
            None
        },
    }
}

/// A test override of the maximum call duration: the `X-Test-Max-Duration`
/// header read as a number after trimming.
pub fn test_max_duration(request: &SipRequest) -> (r: Option<u32>)
    ensures
        r == match header_lookup(request.headers@, "x-test-max-duration"@) {
            Some(v) => parse_u32_spec(trim_ws(v)),
            None => None,
        },
{
    match request.headers.get("x-test-max-duration") {
        Some(v) => {
            let cs = chars_of(v.as_str());
            let (a, b) = crate::text::exec_trim_range(&cs, 0, cs.len());
            assert(cs@.subrange(0, cs@.len() as int) =~= cs@);
            let t = string_range(&cs, a, b);
            parse_u32(t.as_str())
        },
        None => None,
    }
}

// ---------------------------------------------------------------------------
// Tenant isolation, forking and the single-leg target
// ---------------------------------------------------------------------------

/// Whether a call crosses tenants and is refused (`403 Forbidden -
/// Cross-Tenant Calling Disabled`): the caller has a domain, it differs from
/// the callee's host (both compared without a port), and the callee is a
/// registered user of the edge.
pub open spec fn cross_tenant_spec(caller_domain: Option<Seq<char>>, callee_host: Seq<char>, callee_registered: bool) -> bool {
    match caller_domain {
        None => false,
        Some(d) => before_char(d, ':') != before_char(callee_host, ':') && callee_registered,
    }
}

fn exec_before_colon(s: &str) -> (r: String)
    ensures
        r@ == before_char(s@, ':'),
{
    let v = chars_of(s);
    match exec_find_char(&v, ':', 0, v.len()) {
        Some(i) => {
            proof {
                crate::text::lemma_find_char_range(v@, ':', 0, v@.len() as int);
            }
            let r = string_range(&v, 0, i);
            assert(r@ =~= before_char(s@, ':'));
            r
        },
        None => string_range(&v, 0, v.len()),
    }
}

pub fn cross_tenant_refused(caller_domain: Option<&str>, callee_host: &str, callee_registered: bool) -> (r: bool)
    ensures
        r == cross_tenant_spec(opt_view(caller_domain), callee_host@, callee_registered),
{
    match caller_domain {
        None => false,
        Some(d) => {
            let a = exec_before_colon(d);
            let b = exec_before_colon(callee_host);
            !str_eq(a.as_str(), b.as_str()) && callee_registered
        },
    }
}

/// A forking header's value as it is compared: trimmed, then lowercased.
pub open spec fn flag_text_spec(h: Seq<(Seq<char>, Seq<char>)>, name: Seq<char>) -> Option<Seq<char>> {
    match header_lookup(h, name) {
        Some(v) => Some(unicode_lower(trim_ws(v))),
        None => None,
    }
}

fn flag_text(request: &SipRequest, name: &str) -> (r: Option<String>)
    ensures
        match r {
            Some(t) => flag_text_spec(request.headers@, name@) == Some(t@),
            None => flag_text_spec(request.headers@, name@) is None,
        },
{
    match request.headers.get(name) {
        Some(v) => {
            let cs = chars_of(v.as_str());
            let (a, b) = exec_trim_range(&cs, 0, cs.len());
            assert(cs@.subrange(0, cs@.len() as int) =~= cs@);
            let t = string_range(&cs, a, b);
            Some(to_lowercase(t.as_str()))
        },
        None => None,
    }
}

pub open spec fn is_true_flag(t: Option<Seq<char>>) -> bool {
    t == Some("true"@)
}

/// Forking is asked for by `X-Forking-Enabled: true` or `X-Call-Forking:
/// true` (values given trimmed and lowercased), or by a DID that targets an
/// extension group.
pub open spec fn forking_requested_spec(
    forking_enabled: Option<Seq<char>>,
    call_forking: Option<Seq<char>>,
    did_target_type: Option<Seq<char>>,
) -> bool {
    is_true_flag(forking_enabled) || is_true_flag(call_forking) || did_target_type == Some("extension_group"@)
}

fn flag_is_true(t: Option<&str>) -> (r: bool)
    ensures
        r == is_true_flag(opt_view(t)),
{
    match t {
        Some(v) => str_eq(v, "true"),
        None => false,
    }
}

/// Whether the INVITE goes out to several candidates at once (the first
/// three): forking is asked for, there is more than one candidate, and the
/// call holds no managed resources, which need a single leg.
pub fn forks_by_flags(
    forking_enabled: Option<&str>,
    call_forking: Option<&str>,
    did_target_type: Option<&str>,
    candidate_count: usize,
    managed_resources: bool,
) -> (r: bool)
    ensures
        r == (forking_requested_spec(opt_view(forking_enabled), opt_view(call_forking), opt_view(did_target_type))
            && candidate_count > 1 && !managed_resources),
{
    let requested = flag_is_true(forking_enabled) || flag_is_true(call_forking) || match did_target_type {
        Some(t) => str_eq(t, "extension_group"),
        None => false,
    };
    requested && candidate_count > 1 && !managed_resources
}

fn string_opt_as_str(o: &Option<String>) -> (r: Option<&str>)
    ensures
        opt_view(r) == match o {
            Some(s) => Some(s@),
            None => None::<Seq<char>>,
        },
{
    match o {
        Some(s) => Some(s.as_str()),
        None => None,
    }
}

/// `forks_by_flags` on the request's `X-Forking-Enabled` and
/// `X-Call-Forking` headers.
pub fn uses_forking(
    request: &SipRequest,
    did_target_type: Option<&str>,
    candidate_count: usize,
    managed_resources: bool,
) -> (r: bool)
    ensures
        r == (forking_requested_spec(
            flag_text_spec(request.headers@, "x-forking-enabled"@),
            flag_text_spec(request.headers@, "x-call-forking"@),
            opt_view(did_target_type),
        ) && candidate_count > 1 && !managed_resources),
{
    let a = flag_text(request, "x-forking-enabled");
    let b = flag_text(request, "x-call-forking");
    forks_by_flags(string_opt_as_str(&a), string_opt_as_str(&b), did_target_type, candidate_count, managed_resources)
}

/// Where a single-leg INVITE is sent: the address a registered contact
/// registered from, else the plan's override address, else the outbound
/// URI's host and port (5060 by default).
pub fn single_leg_target(
    contact_received_from: Option<&str>,
    override_addr: Option<&str>,
    outbound_uri: &SipUri,
) -> (r: String)
    ensures
        r@ == match contact_received_from {
            Some(c) => c@,
            None => match override_addr {
                Some(o) => o@,
                None => target_addr_spec(outbound_uri.host@, outbound_uri.port),
            },
        },
{
    match contact_received_from {
        Some(c) => string_from(c),
        None => match override_addr {
            Some(o) => string_from(o),
            None => target_addr_for(outbound_uri),
        },
    }
}

} // verus!
