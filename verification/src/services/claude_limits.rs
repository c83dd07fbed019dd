//! Rate-limit state read from the API's response headers.

use vstd::prelude::*;
use crate::text::{clone_opt, concat, opt_view, parse_u64, parse_u64_spec, starts_with_seq, str_eq};

verus! {

/// Whether requests are currently allowed.
#[derive(Clone, Copy, Debug, PartialEq, Eq, Structural)]
pub enum QuotaStatus {
    Allowed,
    AllowedWarning,
    Rejected,
}

/// Which limit a status refers to.
pub enum RateLimitType {
    FiveHour,
    SevenDay,
    SevenDayOpus,
    SevenDaySonnet,
    Overage,
    Unknown(String),
}

/// Mathematical value of a limit kind.
pub enum RateLimitTypeView {
    FiveHour,
    SevenDay,
    SevenDayOpus,
    SevenDaySonnet,
    Overage,
    Unknown(Seq<char>),
}

impl View for RateLimitType {
    type V = RateLimitTypeView;

    open spec fn view(&self) -> RateLimitTypeView {
        match self {
            RateLimitType::FiveHour => RateLimitTypeView::FiveHour,
            RateLimitType::SevenDay => RateLimitTypeView::SevenDay,
            RateLimitType::SevenDayOpus => RateLimitTypeView::SevenDayOpus,
            RateLimitType::SevenDaySonnet => RateLimitTypeView::SevenDaySonnet,
            RateLimitType::Overage => RateLimitTypeView::Overage,
            RateLimitType::Unknown(s) => RateLimitTypeView::Unknown(s@),
        }
    }
}

/// The limit kind a header value names.
pub open spec fn rate_limit_type_of(s: Seq<char>) -> RateLimitTypeView {
    if s == "five_hour"@ {
        RateLimitTypeView::FiveHour
    } else if s == "seven_day"@ {
        RateLimitTypeView::SevenDay
    } else if s == "seven_day_opus"@ {
        RateLimitTypeView::SevenDayOpus
    } else if s == "seven_day_sonnet"@ {
        RateLimitTypeView::SevenDaySonnet
    } else if s == "overage"@ {
        RateLimitTypeView::Overage
    } else {
        RateLimitTypeView::Unknown(s)
    }
}

impl RateLimitType {
    /// The limit kind named by `s`; unknown names are kept as they are.
    pub fn from_name(s: &str) -> (r: RateLimitType)
        ensures
            r@ == rate_limit_type_of(s@),
    {
        if str_eq(s, "five_hour") {
            RateLimitType::FiveHour
        } else if str_eq(s, "seven_day") {
            RateLimitType::SevenDay
        } else if str_eq(s, "seven_day_opus") {
            RateLimitType::SevenDayOpus
        } else if str_eq(s, "seven_day_sonnet") {
            RateLimitType::SevenDaySonnet
        } else if str_eq(s, "overage") {
            RateLimitType::Overage
        } else {
            RateLimitType::Unknown(String::from_str(s))
        }
    }
}

/// Why overage use is switched off.
pub enum OverageDisabledReason {
    OverageNotProvisioned,
    OrgLevelDisabled,
    OutOfCredits,
    MemberLevelDisabled,
    NoLimitsConfigured,
    Unknown(String),
}

/// Mathematical value of an overage-disabled reason.
pub enum OverageDisabledReasonView {
    OverageNotProvisioned,
    OrgLevelDisabled,
    OutOfCredits,
    MemberLevelDisabled,
    NoLimitsConfigured,
    Unknown(Seq<char>),
}

impl View for OverageDisabledReason {
    type V = OverageDisabledReasonView;

    open spec fn view(&self) -> OverageDisabledReasonView {
        match self {
            OverageDisabledReason::OverageNotProvisioned => OverageDisabledReasonView::OverageNotProvisioned,
            OverageDisabledReason::OrgLevelDisabled => OverageDisabledReasonView::OrgLevelDisabled,
            OverageDisabledReason::OutOfCredits => OverageDisabledReasonView::OutOfCredits,
            OverageDisabledReason::MemberLevelDisabled => OverageDisabledReasonView::MemberLevelDisabled,
            OverageDisabledReason::NoLimitsConfigured => OverageDisabledReasonView::NoLimitsConfigured,
            OverageDisabledReason::Unknown(s) => OverageDisabledReasonView::Unknown(s@),
        }
    }
}

/// The reason a header value names.
pub open spec fn overage_reason_of(s: Seq<char>) -> OverageDisabledReasonView {
    if s == "overage_not_provisioned"@ {
        OverageDisabledReasonView::OverageNotProvisioned
    } else if s == "org_level_disabled"@ {
        OverageDisabledReasonView::OrgLevelDisabled
    } else if s == "out_of_credits"@ {
        OverageDisabledReasonView::OutOfCredits
    } else if s == "member_level_disabled"@ {
        OverageDisabledReasonView::MemberLevelDisabled
    } else if s == "no_limits_configured"@ {
        OverageDisabledReasonView::NoLimitsConfigured
    } else {
        OverageDisabledReasonView::Unknown(s)
    }
}

impl OverageDisabledReason {
    /// The reason named by `s`; unknown names are kept as they are.
    pub fn from_name(s: &str) -> (r: OverageDisabledReason)
        ensures
            r@ == overage_reason_of(s@),
    {
        if str_eq(s, "overage_not_provisioned") {
            OverageDisabledReason::OverageNotProvisioned
        } else if str_eq(s, "org_level_disabled") {
            OverageDisabledReason::OrgLevelDisabled
        } else if str_eq(s, "out_of_credits") {
            OverageDisabledReason::OutOfCredits
        } else if str_eq(s, "member_level_disabled") {
            OverageDisabledReason::MemberLevelDisabled
        } else if str_eq(s, "no_limits_configured") {
            OverageDisabledReason::NoLimitsConfigured
        } else {
            OverageDisabledReason::Unknown(String::from_str(s))
        }
    }
}

/// The status a header value names; anything unrecognised means allowed.
pub open spec fn quota_status_of(s: Seq<char>) -> QuotaStatus {
    if s == "rejected"@ {
        QuotaStatus::Rejected
    } else if s == "allowed_warning"@ {
        QuotaStatus::AllowedWarning
    } else {
        QuotaStatus::Allowed
    }
}

/// The status named by `s`.
pub fn quota_status_from_name(s: &str) -> (r: QuotaStatus)
    ensures
        r == quota_status_of(s@),
{
    if str_eq(s, "rejected") {
        QuotaStatus::Rejected
    } else if str_eq(s, "allowed_warning") {
        QuotaStatus::AllowedWarning
    } else {
        QuotaStatus::Allowed
    }
}

/// Response headers in arrival order: each name (lower case) with its value
/// as text, or `None` where the value is not visible ASCII.
pub struct ResponseHeaders {
    pub entries: Vec<(String, Option<String>)>,
}

/// Mathematical value of a header list.
pub open spec fn header_views(v: Seq<(String, Option<String>)>) -> Seq<(Seq<char>, Option<Seq<char>>)> {
    v.map_values(|e: (String, Option<String>)| (e.0@, opt_view(e.1)))
}

/// The value of the first header called `name`: `None` when there is none,
/// `Some(None)` when its value is not text.
pub open spec fn header_lookup(h: Seq<(Seq<char>, Option<Seq<char>>)>, name: Seq<char>) -> Option<Option<Seq<char>>>
    decreases h.len(),
{
    if h.len() == 0 {
        None
    } else if h[0].0 == name {
        Some(h[0].1)
    } else {
        header_lookup(h.drop_first(), name)
    }
}

impl ResponseHeaders {
    pub open spec fn view_entries(&self) -> Seq<(Seq<char>, Option<Seq<char>>)> {
        header_views(self.entries@)
    }

    /// The value of the first header called `name`.
    pub fn get(&self, name: &str) -> (r: Option<Option<String>>)
        ensures
            match r {
                Some(v) => header_lookup(self.view_entries(), name@) == Some(opt_view(v)),
                None => header_lookup(self.view_entries(), name@) is None,
            },
    {
        let ghost h = self.view_entries();
        let mut i: usize = 0;
        assert(h.skip(0) =~= h);
        while i < self.entries.len()
            invariant
                i <= self.entries.len(),
                h == self.view_entries(),
                header_lookup(h, name@) == header_lookup(h.skip(i as int), name@),
            decreases self.entries.len() - i,
        {
            assert(h.skip(i as int).drop_first() =~= h.skip(i + 1));
            assert(h.skip(i as int)[0] == h[i as int]);
            if str_eq(self.entries[i].0.as_str(), name) {
                return Some(clone_opt(&self.entries[i].1));
            }
            i = i + 1;
        }
        None
    }
}

/// The early-warning claims, in the order they are checked: the limit name
/// and the abbreviation used in its header names.
pub open spec fn warning_claims() -> Seq<(Seq<char>, Seq<char>)> {
    seq![("five_hour"@, "5h"@), ("seven_day"@, "7d"@), ("overage"@, "overage"@)]
}

/// Header that carries the threshold a claim has passed.
pub open spec fn threshold_header(abbrev: Seq<char>) -> Seq<char> {
    "anthropic-ratelimit-unified-"@ + abbrev + "-surpassed-threshold"@
}

/// Header that carries a claim's utilization.
pub open spec fn utilization_header(abbrev: Seq<char>) -> Seq<char> {
    "anthropic-ratelimit-unified-"@ + abbrev + "-utilization"@
}

/// The limits as read from the headers. The threshold and utilization
/// readings are kept as the header texts; `threshold` is only set when the
/// caller found the text to be a number.
pub struct ClaudeAiLimits {
    pub status: QuotaStatus,
    pub unified_rate_limit_fallback_available: bool,
    pub resets_at: Option<u64>,
    pub rate_limit_type: Option<RateLimitType>,
    pub utilization: Option<String>,
    pub overage_status: Option<QuotaStatus>,
    pub overage_resets_at: Option<u64>,
    pub overage_disabled_reason: Option<OverageDisabledReason>,
    pub is_using_overage: bool,
    pub surpassed_threshold: Option<String>,
}

/// Mathematical value of the limits.
pub struct ClaudeAiLimitsView {
    pub status: QuotaStatus,
    pub unified_rate_limit_fallback_available: bool,
    pub resets_at: Option<u64>,
    pub rate_limit_type: Option<RateLimitTypeView>,
    pub utilization: Option<Seq<char>>,
    pub overage_status: Option<QuotaStatus>,
    pub overage_resets_at: Option<u64>,
    pub overage_disabled_reason: Option<OverageDisabledReasonView>,
    pub is_using_overage: bool,
    pub surpassed_threshold: Option<Seq<char>>,
}

impl View for ClaudeAiLimits {
    type V = ClaudeAiLimitsView;

    open spec fn view(&self) -> ClaudeAiLimitsView {
        ClaudeAiLimitsView {
            status: self.status,
            unified_rate_limit_fallback_available: self.unified_rate_limit_fallback_available,
            resets_at: self.resets_at,
            rate_limit_type: match self.rate_limit_type { Some(t) => Some(t@), None => None },
            utilization: opt_view(self.utilization),
            overage_status: self.overage_status,
            overage_resets_at: self.overage_resets_at,
            overage_disabled_reason: match self.overage_disabled_reason { Some(t) => Some(t@), None => None },
            is_using_overage: self.is_using_overage,
            surpassed_threshold: opt_view(self.surpassed_threshold),
        }
    }
}

/// The limits before any header was read.
pub open spec fn default_limits() -> ClaudeAiLimitsView {
    ClaudeAiLimitsView {
        status: QuotaStatus::Allowed,
        unified_rate_limit_fallback_available: false,
        resets_at: None,
        rate_limit_type: None,
        utilization: None,
        overage_status: None,
        overage_resets_at: None,
        overage_disabled_reason: None,
        is_using_overage: false,
        surpassed_threshold: None,
    }
}

impl ClaudeAiLimits {
    /// Allowed, with nothing else known.
    pub fn default_limits() -> (r: ClaudeAiLimits)
        ensures
            r@ == default_limits(),
    {
        ClaudeAiLimits {
            status: QuotaStatus::Allowed,
            unified_rate_limit_fallback_available: false,
            resets_at: None,
            rate_limit_type: None,
            utilization: None,
            overage_status: None,
            overage_resets_at: None,
            overage_disabled_reason: None,
            is_using_overage: false,
            surpassed_threshold: None,
        }
    }
}

/// A header's text, or `dflt` when its value is not text.
pub open spec fn text_or(v: Option<Seq<char>>, dflt: Seq<char>) -> Seq<char> {
    match v {
        Some(t) => t,
        None => dflt,
    }
}

/// The first early-warning claim, from index `k` on, whose threshold header
/// is text that the caller found to be a number.
pub open spec fn fired_claim(h: Seq<(Seq<char>, Option<Seq<char>>)>, threshold_is_number: Seq<bool>, k: int) -> Option<int>
    decreases 3 - k,
{
    if k >= 3 || k < 0 {
        None
    } else if header_lookup(h, threshold_header(warning_claims()[k].1)) matches Some(Some(_)) && threshold_is_number[k] {
        Some(k)
    } else {
        fired_claim(h, threshold_is_number, k + 1)
    }
}

/// The limits the headers describe, before the early-warning claims are checked.
pub open spec fn base_limits(h: Seq<(Seq<char>, Option<Seq<char>>)>) -> ClaudeAiLimitsView {
    let status = match header_lookup(h, "anthropic-ratelimit-unified-status"@) {
        Some(v) => quota_status_of(text_or(v, "allowed"@)),
        None => QuotaStatus::Allowed,
    };
    let resets_at = match header_lookup(h, "anthropic-ratelimit-unified-reset"@) {
        Some(Some(t)) => parse_u64_spec(t),
        _ => None,
    };
    let fallback = match header_lookup(h, "anthropic-ratelimit-unified-fallback"@) {
        Some(v) => text_or(v, Seq::empty()) == "available"@,
        None => false,
    };
    let claim = match header_lookup(h, "anthropic-ratelimit-unified-representative-claim"@) {
        Some(v) => Some(rate_limit_type_of(text_or(v, Seq::empty()))),
        None => None,
    };
    let overage_status = match header_lookup(h, "anthropic-ratelimit-unified-overage-status"@) {
        Some(v) => Some(quota_status_of(text_or(v, "allowed"@))),
        None => None,
    };
    let reason = match header_lookup(h, "anthropic-ratelimit-unified-overage-disabled-reason"@) {
        Some(v) => Some(overage_reason_of(text_or(v, Seq::empty()))),
        None => None,
    };
    let using_overage = status == QuotaStatus::Rejected
        && (overage_status == Some(QuotaStatus::Allowed) || overage_status == Some(QuotaStatus::AllowedWarning));
    ClaudeAiLimitsView {
        status,
        unified_rate_limit_fallback_available: fallback,
        resets_at,
        rate_limit_type: claim,
        utilization: None,
        overage_status,
        overage_resets_at: None,
        overage_disabled_reason: reason,
        is_using_overage: using_overage,
        surpassed_threshold: None,
    }
}

/// The limits the headers describe. `threshold_is_number[k]` says whether
/// the text of the threshold header of the `k`-th warning claim, where there
/// is such text, reads as a number.
pub open spec fn limits_from(h: Seq<(Seq<char>, Option<Seq<char>>)>, threshold_is_number: Seq<bool>) -> ClaudeAiLimitsView {
    let base = base_limits(h);
    match fired_claim(h, threshold_is_number, 0) {
        Some(k) => ClaudeAiLimitsView {
            status: QuotaStatus::AllowedWarning,
            surpassed_threshold: header_lookup(h, threshold_header(warning_claims()[k].1))->Some_0,
            rate_limit_type: Some(rate_limit_type_of(warning_claims()[k].0)),
            utilization: match header_lookup(h, utilization_header(warning_claims()[k].1)) {
                Some(Some(u)) => Some(u),
                _ => None,
            },
            ..base
        },
        None => base,
    }
}

/// The prefix of every rate-limit header.
pub open spec fn rate_limit_prefix() -> Seq<char> {
    "anthropic-ratelimit-unified-"@
}

/// No header is a rate-limit header.
pub open spec fn no_rate_limit_headers(h: Seq<(Seq<char>, Option<Seq<char>>)>) -> bool {
    forall|i: int| 0 <= i < h.len() ==> !starts_with_seq(#[trigger] h[i].0, rate_limit_prefix())
}

proof fn lemma_lookup_absent(h: Seq<(Seq<char>, Option<Seq<char>>)>, name: Seq<char>)
    requires
        no_rate_limit_headers(h),
        starts_with_seq(name, rate_limit_prefix()),
    ensures
        header_lookup(h, name) is None,
    decreases h.len(),
{
    if h.len() > 0 {
        assert(!starts_with_seq(h[0].0, rate_limit_prefix()));
        assert(h[0].0 != name);
        let t = h.drop_first();
        assert forall|i: int| 0 <= i < t.len() implies !starts_with_seq(#[trigger] t[i].0, rate_limit_prefix()) by {
            assert(t[i] == h[i + 1]);
        }
        lemma_lookup_absent(t, name);
    }
}

proof fn lemma_prefixed(rest: Seq<char>)
    ensures
        starts_with_seq(rate_limit_prefix() + rest, rate_limit_prefix()),
{
    let p = rate_limit_prefix();
    assert((p + rest).subrange(0, p.len() as int) =~= p);
}

proof fn lemma_threshold_absent(h: Seq<(Seq<char>, Option<Seq<char>>)>, k: int)
    requires
        no_rate_limit_headers(h),
        0 <= k < 3,
    ensures
        header_lookup(h, threshold_header(warning_claims()[k].1)) is None,
{
    let rest = warning_claims()[k].1 + "-surpassed-threshold"@;
    lemma_prefixed(rest);
    assert(threshold_header(warning_claims()[k].1) =~= rate_limit_prefix() + rest);
    lemma_lookup_absent(h, threshold_header(warning_claims()[k].1));
}

/// Without any rate-limit header (whatever other headers there are) the
/// limits are the defaults; overage is in use only when the standard limit
/// refused and overage allowed; a threshold header that reads as a number
/// always turns the status into a warning.
pub proof fn law_limits_from_headers(h: Seq<(Seq<char>, Option<Seq<char>>)>, threshold_is_number: Seq<bool>)
    ensures
        h.len() == 0 ==> limits_from(h, threshold_is_number) == default_limits(),
        no_rate_limit_headers(h) ==> limits_from(h, threshold_is_number) == default_limits(),
        limits_from(h, threshold_is_number).is_using_overage ==> (
            limits_from(h, threshold_is_number).overage_status == Some(QuotaStatus::Allowed)
            || limits_from(h, threshold_is_number).overage_status == Some(QuotaStatus::AllowedWarning)),
        fired_claim(h, threshold_is_number, 0) is Some ==> limits_from(h, threshold_is_number).status == QuotaStatus::AllowedWarning,
        fired_claim(h, threshold_is_number, 0) is None ==> limits_from(h, threshold_is_number).surpassed_threshold is None,
{
    if h.len() == 0 {
        reveal_with_fuel(fired_claim, 4);
    }
    if no_rate_limit_headers(h) {
        reveal_with_fuel(fired_claim, 4);
        let p = rate_limit_prefix();
        reveal_strlit("anthropic-ratelimit-unified-");
        reveal_strlit("anthropic-ratelimit-unified-status");
        reveal_strlit("anthropic-ratelimit-unified-reset");
        reveal_strlit("anthropic-ratelimit-unified-fallback");
        reveal_strlit("anthropic-ratelimit-unified-representative-claim");
        reveal_strlit("anthropic-ratelimit-unified-overage-status");
        reveal_strlit("anthropic-ratelimit-unified-overage-disabled-reason");
        assert("anthropic-ratelimit-unified-status"@.subrange(0, p.len() as int) =~= p);
        assert("anthropic-ratelimit-unified-reset"@.subrange(0, p.len() as int) =~= p);
        assert("anthropic-ratelimit-unified-fallback"@.subrange(0, p.len() as int) =~= p);
        assert("anthropic-ratelimit-unified-representative-claim"@.subrange(0, p.len() as int) =~= p);
        assert("anthropic-ratelimit-unified-overage-status"@.subrange(0, p.len() as int) =~= p);
        assert("anthropic-ratelimit-unified-overage-disabled-reason"@.subrange(0, p.len() as int) =~= p);
        lemma_lookup_absent(h, "anthropic-ratelimit-unified-status"@);
        lemma_lookup_absent(h, "anthropic-ratelimit-unified-reset"@);
        lemma_lookup_absent(h, "anthropic-ratelimit-unified-fallback"@);
        lemma_lookup_absent(h, "anthropic-ratelimit-unified-representative-claim"@);
        lemma_lookup_absent(h, "anthropic-ratelimit-unified-overage-status"@);
        lemma_lookup_absent(h, "anthropic-ratelimit-unified-overage-disabled-reason"@);
        lemma_threshold_absent(h, 0);
        lemma_threshold_absent(h, 1);
        lemma_threshold_absent(h, 2);
        assert(header_lookup(h, threshold_header(warning_claims()[0].1)) is None);
        assert(header_lookup(h, threshold_header(warning_claims()[1].1)) is None);
        assert(header_lookup(h, threshold_header(warning_claims()[2].1)) is None);
        assert(fired_claim(h, threshold_is_number, 0) is None);
    }
}

/// Overage is in use exactly when the standard limit refused the request
/// (the status header reads `rejected`) and an overage status header is
/// present that does not read `rejected`; in particular never while the
/// status is allowed or missing. An early warning does not change it.
pub proof fn law_overage_only_when_refused(h: Seq<(Seq<char>, Option<Seq<char>>)>, threshold_is_number: Seq<bool>)
    ensures
        limits_from(h, threshold_is_number).is_using_overage <==> (
            header_lookup(h, "anthropic-ratelimit-unified-status"@) == Some(Some("rejected"@))
            && header_lookup(h, "anthropic-ratelimit-unified-overage-status"@) is Some
            && header_lookup(h, "anthropic-ratelimit-unified-overage-status"@) != Some(Some("rejected"@))),
        header_lookup(h, "anthropic-ratelimit-unified-status"@) != Some(Some("rejected"@))
            ==> !limits_from(h, threshold_is_number).is_using_overage,
{
    reveal_strlit("rejected");
    reveal_strlit("allowed");
    reveal_strlit("allowed_warning");
    assert("allowed"@ != "rejected"@) by {
        assert("allowed"@[0] != "rejected"@[0]);
    }
    assert("allowed_warning"@ != "rejected"@) by {
        assert("allowed_warning"@[0] != "rejected"@[0]);
    }
}

/// Text of a header value, or `dflt` when it is not text.
fn value_text_or(v: &Option<String>, dflt: &str) -> (r: String)
    ensures
        r@ == text_or(opt_view(*v), dflt@),
{
    match v {
        Some(t) => t.clone(),
        None => String::from_str(dflt),
    }
}

/// The name and abbreviation of the `k`-th early-warning claim.
fn warning_claim(k: usize) -> (r: (&'static str, &'static str))
    requires
        k < 3,
    ensures
        r.0@ == warning_claims()[k as int].0,
        r.1@ == warning_claims()[k as int].1,
{
    if k == 0 {
        ("five_hour", "5h")
    } else if k == 1 {
        ("seven_day", "7d")
    } else {
        ("overage", "overage")
    }
}

/// Reads the limits from the response headers. `threshold_is_number` has
/// one entry per early-warning claim (five-hour, seven-day, overage).
pub fn limits_from_headers(headers: &ResponseHeaders, threshold_is_number: &[bool; 3]) -> (r: ClaudeAiLimits)
    ensures
        r@ == limits_from(headers.view_entries(), threshold_is_number@),
{
    let ghost h = headers.view_entries();
    proof {
        reveal_strlit("");
        assert(""@ =~= Seq::<char>::empty());
    }
    let mut limits = ClaudeAiLimits::default_limits();
    match headers.get("anthropic-ratelimit-unified-status") {
        Some(v) => {
            limits.status = quota_status_from_name(value_text_or(&v, "allowed").as_str());
        },
        None => {},
    }
    match headers.get("anthropic-ratelimit-unified-reset") {
        Some(Some(t)) => {
            limits.resets_at = parse_u64(t.as_str());
        },
        _ => {},
    }
    match headers.get("anthropic-ratelimit-unified-fallback") {
        Some(v) => {
            limits.unified_rate_limit_fallback_available = str_eq(value_text_or(&v, "").as_str(), "available");
        },
        None => {},
    }
    match headers.get("anthropic-ratelimit-unified-representative-claim") {
        Some(v) => {
            limits.rate_limit_type = Some(RateLimitType::from_name(value_text_or(&v, "").as_str()));
        },
        None => {},
    }
    match headers.get("anthropic-ratelimit-unified-overage-status") {
        Some(v) => {
            limits.overage_status = Some(quota_status_from_name(value_text_or(&v, "allowed").as_str()));
        },
        None => {},
    }
    match headers.get("anthropic-ratelimit-unified-overage-disabled-reason") {
        Some(v) => {
            limits.overage_disabled_reason = Some(OverageDisabledReason::from_name(value_text_or(&v, "").as_str()));
        },
        None => {},
    }
    limits.is_using_overage = limits.status == QuotaStatus::Rejected && match limits.overage_status {
        Some(QuotaStatus::Allowed) => true,
        Some(QuotaStatus::AllowedWarning) => true,
        _ => false,
    };
    let ghost base = limits@;
    assert(base == base_limits(h));
    let mut k: usize = 0;
    while k < 3
        invariant
            k <= 3,
            threshold_is_number@.len() == 3,
            h == headers.view_entries(),
            limits@ == base,
            base == base_limits(h),
            fired_claim(h, threshold_is_number@, 0) == fired_claim(h, threshold_is_number@, k as int),
        decreases 3 - k,
    {
        let (claim, abbrev) = warning_claim(k);
        let key = concat(concat("anthropic-ratelimit-unified-", abbrev).as_str(), "-surpassed-threshold");
        assert(key@ == threshold_header(warning_claims()[k as int].1));
        match headers.get(key.as_str()) {
            Some(Some(t)) => {
                if threshold_is_number[k] {
                    limits.status = QuotaStatus::AllowedWarning;
                    limits.surpassed_threshold = Some(t);
                    limits.rate_limit_type = Some(RateLimitType::from_name(claim));
                    let ukey = concat(concat("anthropic-ratelimit-unified-", abbrev).as_str(), "-utilization");
                    assert(ukey@ == utilization_header(warning_claims()[k as int].1));
                    match headers.get(ukey.as_str()) {
                        Some(Some(u)) => {
                            limits.utilization = Some(u);
                        },
                        _ => {},
                    }
                    assert(fired_claim(h, threshold_is_number@, k as int) == Some(k as int));
                    return limits;
                }
            },
            _ => {},
        }
        k = k + 1;
    }
    limits
}

/// Keeps the limits read from the latest response.
pub struct RateLimitTracker {
    pub current_limits: ClaudeAiLimits,
}

impl RateLimitTracker {
    /// A tracker that starts from the default limits.
    pub fn new() -> (r: RateLimitTracker)
        ensures
            r.current_limits@ == default_limits(),
    {
        RateLimitTracker { current_limits: ClaudeAiLimits::default_limits() }
    }

    /// Replaces the current limits by what the headers describe.
    pub fn extract_quota_status_from_headers(&mut self, headers: &ResponseHeaders, threshold_is_number: &[bool; 3]) -> (r: Result<(), String>)
        ensures
            r is Ok,
            final(self).current_limits@ == limits_from(headers.view_entries(), threshold_is_number@),
    {
        self.current_limits = limits_from_headers(headers, threshold_is_number);
        Ok(())
    }
}

} // verus!
