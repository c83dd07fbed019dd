use claude_code_rs::services::claude_limits::{
    limits_from_headers, OverageDisabledReason, QuotaStatus, RateLimitTracker, RateLimitType, ResponseHeaders,
};
use claude_code_rs::services::cost_tracker::{model_summary_line, CostCounters, ModelTokens};
use claude_code_rs::services::diagnostic::{
    diagnostics_request_args, format_diagnostics_summary, normalize_file_uri, summary_can_be_cut, positions_can_be_shown,
    Diagnostic, DiagnosticFile, DiagnosticSeverity, DiagnosticTrackingService, DiagnosticsFetch, Position, Range,
};

fn headers(entries: &[(&str, Option<&str>)]) -> ResponseHeaders {
    ResponseHeaders {
        entries: entries.iter().map(|(n, v)| (n.to_string(), v.map(|s| s.to_string()))).collect(),
    }
}

#[test]
fn limits_read_every_header() {
    let h = headers(&[
        ("anthropic-ratelimit-unified-status", Some("rejected")),
        ("anthropic-ratelimit-unified-overage-status", Some("allowed")),
        ("anthropic-ratelimit-unified-reset", Some("1700000000")),
        ("anthropic-ratelimit-unified-representative-claim", Some("seven_day_opus")),
        ("anthropic-ratelimit-unified-fallback", Some("available")),
        ("anthropic-ratelimit-unified-overage-disabled-reason", Some("out_of_credits")),
    ]);
    let l = limits_from_headers(&h, &[false, false, false]);
    assert_eq!(l.status, QuotaStatus::Rejected);
    assert!(l.is_using_overage);
    assert_eq!(l.resets_at, Some(1700000000));
    assert!(matches!(l.rate_limit_type, Some(RateLimitType::SevenDayOpus)));
    assert!(l.unified_rate_limit_fallback_available);
    assert!(matches!(l.overage_disabled_reason, Some(OverageDisabledReason::OutOfCredits)));
    assert_eq!(l.overage_status, Some(QuotaStatus::Allowed));
    assert!(l.surpassed_threshold.is_none());
}

#[test]
fn limits_first_numeric_threshold_wins() {
    let h = headers(&[
        ("anthropic-ratelimit-unified-5h-surpassed-threshold", Some("abc")),
        ("anthropic-ratelimit-unified-7d-surpassed-threshold", Some("0.75")),
        ("anthropic-ratelimit-unified-7d-utilization", Some("0.8")),
        ("anthropic-ratelimit-unified-overage-surpassed-threshold", Some("0.9")),
    ]);
    let l = limits_from_headers(&h, &[false, true, true]);
    assert_eq!(l.status, QuotaStatus::AllowedWarning);
    assert!(matches!(l.rate_limit_type, Some(RateLimitType::SevenDay)));
    assert_eq!(l.surpassed_threshold, Some("0.75".to_string()));
    assert_eq!(l.utilization, Some("0.8".to_string()));
}

#[test]
fn limits_unreadable_values_fall_back() {
    let h = headers(&[
        ("anthropic-ratelimit-unified-status", None),
        ("anthropic-ratelimit-unified-reset", Some("soon")),
        ("anthropic-ratelimit-unified-representative-claim", Some("monthly")),
        ("anthropic-ratelimit-unified-overage-disabled-reason", None),
        ("anthropic-ratelimit-unified-status", Some("rejected")),
    ]);
    let l = limits_from_headers(&h, &[false, false, false]);
    assert_eq!(l.status, QuotaStatus::Allowed);
    assert_eq!(l.resets_at, None);
    match l.rate_limit_type {
        Some(RateLimitType::Unknown(s)) => assert_eq!(s, "monthly"),
        _ => panic!("expected an unknown claim"),
    }
    match l.overage_disabled_reason {
        Some(OverageDisabledReason::Unknown(s)) => assert_eq!(s, ""),
        _ => panic!("expected an unknown reason"),
    }
    assert!(!l.is_using_overage);
}

#[test]
fn limits_without_headers_are_the_defaults() {
    let mut t = RateLimitTracker::new();
    assert_eq!(t.extract_quota_status_from_headers(&headers(&[]), &[false, false, false]), Ok(()));
    let l = &t.current_limits;
    assert_eq!(l.status, QuotaStatus::Allowed);
    assert!(l.rate_limit_type.is_none() && l.resets_at.is_none() && !l.is_using_overage);
    assert!(!l.unified_rate_limit_fallback_available);
    let rejected = headers(&[
        ("anthropic-ratelimit-unified-status", Some("rejected")),
        ("anthropic-ratelimit-unified-5h-surpassed-threshold", Some("0.9")),
    ]);
    assert_eq!(t.extract_quota_status_from_headers(&rejected, &[true, false, false]), Ok(()));
    assert_eq!(t.current_limits.status, QuotaStatus::AllowedWarning);
    let unrelated = headers(&[("content-type", Some("application/json")), ("x-request-id", None)]);
    assert_eq!(t.extract_quota_status_from_headers(&unrelated, &[false, false, false]), Ok(()));
    let l = &t.current_limits;
    assert_eq!(l.status, QuotaStatus::Allowed);
    assert!(l.rate_limit_type.is_none() && l.resets_at.is_none() && l.surpassed_threshold.is_none());
    assert!(l.utilization.is_none() && l.overage_status.is_none() && !l.is_using_overage);
}

#[test]
fn rate_limit_names() {
    assert!(matches!(RateLimitType::from_name("five_hour"), RateLimitType::FiveHour));
    assert!(matches!(RateLimitType::from_name("overage"), RateLimitType::Overage));
    assert!(matches!(OverageDisabledReason::from_name("org_level_disabled"), OverageDisabledReason::OrgLevelDisabled));
    assert!(matches!(OverageDisabledReason::from_name("no_limits_configured"), OverageDisabledReason::NoLimitsConfigured));
}

fn diag(msg: &str, sev: DiagnosticSeverity, line: u32, ch: u32) -> Diagnostic {
    Diagnostic {
        message: msg.to_string(),
        severity: sev,
        range: Range { start: Position { line, character: ch }, end: Position { line, character: ch + 1 } },
        source: None,
        code: None,
    }
}

fn file(uri: &str, ds: Vec<Diagnostic>) -> DiagnosticFile {
    DiagnosticFile { uri: uri.to_string(), diagnostics: ds }
}

#[test]
fn uri_normalization_strips_one_prefix() {
    assert_eq!(normalize_file_uri("file:///a/b.rs"), "/a/b.rs");
    assert_eq!(normalize_file_uri("_claude_fs_right:/x"), "/x");
    assert_eq!(normalize_file_uri("_claude_fs_left:y"), "y");
    assert_eq!(normalize_file_uri("plain"), "plain");
}

#[test]
fn only_new_diagnostics_are_reported() {
    let mut s = DiagnosticTrackingService::new();
    let d1 = || diag("old", DiagnosticSeverity::Warning, 1, 2);
    let d2 = || diag("new", DiagnosticSeverity::Error, 3, 4);
    assert_eq!(s.before_file_edited("/a/b.rs", DiagnosticsFetch::Files(vec![file("file:///a/b.rs", vec![d1()])])), Ok(()));
    let after = DiagnosticsFetch::Files(vec![
        file("file:///a/b.rs", vec![d1(), d2()]),
        file("file:///c.rs", vec![d2()]),
        file("other:///a/b.rs", vec![d2()]),
    ]);
    let fresh = s.get_new_diagnostics(after).unwrap();
    assert_eq!(fresh.len(), 1);
    assert_eq!(fresh[0].uri, "file:///a/b.rs");
    assert_eq!(fresh[0].diagnostics.len(), 1);
    assert_eq!(fresh[0].diagnostics[0].message, "new");
}

#[test]
fn failed_baseline_reports_everything_and_unreadable_changes_nothing() {
    let mut s = DiagnosticTrackingService::new();
    s.before_file_edited("/a.rs", DiagnosticsFetch::Failed).unwrap();
    s.before_file_edited("/b.rs", DiagnosticsFetch::Unreadable).unwrap();
    let after = DiagnosticsFetch::Files(vec![
        file("file:///a.rs", vec![diag("x", DiagnosticSeverity::Info, 0, 0)]),
        file("file:///b.rs", vec![diag("y", DiagnosticSeverity::Info, 0, 0)]),
    ]);
    let fresh = s.get_new_diagnostics(after).unwrap();
    assert_eq!(fresh.len(), 1);
    assert_eq!(fresh[0].uri, "file:///a.rs");
    assert!(s.get_new_diagnostics(DiagnosticsFetch::Failed).unwrap().is_empty());
    s.reset();
    let again = DiagnosticsFetch::Files(vec![file("file:///a.rs", vec![diag("x", DiagnosticSeverity::Info, 0, 0)])]);
    assert!(s.get_new_diagnostics(again).unwrap().is_empty());
}

#[test]
fn summary_shows_one_based_positions() {
    let mut d = diag("bad", DiagnosticSeverity::Error, 0, 4);
    d.code = Some("E1".to_string());
    d.source = Some("rustc".to_string());
    let files = vec![file("file:///src/main.rs", vec![d, diag("use x", DiagnosticSeverity::Hint, 9, 0)])];
    assert!(positions_can_be_shown(&files));
    assert!(summary_can_be_cut(&files));
    assert_eq!(
        format_diagnostics_summary(&files),
        "main.rs:\n  \u{274c} [Line 1:5] bad [E1] (rustc)\n  \u{1f4a1} [Line 10:1] use x"
    );
    let two = vec![
        file("a.rs", vec![diag("w", DiagnosticSeverity::Warning, 2, 3)]),
        file("file:///d/", vec![diag("i", DiagnosticSeverity::Info, 0, 0)]),
    ];
    assert_eq!(
        format_diagnostics_summary(&two),
        "a.rs:\n  \u{26a0}\u{fe0f} [Line 3:4] w\n\n:\n  \u{2139}\u{fe0f} [Line 1:1] i"
    );
    assert_eq!(format_diagnostics_summary(&vec![]), "");
}

#[test]
fn long_summary_is_cut_at_four_thousand_bytes() {
    let long = "a".repeat(5000);
    let files = vec![file("f", vec![diag(&long, DiagnosticSeverity::Error, 0, 0)])];
    let s = format_diagnostics_summary(&files);
    assert!(s.ends_with("...[truncated]"));
    assert_eq!(s.len(), 4000 + "...[truncated]".len());
    assert!(s.starts_with("f:\n  \u{274c} [Line 1:1] aaa"));
}

#[test]
fn summary_position_limits_are_detected() {
    let files = vec![file("f", vec![diag("m", DiagnosticSeverity::Error, u32::MAX, 0)])];
    assert!(!positions_can_be_shown(&files));
}

#[test]
fn request_args_are_json() {
    assert_eq!(diagnostics_request_args("/a b.rs"), "{\"uri\":\"file:///a b.rs\"}");
    let v: serde_json::Value = serde_json::from_str(&diagnostics_request_args("/q\"x")).unwrap();
    assert_eq!(v["uri"], "file:///q\"x");
}

#[test]
fn cost_counters_accumulate() {
    let mut c = CostCounters::new("s1".to_string());
    c.add_api_usage("sonnet", 100, 50, 1200);
    c.add_api_usage("haiku", 7, 3, 100);
    c.add_api_usage("sonnet", 100, 50, 800);
    assert_eq!(c.total_api_duration_ms, 2100);
    assert_eq!(c.model_tokens("sonnet"), Some(ModelTokens { input_tokens: 200, output_tokens: 100 }));
    assert_eq!(c.model_tokens("opus"), None);
    assert_eq!(c.models(), vec!["sonnet".to_string(), "haiku".to_string()]);
    c.add_tool_duration(30);
    c.add_tool_duration(12);
    assert_eq!(c.total_tool_duration_ms, 42);
    c.add_code_changes(10, 3);
    c.add_code_changes(1, 0);
    assert_eq!(c.code_changes_summary(), "Total code changes:    11 lines added, 3 lines removed\n");
    assert_eq!(
        model_summary_line("sonnet", ModelTokens { input_tokens: 200, output_tokens: 100 }, "0.0021"),
        "  sonnet: 200 input, 100 output ($0.0021)\n"
    );
}
