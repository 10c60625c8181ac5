use allgreen::domain::{conclude_domain_scan, extract_domain_expiry, extract_with_rule, rule_for_host, WhoisRule};
use allgreen::hostname::{extract_host, whois_url};
use allgreen::site::{due_candidates, is_stale, scan_due, ScanKind, WebSite};
use allgreen::ssl::{conclude_ssl_scan, extract_ssl_expiry};
use allgreen::text::{
    contains_sub, ends_with, find_sub, find_sub_from, prefix_before, remove_first, replace_char,
    rfind_char, starts_with, str_eq, strip_prefix_if, trim_spaces,
};

const DAY_MS: i64 = 86_400_000;

fn site(id: u128, checked: Option<i64>, expire: Option<i64>) -> WebSite {
    WebSite {
        id,
        url: format!("https://site{}.example", id),
        keyword: "OK".to_string(),
        tags: String::new(),
        created_at_ms: 0,
        domain_expire_at_ms: expire,
        user_id: 1,
        useragent: None,
        last_domain_checked_at_ms: checked,
        ssl_expire_at_ms: expire,
        last_ssl_checked_at_ms: checked,
        is_paused: false,
    }
}

#[test]
fn substring_search_finds_and_misses() {
    assert!(contains_sub("hello world", "lo wo"));
    assert!(!contains_sub("hello world", "worlds"));
    assert!(contains_sub("abc", ""));
    assert_eq!(find_sub("abcabc", "bc"), Some(1));
    assert_eq!(find_sub("abcabc", "cab"), Some(2));
    assert_eq!(find_sub("abcabc", "zz"), None);
    assert!(starts_with("https://x", "https://"));
    assert!(!starts_with("http://x", "https://"));
    assert!(ends_with("x.com.tr", ".tr"));
    assert!(!ends_with("x.com.trx", ".tr"));
    assert!(str_eq("same", "same"));
    assert!(!str_eq("same", "sam"));
}

#[test]
fn positioned_searches_respect_their_bounds() {
    assert_eq!(find_sub_from("abcabc", "bc", 2), Some(4));
    assert_eq!(find_sub_from("abcabc", "bc", 5), None);
    assert_eq!(rfind_char("a\nb\nc", '\n', 4), Some(3));
    assert_eq!(rfind_char("a\nb\nc", '\n', 3), Some(1));
    assert_eq!(rfind_char("a\nb\nc", '\n', 1), None);
    assert_eq!(prefix_before("host/path", "/"), "host");
    assert_eq!(prefix_before("host", "/"), "host");
    assert_eq!(strip_prefix_if("https://x", "https://"), "x");
    assert_eq!(strip_prefix_if("ftp://x", "https://"), "ftp://x");
}

#[test]
fn text_cleanup_is_exact() {
    assert_eq!(remove_first("| Not valid after:  x", "| Not valid after:"), "  x");
    assert_eq!(remove_first("abcbc", "bc"), "abc");
    assert_eq!(remove_first("abc", "zz"), "abc");
    assert_eq!(trim_spaces("  \t a b \r\n "), "a b");
    assert_eq!(trim_spaces("   "), "");
    assert_eq!(replace_char("2030-05-01T00:00:00", 'T', ' '), "2030-05-01 00:00:00");
}

#[test]
fn hostname_strips_scheme_and_path() {
    assert_eq!(extract_host("https://foo.example/a/b?c=d"), "foo.example");
    assert_eq!(extract_host("http://foo.example"), "foo.example");
    assert_eq!(extract_host("foo.example/x"), "foo.example");
    assert_eq!(extract_host("https://bar.example/"), "bar.example");
    assert_eq!(whois_url("foo.example"), "https://www.whois.com/whois/foo.example");
}

#[test]
fn strategy_table_picks_rule_by_suffix() {
    assert_eq!(rule_for_host("x.com.tr"), WhoisRule::TrRegistry);
    assert_eq!(rule_for_host("x.gov.tr"), WhoisRule::TrRegistry);
    assert_eq!(rule_for_host("x.com"), WhoisRule::Generic);
    assert_eq!(rule_for_host("x.training"), WhoisRule::Generic);
    assert_eq!(extract_with_rule(WhoisRule::Generic, "<html></html>"), None);
}

#[test]
fn generic_whois_page_parses_fourth_value() {
    let html = "<html><body><div class=\"df-block\">\
        <div class=\"df-value\">Example Registrar</div>\
        <div class=\"df-value\">2001-01-01</div>\
        <div class=\"df-value\">ns1.example</div>\
        <div class=\"df-value\">2030-05-01</div>\
        </div></body></html>";
    assert_eq!(extract_domain_expiry("foo.example", html), Some(1_903_824_000_000));
}

#[test]
fn tr_whois_page_parses_registry_data() {
    let html = "<html><body><pre id=\"registryData\">\
Expires on..............: 2026-Feb-03.\
</pre></body></html>";
    assert_eq!(extract_domain_expiry("foo.com.tr", html), Some(1_770_076_800_000));
}

#[test]
fn tr_rule_is_not_used_for_other_hosts() {
    // The same registry-style page yields nothing under the generic
    // rule: there is no fourth .df-value element.
    let html = "<html><body><pre id=\"registryData\">\
Expires on..............: 2026-Feb-03.\
</pre></body></html>";
    assert_eq!(extract_domain_expiry("foo.example", html), None);
}

#[test]
fn unparseable_whois_date_keeps_expiry_and_advances_watermark() {
    // A .example site whose WHOIS page holds an unparseable date: the
    // stored expiry stays, the checked-at watermark moves to now.
    let html = "<html><body><div class=\"df-block\">\
        <div class=\"df-value\">a</div>\
        <div class=\"df-value\">b</div>\
        <div class=\"df-value\">c</div>\
        <div class=\"df-value\">sometime soon</div>\
        </div></body></html>";
    let parsed = extract_domain_expiry("broken.example", html);
    assert_eq!(parsed, None);
    let now = 1_700_000_000_000;
    let refresh = conclude_domain_scan(Some(123_456), parsed, now);
    assert_eq!(refresh.domain_expire_at_ms, Some(123_456));
    assert_eq!(refresh.last_domain_checked_at_ms, Some(now));
}

#[test]
fn parsed_whois_date_replaces_expiry() {
    let now = 1_700_000_000_000;
    let refresh = conclude_domain_scan(Some(123_456), Some(1_903_824_000_000), now);
    assert_eq!(refresh.domain_expire_at_ms, Some(1_903_824_000_000));
    assert_eq!(refresh.last_domain_checked_at_ms, Some(now));
}

#[test]
fn certificate_report_parses_not_valid_after() {
    let output = "Starting scan\n\
Nmap scan report for foo.example\n\
| ssl-cert: Subject: commonName=foo.example\n\
| Not valid before: 2020-01-01T00:00:00\n\
| Not valid after:  2030-05-01T00:00:00\n\
|_ssl-date: done\n";
    assert_eq!(extract_ssl_expiry(output), Some(1_903_824_000_000));
}

#[test]
fn certificate_report_without_field_yields_nothing() {
    assert_eq!(extract_ssl_expiry("Starting scan\nno certificate data\n"), None);
    assert_eq!(extract_ssl_expiry("| Not valid after:  someday\n"), None);
    assert_eq!(conclude_ssl_scan(Some(55), None), Some(55));
    assert_eq!(conclude_ssl_scan(Some(55), Some(66)), Some(66));
    assert_eq!(conclude_ssl_scan(None, None), None);
}

#[test]
fn staleness_rule_boundaries() {
    let now = 10 * DAY_MS;
    assert!(is_stale(&None, &Some(1), now));
    assert!(is_stale(&Some(now - 1), &None, now));
    assert!(is_stale(&Some(now - DAY_MS), &Some(1), now));
    assert!(!is_stale(&Some(now - DAY_MS + 1), &Some(1), now));
}

#[test]
fn scan_candidates_are_exactly_the_stale_sites() {
    let now = 10 * DAY_MS;
    let sites = vec![
        site(0, Some(now - 1000), Some(7)),      // fresh
        site(1, None, Some(7)),                  // never checked
        site(2, Some(now - 2 * DAY_MS), Some(7)),// stale
        site(3, Some(now - 1000), None),         // no expiry value
        site(4, Some(now - 500), Some(7)),       // fresh
    ];
    let idx = due_candidates(ScanKind::Domain, &sites, now);
    assert_eq!(idx, vec![1, 2, 3]);
    let idx_ssl = due_candidates(ScanKind::Ssl, &sites, now);
    assert_eq!(idx_ssl, vec![1, 2, 3]);
    assert!(!scan_due(ScanKind::Domain, &sites[0], now));
    assert!(scan_due(ScanKind::Domain, &sites[2], now));
}
