//! The domain-expiry scanner's parsing rules and per-site conclusion.
//!
//! The scanner fetches a WHOIS lookup page for the bare hostname and
//! extracts an expiry date with a TLD-conditioned rule: one extraction
//! for the `.tr` registry, a generic one otherwise. A failed parse
//! leaves the stored expiry untouched but still advances the checked-at
//! watermark, so the site is not retried before the next staleness
//! window.

use vstd::prelude::*;
use crate::dates::spec_parsed_epoch_ms;
use crate::dates::parse_epoch_ms;
use crate::htmlq::spec_selected_text;
use crate::htmlq::select_nth_text;
use crate::text::find_from;
use crate::text::find_sub;
use crate::text::spec_ends_with;
use crate::text::ends_with;
use crate::text::lemma_find_from_located;

verus! {

/// The `.tr` registry rule: in the text of the `#registryData` element,
/// the 11 characters at offset 26 after the `Expires on` marker (from
/// the front when the marker is absent) are read as a `YYYY-Mon-DD`
/// date at midnight UTC.
pub open spec fn spec_tr_expiry(html: Seq<char>) -> Option<i64> {
    match spec_selected_text(html, "#registryData"@, 0) {
        Some(txt) => {
            let idx = match find_from(txt, "Expires on"@, 0) {
                Some(i) => i,
                None => 0,
            };
            if idx + 37 <= txt.len() {
                spec_parsed_epoch_ms(
                    txt.subrange(idx + 26, idx + 37) + " 00:00:00 +00:00"@,
                    "%Y-%b-%d %H:%M:%S %z"@,
                )
            } else {
                None
            }
        },
        None => None,
    }
}

/// The generic rule: the fourth `.df-block .df-value` element of the
/// lookup page is read as a `YYYY-MM-DD` date at midnight UTC.
pub open spec fn spec_generic_expiry(html: Seq<char>) -> Option<i64> {
    match spec_selected_text(html, ".df-block .df-value"@, 3) {
        Some(txt) => spec_parsed_epoch_ms(
            txt + " 00:00:00 +00:00"@,
            "%Y-%m-%d %H:%M:%S %z"@,
        ),
        None => None,
    }
}

/// One entry of the extraction strategy table: which parsing rule a
/// hostname falls under. New TLD families extend this enum and the two
/// functions below without touching the scanning loop.
#[derive(Clone, Copy, PartialEq, Eq, Structural, Debug)]
pub enum WhoisRule {
    /// The `.tr` registry's page shape.
    TrRegistry,
    /// The lookup page's generic field list.
    Generic,
}

/// The hostname-suffix predicate of the strategy table.
pub open spec fn spec_rule_for_host(host: Seq<char>) -> WhoisRule {
    if spec_ends_with(host, ".tr"@) {
        WhoisRule::TrRegistry
    } else {
        WhoisRule::Generic
    }
}

/// Pick the parsing rule for a hostname.
pub fn rule_for_host(host: &str) -> (r: WhoisRule)
    ensures
        r == spec_rule_for_host(host@),
{
    if ends_with(host, ".tr") {
        WhoisRule::TrRegistry
    } else {
        WhoisRule::Generic
    }
}

/// What each rule of the strategy table extracts.
pub open spec fn spec_extract_with_rule(rule: WhoisRule, html: Seq<char>) -> Option<i64> {
    match rule {
        WhoisRule::TrRegistry => spec_tr_expiry(html),
        WhoisRule::Generic => spec_generic_expiry(html),
    }
}

/// The TLD-conditioned extraction: the rule the hostname's suffix
/// selects, applied to the fetched page.
pub open spec fn spec_domain_expiry(host: Seq<char>, html: Seq<char>) -> Option<i64> {
    spec_extract_with_rule(spec_rule_for_host(host), html)
}

/// Extract the domain-expiry timestamp from a fetched WHOIS page, under
/// the rule the hostname's TLD selects.
pub fn extract_domain_expiry(host: &str, html: &str) -> (r: Option<i64>)
    ensures
        r == spec_domain_expiry(host@, html@),
{
    let rule = rule_for_host(host);
    extract_with_rule(rule, html)
}

/// Apply one rule of the strategy table to a fetched page.
pub fn extract_with_rule(rule: WhoisRule, html: &str) -> (r: Option<i64>)
    ensures
        r == spec_extract_with_rule(rule, html@),
{
    match rule {
        WhoisRule::TrRegistry => match select_nth_text(html, "#registryData", 0) {
            Some(txt) => {
                let idx: usize = match find_sub(txt.as_str(), "Expires on") {
                    Some(i) => {
                        proof {
                            lemma_find_from_located(txt@, "Expires on"@, 0);
                        }
                        i
                    },
                    None => 0,
                };
                let tlen: usize = txt.as_str().unicode_len();
                if tlen >= 37 && idx <= tlen - 37 {
                    let date = txt.as_str().substring_char(idx + 26, idx + 37);
                    let full = String::from_str(date).concat(" 00:00:00 +00:00");
                    parse_epoch_ms(full.as_str(), "%Y-%b-%d %H:%M:%S %z")
                } else {
                    None
                }
            },
            None => None,
        },
        WhoisRule::Generic => match select_nth_text(html, ".df-block .df-value", 3) {
            Some(txt) => {
                let full = txt.concat(" 00:00:00 +00:00");
                parse_epoch_ms(full.as_str(), "%Y-%m-%d %H:%M:%S %z")
            },
            None => None,
        },
    }
}

/// The fields a finished domain scan writes back for one website.
#[derive(Clone, Copy, PartialEq, Eq, Structural, Debug)]
pub struct DomainRefresh {
    pub domain_expire_at_ms: Option<i64>,
    pub last_domain_checked_at_ms: Option<i64>,
}

/// What one domain scan concludes: a parsed date replaces the stored
/// expiry, any failure keeps it; the checked-at watermark always
/// advances to now.
pub open spec fn spec_conclude_domain(
    prev_expire: Option<i64>,
    parsed: Option<i64>,
    now_ms: i64,
) -> DomainRefresh {
    DomainRefresh {
        domain_expire_at_ms: match parsed {
            Some(t) => Some(t),
            None => prev_expire,
        },
        last_domain_checked_at_ms: Some(now_ms),
    }
}

/// Conclude one website's domain scan. `parsed` is the extraction's
/// result; any fetch or parse failure arrives here as `None`.
pub fn conclude_domain_scan(prev_expire: Option<i64>, parsed: Option<i64>, now_ms: i64) -> (r:
    DomainRefresh)
    ensures
        r == spec_conclude_domain(prev_expire, parsed, now_ms),
        parsed is None ==> r.domain_expire_at_ms == prev_expire,
        parsed is Some ==> r.domain_expire_at_ms == parsed,
        r.last_domain_checked_at_ms == Some(now_ms),
{
    DomainRefresh {
        domain_expire_at_ms: match parsed {
            Some(t) => Some(t),
            None => prev_expire,
        },
        last_domain_checked_at_ms: Some(now_ms),
    }
}

} // verus!
