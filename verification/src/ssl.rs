//! The certificate scanner's output parsing and per-site conclusion.
//!
//! The scanner runs an external certificate inspection against port 443
//! and receives its textual report. The line holding the `Not valid
//! after` field is located, its marker stripped, the remainder read as
//! a UTC timestamp. Any failure skips the website without touching its
//! stored expiry.

use vstd::prelude::*;
use crate::dates::spec_parsed_epoch_ms;
use crate::dates::parse_epoch_ms;
use crate::text::find_from;
use crate::text::find_sub;
use crate::text::find_sub_from;
use crate::text::rfind_char_before;
use crate::text::rfind_char;
use crate::text::spec_remove_first;
use crate::text::remove_first;
use crate::text::spec_trim;
use crate::text::trim_spaces;
use crate::text::spec_replace_char;
use crate::text::replace_char;
use crate::text::lemma_find_from_located;
use crate::text::lemma_rfind_located;

verus! {

/// The date text carried by an inspection report: the first line that
/// holds `Not valid after`, its `| Not valid after:` marker removed,
/// trimmed, `T` separators spaced, and a UTC offset appended; nothing
/// where no line holds the field.
pub open spec fn spec_cert_date_text(output: Seq<char>) -> Option<Seq<char>> {
    match find_from(output, "Not valid after"@, 0) {
        Some(i) => {
            let start = match rfind_char_before(output, '\n', i) {
                Some(j) => j + 1,
                None => 0,
            };
            let end = match find_from(output, "\n"@, i) {
                Some(k) => k,
                None => output.len() as int,
            };
            let line = output.subrange(start, end);
            let cleaned = spec_replace_char(
                spec_trim(spec_remove_first(line, "| Not valid after:"@)),
                'T',
                ' ',
            );
            Some(cleaned + "  +00:00"@)
        },
        None => None,
    }
}

/// The certificate-expiry timestamp an inspection report yields, if its
/// date text parses.
pub open spec fn spec_ssl_expiry(output: Seq<char>) -> Option<i64> {
    match spec_cert_date_text(output) {
        Some(s) => spec_parsed_epoch_ms(s, "%Y-%m-%d %H:%M:%S %z"@),
        None => None,
    }
}

/// Parse the `Not valid after` timestamp out of a certificate
/// inspection report.
pub fn extract_ssl_expiry(output: &str) -> (r: Option<i64>)
    ensures
        r == spec_ssl_expiry(output@),
{
    match find_sub(output, "Not valid after") {
        Some(i) => {
            proof {
                lemma_find_from_located(output@, "Not valid after"@, 0);
            }
            let olen: usize = output.unicode_len();
            let start: usize = match rfind_char(output, '\n', i) {
                Some(j) => {
                    proof {
                        lemma_rfind_located(output@, '\n', i as int);
                    }
                    j + 1
                },
                None => 0,
            };
            let end: usize = match find_sub_from(output, "\n", i) {
                Some(k) => {
                    proof {
                        lemma_find_from_located(output@, "\n"@, i as int);
                    }
                    k
                },
                None => olen,
            };
            let line = output.substring_char(start, end);
            let stripped = remove_first(line, "| Not valid after:");
            let trimmed = trim_spaces(stripped.as_str());
            let cleaned = replace_char(trimmed, 'T', ' ');
            let full = cleaned.concat("  +00:00");
            parse_epoch_ms(full.as_str(), "%Y-%m-%d %H:%M:%S %z")
        },
        None => None,
    }
}

/// What one certificate scan concludes: a parsed date replaces the
/// stored expiry, any failure keeps it. No watermark moves in this
/// path: an unparseable certificate is retried on the next cycle.
pub open spec fn spec_conclude_ssl(prev_expire: Option<i64>, parsed: Option<i64>) -> Option<i64> {
    match parsed {
        Some(t) => Some(t),
        None => prev_expire,
    }
}

/// Conclude one website's certificate scan. `parsed` is the
/// extraction's result; tool or parse failures arrive here as `None`.
pub fn conclude_ssl_scan(prev_expire: Option<i64>, parsed: Option<i64>) -> (r: Option<i64>)
    ensures
        r == spec_conclude_ssl(prev_expire, parsed),
        parsed is None ==> r == prev_expire,
        parsed is Some ==> r == parsed,
{
    match parsed {
        Some(t) => Some(t),
        None => prev_expire,
    }
}

} // verus!
