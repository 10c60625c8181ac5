//! Extracting the registrable hostname from a website url.

use vstd::prelude::*;
use crate::text::find_from;
use crate::text::spec_starts_with;
use crate::text::strip_prefix_if;
use crate::text::prefix_before;

verus! {

/// A url with its scheme prefix removed: first `https://`, then
/// `http://`, each only when present.
pub open spec fn spec_without_scheme(url: Seq<char>) -> Seq<char> {
    let a = if spec_starts_with(url, "https://"@) {
        url.subrange("https://"@.len() as int, url.len() as int)
    } else {
        url
    };
    if spec_starts_with(a, "http://"@) {
        a.subrange("http://"@.len() as int, a.len() as int)
    } else {
        a
    }
}

/// The hostname of a url: the scheme stripped, then everything up to
/// the first path separator.
pub open spec fn spec_host_of(url: Seq<char>) -> Seq<char> {
    let bare = spec_without_scheme(url);
    match find_from(bare, "/"@, 0) {
        Some(i) => bare.subrange(0, i),
        None => bare,
    }
}

/// Strip the scheme and the path from a website url, leaving the bare
/// hostname the scanners look up.
pub fn extract_host(url: &str) -> (h: String)
    ensures
        h@ == spec_host_of(url@),
{
    let a = strip_prefix_if(url, "https://");
    let b = strip_prefix_if(a, "http://");
    let host = prefix_before(b, "/");
    String::from_str(host)
}

/// The WHOIS lookup page scraped for a hostname.
pub fn whois_url(host: &str) -> (u: String)
    ensures
        u@ == "https://www.whois.com/whois/"@ + host@,
{
    String::from_str("https://www.whois.com/whois/").concat(host)
}

} // verus!
