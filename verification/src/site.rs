//! The monitored entities as the engine reads and writes them.

use vstd::prelude::*;

verus! {

/// A monitored target. Timestamps are epoch milliseconds; the engine
/// mutates only the expiry-related fields.
pub struct WebSite {
    pub id: u128,
    pub url: String,
    pub keyword: String,
    pub tags: String,
    pub created_at_ms: i64,
    pub domain_expire_at_ms: Option<i64>,
    pub user_id: u128,
    pub useragent: Option<String>,
    pub last_domain_checked_at_ms: Option<i64>,
    pub ssl_expire_at_ms: Option<i64>,
    pub last_ssl_checked_at_ms: Option<i64>,
    pub is_paused: bool,
}

/// An owner. The engine reads only the notification target.
pub struct User {
    pub id: u128,
    pub email: String,
    pub name: String,
    pub created_at_ms: i64,
    pub registered_at_ms: Option<i64>,
    pub discord_webhook: Option<String>,
}

/// Which expiry metadata a scanner refreshes.
#[derive(Clone, Copy, PartialEq, Eq, Structural, Debug)]
pub enum ScanKind {
    Domain,
    Ssl,
}

/// The staleness window: a field checked longer ago than this is
/// refreshed on the next scan.
pub const STALE_WINDOW_MS: i64 = 86400000;

/// The staleness rule on one pair of fields: refresh when the expiry
/// value is absent, when it was never checked, or when the last check
/// lies more than the window in the past.
pub open spec fn spec_is_stale(last_checked: Option<i64>, expire: Option<i64>, now_ms: i64) -> bool {
    match last_checked {
        None => true,
        Some(t) => expire is None || t <= now_ms - STALE_WINDOW_MS,
    }
}

/// Whether a website's domain or certificate metadata is due a rescan.
pub open spec fn spec_scan_due(kind: ScanKind, w: WebSite, now_ms: i64) -> bool {
    match kind {
        ScanKind::Domain => spec_is_stale(w.last_domain_checked_at_ms, w.domain_expire_at_ms, now_ms),
        ScanKind::Ssl => spec_is_stale(w.last_ssl_checked_at_ms, w.ssl_expire_at_ms, now_ms),
    }
}

/// The staleness rule, on plain field values.
pub fn is_stale(last_checked: &Option<i64>, expire: &Option<i64>, now_ms: i64) -> (b: bool)
    requires
        now_ms >= 0,
    ensures
        b == spec_is_stale(*last_checked, *expire, now_ms),
{
    match last_checked {
        None => true,
        Some(t) => expire.is_none() || *t <= now_ms - STALE_WINDOW_MS,
    }
}

/// Whether this website is due for the given scan now.
pub fn scan_due(kind: ScanKind, w: &WebSite, now_ms: i64) -> (b: bool)
    requires
        now_ms >= 0,
    ensures
        b == spec_scan_due(kind, *w, now_ms),
{
    match kind {
        ScanKind::Domain => is_stale(&w.last_domain_checked_at_ms, &w.domain_expire_at_ms, now_ms),
        ScanKind::Ssl => is_stale(&w.last_ssl_checked_at_ms, &w.ssl_expire_at_ms, now_ms),
    }
}

/// The positions, in order, of the websites due for the given scan.
pub open spec fn spec_due_indices(kind: ScanKind, sites: Seq<WebSite>, now_ms: i64, i: int) -> Seq<
    int,
>
    decreases sites.len() - i,
{
    if i < 0 || i >= sites.len() {
        Seq::empty()
    } else if spec_scan_due(kind, sites[i], now_ms) {
        seq![i] + spec_due_indices(kind, sites, now_ms, i + 1)
    } else {
        spec_due_indices(kind, sites, now_ms, i + 1)
    }
}

/// A sequence of positions, widened to `int`.
pub open spec fn spec_to_ints(s: Seq<usize>) -> Seq<int> {
    s.map_values(|u: usize| u as int)
}

/// Select the candidate set of one scan cycle: the positions of exactly
/// those websites whose metadata is due a refresh, oldest position
/// first.
pub fn due_candidates(kind: ScanKind, sites: &Vec<WebSite>, now_ms: i64) -> (idx: Vec<usize>)
    requires
        now_ms >= 0,
    ensures
        spec_to_ints(idx@) == spec_due_indices(kind, sites@, now_ms, 0),
{
    let n = sites.len();
    let mut idx: Vec<usize> = Vec::new();
    proof {
        assert(spec_to_ints(idx@) =~= Seq::<int>::empty());
    }
    let mut i: usize = 0;
    while i < n
        invariant
            n == sites@.len(),
            i <= n,
            now_ms >= 0,
            spec_to_ints(idx@) + spec_due_indices(kind, sites@, now_ms, i as int)
                == spec_due_indices(kind, sites@, now_ms, 0),
        decreases n - i,
    {
        let ghost before = spec_to_ints(idx@);
        if scan_due(kind, &sites[i], now_ms) {
            idx.push(i);
            proof {
                assert(spec_to_ints(idx@) =~= before + seq![i as int]);
                assert(spec_to_ints(idx@) + spec_due_indices(kind, sites@, now_ms, i + 1) =~= before
                    + spec_due_indices(kind, sites@, now_ms, i as int));
            }
        }
        i = i + 1;
    }
    proof {
        assert(spec_due_indices(kind, sites@, now_ms, n as int) =~= Seq::<int>::empty());
        assert(spec_to_ints(idx@) =~= spec_to_ints(idx@) + Seq::<int>::empty());
    }
    idx
}

/// The selection is exactly the due websites: every selected position
/// is in range and due, every due position is selected, and the
/// selection is strictly increasing, so no website is scanned twice in
/// one cycle.
pub proof fn lemma_due_indices_sound(kind: ScanKind, sites: Seq<WebSite>, now_ms: i64, i: int)
    requires
        0 <= i,
    ensures
        forall|x: int|
            #[trigger] spec_due_indices(kind, sites, now_ms, i).contains(x) ==> i <= x
                < sites.len() && spec_scan_due(kind, sites[x], now_ms),
        forall|j: int|
            i <= j < sites.len() && #[trigger] spec_scan_due(kind, sites[j], now_ms)
                ==> spec_due_indices(kind, sites, now_ms, i).contains(j),
        forall|k1: int, k2: int|
            0 <= k1 < k2 < spec_due_indices(kind, sites, now_ms, i).len()
                ==> #[trigger] spec_due_indices(kind, sites, now_ms, i)[k1]
                < #[trigger] spec_due_indices(kind, sites, now_ms, i)[k2],
    decreases sites.len() - i,
{
    if 0 <= i < sites.len() {
        lemma_due_indices_sound(kind, sites, now_ms, i + 1);
        let s = spec_due_indices(kind, sites, now_ms, i);
        let rest = spec_due_indices(kind, sites, now_ms, i + 1);
        let due = spec_scan_due(kind, sites[i], now_ms);
        assert forall|j: int|
            i <= j < sites.len() && #[trigger] spec_scan_due(kind, sites[j], now_ms) implies s.contains(
            j,
        ) by {
            if j == i {
                assert(s[0] == i);
                assert(s.contains(i));
            } else {
                assert(rest.contains(j));
                let k = choose|k: int| 0 <= k < rest.len() && rest[k] == j;
                if due {
                    assert(s[k + 1] == j);
                } else {
                    assert(s[k] == j);
                }
                assert(s.contains(j));
            }
        }
        assert forall|x: int| #[trigger] s.contains(x) implies i <= x < sites.len()
            && spec_scan_due(kind, sites[x], now_ms) by {
            let k = choose|k: int| 0 <= k < s.len() && s[k] == x;
            if due {
                if k == 0 {
                    assert(x == i);
                } else {
                    assert(rest[k - 1] == x);
                    assert(rest.contains(x));
                }
            } else {
                assert(rest[k] == x);
                assert(rest.contains(x));
            }
        }
        assert forall|k1: int, k2: int| 0 <= k1 < k2 < s.len() implies s[k1] < s[k2] by {
            if due {
                assert(s[k2] == rest[k2 - 1]);
                assert(rest.contains(rest[k2 - 1]));
                if k1 > 0 {
                    assert(s[k1] == rest[k1 - 1]);
                }
            } else {
                assert(s[k1] == rest[k1]);
                assert(s[k2] == rest[k2]);
            }
        }
    }
}

} // verus!
