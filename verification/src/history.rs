//! The append-only availability history of one website.
//!
//! Storage keeps one `WebSiteState` row per transition; the row with the
//! greatest `created_at` is the website's current state. The engine only
//! ever appends, and only on a change of state.

use vstd::prelude::*;
use crate::status::Status;

verus! {

/// One immutable history record: the state a website entered, the
/// milliseconds spent probing (0 where no probe was made), and the
/// moment the state became effective.
#[derive(Clone, Copy, PartialEq, Eq, Structural, Debug)]
pub struct WebSiteState {
    pub website_id: u128,
    pub state: Status,
    pub duration_ms: i64,
    pub created_at_ms: i64,
}

/// What recording a probe result does to the rows of a history: nothing
/// when the state did not change, one appended row when it did.
pub open spec fn spec_record(
    rows: Seq<WebSiteState>,
    website_id: u128,
    state: Status,
    duration_ms: i64,
    now_ms: i64,
) -> Seq<WebSiteState> {
    if rows.len() > 0 && rows.last().state == state {
        rows
    } else {
        rows.push(
            WebSiteState { website_id, state, duration_ms, created_at_ms: now_ms },
        )
    }
}

/// The state history of one website, within one uninterrupted run of the
/// scheduler.
pub struct History {
    website_id: u128,
    rows: Vec<WebSiteState>,
}

impl History {
    /// The rows, oldest first.
    pub closed spec fn rows_seq(&self) -> Seq<WebSiteState> {
        self.rows@
    }

    /// The website these rows belong to.
    pub closed spec fn spec_website_id(&self) -> u128 {
        self.website_id
    }

    /// Well-formedness: rows are totally ordered by `created_at`, no two
    /// consecutive rows carry the same state, and every row belongs to
    /// this website.
    pub open spec fn wf(&self) -> bool {
        &&& forall|i: int, j: int|
            0 <= i < j < self.rows_seq().len() ==> #[trigger] self.rows_seq()[i].created_at_ms
                < #[trigger] self.rows_seq()[j].created_at_ms
        &&& forall|i: int|
            0 < i < self.rows_seq().len() ==> #[trigger] self.rows_seq()[i].state
                != self.rows_seq()[i - 1].state
        &&& forall|i: int|
            0 <= i < self.rows_seq().len() ==> #[trigger] self.rows_seq()[i].website_id
                == self.spec_website_id()
    }

    /// The current state: the latest row, if any row exists.
    pub open spec fn spec_current(&self) -> Option<WebSiteState> {
        if self.rows_seq().len() == 0 {
            None
        } else {
            Some(self.rows_seq().last())
        }
    }

    /// A history with no rows yet: the website has no known state.
    pub fn new(website_id: u128) -> (h: History)
        ensures
            h.wf(),
            h.spec_website_id() == website_id,
            h.rows_seq() == Seq::<WebSiteState>::empty(),
            h.spec_current() is None,
    {
        let h = History { website_id, rows: Vec::new() };
        proof {
            assert(h.rows_seq() =~= Seq::<WebSiteState>::empty());
        }
        h
    }

    /// The number of rows.
    pub fn len(&self) -> (n: usize)
        ensures
            n == self.rows_seq().len(),
    {
        self.rows.len()
    }

    /// The row at position `i`, oldest first.
    pub fn row_at(&self, i: usize) -> (r: WebSiteState)
        requires
            i < self.rows_seq().len(),
        ensures
            r == self.rows_seq()[i as int],
    {
        self.rows[i]
    }

    /// The current state, as the dashboard and the scheduler read it.
    pub fn current(&self) -> (r: Option<WebSiteState>)
        ensures
            r == self.spec_current(),
    {
        if self.rows.len() == 0 {
            None
        } else {
            Some(self.rows[self.rows.len() - 1])
        }
    }

    /// Record the result of one cycle. Appends exactly one row when the
    /// state changed, none when it did not; existing rows are never
    /// touched.
    #[verifier::rlimit(60)]
    pub fn record(&mut self, state: Status, duration_ms: i64, now_ms: i64)
        requires
            old(self).wf(),
            old(self).rows_seq().len() > 0 ==> now_ms > old(self).rows_seq().last().created_at_ms,
        ensures
            final(self).wf(),
            final(self).spec_website_id() == old(self).spec_website_id(),
            final(self).rows_seq() == spec_record(
                old(self).rows_seq(),
                old(self).spec_website_id(),
                state,
                duration_ms,
                now_ms,
            ),
            old(self).rows_seq().is_prefix_of(final(self).rows_seq()),
            final(self).spec_current() matches Some(r) && r.state == state,
    {
        let n = self.rows.len();
        if n > 0 && self.rows[n - 1].state == state {
            proof {
                assert(old(self).rows_seq().is_prefix_of(self.rows_seq()));
            }
            return ;
        }
        let row = WebSiteState {
            website_id: self.website_id,
            state,
            duration_ms,
            created_at_ms: now_ms,
        };
        self.rows.push(row);
        proof {
            let rows = self.rows_seq();
            let orows = old(self).rows_seq();
            assert(rows == orows.push(row));
            assert(rows.last() == row);
            assert forall|i: int, j: int| 0 <= i < j < rows.len() implies rows[i].created_at_ms
                < rows[j].created_at_ms by {
                if j < rows.len() - 1 {
                } else {
                    if i < orows.len() - 1 {
                        assert(orows[i].created_at_ms < orows[orows.len() - 1].created_at_ms);
                    }
                }
            }
            assert(orows.is_prefix_of(rows));
        }
    }
}

/// The current state is the one row with the maximum `created_at`: the
/// latest row bounds every row's timestamp from above, strictly so for
/// every earlier row.
pub proof fn lemma_current_is_max(h: History)
    requires
        h.wf(),
        h.rows_seq().len() > 0,
    ensures
        h.spec_current() == Some(h.rows_seq().last()),
        forall|i: int|
            0 <= i < h.rows_seq().len() ==> h.rows_seq()[i].created_at_ms <= h.rows_seq()
                .last().created_at_ms,
        forall|i: int|
            0 <= i < h.rows_seq().len() - 1 ==> h.rows_seq()[i].created_at_ms < h.rows_seq()
                .last().created_at_ms,
{
    assert forall|i: int| 0 <= i < h.rows_seq().len() implies h.rows_seq()[i].created_at_ms
        <= h.rows_seq().last().created_at_ms by {
        if i < h.rows_seq().len() - 1 {
            assert(h.rows_seq()[i].created_at_ms < h.rows_seq()[h.rows_seq().len()
                - 1].created_at_ms);
        }
    }
}

/// History only records transitions: no two consecutive rows of a
/// well-formed history carry the same state, and recording the state the
/// website is already in leaves the rows untouched.
pub proof fn lemma_transitions_only(h: History, state: Status, duration_ms: i64, now_ms: i64)
    requires
        h.wf(),
    ensures
        forall|i: int|
            0 < i < h.rows_seq().len() ==> #[trigger] h.rows_seq()[i].state != h.rows_seq()[
                i - 1
            ].state,
        (h.spec_current() matches Some(r) && r.state == state) ==> spec_record(
            h.rows_seq(),
            h.spec_website_id(),
            state,
            duration_ms,
            now_ms,
        ) == h.rows_seq(),
{
}

} // verus!
