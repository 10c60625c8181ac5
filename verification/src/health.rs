//! The per-website decisions of one health-check cycle.
//!
//! For each website the scheduler loads its current state, decides
//! whether to probe at all, and after the probe phase decides what to
//! write and whether to notify. The probe itself and the writes are the
//! caller's; every decision in between is made, and proved, here.

use vstd::prelude::*;
use crate::status::Status;
use crate::probe::ProbeResult;
use crate::history::History;
use crate::history::spec_record;

verus! {

/// One website as the scheduler sees it at cycle start: joined with its
/// current state and its owner's notification target.
pub struct HealthTarget {
    pub website_id: u128,
    pub url: String,
    pub keyword: String,
    pub useragent: Option<String>,
    pub discord_webhook: Option<String>,
    pub state: Status,
    pub is_paused: bool,
}

/// What the cycle does with one website before any network call.
#[derive(Clone, Copy, PartialEq, Eq, Structural, Debug)]
pub enum ProbePlan {
    /// Paused and already recorded as paused: nothing at all.
    SkipPaused,
    /// Paused but not yet recorded as paused: write one `paused` row
    /// with duration 0, no probe.
    RecordPaused,
    /// Live: issue the probe.
    Probe,
}

/// Paused handling: a paused website is never probed; its first paused
/// cycle records `paused` once, later paused cycles record nothing.
pub open spec fn spec_plan(is_paused: bool, current: Status) -> ProbePlan {
    if is_paused {
        if current is Paused {
            ProbePlan::SkipPaused
        } else {
            ProbePlan::RecordPaused
        }
    } else {
        ProbePlan::Probe
    }
}

/// Decide whether this website is probed this cycle.
pub fn plan_probe(is_paused: bool, current: Status) -> (p: ProbePlan)
    ensures
        p == spec_plan(is_paused, current),
{
    if is_paused {
        if current == Status::Paused {
            ProbePlan::SkipPaused
        } else {
            ProbePlan::RecordPaused
        }
    } else {
        ProbePlan::Probe
    }
}

/// What one finished probe leads to: at most one appended row, and a
/// notification only on a transition to an owner with a webhook.
#[derive(Clone, Copy, PartialEq, Eq, Structural, Debug)]
pub struct CycleDecision {
    /// The row to append, if the state changed.
    pub write: Option<ProbeResult>,
    /// Whether to fire the owner's webhook.
    pub notify: bool,
}

/// Transition detection: a row is written and a webhook considered only
/// when the final classified state differs from the loaded current
/// state.
pub open spec fn spec_conclude(
    current: Status,
    outcome: ProbeResult,
    has_webhook: bool,
) -> CycleDecision {
    if outcome.status != current {
        CycleDecision { write: Some(outcome), notify: has_webhook }
    } else {
        CycleDecision { write: None, notify: false }
    }
}

/// Decide what the finished probe phase writes and whether it notifies.
pub fn conclude_probe(current: Status, outcome: ProbeResult, has_webhook: bool) -> (d:
    CycleDecision)
    ensures
        d == spec_conclude(current, outcome, has_webhook),
{
    if outcome.status != current {
        CycleDecision { write: Some(outcome), notify: has_webhook }
    } else {
        CycleDecision { write: None, notify: false }
    }
}

/// A steady state writes nothing: a cycle whose final probe result is
/// the state the website is already in decides against both the row and
/// the webhook, and even recording that state directly would leave the
/// history's rows exactly as they are.
pub proof fn lemma_steady_state_cycle(
    h: History,
    current: Status,
    outcome: ProbeResult,
    has_webhook: bool,
    now_ms: i64,
)
    requires
        h.wf(),
        h.spec_current() matches Some(r) && r.state == current,
        outcome.status == current,
    ensures
        spec_conclude(current, outcome, has_webhook).write is None,
        !spec_conclude(current, outcome, has_webhook).notify,
        spec_record(
            h.rows_seq(),
            h.spec_website_id(),
            outcome.status,
            outcome.duration_ms,
            now_ms,
        ) == h.rows_seq(),
{
}

/// A paused website never issues a probe, and pausing writes exactly one
/// `paused` row: the first paused cycle records it, after which the
/// current state is `paused` and every later paused cycle skips the
/// website entirely, writing nothing, until it is un-paused.
pub proof fn lemma_paused_cycles(h: History, now_ms: i64)
    requires
        h.wf(),
    ensures
        spec_plan(true, Status::Paused) is SkipPaused,
        forall|current: Status| spec_plan(true, current) != ProbePlan::Probe,
        !(h.spec_current() matches Some(r) && r.state is Paused) ==> spec_record(
            h.rows_seq(),
            h.spec_website_id(),
            Status::Paused,
            0,
            now_ms,
        ).len() == h.rows_seq().len() + 1,
        (h.spec_current() matches Some(r) && r.state is Paused) ==> spec_record(
            h.rows_seq(),
            h.spec_website_id(),
            Status::Paused,
            0,
            now_ms,
        ) == h.rows_seq(),
{
}

} // verus!
