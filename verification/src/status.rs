//! The classified availability states a website can be in.

use vstd::prelude::*;
use crate::text::str_eq;

verus! {

/// One availability state of a monitored website, as recorded in its
/// history. `Created` is written once by the dashboard when the site is
/// registered; the engine itself writes only `Up`, `Down` and `Paused`.
#[derive(Clone, Copy, PartialEq, Eq, Structural, Debug)]
pub enum Status {
    Created,
    Up,
    Down,
    Paused,
}

/// The storage-level label of a status.
pub open spec fn spec_label(s: Status) -> Seq<char> {
    match s {
        Status::Created => "created"@,
        Status::Up => "up"@,
        Status::Down => "down"@,
        Status::Paused => "paused"@,
    }
}

impl Status {
    /// The label under which this status is stored and displayed.
    pub fn label(&self) -> (r: &'static str)
        ensures
            r@ == spec_label(*self),
    {
        match self {
            Status::Created => "created",
            Status::Up => "up",
            Status::Down => "down",
            Status::Paused => "paused",
        }
    }

    /// The status a storage-level label denotes, if it denotes one.
    pub fn from_label(s: &str) -> (r: Option<Status>)
        ensures
            match r {
                Some(st) => s@ == spec_label(st),
                None => forall|st: Status| s@ != spec_label(st),
            },
    {
        if str_eq(s, "created") {
            Some(Status::Created)
        } else if str_eq(s, "up") {
            Some(Status::Up)
        } else if str_eq(s, "down") {
            Some(Status::Down)
        } else if str_eq(s, "paused") {
            Some(Status::Paused)
        } else {
            proof {
                assert forall|st: Status| s@ != spec_label(st) by {
                    match st {
                        Status::Created => assert(s@ != "created"@),
                        Status::Up => assert(s@ != "up"@),
                        Status::Down => assert(s@ != "down"@),
                        Status::Paused => assert(s@ != "paused"@),
                    }
                }
            }
            None
        }
    }
}

} // verus!
