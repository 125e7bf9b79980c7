//! The time range during which an invitation is available.
//!
//! Instants are counts of milliseconds relative to an epoch. An interval may
//! be open on either or both ends; an absent bound excludes nothing.

use vstd::prelude::*;

verus! {

/// A validity interval over instants, in one of four shapes.
#[derive(Debug, Clone, Copy, PartialEq, Eq, Structural)]
pub enum Validity {
    /// No bound on either side.
    Unbounded,
    /// Bounded at the start only, inclusive.
    StartingOn(i64),
    /// Bounded at the end only, inclusive.
    Until(i64),
    /// Bounded on both sides, both inclusive.
    Bounded(i64, i64),
}

impl Validity {
    /// Whether the interval contains the given instant; a bound that is
    /// absent excludes nothing.
    pub open spec fn spec_contains(self, instant: i64) -> bool {
        match self {
            Validity::Unbounded => true,
            Validity::StartingOn(start) => start <= instant,
            Validity::Until(end) => instant <= end,
            Validity::Bounded(start, end) => start <= instant && instant <= end,
        }
    }

    /// Well-formed: when both bounds are present, the start does not fall
    /// after the end.
    pub open spec fn wf(self) -> bool {
        match self {
            Validity::Bounded(start, end) => start <= end,
            _ => true,
        }
    }

    /// The lower bound, when one is present.
    pub open spec fn spec_starting_on(self) -> Option<i64> {
        match self {
            Validity::Unbounded => None,
            Validity::StartingOn(start) => Some(start),
            Validity::Until(_) => None,
            Validity::Bounded(start, _) => Some(start),
        }
    }

    /// The upper bound, when one is present.
    pub open spec fn spec_until(self) -> Option<i64> {
        match self {
            Validity::Unbounded => None,
            Validity::StartingOn(_) => None,
            Validity::Until(end) => Some(end),
            Validity::Bounded(_, end) => Some(end),
        }
    }

    /// Whether the interval contains the given instant.
    pub fn contains(&self, instant: i64) -> (r: bool)
        ensures
            r == self.spec_contains(instant),
    {
        match self {
            Validity::Unbounded => true,
            Validity::StartingOn(start) => *start <= instant,
            Validity::Until(end) => instant <= *end,
            Validity::Bounded(start, end) => *start <= instant && instant <= *end,
        }
    }

    /// The lower bound, when one is present.
    pub fn starting_on(&self) -> (r: Option<i64>)
        ensures
            r == self.spec_starting_on(),
    {
        match self {
            Validity::Unbounded => None,
            Validity::StartingOn(start) => Some(*start),
            Validity::Until(_) => None,
            Validity::Bounded(start, _) => Some(*start),
        }
    }

    /// The upper bound, when one is present.
    pub fn until(&self) -> (r: Option<i64>)
        ensures
            r == self.spec_until(),
    {
        match self {
            Validity::Unbounded => None,
            Validity::StartingOn(_) => None,
            Validity::Until(end) => Some(*end),
            Validity::Bounded(_, end) => Some(*end),
        }
    }
}

/// Law: an unbounded interval contains every instant.
pub proof fn lemma_unbounded_contains_every_instant(instant: i64)
    ensures
        Validity::Unbounded.spec_contains(instant),
{
}

/// Law: an interval that ends strictly before an instant does not contain it.
pub proof fn lemma_interval_in_past_excludes(start: i64, end: i64, instant: i64)
    requires
        end < instant,
    ensures
        !Validity::Bounded(start, end).spec_contains(instant),
        !Validity::Until(end).spec_contains(instant),
{
}

/// Law: an interval that starts strictly after an instant does not contain it.
pub proof fn lemma_interval_in_future_excludes(start: i64, end: i64, instant: i64)
    requires
        instant < start,
    ensures
        !Validity::Bounded(start, end).spec_contains(instant),
        !Validity::StartingOn(start).spec_contains(instant),
{
}

/// Law: an interval that spans an instant contains it.
pub proof fn lemma_spanning_interval_contains(start: i64, end: i64, instant: i64)
    requires
        start <= instant,
        instant <= end,
    ensures
        Validity::Bounded(start, end).spec_contains(instant),
{
}

} // verus!
