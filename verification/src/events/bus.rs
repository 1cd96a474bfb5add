//! The decision an event bus takes while draining on shutdown.
//!
//! A bus counts the emissions still running; draining polls that count
//! until it reaches zero or a deadline passes.

use vstd::prelude::*;

verus! {

/// Draining gave up at the deadline with `remaining` emissions still
/// running.
#[derive(Clone, Copy, Debug, PartialEq, Eq, Structural)]
pub struct DrainError {
    pub remaining: usize,
}

/// What a drain poll decides.
#[derive(Clone, Copy, Debug, PartialEq, Eq, Structural)]
pub enum DrainStep {
    /// Nothing is in flight: the drain succeeded.
    Drained,
    /// The deadline passed with emissions still running.
    TimedOut(DrainError),
    /// Emissions are running and time is left: sleep and poll again.
    Wait,
}

/// The decision of one poll (see [`drain_step`]).
pub open spec fn drain_decision(in_flight: usize, deadline_passed: bool) -> DrainStep {
    if in_flight == 0 {
        DrainStep::Drained
    } else if deadline_passed {
        DrainStep::TimedOut(DrainError { remaining: in_flight })
    } else {
        DrainStep::Wait
    }
}

/// The outcome of a drain over successive polls, each poll giving the
/// count in flight and whether the deadline had passed: the decision of
/// the first poll that does not wait (`Wait` while every poll so far
/// waited).
pub open spec fn drain_outcome(polls: Seq<(usize, bool)>) -> DrainStep
    decreases polls.len(),
{
    if polls.len() == 0 {
        DrainStep::Wait
    } else if drain_decision(polls[0].0, polls[0].1) is Wait {
        drain_outcome(polls.drop_first())
    } else {
        drain_decision(polls[0].0, polls[0].1)
    }
}

/// Every poll before `k` found emissions running with the deadline not
/// yet passed.
pub open spec fn waited_until(polls: Seq<(usize, bool)>, k: int) -> bool {
    forall|j: int| 0 <= j < k ==> polls[j].0 != 0 && !polls[j].1
}

/// A drain succeeds at the first poll that finds nothing in flight, as long
/// as every earlier poll was before the deadline (at once when the first
/// poll finds nothing); it fails at the first poll past the deadline that
/// still finds emissions running, reporting that poll's positive count;
/// and it keeps waiting only while every poll waited.
pub proof fn law_drain_over_polls(polls: Seq<(usize, bool)>)
    ensures
        polls.len() > 0 && polls[0].0 == 0 ==> drain_outcome(polls) == DrainStep::Drained,
        match drain_outcome(polls) {
            DrainStep::Drained => exists|k: int|
                0 <= k < polls.len() && #[trigger] polls[k].0 == 0 && waited_until(polls, k),
            DrainStep::TimedOut(e) => exists|k: int|
                0 <= k < polls.len() && #[trigger] polls[k].0 == e.remaining && e.remaining > 0
                    && polls[k].1 && waited_until(polls, k),
            DrainStep::Wait => waited_until(polls, polls.len() as int),
        },
    decreases polls.len(),
{
    if polls.len() > 0 {
        let rest = polls.drop_first();
        law_drain_over_polls(rest);
        if drain_decision(polls[0].0, polls[0].1) is Wait {
            match drain_outcome(rest) {
                DrainStep::Drained => {
                    let k = choose|k: int|
                        0 <= k < rest.len() && #[trigger] rest[k].0 == 0 && waited_until(rest, k);
                    assert(polls[k + 1].0 == 0);
                    assert(waited_until(polls, k + 1)) by {
                        assert forall|j: int| 0 <= j < k + 1 implies polls[j].0 != 0 && !polls[j].1 by {
                            if j > 0 {
                                assert(polls[j] == rest[j - 1]);
                            }
                        }
                    }
                },
                DrainStep::TimedOut(e) => {
                    let k = choose|k: int|
                        0 <= k < rest.len() && #[trigger] rest[k].0 == e.remaining && e.remaining > 0
                            && rest[k].1 && waited_until(rest, k);
                    assert(polls[k + 1].0 == e.remaining);
                    assert(waited_until(polls, k + 1)) by {
                        assert forall|j: int| 0 <= j < k + 1 implies polls[j].0 != 0 && !polls[j].1 by {
                            if j > 0 {
                                assert(polls[j] == rest[j - 1]);
                            }
                        }
                    }
                },
                DrainStep::Wait => {
                    assert forall|j: int| 0 <= j < polls.len() implies polls[j].0 != 0 && !polls[j].1 by {
                        if j > 0 {
                            assert(polls[j] == rest[j - 1]);
                        }
                    }
                },
            }
        } else {
            assert(polls[0].0 == polls[0].0);
        }
    }
}

/// One poll of a drain, given the number of emissions in flight and
/// whether the deadline has passed. An empty bus drains even when the
/// deadline has passed; a busy one times out only once it has.
pub fn drain_step(in_flight: usize, deadline_passed: bool) -> (s: DrainStep)
    ensures
        s == drain_decision(in_flight, deadline_passed),
{
    if in_flight == 0 {
        DrainStep::Drained
    } else if deadline_passed {
        DrainStep::TimedOut(DrainError { remaining: in_flight })
    } else {
        DrainStep::Wait
    }
}

} // verus!
