//! The timeout of a [`TwitterStreamBuilder`](crate::stream_builder::TwitterStreamBuilder)
//! stream: a deadline that every item moves back.
//!
//! The timer itself belongs to the runtime that drives the stream; this decides what a poll of
//! the stream does with what the body and the timer answered.

use vstd::prelude::*;

verus! {

/// What polling the body gave.
#[derive(Clone, Copy, Debug, PartialEq, Eq, Structural)]
pub enum BodyPoll {
    /// A chunk.
    Item,
    /// The end of the body.
    End,
    /// Nothing yet.
    NotReady,
    /// An error of the body.
    Failed,
}

/// What polling the timer gave.
#[derive(Clone, Copy, Debug, PartialEq, Eq, Structural)]
pub enum TimerPoll {
    /// The deadline has passed.
    Elapsed,
    /// The deadline has not passed yet.
    Pending,
    /// The timer failed for a passing reason.
    Failed,
    /// The timer's runtime has shut down: the timer can never fire.
    Shutdown,
}

/// What the stream does.
#[derive(Clone, Copy, Debug, PartialEq, Eq, Structural)]
pub enum StreamStep {
    /// Hands out the chunk.
    Yield,
    /// Ends.
    End,
    /// Fails: the stream timed out.
    TimedOut,
    /// Fails with the body's error.
    Fail,
    /// Waits to be polled again.
    Wait,
}

/// The step of the stream, and whether to move the deadline back (`reset`) or to drop the
/// timer (`cancel`).
#[derive(Clone, Copy, Debug, PartialEq, Eq, Structural)]
pub struct Decision {
    pub step: StreamStep,
    pub reset: bool,
    pub cancel: bool,
}

pub open spec fn spec_decision(body: BodyPoll, timer: Option<TimerPoll>) -> Decision {
    match body {
        BodyPoll::Item => Decision { step: StreamStep::Yield, reset: timer is Some, cancel: false },
        BodyPoll::End => Decision { step: StreamStep::End, reset: false, cancel: false },
        BodyPoll::Failed => Decision { step: StreamStep::Fail, reset: false, cancel: false },
        BodyPoll::NotReady => match timer {
            Some(TimerPoll::Elapsed) => Decision { step: StreamStep::TimedOut, reset: false, cancel: false },
            Some(TimerPoll::Shutdown) => Decision { step: StreamStep::Wait, reset: false, cancel: true },
            _ => Decision { step: StreamStep::Wait, reset: false, cancel: false },
        },
    }
}

/// Decides a poll of a stream with a timeout: an item is handed out and moves the deadline
/// back; the end of the body ends the stream; an error of the body is passed on, the deadline
/// left as it is; when the body has nothing yet, the stream times
/// out if the deadline has passed, and otherwise waits (dropping a timer that can no longer
/// fire). `timer` is `None` when the stream has no timeout; it is polled only when the body
/// has nothing.
pub fn timeout_step(body: BodyPoll, timer: Option<TimerPoll>) -> (d: Decision)
    ensures
        d == spec_decision(body, timer),
{
    match body {
        BodyPoll::Item => Decision { step: StreamStep::Yield, reset: timer.is_some(), cancel: false },
        BodyPoll::End => Decision { step: StreamStep::End, reset: false, cancel: false },
        BodyPoll::Failed => Decision { step: StreamStep::Fail, reset: false, cancel: false },
        BodyPoll::NotReady => match timer {
            Some(TimerPoll::Elapsed) => Decision { step: StreamStep::TimedOut, reset: false, cancel: false },
            Some(TimerPoll::Shutdown) => Decision { step: StreamStep::Wait, reset: false, cancel: true },
            _ => Decision { step: StreamStep::Wait, reset: false, cancel: false },
        },
    }
}

/// A stream times out exactly when the body has nothing and the deadline has passed; while
/// the deadline has not passed, a body with nothing makes the stream wait, and only a timer
/// whose runtime has shut down is dropped. The deadline moves back exactly when an item is
/// handed out on a stream that has a timeout.
pub proof fn times_out_only_after_the_deadline(body: BodyPoll, timer: Option<TimerPoll>)
    ensures
        (spec_decision(body, timer).step == StreamStep::TimedOut) <==> (body == BodyPoll::NotReady
            && timer == Some(TimerPoll::Elapsed)),
        body == BodyPoll::NotReady && timer != Some(TimerPoll::Elapsed) ==> spec_decision(
            body,
            timer,
        ).step == StreamStep::Wait,
        spec_decision(body, timer).cancel <==> (body == BodyPoll::NotReady && timer == Some(
            TimerPoll::Shutdown,
        )),
        spec_decision(body, timer).reset <==> (body == BodyPoll::Item && timer is Some),
        body == BodyPoll::Item ==> spec_decision(body, timer).step == StreamStep::Yield,
        body == BodyPoll::End ==> spec_decision(body, timer).step == StreamStep::End,
        body == BodyPoll::Failed ==> spec_decision(body, timer).step == StreamStep::Fail,
{
}

/// Without a timeout a stream never times out.
pub proof fn no_timeout_never_times_out(body: BodyPoll)
    ensures
        spec_decision(body, None).step != StreamStep::TimedOut,
        !spec_decision(body, None).reset && !spec_decision(body, None).cancel,
{
}

} // verus!
