//! The input synthesiser: a session that submits each event of an input's
//! event stream on its own, pausing after each, and stops at the first
//! submission that the injection facility does not fully accept.
use vstd::prelude::*;

use crate::keys::{KeyEvent, down_event_of, event_stream, key_events, lemma_event_order, up_event_of};

verus! {

/// Pause after each submitted event, in milliseconds, so that the receiving
/// application neither drops nor coalesces events.
pub const PACING_DELAY_MS: u64 = 40;

/// Why typing stopped early.
#[derive(Clone, Copy, Debug, PartialEq, Eq, Structural)]
pub enum TypingError {
    /// The injection facility accepted no event (input is blocked).
    InjectionRejected,
    /// The injection facility accepted a number of events other than the number submitted.
    InjectionPartial,
}

/// What a submission of `submitted` events comes to when the facility
/// reports `accepted` of them.
pub open spec fn submission_verdict(submitted: nat, accepted: nat) -> Result<(), TypingError> {
    if accepted == 0 {
        Err(TypingError::InjectionRejected)
    } else if accepted != submitted {
        Err(TypingError::InjectionPartial)
    } else {
        Ok(())
    }
}

/// Judges the count of accepted events that the facility reported for a
/// submission of `submitted` events.
pub fn check_submission(submitted: usize, accepted: u32) -> (r: Result<(), TypingError>)
    ensures
        r == submission_verdict(submitted as nat, accepted as nat),
{
    if accepted == 0 {
        Err(TypingError::InjectionRejected)
    } else if accepted as usize != submitted {
        Err(TypingError::InjectionPartial)
    } else {
        Ok(())
    }
}

/// The next thing the caller of a typing session has to do.
#[derive(Clone, Copy, Debug)]
pub enum TypingStep {
    /// Submit this event alone, then report the accepted count.
    Submit(KeyEvent),
    /// Block for this many milliseconds, then report that the pause is over.
    Pause(u64),
    /// Typing is over, with this outcome.
    Finished(Result<(), TypingError>),
}

/// A typing session over a fixed event stream.
pub struct TypingSession {
    events: Vec<KeyEvent>,
    position: usize,
    pausing: bool,
    outcome: Option<Result<(), TypingError>>,
}

impl TypingSession {
    /// The events to be submitted, in order.
    pub closed spec fn events(&self) -> Seq<KeyEvent> {
        self.events@
    }

    /// How many events have been submitted and accepted.
    pub closed spec fn position(&self) -> nat {
        self.position as nat
    }

    /// Whether the pause after the last accepted event is still owed.
    pub closed spec fn pausing(&self) -> bool {
        self.pausing
    }

    /// The outcome, once a submission has failed.
    pub closed spec fn outcome(&self) -> Option<Result<(), TypingError>> {
        self.outcome
    }

    pub open spec fn wf(&self) -> bool {
        &&& self.position() <= self.events().len() <= usize::MAX
        &&& (self.pausing() ==> self.position() > 0)
        &&& (self.outcome() is Some ==> self.outcome()->0 is Err && !self.pausing())
    }

    /// What the session asks for next.
    pub open spec fn step(&self) -> TypingStep {
        if self.outcome() is Some {
            TypingStep::Finished(self.outcome()->0)
        } else if self.pausing() {
            TypingStep::Pause(PACING_DELAY_MS)
        } else if self.position() < self.events().len() {
            TypingStep::Submit(self.events()[self.position() as int])
        } else {
            TypingStep::Finished(Ok(()))
        }
    }

    /// Whether the session is at the start of typing `input`.
    pub open spec fn starts(&self, input: Seq<u16>) -> bool {
        &&& self.wf()
        &&& self.events() == event_stream(input)
        &&& self.position() == 0
        &&& !self.pausing()
        &&& self.outcome() is None
    }

    /// Returns what the caller has to do next.
    pub fn next_step(&self) -> (r: TypingStep)
        requires
            self.wf(),
        ensures
            r == self.step(),
    {
        match self.outcome {
            Some(o) => TypingStep::Finished(o),
            None => {
                if self.pausing {
                    TypingStep::Pause(PACING_DELAY_MS)
                } else if self.position < self.events.len() {
                    TypingStep::Submit(self.events[self.position])
                } else {
                    TypingStep::Finished(Ok(()))
                }
            },
        }
    }

    /// Records the facility's accepted count for the event that `next_step`
    /// asked to submit: on full acceptance the session moves past it and owes
    /// a pause; otherwise it finishes with the failure and submits nothing more.
    pub fn record_submission(&mut self, accepted: u32)
        requires
            old(self).wf(),
            old(self).step() is Submit,
        ensures
            final(self).wf(),
            final(self).events() == old(self).events(),
            submission_verdict(1, accepted as nat) is Ok ==> {
                &&& final(self).position() == old(self).position() + 1
                &&& final(self).pausing()
                &&& final(self).outcome() is None
            },
            submission_verdict(1, accepted as nat) is Err ==> {
                &&& final(self).position() == old(self).position()
                &&& final(self).outcome() == Some(submission_verdict(1, accepted as nat))
                &&& final(self).step() == TypingStep::Finished(submission_verdict(1, accepted as nat))
            },
    {
        match check_submission(1, accepted) {
            Ok(()) => {
                self.position = self.position + 1;
                self.pausing = true;
            },
            Err(e) => {
                self.outcome = Some(Err(e));
            },
        }
    }

    /// Records that the pause that `next_step` asked for is over.
    pub fn record_pause(&mut self)
        requires
            old(self).wf(),
            old(self).step() is Pause,
        ensures
            final(self).wf(),
            final(self).events() == old(self).events(),
            final(self).position() == old(self).position(),
            !final(self).pausing(),
            final(self).outcome() is None,
    {
        self.pausing = false;
    }
}

/// Begins typing `input`: the returned session asks, one step at a time, for
/// each event of the input's event stream to be submitted and for a pause
/// after each, and finishes once all were accepted or one was not.
pub fn type_input(input: Vec<u16>) -> (s: TypingSession)
    requires
        2 * input@.len() <= usize::MAX,
    ensures
        s.starts(input@),
{
    let events = key_events(&input);
    TypingSession { events, position: 0, pausing: false, outcome: None }
}

/// Typing an empty input submits nothing and succeeds at once.
pub proof fn lemma_empty_input_succeeds(s: TypingSession)
    requires
        s.starts(Seq::<u16>::empty()),
    ensures
        s.events().len() == 0,
        s.step() == TypingStep::Finished(Ok(())),
{
}

/// A submission that the facility accepted none of is rejected; one that it
/// accepted some but not all of is partial.
pub proof fn lemma_injection_failures(submitted: nat, accepted: nat)
    ensures
        accepted == 0 ==> submission_verdict(submitted, accepted) == Err::<(), TypingError>(
            TypingError::InjectionRejected,
        ),
        0 < accepted < submitted ==> submission_verdict(submitted, accepted) == Err::<(), TypingError>(
            TypingError::InjectionPartial,
        ),
        accepted == submitted > 0 ==> submission_verdict(submitted, accepted) is Ok,
{
}

/// A session typing `input` that is about to submit an event submits the
/// next event of the input's stream: the down-event of key `k` when `2k`
/// events were accepted, its up-event when `2k + 1` were. Since each accepted
/// submission advances by exactly one event, every key is pressed before it is
/// released, and keys are typed in input order.
pub proof fn lemma_session_submits_in_order(s: TypingSession, input: Seq<u16>)
    requires
        s.wf(),
        s.events() == event_stream(input),
        s.step() is Submit,
    ensures
        s.position() < 2 * input.len(),
        s.position() % 2 == 0 ==> s.step() == TypingStep::Submit(
            down_event_of(input[s.position() as int / 2]),
        ),
        s.position() % 2 == 1 ==> s.step() == TypingStep::Submit(
            up_event_of(input[s.position() as int / 2]),
        ),
{
    lemma_event_order(input);
    let k = s.position() as int / 2;
    assert(s.position() == 2 * k || s.position() == 2 * k + 1);
}

} // verus!
