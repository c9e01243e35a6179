use vstd::prelude::*;
use crate::command::{Command, Event};

verus! {

/// Progress of one disable operation.
#[derive(Clone, Copy, Debug, PartialEq, Eq, Structural)]
pub enum DisableStage {
    /// Nothing issued yet.
    Start,
    /// The state check was issued.
    Checking,
    /// The disable task was triggered.
    Triggered,
    /// A poll of the `Disabled` notification was issued.
    Polling,
    /// The `Disabled` notification was acknowledged.
    Acknowledged,
    /// The radio is disabled; nothing more to issue.
    Done,
}

/// The disable operation: given its stage and the answer to the last command
/// issued, the next stage and the command to issue (`None` once done).
pub open spec fn disable_next(s: DisableStage, answer: bool) -> (DisableStage, Option<Command>) {
    match s {
        DisableStage::Start => (DisableStage::Checking, Some(Command::CheckDisabled)),
        DisableStage::Checking => if answer {
            (DisableStage::Done, None)
        } else {
            (DisableStage::Triggered, Some(Command::TriggerDisable))
        },
        DisableStage::Triggered => (DisableStage::Polling, Some(Command::Poll(Event::Disabled))),
        DisableStage::Polling => if answer {
            (DisableStage::Acknowledged, Some(Command::Acknowledge(Event::Disabled)))
        } else {
            (DisableStage::Polling, Some(Command::Poll(Event::Disabled)))
        },
        DisableStage::Acknowledged => (DisableStage::Done, None),
        DisableStage::Done => (DisableStage::Done, None),
    }
}

/// Executable form of `disable_next`.
pub fn disable_step(s: DisableStage, answer: bool) -> (r: (DisableStage, Option<Command>))
    ensures
        r == disable_next(s, answer),
{
    match s {
        DisableStage::Start => (DisableStage::Checking, Some(Command::CheckDisabled)),
        DisableStage::Checking => if answer {
            (DisableStage::Done, None)
        } else {
            (DisableStage::Triggered, Some(Command::TriggerDisable))
        },
        DisableStage::Triggered => (DisableStage::Polling, Some(Command::Poll(Event::Disabled))),
        DisableStage::Polling => if answer {
            (DisableStage::Acknowledged, Some(Command::Acknowledge(Event::Disabled)))
        } else {
            (DisableStage::Polling, Some(Command::Poll(Event::Disabled)))
        },
        DisableStage::Acknowledged => (DisableStage::Done, None),
        DisableStage::Done => (DisableStage::Done, None),
    }
}

/// Brings the radio to its disabled state: checks the state first, and only
/// where the radio is not disabled triggers the disable task, waits for the
/// `Disabled` notification and acknowledges it.
///
/// The wait polls without bound: if the hardware never raises `Disabled`,
/// the operation polls forever. Whether a bounded wait with a timeout
/// outcome should replace it is an open question.
pub struct Disabler {
    pub stage: DisableStage,
}

impl Disabler {
    pub fn new() -> (r: Disabler)
        ensures
            r.stage == DisableStage::Start,
    {
        Disabler { stage: DisableStage::Start }
    }

    /// Takes the answer to the last command issued (ignored where it was no
    /// read) and returns the next command, or `None` once the radio is
    /// disabled.
    pub fn step(&mut self, answer: bool) -> (r: Option<Command>)
        ensures
            (final(self).stage, r) == disable_next(old(self).stage, answer),
    {
        let (s, c) = disable_step(self.stage, answer);
        self.stage = s;
        c
    }

    pub fn is_done(&self) -> (r: bool)
        ensures
            r == (self.stage == DisableStage::Done),
    {
        self.stage == DisableStage::Done
    }
}

/// Disabling an already disabled radio is a state check and nothing more:
/// a fresh disable issues the check whatever it is handed, and a check that
/// reads `Disabled` ends the operation without a further command. A second
/// disable right after a first one therefore leaves the radio as the first
/// left it.
pub proof fn lemma_disable_idempotent(answer: bool)
    ensures
        disable_next(DisableStage::Start, answer) == (
            DisableStage::Checking,
            Some(Command::CheckDisabled),
        ),
        disable_next(DisableStage::Checking, true) == (DisableStage::Done, None::<Command>),
        disable_next(DisableStage::Done, answer) == (DisableStage::Done, None::<Command>),
{
}

/// The only commands that a disable operation writes to the radio are the
/// disable trigger and the acknowledgement of the `Disabled` notification,
/// and it ends only after a check or a poll that read the radio disabled.
pub proof fn lemma_disable_writes(s: DisableStage, answer: bool)
    ensures
        ({
            let (n, c) = disable_next(s, answer);
            &&& c matches Some(cmd) ==> cmd == Command::CheckDisabled || cmd
                == Command::TriggerDisable || cmd == Command::Poll(Event::Disabled) || cmd
                == Command::Acknowledge(Event::Disabled)
            &&& (n == DisableStage::Done && s != DisableStage::Done) ==> ((s
                == DisableStage::Checking && answer) || s == DisableStage::Acknowledged)
            &&& n == DisableStage::Acknowledged ==> s == DisableStage::Polling && answer
        }),
{
}

} // verus!
