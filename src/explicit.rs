use vstd::prelude::*;
use crate::command::{Command, Event};
use crate::disable::{disable_next, disable_step, DisableStage};
use crate::packet::{build_frame, frame_of, payload_fits, TxError, MAX_PACKET_LEN};

verus! {

/// Where one explicit transmission stands, as its caller sees it.
#[derive(Clone, Copy, Debug, PartialEq, Eq, Structural)]
pub enum Phase {
    /// The radio is disabled, or is being brought there.
    Idle,
    /// The transmitter was enabled and is ramping up.
    WarmingUp,
    /// The transmitter is ready, optionally holding the carrier.
    Armed,
    /// The packet is on its way out.
    Transmitting,
}

/// The last step taken by an explicit transmission: each stage names the
/// command issued last.
#[derive(Clone, Copy, Debug, PartialEq, Eq, Structural)]
pub enum TxStage {
    /// Disabling the radio before the transmission.
    PreDisable(DisableStage),
    /// `LoadFrame` was issued.
    Loaded,
    /// `ClearShortcuts` was issued.
    ShortcutsCleared,
    /// `TriggerTxEnable` was issued.
    Enabled,
    /// A poll of `TxReady` was issued.
    AwaitingReady,
    /// `TxReady` was acknowledged.
    ReadyAcknowledged,
    /// `HoldCarrier` was issued.
    Holding,
    /// `TriggerStart` was issued.
    Started,
    /// A poll of `PhyEnd` was issued.
    AwaitingEnd,
    /// `PhyEnd` was acknowledged.
    EndAcknowledged,
    /// Disabling the radio after the transmission.
    PostDisable(DisableStage),
    /// The transmission is over and the radio disabled.
    Finished,
}

/// The explicit transmission: given its stage, whether the carrier is held,
/// and the answer to the last command issued, the next stage and the command
/// to issue (`None` once finished).
pub open spec fn explicit_next(s: TxStage, hold: bool, answer: bool) -> (TxStage, Option<Command>) {
    match s {
        TxStage::PreDisable(d) => {
            let (n, c) = disable_next(d, answer);
            if n == DisableStage::Done {
                (TxStage::Loaded, Some(Command::LoadFrame))
            } else {
                (TxStage::PreDisable(n), c)
            }
        },
        TxStage::Loaded => (TxStage::ShortcutsCleared, Some(Command::ClearShortcuts)),
        TxStage::ShortcutsCleared => (TxStage::Enabled, Some(Command::TriggerTxEnable)),
        TxStage::Enabled => (TxStage::AwaitingReady, Some(Command::Poll(Event::TxReady))),
        TxStage::AwaitingReady => if answer {
            (TxStage::ReadyAcknowledged, Some(Command::Acknowledge(Event::TxReady)))
        } else {
            (TxStage::AwaitingReady, Some(Command::Poll(Event::TxReady)))
        },
        TxStage::ReadyAcknowledged => if hold {
            (TxStage::Holding, Some(Command::HoldCarrier))
        } else {
            (TxStage::Started, Some(Command::TriggerStart))
        },
        TxStage::Holding => (TxStage::Started, Some(Command::TriggerStart)),
        TxStage::Started => (TxStage::AwaitingEnd, Some(Command::Poll(Event::PhyEnd))),
        TxStage::AwaitingEnd => if answer {
            (TxStage::EndAcknowledged, Some(Command::Acknowledge(Event::PhyEnd)))
        } else {
            (TxStage::AwaitingEnd, Some(Command::Poll(Event::PhyEnd)))
        },
        TxStage::EndAcknowledged => {
            let (n, c) = disable_next(DisableStage::Start, answer);
            (TxStage::PostDisable(n), c)
        },
        TxStage::PostDisable(d) => {
            let (n, c) = disable_next(d, answer);
            if n == DisableStage::Done {
                (TxStage::Finished, None)
            } else {
                (TxStage::PostDisable(n), c)
            }
        },
        TxStage::Finished => (TxStage::Finished, None),
    }
}

/// The phase of a transmission at a stage.
pub open spec fn phase_of(s: TxStage) -> Phase {
    match s {
        TxStage::Enabled | TxStage::AwaitingReady => Phase::WarmingUp,
        TxStage::ReadyAcknowledged | TxStage::Holding => Phase::Armed,
        TxStage::Started | TxStage::AwaitingEnd | TxStage::EndAcknowledged | TxStage::PostDisable(
            _,
        ) => Phase::Transmitting,
        _ => Phase::Idle,
    }
}

/// Whether `c` stands at position `i` of `issued`.
pub open spec fn issued_at(issued: Seq<Command>, i: int, c: Command) -> bool {
    0 <= i < issued.len() && issued[i] == c
}

/// How many times `c` stands in `issued`.
pub open spec fn occurrences(issued: Seq<Command>, c: Command) -> nat
    decreases issued.len(),
{
    if issued.len() == 0 {
        0
    } else {
        occurrences(issued.drop_last(), c) + if issued.last() == c {
            1nat
        } else {
            0nat
        }
    }
}

/// Appending a command adds one occurrence of it and leaves the others.
proof fn lemma_occurrences_push(issued: Seq<Command>, x: Command, c: Command)
    ensures
        occurrences(issued.push(x), c) == occurrences(issued, c) + if x == c {
            1nat
        } else {
            0nat
        },
{
    assert(issued.push(x).drop_last() =~= issued);
}

/// Whether the transmitter-enable trigger has been issued by `s`.
pub open spec fn enable_issued(s: TxStage) -> bool {
    !(s is PreDisable || s == TxStage::Loaded || s == TxStage::ShortcutsCleared)
}

/// Whether the start trigger has been issued by `s`.
pub open spec fn start_issued(s: TxStage) -> bool {
    s == TxStage::Started || s == TxStage::AwaitingEnd || s == TxStage::EndAcknowledged
        || s is PostDisable || s == TxStage::Finished
}

/// Each start trigger in `issued` comes right after the acknowledgement of
/// `TxReady`, or right after a carrier hold that itself follows it.
pub open spec fn start_follows_ready_ack(issued: Seq<Command>) -> bool {
    forall|i: int|
        #[trigger] issued_at(issued, i, Command::TriggerStart) ==> (1 <= i && (
        issued[i - 1] == Command::Acknowledge(Event::TxReady) || (2 <= i && issued[i - 1]
            == Command::HoldCarrier && issued[i - 2] == Command::Acknowledge(Event::TxReady))))
}

/// Each acknowledgement of `TxReady` in `issued` comes right after a poll of it.
pub open spec fn ack_follows_poll(issued: Seq<Command>) -> bool {
    forall|i: int|
        #[trigger] issued_at(issued, i, Command::Acknowledge(Event::TxReady)) ==> (
        1 <= i && issued[i - 1] == Command::Poll(Event::TxReady))
}

/// One transmission of a frame in explicit-polled mode: no hardware
/// shortcut is left on, and every transition is a command of its own.
///
/// Each wait for a notification polls without bound: a notification that
/// the hardware never raises keeps the transmission polling forever. Whether
/// a bounded wait with a timeout outcome should replace it is an open
/// question; the caller that runs the steps can stop at any point.
pub struct ExplicitTx {
    pub frame: Vec<u8>,
    pub hold_carrier: bool,
    pub stage: TxStage,
    /// The commands issued so far, oldest first.
    pub issued: Ghost<Seq<Command>>,
}

impl ExplicitTx {
    /// What holds of the commands issued, given the stage reached.
    pub open spec fn wf(&self) -> bool {
        &&& self.frame@.len() == MAX_PACKET_LEN
        &&& occurrences(self.issued@, Command::TriggerTxEnable) == if enable_issued(self.stage) {
            1nat
        } else {
            0nat
        }
        &&& occurrences(self.issued@, Command::TriggerStart) == if start_issued(self.stage) {
            1nat
        } else {
            0nat
        }
        &&& occurrences(self.issued@, Command::TriggerRxEnable) == 0
        &&& start_follows_ready_ack(self.issued@)
        &&& ack_follows_poll(self.issued@)
        &&& self.stage == TxStage::ReadyAcknowledged ==> self.issued@.len() >= 1 && self.issued@.last()
            == Command::Acknowledge(Event::TxReady)
        &&& self.stage == TxStage::Holding ==> self.issued@.len() >= 2 && self.issued@.last()
            == Command::HoldCarrier && self.issued@[self.issued@.len() - 2]
            == Command::Acknowledge(Event::TxReady)
        &&& (self.stage == TxStage::AwaitingReady) ==> self.issued@.len() >= 1
            && self.issued@.last() == Command::Poll(Event::TxReady)
    }

    /// Prepares the transmission of `data`, or refuses a payload that does
    /// not fit the transmit buffer; nothing is issued either way.
    pub fn new(data: &[u8], hold_carrier: bool) -> (r: Result<ExplicitTx, TxError>)
        ensures
            payload_fits(data@.len() as int) <==> r.is_ok(),
            r matches Err(e) ==> e == TxError::PayloadTooLong,
            r matches Ok(t) ==> {
                &&& t.wf()
                &&& t.frame@ == frame_of(data@)
                &&& t.hold_carrier == hold_carrier
                &&& t.stage == TxStage::PreDisable(DisableStage::Start)
                &&& t.issued@ == Seq::<Command>::empty()
            },
    {
        match build_frame(data) {
            Ok(frame) => Ok(
                ExplicitTx {
                    frame,
                    hold_carrier,
                    stage: TxStage::PreDisable(DisableStage::Start),
                    issued: Ghost(Seq::empty()),
                },
            ),
            Err(e) => Err(e),
        }
    }

    /// Takes the answer to the last command issued (ignored where it was no
    /// read) and returns the next command to carry out, or `None` once the
    /// transmission is over and the radio disabled.
    pub fn step(&mut self, answer: bool) -> (r: Option<Command>)
        requires
            old(self).wf(),
        ensures
            final(self).wf(),
            (final(self).stage, r) == explicit_next(old(self).stage, old(self).hold_carrier, answer),
            final(self).frame == old(self).frame,
            final(self).hold_carrier == old(self).hold_carrier,
            final(self).issued@ == match r {
                Some(c) => old(self).issued@.push(c),
                None => old(self).issued@,
            },
    {
        let (s, c) = match self.stage {
            TxStage::PreDisable(d) => {
                let (n, c) = disable_step(d, answer);
                if n == DisableStage::Done {
                    (TxStage::Loaded, Some(Command::LoadFrame))
                } else {
                    (TxStage::PreDisable(n), c)
                }
            },
            TxStage::Loaded => (TxStage::ShortcutsCleared, Some(Command::ClearShortcuts)),
            TxStage::ShortcutsCleared => (TxStage::Enabled, Some(Command::TriggerTxEnable)),
            TxStage::Enabled => (TxStage::AwaitingReady, Some(Command::Poll(Event::TxReady))),
            TxStage::AwaitingReady => if answer {
                (TxStage::ReadyAcknowledged, Some(Command::Acknowledge(Event::TxReady)))
            } else {
                (TxStage::AwaitingReady, Some(Command::Poll(Event::TxReady)))
            },
            TxStage::ReadyAcknowledged => if self.hold_carrier {
                (TxStage::Holding, Some(Command::HoldCarrier))
            } else {
                (TxStage::Started, Some(Command::TriggerStart))
            },
            TxStage::Holding => (TxStage::Started, Some(Command::TriggerStart)),
            TxStage::Started => (TxStage::AwaitingEnd, Some(Command::Poll(Event::PhyEnd))),
            TxStage::AwaitingEnd => if answer {
                (TxStage::EndAcknowledged, Some(Command::Acknowledge(Event::PhyEnd)))
            } else {
                (TxStage::AwaitingEnd, Some(Command::Poll(Event::PhyEnd)))
            },
            TxStage::EndAcknowledged => {
                let (n, c) = disable_step(DisableStage::Start, answer);
                (TxStage::PostDisable(n), c)
            },
            TxStage::PostDisable(d) => {
                let (n, c) = disable_step(d, answer);
                if n == DisableStage::Done {
                    (TxStage::Finished, None)
                } else {
                    (TxStage::PostDisable(n), c)
                }
            },
            TxStage::Finished => (TxStage::Finished, None),
        };
        let ghost prev = self.issued@;
        self.stage = s;
        if let Some(cmd) = c {
            self.issued = Ghost(prev.push(cmd));
            proof {
                lemma_occurrences_push(prev, cmd, Command::TriggerTxEnable);
                lemma_occurrences_push(prev, cmd, Command::TriggerStart);
                lemma_occurrences_push(prev, cmd, Command::TriggerRxEnable);
            }
            assert forall|i: int|
                #[trigger] issued_at(self.issued@, i, Command::TriggerStart)
                implies (1 <= i && (self.issued@[i - 1] == Command::Acknowledge(Event::TxReady) || (
            2 <= i && self.issued@[i - 1] == Command::HoldCarrier && self.issued@[i - 2]
                == Command::Acknowledge(Event::TxReady)))) by {
                if i < prev.len() {
                    assert(issued_at(prev, i, Command::TriggerStart));
                }
            }
            assert forall|i: int|
                #[trigger] issued_at(self.issued@, i, Command::Acknowledge(Event::TxReady))
                implies (1 <= i && self.issued@[i - 1] == Command::Poll(Event::TxReady)) by {
                if i < prev.len() {
                    assert(issued_at(prev, i, Command::Acknowledge(Event::TxReady)));
                }
            }
        }
        c
    }

    /// The phase that the transmission is in.
    pub fn phase(&self) -> (r: Phase)
        ensures
            r == phase_of(self.stage),
    {
        match self.stage {
            TxStage::Enabled | TxStage::AwaitingReady => Phase::WarmingUp,
            TxStage::ReadyAcknowledged | TxStage::Holding => Phase::Armed,
            TxStage::Started | TxStage::AwaitingEnd | TxStage::EndAcknowledged
            | TxStage::PostDisable(_) => Phase::Transmitting,
            _ => Phase::Idle,
        }
    }

    pub fn is_finished(&self) -> (r: bool)
        ensures
            r == (self.stage == TxStage::Finished),
    {
        self.stage == TxStage::Finished
    }

    /// The transmit buffer that `LoadFrame` points the radio at.
    pub fn frame(&self) -> (r: &[u8])
        ensures
            r@ == self.frame@,
    {
        self.frame.as_slice()
    }
}

/// The phase that follows `p` in a transmission.
pub open spec fn next_phase(p: Phase) -> Phase {
    match p {
        Phase::Idle => Phase::WarmingUp,
        Phase::WarmingUp => Phase::Armed,
        Phase::Armed => Phase::Transmitting,
        Phase::Transmitting => Phase::Idle,
    }
}

/// The `TxReady` notification is acknowledged as soon as a poll sees it
/// raised, before anything else is issued, and the start trigger is issued
/// only after that acknowledgement (with at most a carrier hold between
/// them): a stale `TxReady` is never left latched across the start.
pub proof fn lemma_ready_cleared_before_start(t: &ExplicitTx, i: int, hold: bool)
    requires
        t.wf(),
        0 <= i < t.issued@.len(),
        t.issued@[i] == Command::TriggerStart,
    ensures
        explicit_next(TxStage::AwaitingReady, hold, true) == (
            TxStage::ReadyAcknowledged,
            Some(Command::Acknowledge(Event::TxReady)),
        ),
        explicit_next(TxStage::AwaitingReady, hold, false) == (
            TxStage::AwaitingReady,
            Some(Command::Poll(Event::TxReady)),
        ),
        ({
            let j = if t.issued@[i - 1] == Command::HoldCarrier {
                i - 2
            } else {
                i - 1
            };
            &&& 1 <= j
            &&& t.issued@[j] == Command::Acknowledge(Event::TxReady)
            &&& t.issued@[j - 1] == Command::Poll(Event::TxReady)
        }),
{
    assert(issued_at(t.issued@, i, Command::TriggerStart));
    let j = if t.issued@[i - 1] == Command::HoldCarrier {
        i - 2
    } else {
        i - 1
    };
    assert(issued_at(t.issued@, j, Command::Acknowledge(Event::TxReady)));
}

/// A transmission moves through its phases in the order
/// `Idle`, `WarmingUp`, `Armed`, `Transmitting`, `Idle`, one step at a time.
/// It leaves `WarmingUp` only on a poll that saw `TxReady`, leaves
/// `Transmitting` only once the radio is disabled again, and once finished
/// stays finished without issuing anything.
pub proof fn lemma_phase_order(s: TxStage, hold: bool, answer: bool)
    ensures
        ({
            let (n, c) = explicit_next(s, hold, answer);
            &&& phase_of(n) == phase_of(s) || phase_of(n) == next_phase(phase_of(s))
            &&& (phase_of(s) == Phase::WarmingUp && phase_of(n) == Phase::Armed) ==> (s
                == TxStage::AwaitingReady && answer)
            &&& (phase_of(s) == Phase::Transmitting && phase_of(n) == Phase::Idle) ==> n
                == TxStage::Finished
            &&& c is None <==> n == TxStage::Finished
        }),
        explicit_next(TxStage::Finished, hold, answer) == (TxStage::Finished, None::<Command>),
{
}

/// A finished transmission has issued exactly one transmitter-enable
/// trigger and exactly one start trigger, and never the receiver-enable
/// trigger.
pub proof fn lemma_one_enable_one_start(t: &ExplicitTx)
    requires
        t.wf(),
        t.stage == TxStage::Finished,
    ensures
        occurrences(t.issued@, Command::TriggerTxEnable) == 1,
        occurrences(t.issued@, Command::TriggerStart) == 1,
        occurrences(t.issued@, Command::TriggerRxEnable) == 0,
{
}

} // verus!
