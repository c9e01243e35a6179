use vstd::prelude::*;
use crate::command::{chain_shortcuts, chained_shortcuts, Command};
use crate::packet::MAX_PACKET_LEN;
use crate::disable::{disable_next, disable_step, DisableStage};
use crate::packet::{build_frame, frame_of, payload_fits, TxError};

verus! {

/// The last step taken by a shortcut-chained transmission.
#[derive(Clone, Copy, Debug, PartialEq, Eq, Structural)]
pub enum ChainStage {
    /// Disabling the radio before the transmission.
    PreDisable(DisableStage),
    /// `LoadFrame` was issued.
    Loaded,
    /// `ClearShortcuts` was issued.
    ShortcutsCleared,
    /// The chain of shortcuts was set.
    Chained,
    /// `TriggerRxEnable` was issued, which sets off the chain.
    Triggered,
    /// `HoldCarrier` was issued: the hardware ran the chain meanwhile.
    Waited,
    /// `ClearShortcuts` was issued, so that the closing disable stays put.
    Released,
    /// Forcing the radio back to disabled.
    PostDisable(DisableStage),
    /// The radio is disabled again.
    Finished,
}

/// The shortcut-chained transmission: given its stage and the answer to the
/// last command issued, the next stage and the command to issue (`None` once
/// finished). It sets the chain, triggers the receiver once (the hardware
/// assesses the channel and transmits if it is clear), waits a fixed time,
/// clears the shortcuts and disables, without learning whether the packet
/// went out.
pub open spec fn chained_next(s: ChainStage, answer: bool) -> (ChainStage, Option<Command>) {
    match s {
        ChainStage::PreDisable(d) => {
            let (n, c) = disable_next(d, answer);
            if n == DisableStage::Done {
                (ChainStage::Loaded, Some(Command::LoadFrame))
            } else {
                (ChainStage::PreDisable(n), c)
            }
        },
        ChainStage::Loaded => (ChainStage::ShortcutsCleared, Some(Command::ClearShortcuts)),
        ChainStage::ShortcutsCleared => (
            ChainStage::Chained,
            Some(Command::SetShortcuts(chain_shortcuts())),
        ),
        ChainStage::Chained => (ChainStage::Triggered, Some(Command::TriggerRxEnable)),
        ChainStage::Triggered => (ChainStage::Waited, Some(Command::HoldCarrier)),
        ChainStage::Waited => (ChainStage::Released, Some(Command::ClearShortcuts)),
        ChainStage::Released => {
            let (n, c) = disable_next(DisableStage::Start, answer);
            (ChainStage::PostDisable(n), c)
        },
        ChainStage::PostDisable(d) => {
            let (n, c) = disable_next(d, answer);
            if n == DisableStage::Done {
                (ChainStage::Finished, None)
            } else {
                (ChainStage::PostDisable(n), c)
            }
        },
        ChainStage::Finished => (ChainStage::Finished, None),
    }
}

/// One best-effort transmission of a frame in shortcut-chained mode: the
/// hardware's shortcuts carry it from the receiver-enable trigger through
/// clear-channel assessment to the end of the packet. A busy channel makes
/// the hardware disable the radio instead, and this mode cannot tell that
/// apart from a packet that went out.
pub struct ChainedTx {
    pub frame: Vec<u8>,
    pub stage: ChainStage,
}

impl ChainedTx {
    /// The frame fills the transmit buffer.
    pub open spec fn wf(&self) -> bool {
        self.frame@.len() == MAX_PACKET_LEN
    }

    /// Prepares the transmission of `data`, or refuses a payload that does
    /// not fit the transmit buffer; nothing is issued either way.
    pub fn new(data: &[u8]) -> (r: Result<ChainedTx, TxError>)
        ensures
            payload_fits(data@.len() as int) <==> r.is_ok(),
            r matches Err(e) ==> e == TxError::PayloadTooLong,
            r matches Ok(t) ==> t.wf() && t.frame@ == frame_of(data@) && t.stage
                == ChainStage::PreDisable(DisableStage::Start),
    {
        match build_frame(data) {
            Ok(frame) => Ok(ChainedTx { frame, stage: ChainStage::PreDisable(DisableStage::Start) }),
            Err(e) => Err(e),
        }
    }

    /// Takes the answer to the last command issued (ignored where it was no
    /// read) and returns the next command, or `None` once the radio is
    /// disabled again.
    pub fn step(&mut self, answer: bool) -> (r: Option<Command>)
        requires
            old(self).wf(),
        ensures
            final(self).wf(),
            (final(self).stage, r) == chained_next(old(self).stage, answer),
            final(self).frame == old(self).frame,
    {
        let (s, c) = match self.stage {
            ChainStage::PreDisable(d) => {
                let (n, c) = disable_step(d, answer);
                if n == DisableStage::Done {
                    (ChainStage::Loaded, Some(Command::LoadFrame))
                } else {
                    (ChainStage::PreDisable(n), c)
                }
            },
            ChainStage::Loaded => (ChainStage::ShortcutsCleared, Some(Command::ClearShortcuts)),
            ChainStage::ShortcutsCleared => (
                ChainStage::Chained,
                Some(Command::SetShortcuts(chained_shortcuts())),
            ),
            ChainStage::Chained => (ChainStage::Triggered, Some(Command::TriggerRxEnable)),
            ChainStage::Triggered => (ChainStage::Waited, Some(Command::HoldCarrier)),
            ChainStage::Waited => (ChainStage::Released, Some(Command::ClearShortcuts)),
            ChainStage::Released => {
                let (n, c) = disable_step(DisableStage::Start, answer);
                (ChainStage::PostDisable(n), c)
            },
            ChainStage::PostDisable(d) => {
                let (n, c) = disable_step(d, answer);
                if n == DisableStage::Done {
                    (ChainStage::Finished, None)
                } else {
                    (ChainStage::PostDisable(n), c)
                }
            },
            ChainStage::Finished => (ChainStage::Finished, None),
        };
        self.stage = s;
        c
    }

    pub fn is_finished(&self) -> (r: bool)
        ensures
            r == (self.stage == ChainStage::Finished),
    {
        self.stage == ChainStage::Finished
    }

    /// The transmit buffer that `LoadFrame` points the radio at.
    pub fn frame(&self) -> (r: &[u8])
        ensures
            r@ == self.frame@,
    {
        self.frame.as_slice()
    }
}

} // verus!
