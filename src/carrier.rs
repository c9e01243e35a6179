use vstd::prelude::*;
use crate::command::Command;
use crate::disable::{disable_next, disable_step, DisableStage};

verus! {

/// The last step taken while switching on an unmodulated carrier.
#[derive(Clone, Copy, Debug, PartialEq, Eq, Structural)]
pub enum CarrierStage {
    /// Disabling the radio first.
    PreDisable(DisableStage),
    /// `ClearShortcuts` was issued.
    ShortcutsCleared,
    /// `TriggerTxEnable` was issued.
    Enabled,
    /// `ShortDelay` was issued.
    Settled,
    /// `CheckTxIdle` was issued.
    Checking,
    /// The transmitter is idle with its carrier on.
    CarrierOn,
}

/// Switching on the carrier: given the stage and the answer to the last
/// command issued, the next stage and the command to issue (`None` once the
/// carrier is on). The enable trigger is repeated, a short delay after each,
/// until the radio's state reads `TxIdle`.
pub open spec fn carrier_next(s: CarrierStage, answer: bool) -> (CarrierStage, Option<Command>) {
    match s {
        CarrierStage::PreDisable(d) => {
            let (n, c) = disable_next(d, answer);
            if n == DisableStage::Done {
                (CarrierStage::ShortcutsCleared, Some(Command::ClearShortcuts))
            } else {
                (CarrierStage::PreDisable(n), c)
            }
        },
        CarrierStage::ShortcutsCleared => (CarrierStage::Enabled, Some(Command::TriggerTxEnable)),
        CarrierStage::Enabled => (CarrierStage::Settled, Some(Command::ShortDelay)),
        CarrierStage::Settled => (CarrierStage::Checking, Some(Command::CheckTxIdle)),
        CarrierStage::Checking => if answer {
            (CarrierStage::CarrierOn, None)
        } else {
            (CarrierStage::Enabled, Some(Command::TriggerTxEnable))
        },
        CarrierStage::CarrierOn => (CarrierStage::CarrierOn, None),
    }
}

/// Brings the radio to a transmitter that idles with its carrier on, for
/// carrier-presence measurements.
pub struct CarrierStarter {
    pub stage: CarrierStage,
}

impl CarrierStarter {
    pub fn new() -> (r: CarrierStarter)
        ensures
            r.stage == CarrierStage::PreDisable(DisableStage::Start),
    {
        CarrierStarter { stage: CarrierStage::PreDisable(DisableStage::Start) }
    }

    /// Takes the answer to the last command issued (ignored where it was no
    /// read) and returns the next command, or `None` once the carrier is on.
    pub fn step(&mut self, answer: bool) -> (r: Option<Command>)
        ensures
            (final(self).stage, r) == carrier_next(old(self).stage, answer),
    {
        let (s, c) = match self.stage {
            CarrierStage::PreDisable(d) => {
                let (n, c) = disable_step(d, answer);
                if n == DisableStage::Done {
                    (CarrierStage::ShortcutsCleared, Some(Command::ClearShortcuts))
                } else {
                    (CarrierStage::PreDisable(n), c)
                }
            },
            CarrierStage::ShortcutsCleared => (CarrierStage::Enabled, Some(Command::TriggerTxEnable)),
            CarrierStage::Enabled => (CarrierStage::Settled, Some(Command::ShortDelay)),
            CarrierStage::Settled => (CarrierStage::Checking, Some(Command::CheckTxIdle)),
            CarrierStage::Checking => if answer {
                (CarrierStage::CarrierOn, None)
            } else {
                (CarrierStage::Enabled, Some(Command::TriggerTxEnable))
            },
            CarrierStage::CarrierOn => (CarrierStage::CarrierOn, None),
        };
        self.stage = s;
        c
    }
}

} // verus!
