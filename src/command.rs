use vstd::prelude::*;

verus! {

/// A latched notification of the radio: it stays raised until acknowledged.
#[derive(Clone, Copy, Debug, PartialEq, Eq, Structural)]
pub enum Event {
    /// The transmitter has ramped up.
    TxReady,
    /// The last bit of the packet has left the antenna.
    PhyEnd,
    /// The radio has reached its disabled state.
    Disabled,
}

/// Hardware shortcuts, each of which triggers a task when an event fires.
#[derive(Clone, Copy, Debug, PartialEq, Eq, Structural)]
pub struct Shortcuts {
    /// Receiver ready starts clear-channel assessment.
    pub rxready_ccastart: bool,
    /// A clear channel enables the transmitter.
    pub ccaidle_txen: bool,
    /// Transmitter ready starts the transmission.
    pub txready_start: bool,
    /// A busy channel disables the radio.
    pub ccabusy_disable: bool,
    /// The end of the packet disables the radio.
    pub phyend_disable: bool,
    /// Disabled enables the receiver.
    pub disabled_rxen: bool,
}

/// The chain that carries a transmission from the receiver-enable trigger
/// through clear-channel assessment to the end of the packet, and that
/// disables the radio on a busy channel.
pub open spec fn chain_shortcuts() -> Shortcuts {
    Shortcuts {
        rxready_ccastart: true,
        ccaidle_txen: true,
        txready_start: true,
        ccabusy_disable: true,
        phyend_disable: true,
        disabled_rxen: true,
    }
}

/// Executable form of `chain_shortcuts`.
pub fn chained_shortcuts() -> (r: Shortcuts)
    ensures
        r == chain_shortcuts(),
{
    Shortcuts {
        rxready_ccastart: true,
        ccaidle_txen: true,
        txready_start: true,
        ccabusy_disable: true,
        phyend_disable: true,
        disabled_rxen: true,
    }
}

/// One operation on the radio peripheral, issued by a sequencer and carried
/// out by its caller. The operations marked "answered" are reads: the caller
/// hands what it read to the sequencer's next step.
#[derive(Clone, Copy, Debug, PartialEq, Eq, Structural)]
pub enum Command {
    /// Answered: whether the radio's state reads `Disabled`.
    CheckDisabled,
    /// Answered: whether the radio's state reads `TxIdle`.
    CheckTxIdle,
    /// Trigger the disable task.
    TriggerDisable,
    /// Trigger the transmitter-enable task.
    TriggerTxEnable,
    /// Trigger the receiver-enable task.
    TriggerRxEnable,
    /// Trigger the start task.
    TriggerStart,
    /// Answered: whether the notification is raised.
    Poll(Event),
    /// Clear the notification.
    Acknowledge(Event),
    /// Point the radio's packet pointer at the sequencer's frame.
    LoadFrame,
    /// Clear every hardware shortcut.
    ClearShortcuts,
    /// Set the hardware shortcuts to exactly these.
    SetShortcuts(Shortcuts),
    /// Spin for the long delay that keeps the carrier on.
    HoldCarrier,
    /// Spin for a short delay.
    ShortDelay,
}

} // verus!
