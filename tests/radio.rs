use ttrx_radio::carrier::CarrierStarter;
use ttrx_radio::chained::ChainedTx;
use ttrx_radio::command::{chained_shortcuts, Command, Event, Shortcuts};
use ttrx_radio::config::{configure_steps, ConfigStep, Layout0, Layout1, Modulation, Preamble, Profile, TxPower};
use ttrx_radio::disable::{DisableStage, Disabler};
use ttrx_radio::explicit::{ExplicitTx, Phase};
use ttrx_radio::frequency::compute_frequency_values;
use ttrx_radio::packet::{build_frame, TxError, MAX_PACKET_LEN};

#[derive(Clone, Copy, Debug, PartialEq, Eq)]
enum HwState {
    Disabled,
    TxRampUp,
    TxIdle,
    Tx,
}

/// A stand-in for the radio: latched notifications, a state register, and a
/// count of polls before each notification rises.
struct SimRadio {
    state: HwState,
    tx_ready: bool,
    phy_end: bool,
    disabled: bool,
    ramp_polls: u32,
    tx_polls: u32,
    log: Vec<Command>,
    ready_at_start: Vec<bool>,
    writes: usize,
}

impl SimRadio {
    fn new(state: HwState) -> SimRadio {
        SimRadio {
            state,
            tx_ready: false,
            phy_end: false,
            disabled: false,
            ramp_polls: 2,
            tx_polls: 3,
            log: Vec::new(),
            ready_at_start: Vec::new(),
            writes: 0,
        }
    }

    fn exec(&mut self, c: Command) -> bool {
        self.log.push(c);
        match c {
            Command::CheckDisabled => self.state == HwState::Disabled,
            Command::CheckTxIdle => self.state == HwState::TxIdle,
            Command::Poll(Event::TxReady) => {
                if self.ramp_polls > 0 {
                    self.ramp_polls -= 1;
                    if self.ramp_polls == 0 {
                        self.state = HwState::TxIdle;
                        self.tx_ready = true;
                    }
                }
                self.tx_ready
            }
            Command::Poll(Event::PhyEnd) => {
                if self.tx_polls > 0 {
                    self.tx_polls -= 1;
                    if self.tx_polls == 0 {
                        self.state = HwState::TxIdle;
                        self.phy_end = true;
                    }
                }
                self.phy_end
            }
            Command::Poll(Event::Disabled) => self.disabled,
            other => {
                self.writes += 1;
                match other {
                    Command::TriggerDisable => {
                        self.state = HwState::Disabled;
                        self.disabled = true;
                    }
                    Command::TriggerTxEnable => {
                        self.state = HwState::TxRampUp;
                    }
                    Command::TriggerRxEnable => {
                        self.state = HwState::Tx;
                    }
                    Command::ShortDelay => {
                        if self.state == HwState::TxRampUp {
                            self.state = HwState::TxIdle;
                        }
                    }
                    Command::TriggerStart => {
                        self.ready_at_start.push(self.tx_ready);
                        self.state = HwState::Tx;
                    }
                    Command::Acknowledge(Event::TxReady) => self.tx_ready = false,
                    Command::Acknowledge(Event::PhyEnd) => self.phy_end = false,
                    Command::Acknowledge(Event::Disabled) => self.disabled = false,
                    _ => {}
                }
                false
            }
        }
    }

    fn count(&self, c: Command) -> usize {
        self.log.iter().filter(|x| **x == c).count()
    }
}

fn run_disable(sim: &mut SimRadio) {
    let mut d = Disabler::new();
    let mut answer = false;
    for _ in 0..100 {
        match d.step(answer) {
            Some(c) => answer = sim.exec(c),
            None => return,
        }
    }
    panic!("disable did not finish");
}

/// Runs an explicit transmission to the end and returns the phases entered.
fn run_explicit(tx: &mut ExplicitTx, sim: &mut SimRadio) -> Vec<Phase> {
    let mut phases = vec![tx.phase()];
    let mut answer = false;
    for _ in 0..1000 {
        let c = tx.step(answer);
        if *phases.last().unwrap() != tx.phase() {
            phases.push(tx.phase());
        }
        match c {
            Some(c) => answer = sim.exec(c),
            None => return phases,
        }
    }
    panic!("transmission did not finish");
}

#[test]
fn frequency_mapping_values() {
    assert_eq!(compute_frequency_values(2440), (40, false));
    assert_eq!(compute_frequency_values(2395), (35, true));
    assert_eq!(compute_frequency_values(2360), (0, true));
    assert_eq!(compute_frequency_values(2400), (0, false));
    assert_eq!(compute_frequency_values(2399), (39, true));
    assert_eq!(compute_frequency_values(2655), (255, false));
}

#[test]
fn frame_holds_length_and_payload() {
    let data: Vec<u8> = (1..=10).collect();
    let frame = build_frame(&data).unwrap();
    assert_eq!(frame.len(), MAX_PACKET_LEN);
    assert_eq!(frame[0], 12);
    assert_eq!(&frame[1..11], &data[..]);
    assert!(frame[11..].iter().all(|b| *b == 0));
}

#[test]
fn frame_of_empty_payload() {
    let frame = build_frame(&[]).unwrap();
    assert_eq!(frame.len(), MAX_PACKET_LEN);
    assert_eq!(frame[0], 2);
    assert!(frame[1..].iter().all(|b| *b == 0));
}

#[test]
fn frame_of_largest_payload() {
    let data = vec![0xAAu8; MAX_PACKET_LEN - 2];
    let frame = build_frame(&data).unwrap();
    assert_eq!(frame[0], 128);
    assert_eq!(&frame[1..MAX_PACKET_LEN - 1], &data[..]);
    assert_eq!(frame[MAX_PACKET_LEN - 1], 0);
}

#[test]
fn oversized_payload_is_rejected() {
    for len in [MAX_PACKET_LEN - 1, MAX_PACKET_LEN, 200] {
        let data = vec![1u8; len];
        assert_eq!(build_frame(&data), Err(TxError::PayloadTooLong));
        assert!(matches!(ExplicitTx::new(&data, false), Err(TxError::PayloadTooLong)));
        assert!(matches!(ChainedTx::new(&data), Err(TxError::PayloadTooLong)));
    }
}

#[test]
fn disable_of_disabled_radio_only_checks() {
    let mut sim = SimRadio::new(HwState::Disabled);
    run_disable(&mut sim);
    assert_eq!(sim.log, vec![Command::CheckDisabled]);
    assert_eq!(sim.writes, 0);
}

#[test]
fn disable_twice_equals_once() {
    let mut sim = SimRadio::new(HwState::TxIdle);
    run_disable(&mut sim);
    assert_eq!(
        sim.log,
        vec![
            Command::CheckDisabled,
            Command::TriggerDisable,
            Command::Poll(Event::Disabled),
            Command::Acknowledge(Event::Disabled),
        ]
    );
    assert_eq!(sim.state, HwState::Disabled);
    assert!(!sim.disabled);
    let writes = sim.writes;
    run_disable(&mut sim);
    assert_eq!(sim.log.len(), 5);
    assert_eq!(sim.log[4], Command::CheckDisabled);
    assert_eq!(sim.writes, writes);
    assert_eq!(sim.state, HwState::Disabled);
    assert!(!sim.disabled);
}

#[test]
fn disabler_stays_done() {
    let mut d = Disabler::new();
    assert_eq!(d.step(false), Some(Command::CheckDisabled));
    assert_eq!(d.step(true), None);
    assert!(d.is_done());
    assert_eq!(d.stage, DisableStage::Done);
    assert_eq!(d.step(false), None);
}

#[test]
fn ready_is_cleared_before_start() {
    let mut sim = SimRadio::new(HwState::Disabled);
    let mut tx = ExplicitTx::new(b"hello", false).unwrap();
    run_explicit(&mut tx, &mut sim);
    let ready_seen = sim
        .log
        .iter()
        .position(|c| *c == Command::Acknowledge(Event::TxReady))
        .unwrap();
    assert_eq!(sim.log[ready_seen - 1], Command::Poll(Event::TxReady));
    assert_eq!(sim.log[ready_seen + 1], Command::TriggerStart);
    assert_eq!(sim.ready_at_start, vec![false]);
}

#[test]
fn ready_is_cleared_before_carrier_hold() {
    let mut sim = SimRadio::new(HwState::Disabled);
    let mut tx = ExplicitTx::new(b"hello", true).unwrap();
    run_explicit(&mut tx, &mut sim);
    let start = sim.log.iter().position(|c| *c == Command::TriggerStart).unwrap();
    assert_eq!(sim.log[start - 1], Command::HoldCarrier);
    assert_eq!(sim.log[start - 2], Command::Acknowledge(Event::TxReady));
    assert_eq!(sim.ready_at_start, vec![false]);
}

#[test]
fn standard_profile_transmission_end_to_end() {
    let steps = configure_steps(Profile::Standard);
    assert_eq!(steps[0], ConfigStep::PowerOff);
    let data = [7u8; 10];
    let mut sim = SimRadio::new(HwState::TxIdle);
    let mut tx = ExplicitTx::new(&data, false).unwrap();
    assert_eq!(tx.frame()[0], 12);
    assert_eq!(&tx.frame()[1..11], &data[..]);
    let phases = run_explicit(&mut tx, &mut sim);
    assert_eq!(
        phases,
        vec![Phase::Idle, Phase::WarmingUp, Phase::Armed, Phase::Transmitting, Phase::Idle]
    );
    assert_eq!(sim.count(Command::TriggerTxEnable), 1);
    assert_eq!(sim.count(Command::TriggerStart), 1);
    assert_eq!(sim.count(Command::TriggerRxEnable), 0);
    assert_eq!(sim.count(Command::HoldCarrier), 0);
    assert_eq!(sim.count(Command::ClearShortcuts), 1);
    assert_eq!(sim.count(Command::LoadFrame), 1);
    assert_eq!(sim.state, HwState::Disabled);
    assert!(!sim.tx_ready && !sim.phy_end && !sim.disabled);
    assert!(tx.is_finished());
    assert_eq!(tx.step(true), None);
}

#[test]
fn explicit_command_order() {
    let mut sim = SimRadio::new(HwState::Disabled);
    sim.ramp_polls = 1;
    sim.tx_polls = 1;
    let mut tx = ExplicitTx::new(b"x", false).unwrap();
    run_explicit(&mut tx, &mut sim);
    assert_eq!(
        sim.log,
        vec![
            Command::CheckDisabled,
            Command::LoadFrame,
            Command::ClearShortcuts,
            Command::TriggerTxEnable,
            Command::Poll(Event::TxReady),
            Command::Acknowledge(Event::TxReady),
            Command::TriggerStart,
            Command::Poll(Event::PhyEnd),
            Command::Acknowledge(Event::PhyEnd),
            Command::CheckDisabled,
            Command::TriggerDisable,
            Command::Poll(Event::Disabled),
            Command::Acknowledge(Event::Disabled),
        ]
    );
}

#[test]
fn chained_transmission_commands() {
    let mut sim = SimRadio::new(HwState::Disabled);
    let mut tx = ChainedTx::new(b"abc").unwrap();
    assert_eq!(tx.frame()[0], 5);
    let mut answer = false;
    while let Some(c) = tx.step(answer) {
        answer = sim.exec(c);
        assert!(sim.log.len() < 100);
    }
    assert!(tx.is_finished());
    assert_eq!(
        sim.log,
        vec![
            Command::CheckDisabled,
            Command::LoadFrame,
            Command::ClearShortcuts,
            Command::SetShortcuts(chained_shortcuts()),
            Command::TriggerRxEnable,
            Command::HoldCarrier,
            Command::ClearShortcuts,
            Command::CheckDisabled,
            Command::TriggerDisable,
            Command::Poll(Event::Disabled),
            Command::Acknowledge(Event::Disabled),
        ]
    );
}

#[test]
fn carrier_retries_until_tx_idle() {
    let mut sim = SimRadio::new(HwState::Disabled);
    let mut starter = CarrierStarter::new();
    let mut answer = false;
    let mut checks = 0;
    while let Some(c) = starter.step(answer) {
        answer = sim.exec(c);
        if c == Command::CheckTxIdle && checks == 0 {
            checks += 1;
            answer = false;
        }
        assert!(sim.log.len() < 100);
    }
    assert_eq!(sim.count(Command::TriggerTxEnable), 2);
    assert_eq!(sim.count(Command::CheckTxIdle), 2);
    assert_eq!(sim.state, HwState::TxIdle);
    assert_eq!(starter.step(true), None);
}

#[test]
fn standard_profile_program() {
    let steps = configure_steps(Profile::Standard);
    assert_eq!(
        steps,
        vec![
            ConfigStep::PowerOff,
            ConfigStep::Settle,
            ConfigStep::PowerOn,
            ConfigStep::Settle,
            ConfigStep::Mode(Modulation::Ieee802154Kbit250),
            ConfigStep::FastRampUp,
            ConfigStep::PacketLayout0(Layout0 {
                length_bits: 8,
                s0_byte: false,
                s1_bits: 0,
                s1_included: false,
                preamble: Preamble::Zero32Bit,
                crc_included: true,
                term_bits: 0,
            }),
            ConfigStep::PacketLayout1(Layout1 {
                max_len: 128,
                static_len: 0,
                base_address_len: 0,
                big_endian: false,
                whitening: false,
            }),
            ConfigStep::Crc { len: 2, skip_address: true },
            ConfigStep::CrcPolynomial(0x0001_1021),
            ConfigStep::CrcInit(0),
            ConfigStep::CcaEnergyDetect { ed_threshold: 20, corr_threshold: 20, corr_count: 2 },
            ConfigStep::Frequency { channel: 40, low_band: false },
            ConfigStep::Power(TxPower::ZeroDbm),
        ]
    );
}

#[test]
fn long_range_profile_program() {
    let steps = configure_steps(Profile::LongRange);
    assert_eq!(steps.len(), 13);
    assert_eq!(&steps[0..4], &[ConfigStep::PowerOff, ConfigStep::Settle, ConfigStep::PowerOn, ConfigStep::Settle]);
    assert_eq!(steps[4], ConfigStep::Mode(Modulation::BleLongRangeKbit125));
    assert_eq!(steps[6], ConfigStep::Crc { len: 0, skip_address: false });
    assert_eq!(
        steps[7],
        ConfigStep::PacketLayout0(Layout0 {
            length_bits: 8,
            s0_byte: false,
            s1_bits: 0,
            s1_included: false,
            preamble: Preamble::LongRange,
            crc_included: false,
            term_bits: 2,
        })
    );
    assert_eq!(steps[9], ConfigStep::BaseAddress0(0xECEB));
    assert_eq!(steps[10], ConfigStep::Prefix0(0x61));
    assert_eq!(steps[11], ConfigStep::Frequency { channel: 30, low_band: true });
    assert_eq!(steps[12], ConfigStep::Power(TxPower::Pos8Dbm));
}

#[test]
fn chain_starts_with_clear_channel_assessment() {
    assert_eq!(
        chained_shortcuts(),
        Shortcuts {
            rxready_ccastart: true,
            ccaidle_txen: true,
            txready_start: true,
            ccabusy_disable: true,
            phyend_disable: true,
            disabled_rxen: true,
        }
    );
    let mut sim = SimRadio::new(HwState::TxIdle);
    let mut tx = ChainedTx::new(&[1u8; 126]).unwrap();
    let mut answer = false;
    while let Some(c) = tx.step(answer) {
        answer = sim.exec(c);
        assert!(sim.log.len() < 100);
    }
    assert_eq!(sim.count(Command::TriggerRxEnable), 1);
    assert_eq!(sim.count(Command::TriggerTxEnable), 0);
    assert_eq!(sim.count(Command::TriggerStart), 0);
    let set = sim.log.iter().position(|c| matches!(c, Command::SetShortcuts(_))).unwrap();
    let released = sim.log.iter().rposition(|c| *c == Command::ClearShortcuts).unwrap();
    let closing = sim.log.iter().rposition(|c| *c == Command::CheckDisabled).unwrap();
    assert!(set < released && released < closing);
    assert_eq!(sim.state, HwState::Disabled);
}
