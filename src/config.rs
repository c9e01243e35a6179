use vstd::prelude::*;
use crate::frequency::{compute_frequency_values, frequency_values};
use crate::packet::MAX_PACKET_LEN;

verus! {

/// Frequency that the standard profile transmits on, in MHz.
pub const STANDARD_FREQ_MHZ: u16 = 2440;

/// Frequency that the long-range profile transmits on, in MHz.
pub const LONG_RANGE_FREQ_MHZ: u16 = 2390;

/// CRC polynomial of the standard profile.
pub const CRC_POLYNOMIAL: u32 = 0x0001_1021;

/// Energy-detect threshold of clear-channel assessment.
pub const CCA_ED_THRESHOLD: u8 = 20;

/// Correlator threshold of clear-channel assessment.
pub const CCA_CORR_THRESHOLD: u8 = 20;

/// Correlator peak count of clear-channel assessment.
pub const CCA_CORR_COUNT: u8 = 2;

/// Base address of the long-range profile.
pub const LONG_RANGE_BASE0: u32 = 0xECEB;

/// Address prefix of the long-range profile.
pub const LONG_RANGE_PREFIX0: u8 = 0x61;

/// One of the two operating profiles of the radio.
#[derive(Clone, Copy, Debug, PartialEq, Eq, Structural)]
pub enum Profile {
    /// IEEE 802.15.4 at 250 kbit/s, with CRC and clear-channel assessment,
    /// at 0 dBm.
    Standard,
    /// Bluetooth long range at 125 kbit/s, without CRC, at 8 dBm.
    LongRange,
}

#[derive(Clone, Copy, Debug, PartialEq, Eq, Structural)]
pub enum Modulation {
    Ieee802154Kbit250,
    BleLongRangeKbit125,
}

#[derive(Clone, Copy, Debug, PartialEq, Eq, Structural)]
pub enum Preamble {
    /// 32 bits of zeros.
    Zero32Bit,
    /// The preamble of the long-range mode.
    LongRange,
}

#[derive(Clone, Copy, Debug, PartialEq, Eq, Structural)]
pub enum TxPower {
    ZeroDbm,
    Pos8Dbm,
}

/// The first packet-layout register.
#[derive(Clone, Copy, Debug, PartialEq, Eq, Structural)]
pub struct Layout0 {
    /// Width of the length field, in bits.
    pub length_bits: u8,
    /// Whether the S0 field is one byte long.
    pub s0_byte: bool,
    /// Width of the S1 field, in bits.
    pub s1_bits: u8,
    /// Whether the S1 field is always included.
    pub s1_included: bool,
    pub preamble: Preamble,
    /// Whether the length field counts the CRC.
    pub crc_included: bool,
    /// Width of the long-range trailer, in bits.
    pub term_bits: u8,
}

/// The second packet-layout register.
#[derive(Clone, Copy, Debug, PartialEq, Eq, Structural)]
pub struct Layout1 {
    pub max_len: u8,
    pub static_len: u8,
    pub base_address_len: u8,
    pub big_endian: bool,
    pub whitening: bool,
}

/// One write to the radio's configuration, or a settling delay.
#[derive(Clone, Copy, Debug, PartialEq, Eq, Structural)]
pub enum ConfigStep {
    PowerOff,
    PowerOn,
    /// Spin for the short delay that lets a power transition settle.
    Settle,
    Mode(Modulation),
    /// Fast ramp-up, with the carrier centred while idle.
    FastRampUp,
    /// CRC length in bytes (zero disables it), and whether the address is
    /// left out of it as IEEE 802.15.4 does.
    Crc { len: u8, skip_address: bool },
    CrcPolynomial(u32),
    CrcInit(u32),
    PacketLayout0(Layout0),
    PacketLayout1(Layout1),
    /// Clear-channel assessment in energy-detect mode.
    CcaEnergyDetect { ed_threshold: u8, corr_threshold: u8, corr_count: u8 },
    BaseAddress0(u32),
    Prefix0(u8),
    /// Channel register value and band flag (`true` for the low band).
    Frequency { channel: u8, low_band: bool },
    Power(TxPower),
}

/// The frequency write for a supported frequency.
pub open spec fn frequency_step(mhz: int) -> ConfigStep {
    ConfigStep::Frequency {
        channel: frequency_values(mhz).0 as u8,
        low_band: frequency_values(mhz).1,
    }
}

/// The power cycle that starts every configuration.
pub open spec fn power_cycle() -> Seq<ConfigStep> {
    seq![ConfigStep::PowerOff, ConfigStep::Settle, ConfigStep::PowerOn, ConfigStep::Settle]
}

/// The writes that put the radio in `profile`, in order.
pub open spec fn config_program(profile: Profile) -> Seq<ConfigStep> {
    match profile {
        Profile::Standard => power_cycle() + seq![
            ConfigStep::Mode(Modulation::Ieee802154Kbit250),
            ConfigStep::FastRampUp,
            ConfigStep::PacketLayout0(Layout0 {
                length_bits: 8,
                s0_byte: false,
                s1_bits: 0,
                s1_included: false,
                preamble: Preamble::Zero32Bit,
                crc_included: true,
                term_bits: 0,
            }),
            ConfigStep::PacketLayout1(Layout1 {
                max_len: MAX_PACKET_LEN as u8,
                static_len: 0,
                base_address_len: 0,
                big_endian: false,
                whitening: false,
            }),
            ConfigStep::Crc { len: 2, skip_address: true },
            ConfigStep::CrcPolynomial(CRC_POLYNOMIAL),
            ConfigStep::CrcInit(0),
            ConfigStep::CcaEnergyDetect {
                ed_threshold: CCA_ED_THRESHOLD,
                corr_threshold: CCA_CORR_THRESHOLD,
                corr_count: CCA_CORR_COUNT,
            },
            frequency_step(STANDARD_FREQ_MHZ as int),
            ConfigStep::Power(TxPower::ZeroDbm),
        ],
        Profile::LongRange => power_cycle() + seq![
            ConfigStep::Mode(Modulation::BleLongRangeKbit125),
            ConfigStep::FastRampUp,
            ConfigStep::Crc { len: 0, skip_address: false },
            ConfigStep::PacketLayout0(Layout0 {
                length_bits: 8,
                s0_byte: false,
                s1_bits: 0,
                s1_included: false,
                preamble: Preamble::LongRange,
                crc_included: false,
                term_bits: 2,
            }),
            ConfigStep::PacketLayout1(Layout1 {
                max_len: MAX_PACKET_LEN as u8,
                static_len: 0,
                base_address_len: 2,
                big_endian: false,
                whitening: false,
            }),
            ConfigStep::BaseAddress0(LONG_RANGE_BASE0),
            ConfigStep::Prefix0(LONG_RANGE_PREFIX0),
            frequency_step(LONG_RANGE_FREQ_MHZ as int),
            ConfigStep::Power(TxPower::Pos8Dbm),
        ],
    }
}

/// The frequency write for one of the profiles' fixed frequencies.
fn frequency_write(mhz: u16) -> (r: ConfigStep)
    requires
        mhz == STANDARD_FREQ_MHZ || mhz == LONG_RANGE_FREQ_MHZ,
    ensures
        r == frequency_step(mhz as int),
{
    let (channel, low_band) = compute_frequency_values(mhz);
    ConfigStep::Frequency { channel, low_band }
}

/// The writes that put the radio in `profile`, in order: a power cycle,
/// then the profile's modulation, packet layout and CRC (in the order the
/// profile needs them), addressing or clear-channel settings, frequency and
/// transmit power.
pub fn configure_steps(profile: Profile) -> (r: Vec<ConfigStep>)
    ensures
        r@ == config_program(profile),
{
    let mut v: Vec<ConfigStep> = Vec::new();
    v.push(ConfigStep::PowerOff);
    v.push(ConfigStep::Settle);
    v.push(ConfigStep::PowerOn);
    v.push(ConfigStep::Settle);
    match profile {
        Profile::Standard => {
            v.push(ConfigStep::Mode(Modulation::Ieee802154Kbit250));
            v.push(ConfigStep::FastRampUp);
            v.push(
                ConfigStep::PacketLayout0(
                    Layout0 {
                        length_bits: 8,
                        s0_byte: false,
                        s1_bits: 0,
                        s1_included: false,
                        preamble: Preamble::Zero32Bit,
                        crc_included: true,
                        term_bits: 0,
                    },
                ),
            );
            v.push(
                ConfigStep::PacketLayout1(
                    Layout1 {
                        max_len: MAX_PACKET_LEN as u8,
                        static_len: 0,
                        base_address_len: 0,
                        big_endian: false,
                        whitening: false,
                    },
                ),
            );
            v.push(ConfigStep::Crc { len: 2, skip_address: true });
            v.push(ConfigStep::CrcPolynomial(CRC_POLYNOMIAL));
            v.push(ConfigStep::CrcInit(0));
            v.push(
                ConfigStep::CcaEnergyDetect {
                    ed_threshold: CCA_ED_THRESHOLD,
                    corr_threshold: CCA_CORR_THRESHOLD,
                    corr_count: CCA_CORR_COUNT,
                },
            );
            v.push(frequency_write(STANDARD_FREQ_MHZ));
            v.push(ConfigStep::Power(TxPower::ZeroDbm));
        },
        Profile::LongRange => {
            v.push(ConfigStep::Mode(Modulation::BleLongRangeKbit125));
            v.push(ConfigStep::FastRampUp);
            v.push(ConfigStep::Crc { len: 0, skip_address: false });
            v.push(
                ConfigStep::PacketLayout0(
                    Layout0 {
                        length_bits: 8,
                        s0_byte: false,
                        s1_bits: 0,
                        s1_included: false,
                        preamble: Preamble::LongRange,
                        crc_included: false,
                        term_bits: 2,
                    },
                ),
            );
            v.push(
                ConfigStep::PacketLayout1(
                    Layout1 {
                        max_len: MAX_PACKET_LEN as u8,
                        static_len: 0,
                        base_address_len: 2,
                        big_endian: false,
                        whitening: false,
                    },
                ),
            );
            v.push(ConfigStep::BaseAddress0(LONG_RANGE_BASE0));
            v.push(ConfigStep::Prefix0(LONG_RANGE_PREFIX0));
            v.push(frequency_write(LONG_RANGE_FREQ_MHZ));
            v.push(ConfigStep::Power(TxPower::Pos8Dbm));
        },
    }
    assert(v@ =~= config_program(profile));
    v
}

/// Every configuration starts with a power cycle and ends by setting the
/// transmit power, and the standard profile transmits on channel 40 of the
/// default band while the long-range one uses channel 30 of the low band.
pub proof fn lemma_config_shape(profile: Profile)
    ensures
        config_program(profile).subrange(0, 4) == power_cycle(),
        config_program(profile).last() is Power,
        frequency_step(STANDARD_FREQ_MHZ as int) == (ConfigStep::Frequency {
            channel: 40,
            low_band: false,
        }),
        frequency_step(LONG_RANGE_FREQ_MHZ as int) == (ConfigStep::Frequency {
            channel: 30,
            low_band: true,
        }),
{
    assert(config_program(profile).subrange(0, 4) =~= power_cycle());
}

} // verus!
