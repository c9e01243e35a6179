use vstd::prelude::*;

verus! {

/// Frequency of the low band's channel zero, in MHz.
pub const LOW_BAND_BASE_MHZ: u16 = 2360;

/// Frequency of the default band's channel zero, in MHz.
pub const DEFAULT_BAND_BASE_MHZ: u16 = 2400;

/// The channel register value and band flag (`true` for the low band) of `mhz`.
pub open spec fn frequency_values(mhz: int) -> (int, bool) {
    if mhz < 2400 {
        (mhz - 2360, true)
    } else {
        (mhz - 2400, false)
    }
}

/// A frequency that one of the two band tables can express in a byte.
pub open spec fn frequency_supported(mhz: int) -> bool {
    2360 <= mhz && mhz < 2400 + 256
}

/// Maps a frequency in MHz to the channel register value and the band flag
/// (`true` selects the low band, based at 2360 MHz; `false` the default band,
/// based at 2400 MHz).
pub fn compute_frequency_values(mhz: u16) -> (r: (u8, bool))
    requires
        frequency_supported(mhz as int),
    ensures
        (r.0 as int, r.1) == frequency_values(mhz as int),
{
    if mhz < DEFAULT_BAND_BASE_MHZ {
        ((mhz - LOW_BAND_BASE_MHZ) as u8, true)
    } else {
        ((mhz - DEFAULT_BAND_BASE_MHZ) as u8, false)
    }
}

/// The channel register value and band flag are a function of the frequency
/// alone, and each frequency of the supported range gets a register value
/// that fits in a byte; the low band serves exactly the frequencies below
/// 2400 MHz.
pub proof fn lemma_frequency_total(mhz: int)
    requires
        frequency_supported(mhz),
    ensures
        0 <= frequency_values(mhz).0 < 256,
        frequency_values(mhz).1 <==> mhz < 2400,
        frequency_values(mhz).1 ==> mhz == 2360 + frequency_values(mhz).0,
        !frequency_values(mhz).1 ==> mhz == 2400 + frequency_values(mhz).0,
{
}

} // verus!
