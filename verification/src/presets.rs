//! Three ready-made waveform settings.
//!
//! Each table below is a complete raw configuration, laid out as
//! [`crate::layout`] describes: five voltage-select groups of twelve bytes,
//! twelve timing groups of seven bytes (`TPa, TPb, SRab, TPc, TPd, SRcd, RP`),
//! six bytes of frame-rate selectors, three bytes of gate-scan selectors, and
//! then `eopq`, `vgh`, `vsh1`, `vsh2`, `vsl`, `vcom`. The functions hand the
//! tables out as settings.

use crate::layout::RAW_LEN;
use crate::setting::WaveformSetting;
use vstd::prelude::*;

verus! {

/// Full refresh through four grey levels: four voltage-select groups drive
/// several phases each, and two timing groups repeat.
pub const LUT_GRAY4: [u8; RAW_LEN] = [
    // voltage-select groups 0 to 4
    0x40, 0x48, 0x80, 0x00, 0x00, 0x00, 0x00, 0x00, 0x00, 0x00, 0x00, 0x00,
    0x08, 0x48, 0x10, 0x00, 0x00, 0x00, 0x00, 0x00, 0x00, 0x00, 0x00, 0x00,
    0x02, 0x48, 0x04, 0x00, 0x00, 0x00, 0x00, 0x00, 0x00, 0x00, 0x00, 0x00,
    0x20, 0x48, 0x01, 0x00, 0x00, 0x00, 0x00, 0x00, 0x00, 0x00, 0x00, 0x00,
    0x00, 0x00, 0x00, 0x00, 0x00, 0x00, 0x00, 0x00, 0x00, 0x00, 0x00, 0x00,
    // timing groups 0 to 11
    0x0a, 0x19, 0x00, 0x03, 0x08, 0x00, 0x00,
    0x14, 0x01, 0x00, 0x14, 0x01, 0x00, 0x03,
    0x0a, 0x03, 0x00, 0x08, 0x19, 0x00, 0x00,
    0x01, 0x00, 0x00, 0x00, 0x00, 0x00, 0x01,
    0x00, 0x00, 0x00, 0x00, 0x00, 0x00, 0x00,
    0x00, 0x00, 0x00, 0x00, 0x00, 0x00, 0x00,
    0x00, 0x00, 0x00, 0x00, 0x00, 0x00, 0x00,
    0x00, 0x00, 0x00, 0x00, 0x00, 0x00, 0x00,
    0x00, 0x00, 0x00, 0x00, 0x00, 0x00, 0x00,
    0x00, 0x00, 0x00, 0x00, 0x00, 0x00, 0x00,
    0x00, 0x00, 0x00, 0x00, 0x00, 0x00, 0x00,
    0x00, 0x00, 0x00, 0x00, 0x00, 0x00, 0x00,
    // frame-rate selectors
    0x22, 0x22, 0x22, 0x22, 0x22, 0x22,
    // gate-scan selectors
    0x00, 0x00, 0x00,
    // eopq, vgh, vsh1, vsh2, vsl, vcom
    0x22, 0x17, 0x41, 0x00, 0x32, 0x1c,
];

/// Fast partial refresh: short phases and no repeats, at the price of some
/// ghosting.
pub const LUT_FAST_REFRESH: [u8; RAW_LEN] = [
    // voltage-select groups 0 to 4
    0x00, 0x40, 0x00, 0x00, 0x00, 0x00, 0x00, 0x00, 0x00, 0x00, 0x00, 0x00,
    0x80, 0x80, 0x00, 0x00, 0x00, 0x00, 0x00, 0x00, 0x00, 0x00, 0x00, 0x00,
    0x40, 0x40, 0x00, 0x00, 0x00, 0x00, 0x00, 0x00, 0x00, 0x00, 0x00, 0x00,
    0x00, 0x80, 0x00, 0x00, 0x00, 0x00, 0x00, 0x00, 0x00, 0x00, 0x00, 0x00,
    0x00, 0x00, 0x00, 0x00, 0x00, 0x00, 0x00, 0x00, 0x00, 0x00, 0x00, 0x00,
    // timing groups 0 to 11
    0x14, 0x00, 0x00, 0x00, 0x00, 0x00, 0x00,
    0x01, 0x00, 0x00, 0x00, 0x00, 0x00, 0x00,
    0x01, 0x00, 0x00, 0x00, 0x00, 0x00, 0x00,
    0x00, 0x00, 0x00, 0x00, 0x00, 0x00, 0x00,
    0x00, 0x00, 0x00, 0x00, 0x00, 0x00, 0x00,
    0x00, 0x00, 0x00, 0x00, 0x00, 0x00, 0x00,
    0x00, 0x00, 0x00, 0x00, 0x00, 0x00, 0x00,
    0x00, 0x00, 0x00, 0x00, 0x00, 0x00, 0x00,
    0x00, 0x00, 0x00, 0x00, 0x00, 0x00, 0x00,
    0x00, 0x00, 0x00, 0x00, 0x00, 0x00, 0x00,
    0x00, 0x00, 0x00, 0x00, 0x00, 0x00, 0x00,
    0x00, 0x00, 0x00, 0x00, 0x00, 0x00, 0x00,
    // frame-rate selectors
    0x22, 0x22, 0x22, 0x22, 0x22, 0x22,
    // gate-scan selectors
    0x00, 0x00, 0x00,
    // eopq, vgh, vsh1, vsh2, vsl, vcom
    0x22, 0x17, 0x41, 0x00, 0x32, 0x1c,
];

/// Fast partial refresh, second tuning: other voltage assignments, and timing
/// group 1 runs twice.
pub const LUT_FAST_REFRESH2: [u8; RAW_LEN] = [
    // voltage-select groups 0 to 4
    0x80, 0x4a, 0x40, 0x00, 0x00, 0x00, 0x00, 0x00, 0x00, 0x00, 0x00, 0x00,
    0x40, 0x4a, 0x80, 0x00, 0x00, 0x00, 0x00, 0x00, 0x00, 0x00, 0x00, 0x00,
    0x80, 0x4a, 0x40, 0x00, 0x00, 0x00, 0x00, 0x00, 0x00, 0x00, 0x00, 0x00,
    0x40, 0x4a, 0x80, 0x00, 0x00, 0x00, 0x00, 0x00, 0x00, 0x00, 0x00, 0x00,
    0x00, 0x00, 0x00, 0x00, 0x00, 0x00, 0x00, 0x00, 0x00, 0x00, 0x00, 0x00,
    // timing groups 0 to 11
    0x0f, 0x00, 0x00, 0x00, 0x00, 0x00, 0x00,
    0x0f, 0x00, 0x00, 0x0f, 0x00, 0x00, 0x02,
    0x0f, 0x00, 0x00, 0x00, 0x00, 0x00, 0x00,
    0x01, 0x00, 0x00, 0x00, 0x00, 0x00, 0x00,
    0x00, 0x00, 0x00, 0x00, 0x00, 0x00, 0x00,
    0x00, 0x00, 0x00, 0x00, 0x00, 0x00, 0x00,
    0x00, 0x00, 0x00, 0x00, 0x00, 0x00, 0x00,
    0x00, 0x00, 0x00, 0x00, 0x00, 0x00, 0x00,
    0x00, 0x00, 0x00, 0x00, 0x00, 0x00, 0x00,
    0x00, 0x00, 0x00, 0x00, 0x00, 0x00, 0x00,
    0x00, 0x00, 0x00, 0x00, 0x00, 0x00, 0x00,
    0x00, 0x00, 0x00, 0x00, 0x00, 0x00, 0x00,
    // frame-rate selectors
    0x22, 0x22, 0x22, 0x22, 0x22, 0x22,
    // gate-scan selectors
    0x00, 0x00, 0x00,
    // eopq, vgh, vsh1, vsh2, vsl, vcom
    0x22, 0x17, 0x41, 0x00, 0x32, 0x1c,
];

/// The four-level greyscale setting.
pub fn gray4() -> (w: WaveformSetting)
    ensures
        w@ == LUT_GRAY4@,
{
    WaveformSetting::from(LUT_GRAY4)
}

/// The fast-refresh setting.
pub fn fast_refresh() -> (w: WaveformSetting)
    ensures
        w@ == LUT_FAST_REFRESH@,
{
    WaveformSetting::from(LUT_FAST_REFRESH)
}

/// The second fast-refresh setting.
pub fn fast_refresh2() -> (w: WaveformSetting)
    ensures
        w@ == LUT_FAST_REFRESH2@,
{
    WaveformSetting::from(LUT_FAST_REFRESH2)
}

} // verus!
