//! Byte layout of one waveform configuration.
//!
//! A configuration is a flat run of bytes: the look-up table that the
//! controller replays during a refresh, followed by six single-byte voltage
//! and control parameters. The look-up table itself is made of four regions
//! laid end to end.

use vstd::prelude::*;

verus! {

/// Number of voltage-select groups at the start of the look-up table.
pub const VS_GROUPS: usize = 5;

/// Bytes in one voltage-select group. Each byte packs two 4-bit level codes.
pub const VS_GROUP_LEN: usize = 12;

/// Number of timing groups that follow the voltage-select groups.
pub const TIMING_GROUPS: usize = 12;

/// Bytes in one timing group: `TPa, TPb, SRab, TPc, TPd, SRcd, RP`.
pub const TIMING_GROUP_LEN: usize = 7;

/// Bytes of frame-rate selectors, one nibble per drive group.
pub const FRAME_RATE_LEN: usize = 6;

/// Bytes of gate-scan selectors, one bit pair per drive group.
pub const GATE_SCAN_LEN: usize = 3;

/// Offset of the first timing group inside the look-up table.
pub const TIMING_START: usize = VS_GROUPS * VS_GROUP_LEN;

/// Offset of the frame-rate selectors inside the look-up table.
pub const FRAME_RATE_START: usize = TIMING_START + TIMING_GROUPS * TIMING_GROUP_LEN;

/// Offset inside the look-up table at which gate-scan selectors start.
pub const GATE_SCAN_START: usize = FRAME_RATE_START + FRAME_RATE_LEN;

/// Length of the look-up table.
pub const LUT_LEN: usize = GATE_SCAN_START + GATE_SCAN_LEN;

/// Number of scalar parameters that follow the look-up table.
pub const SCALAR_LEN: usize = 6;

/// Length of a complete raw configuration.
pub const RAW_LEN: usize = LUT_LEN + SCALAR_LEN;

} // verus!
