//! Waveform settings for an SSD1680-class e-paper display controller.
//!
//! A [`WaveformSetting`] is one complete electrical waveform program: the
//! 153-byte look-up table of the controller and six scalar voltage
//! parameters. The crate decodes such a setting from its flat 159-byte form,
//! encodes it back, and ships three ready-made settings.

pub mod laws;
pub mod layout;
pub mod presets;
pub mod setting;

pub use setting::{InvalidLength, WaveformSetting};
