//! What holds of decoding, for every input.

use crate::layout::{LUT_LEN, RAW_LEN, SCALAR_LEN};
use crate::setting::WaveformSetting;
use vstd::prelude::*;
use vstd::std_specs::cmp::PartialEqSpec;
use vstd::std_specs::convert::FromSpec;

verus! {

/// Decoding loses nothing and invents nothing: the look-up table of the
/// decoded setting, followed by its `eopq`, `vgh`, `vsh1`, `vsh2`, `vsl` and
/// `vcom`, is the input again.
pub proof fn lemma_decode_round_trip(raw: [u8; RAW_LEN])
    ensures
        ({
            let w = WaveformSetting::from_spec(raw);
            w.lut()@ + seq![w.eopq(), w.vgh(), w.vsh1(), w.vsh2(), w.vsl(), w.vcom()] == raw@
        }),
{
    WaveformSetting::lemma_of_raw_view(raw@);
}

/// Encoding and then decoding gives the setting back.
pub proof fn lemma_encode_round_trip(w: WaveformSetting)
    ensures
        WaveformSetting::of_raw(w@) == w,
{
    WaveformSetting::lemma_of_raw_view(w@);
    WaveformSetting::lemma_view_injective(WaveformSetting::of_raw(w@), w);
}

/// Whatever the input, the decoded look-up table has `LUT_LEN` bytes and the
/// scalar block has `SCALAR_LEN`.
pub proof fn lemma_partition_sizes(raw: [u8; RAW_LEN])
    ensures
        WaveformSetting::from_spec(raw).lut()@.len() == LUT_LEN,
        WaveformSetting::from_spec(raw).scalars().len() == SCALAR_LEN,
        WaveformSetting::from_spec(raw)@.len() == RAW_LEN,
{
}

/// Every byte of the input lands in the place that its position names: byte
/// `i` of the first `LUT_LEN` is byte `i` of the look-up table, and the six
/// after them are `eopq`, `vgh`, `vsh1`, `vsh2`, `vsl` and `vcom`, in this
/// order.
pub proof fn lemma_decode_positions(raw: [u8; RAW_LEN])
    ensures
        forall|i: int| 0 <= i < LUT_LEN ==> WaveformSetting::from_spec(raw).lut()[i] == raw[i],
        WaveformSetting::from_spec(raw).eopq() == raw[LUT_LEN as int],
        WaveformSetting::from_spec(raw).vgh() == raw[LUT_LEN + 1],
        WaveformSetting::from_spec(raw).vsh1() == raw[LUT_LEN + 2],
        WaveformSetting::from_spec(raw).vsh2() == raw[LUT_LEN + 3],
        WaveformSetting::from_spec(raw).vsl() == raw[LUT_LEN + 4],
        WaveformSetting::from_spec(raw).vcom() == raw[LUT_LEN + 5],
{
    let w = WaveformSetting::from_spec(raw);
    WaveformSetting::lemma_of_raw_view(raw@);
    assert forall|i: int| 0 <= i < RAW_LEN implies w@[i] == raw[i] by {}
}

/// Decoding depends on the bytes of the input and on nothing else: inputs
/// that hold the same bytes decode to settings that are equal, as values and
/// under `==`.
pub proof fn lemma_decode_deterministic(a: [u8; RAW_LEN], b: [u8; RAW_LEN])
    requires
        a@ == b@,
    ensures
        WaveformSetting::from_spec(a) == WaveformSetting::from_spec(b),
        WaveformSetting::from_spec(a).eq_spec(&WaveformSetting::from_spec(b)),
{
}

} // verus!
