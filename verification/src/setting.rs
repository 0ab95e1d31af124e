//! The waveform setting and its conversion from and to raw bytes.

use crate::layout::{LUT_LEN, RAW_LEN};
use vstd::prelude::*;

verus! {

/// One complete waveform program for the controller: the look-up table and
/// six scalar parameters.
///
/// A setting is fixed once it is built: it can be read, compared and copied,
/// never changed in place. Any bytes make a setting; whether the voltages
/// suit a given panel is for the driver to judge.
#[derive(Clone, Copy, Debug)]
pub struct WaveformSetting {
    pub(crate) lut: [u8; LUT_LEN],
    pub(crate) eopq: u8,
    pub(crate) vgh: u8,
    pub(crate) vsh1: u8,
    pub(crate) vsh2: u8,
    pub(crate) vsl: u8,
    pub(crate) vcom: u8,
}

/// The one way in which decoding fails: the input does not have `RAW_LEN`
/// bytes.
#[derive(Clone, Copy, Debug, PartialEq, Eq, Structural)]
pub struct InvalidLength {
    /// The length of the rejected input.
    pub len: usize,
}

impl WaveformSetting {
    /// What [`Self::lut`] returns.
    pub closed spec fn spec_lut(&self) -> &[u8; LUT_LEN] {
        &self.lut
    }

    /// What [`Self::eopq`] returns.
    pub closed spec fn spec_eopq(&self) -> u8 {
        self.eopq
    }

    /// What [`Self::vgh`] returns.
    pub closed spec fn spec_vgh(&self) -> u8 {
        self.vgh
    }

    /// What [`Self::vsh1`] returns.
    pub closed spec fn spec_vsh1(&self) -> u8 {
        self.vsh1
    }

    /// What [`Self::vsh2`] returns.
    pub closed spec fn spec_vsh2(&self) -> u8 {
        self.vsh2
    }

    /// What [`Self::vsl`] returns.
    pub closed spec fn spec_vsl(&self) -> u8 {
        self.vsl
    }

    /// What [`Self::vcom`] returns.
    pub closed spec fn spec_vcom(&self) -> u8 {
        self.vcom
    }

    /// The six scalar parameters in the order in which they follow the
    /// look-up table.
    pub open spec fn scalars(&self) -> Seq<u8> {
        seq![
            self.spec_eopq(),
            self.spec_vgh(),
            self.spec_vsh1(),
            self.spec_vsh2(),
            self.spec_vsl(),
            self.spec_vcom(),
        ]
    }

    /// The setting whose raw form is `bytes`.
    ///
    /// Every sequence of `RAW_LEN` bytes is the raw form of exactly one
    /// setting: [`Self::lemma_of_raw_view`] shows that there is one,
    /// [`Self::lemma_view_injective`] that there is no other. A sequence of
    /// another length is the raw form of none, and nothing is said of the
    /// result.
    pub open spec fn of_raw(bytes: Seq<u8>) -> WaveformSetting {
        choose|w: WaveformSetting| w@ == bytes
    }

    /// The look-up table, as it is written to the controller's LUT register.
    #[verifier::when_used_as_spec(spec_lut)]
    pub fn lut(&self) -> (r: &[u8; LUT_LEN])
        ensures
            r == self.spec_lut(),
            r@ == self@.subrange(0, LUT_LEN as int),
    {
        &self.lut
    }

    /// The end-of-operation control byte.
    #[verifier::when_used_as_spec(spec_eopq)]
    pub fn eopq(&self) -> (r: u8)
        ensures
            r == self.spec_eopq(),
            r == self@[LUT_LEN as int],
    {
        self.eopq
    }

    /// Gate high voltage.
    #[verifier::when_used_as_spec(spec_vgh)]
    pub fn vgh(&self) -> (r: u8)
        ensures
            r == self.spec_vgh(),
            r == self@[LUT_LEN + 1],
    {
        self.vgh
    }

    /// Source high voltage of phase 1.
    #[verifier::when_used_as_spec(spec_vsh1)]
    pub fn vsh1(&self) -> (r: u8)
        ensures
            r == self.spec_vsh1(),
            r == self@[LUT_LEN + 2],
    {
        self.vsh1
    }

    /// Source high voltage of phase 2.
    #[verifier::when_used_as_spec(spec_vsh2)]
    pub fn vsh2(&self) -> (r: u8)
        ensures
            r == self.spec_vsh2(),
            r == self@[LUT_LEN + 3],
    {
        self.vsh2
    }

    /// Source low voltage.
    #[verifier::when_used_as_spec(spec_vsl)]
    pub fn vsl(&self) -> (r: u8)
        ensures
            r == self.spec_vsl(),
            r == self@[LUT_LEN + 4],
    {
        self.vsl
    }

    /// Common electrode voltage.
    #[verifier::when_used_as_spec(spec_vcom)]
    pub fn vcom(&self) -> (r: u8)
        ensures
            r == self.spec_vcom(),
            r == self@[LUT_LEN + 5],
    {
        self.vcom
    }

    /// Decodes a buffer of any length.
    ///
    /// A buffer of exactly `RAW_LEN` bytes gives the setting whose look-up
    /// table is its first `LUT_LEN` bytes and whose scalars are the six bytes
    /// after them. A buffer of any other length is rejected before a byte of
    /// it is read. What the bytes hold is not examined.
    pub fn from_slice(bytes: &[u8]) -> (r: Result<WaveformSetting, InvalidLength>)
        ensures
            bytes@.len() == RAW_LEN ==> r == Ok::<WaveformSetting, InvalidLength>(
                Self::of_raw(bytes@),
            ),
            bytes@.len() != RAW_LEN ==> r == Err::<WaveformSetting, InvalidLength>(
                (InvalidLength { len: bytes.len() }),
            ),
            r matches Ok(w) ==> w@ == bytes@,
    {
        if bytes.len() != RAW_LEN {
            return Err(InvalidLength { len: bytes.len() });
        }
        Ok(Self::copy_from(bytes))
    }

    /// The raw form of the setting: the look-up table followed by `eopq`,
    /// `vgh`, `vsh1`, `vsh2`, `vsl` and `vcom`.
    pub fn to_bytes(&self) -> (raw: [u8; RAW_LEN])
        ensures
            raw@ == self@,
    {
        let mut raw = [0u8; RAW_LEN];
        let mut i: usize = 0;
        while i < LUT_LEN
            invariant
                i <= LUT_LEN,
                forall|j: int| 0 <= j < i ==> raw@[j] == self.lut@[j],
            decreases LUT_LEN - i,
        {
            raw[i] = self.lut[i];
            i += 1;
        }
        raw[LUT_LEN] = self.eopq;
        raw[LUT_LEN + 1] = self.vgh;
        raw[LUT_LEN + 2] = self.vsh1;
        raw[LUT_LEN + 3] = self.vsh2;
        raw[LUT_LEN + 4] = self.vsl;
        raw[LUT_LEN + 5] = self.vcom;
        assert(raw@ =~= self@);
        raw
    }

    /// Copies a buffer of the right length into a setting.
    fn copy_from(bytes: &[u8]) -> (w: WaveformSetting)
        requires
            bytes@.len() == RAW_LEN,
        ensures
            w@ == bytes@,
            w == Self::of_raw(bytes@),
    {
        let mut lut = [0u8; LUT_LEN];
        let mut i: usize = 0;
        while i < LUT_LEN
            invariant
                i <= LUT_LEN,
                bytes@.len() == RAW_LEN,
                forall|j: int| 0 <= j < i ==> lut@[j] == bytes@[j],
            decreases LUT_LEN - i,
        {
            lut[i] = bytes[i];
            i += 1;
        }
        let w = WaveformSetting {
            lut,
            eopq: bytes[LUT_LEN],
            vgh: bytes[LUT_LEN + 1],
            vsh1: bytes[LUT_LEN + 2],
            vsh2: bytes[LUT_LEN + 3],
            vsl: bytes[LUT_LEN + 4],
            vcom: bytes[LUT_LEN + 5],
        };
        proof {
            assert(w@ =~= bytes@);
            Self::lemma_of_raw_view(bytes@);
            Self::lemma_view_injective(w, Self::of_raw(bytes@));
        }
        w
    }

    /// Every sequence of `RAW_LEN` bytes is the raw form of a setting, and
    /// `of_raw` finds it.
    pub proof fn lemma_of_raw_view(bytes: Seq<u8>)
        requires
            bytes.len() == RAW_LEN,
        ensures
            Self::of_raw(bytes)@ == bytes,
    {
        let w = WaveformSetting {
            lut: Self::lut_agreeing(bytes, LUT_LEN as nat),
            eopq: bytes[LUT_LEN as int],
            vgh: bytes[LUT_LEN + 1],
            vsh1: bytes[LUT_LEN + 2],
            vsh2: bytes[LUT_LEN + 3],
            vsl: bytes[LUT_LEN + 4],
            vcom: bytes[LUT_LEN + 5],
        };
        assert(w@ =~= bytes);
    }

    /// Two settings with the same raw form are the same setting.
    pub proof fn lemma_view_injective(a: WaveformSetting, b: WaveformSetting)
        ensures
            a@ == b@ <==> a == b,
    {
        if a@ == b@ {
            assert forall|i: int| 0 <= i < LUT_LEN implies a.lut[i] == b.lut[i] by {
                assert(a@[i] == b@[i]);
            }
            assert(a.lut =~= b.lut);
            assert forall|k: int| 0 <= k < 6 implies a.scalars()[k] == b.scalars()[k] by {
                assert(a@[LUT_LEN + k] == b@[LUT_LEN + k]);
            }
        }
    }

    /// An array that agrees with `bytes` in its first `n` places.
    proof fn lut_agreeing(bytes: Seq<u8>, n: nat) -> (a: [u8; LUT_LEN])
        requires
            n <= LUT_LEN <= bytes.len(),
        ensures
            forall|i: int| 0 <= i < n ==> a@[i] == bytes[i],
        decreases n,
    {
        if n == 0 {
            vstd::array::spec_array_fill_for_copy_type::<u8, LUT_LEN>(0u8)
        } else {
            let k = (n - 1) as nat;
            let shorter = Self::lut_agreeing(bytes, k);
            vstd::array::spec_array_update(shorter, k as int, bytes[k as int])
        }
    }
}

/// A setting is modelled by its raw form: the look-up table followed by the
/// scalar parameters.
impl View for WaveformSetting {
    type V = Seq<u8>;

    open spec fn view(&self) -> Seq<u8> {
        self.spec_lut()@ + self.scalars()
    }
}

impl From<[u8; RAW_LEN]> for WaveformSetting {
    /// Decodes a raw configuration. Every input is accepted: the first
    /// `LUT_LEN` bytes become the look-up table, in order, and the six bytes
    /// after them become `eopq`, `vgh`, `vsh1`, `vsh2`, `vsl` and `vcom`.
    fn from(value: [u8; RAW_LEN]) -> (w: WaveformSetting)
        ensures
            w@ == value@,
    {
        Self::copy_from(value.as_slice())
    }
}

impl vstd::std_specs::convert::FromSpecImpl<[u8; RAW_LEN]> for WaveformSetting {
    open spec fn obeys_from_spec() -> bool {
        true
    }

    open spec fn from_spec(value: [u8; RAW_LEN]) -> WaveformSetting {
        WaveformSetting::of_raw(value@)
    }
}

/// Two settings are equal when they hold the same bytes in every place.
impl PartialEq for WaveformSetting {
    fn eq(&self, other: &WaveformSetting) -> (r: bool) {
        let mut i: usize = 0;
        while i < LUT_LEN
            invariant
                i <= LUT_LEN,
                forall|j: int| 0 <= j < i ==> self.lut@[j] == other.lut@[j],
            decreases LUT_LEN - i,
        {
            if self.lut[i] != other.lut[i] {
                assert(self@[i as int] != other@[i as int]);
                return false;
            }
            i += 1;
        }
        let same = self.eopq == other.eopq && self.vgh == other.vgh && self.vsh1 == other.vsh1
            && self.vsh2 == other.vsh2 && self.vsl == other.vsl && self.vcom == other.vcom;
        proof {
            assert(self.lut@ =~= other.lut@);
            WaveformSetting::lemma_view_injective(*self, *other);
        }
        same
    }
}

impl vstd::std_specs::cmp::PartialEqSpecImpl for WaveformSetting {
    open spec fn obeys_eq_spec() -> bool {
        true
    }

    open spec fn eq_spec(&self, other: &WaveformSetting) -> bool {
        self@ == other@
    }
}

impl Eq for WaveformSetting {

}

} // verus!
