use epd_waveform::presets::{
    fast_refresh, fast_refresh2, gray4, LUT_FAST_REFRESH, LUT_FAST_REFRESH2, LUT_GRAY4,
};
use epd_waveform::WaveformSetting;

/// A look-up table written group by group; what is not named is zero.
fn table(vs: [[u8; 3]; 4], timing: [[u8; 7]; 4]) -> [u8; 153] {
    let mut lut: [u8; 153] = [0u8; 153];
    let mut g: usize = 0;
    while g < 4 {
        lut[12 * g] = vs[g][0];
        lut[12 * g + 1] = vs[g][1];
        lut[12 * g + 2] = vs[g][2];
        let mut k: usize = 0;
        while k < 7 {
            lut[60 + 7 * g + k] = timing[g][k];
            k += 1;
        }
        g += 1;
    }
    let mut f: usize = 144;
    while f < 150 {
        lut[f] = 0x22;
        f += 1;
    }
    lut
}

fn check_scalars(w: &WaveformSetting) {
    assert_eq!(w.eopq(), 0x22);
    assert_eq!(w.vgh(), 0x17);
    assert_eq!(w.vsh1(), 0x41);
    assert_eq!(w.vsh2(), 0x00);
    assert_eq!(w.vsl(), 0x32);
    assert_eq!(w.vcom(), 0x1c);
}

#[test]
fn gray4_holds_its_table() {
    let expected: [u8; 153] = table(
        [[0x40, 0x48, 0x80], [0x08, 0x48, 0x10], [0x02, 0x48, 0x04], [0x20, 0x48, 0x01]],
        [
            [0x0a, 0x19, 0x00, 0x03, 0x08, 0x00, 0x00],
            [0x14, 0x01, 0x00, 0x14, 0x01, 0x00, 0x03],
            [0x0a, 0x03, 0x00, 0x08, 0x19, 0x00, 0x00],
            [0x01, 0x00, 0x00, 0x00, 0x00, 0x00, 0x01],
        ],
    );
    let w: WaveformSetting = gray4();
    assert_eq!(w.lut(), &expected);
    check_scalars(&w);
}

#[test]
fn fast_refresh_holds_its_table() {
    let expected: [u8; 153] = table(
        [[0x00, 0x40, 0x00], [0x80, 0x80, 0x00], [0x40, 0x40, 0x00], [0x00, 0x80, 0x00]],
        [
            [0x14, 0x00, 0x00, 0x00, 0x00, 0x00, 0x00],
            [0x01, 0x00, 0x00, 0x00, 0x00, 0x00, 0x00],
            [0x01, 0x00, 0x00, 0x00, 0x00, 0x00, 0x00],
            [0x00, 0x00, 0x00, 0x00, 0x00, 0x00, 0x00],
        ],
    );
    let w: WaveformSetting = fast_refresh();
    assert_eq!(w.lut(), &expected);
    check_scalars(&w);
}

#[test]
fn fast_refresh2_holds_its_table() {
    let expected: [u8; 153] = table(
        [[0x80, 0x4a, 0x40], [0x40, 0x4a, 0x80], [0x80, 0x4a, 0x40], [0x40, 0x4a, 0x80]],
        [
            [0x0f, 0x00, 0x00, 0x00, 0x00, 0x00, 0x00],
            [0x0f, 0x00, 0x00, 0x0f, 0x00, 0x00, 0x02],
            [0x0f, 0x00, 0x00, 0x00, 0x00, 0x00, 0x00],
            [0x01, 0x00, 0x00, 0x00, 0x00, 0x00, 0x00],
        ],
    );
    let w: WaveformSetting = fast_refresh2();
    assert_eq!(w.lut(), &expected);
    check_scalars(&w);
}

#[test]
fn presets_have_the_shape_of_a_setting() {
    let all: Vec<WaveformSetting> = vec![gray4(), fast_refresh(), fast_refresh2()];
    for w in all {
        assert_eq!(w.lut().len(), 153);
        let scalars: [u8; 6] = [w.eopq(), w.vgh(), w.vsh1(), w.vsh2(), w.vsl(), w.vcom()];
        assert_eq!(scalars.len(), 6);
        assert_eq!(w.to_bytes().len(), 159);
    }
}

#[test]
fn presets_are_their_raw_tables_decoded() {
    assert_eq!(gray4(), WaveformSetting::from(LUT_GRAY4));
    assert_eq!(fast_refresh(), WaveformSetting::from(LUT_FAST_REFRESH));
    assert_eq!(fast_refresh2(), WaveformSetting::from(LUT_FAST_REFRESH2));
    assert_eq!(gray4().to_bytes(), LUT_GRAY4);
    assert_eq!(fast_refresh().to_bytes(), LUT_FAST_REFRESH);
    assert_eq!(fast_refresh2().to_bytes(), LUT_FAST_REFRESH2);
}

#[test]
fn raw_tables_have_159_bytes() {
    assert_eq!(LUT_GRAY4.len(), 159);
    assert_eq!(LUT_FAST_REFRESH.len(), 159);
    assert_eq!(LUT_FAST_REFRESH2.len(), 159);
}

#[test]
fn raw_tables_decode_from_slices() {
    assert_eq!(WaveformSetting::from_slice(&LUT_GRAY4), Ok(gray4()));
    assert_eq!(WaveformSetting::from_slice(&LUT_FAST_REFRESH), Ok(fast_refresh()));
    assert_eq!(WaveformSetting::from_slice(&LUT_FAST_REFRESH2), Ok(fast_refresh2()));
}

#[test]
fn presets_differ_from_each_other() {
    assert!(gray4() != fast_refresh());
    assert!(gray4() != fast_refresh2());
    assert!(fast_refresh() != fast_refresh2());
}

#[test]
fn a_preset_is_the_same_each_time() {
    assert_eq!(gray4(), gray4());
    assert_eq!(fast_refresh(), fast_refresh());
    assert_eq!(fast_refresh2(), fast_refresh2());
}

#[test]
fn gray4_drives_four_groups_and_repeats_two() {
    let w: WaveformSetting = gray4();
    let mut g: usize = 0;
    while g < 4 {
        assert!(w.lut()[12 * g..12 * g + 12].iter().any(|b| *b != 0));
        g += 1;
    }
    assert!(w.lut()[48..60].iter().all(|b| *b == 0));
    let repeats: Vec<u8> = (0..12).map(|t: usize| w.lut()[60 + 7 * t + 6]).collect();
    assert_eq!(repeats, vec![0u8, 3, 0, 1, 0, 0, 0, 0, 0, 0, 0, 0]);
}

#[test]
fn fast_refresh_repeats_nothing() {
    let w: WaveformSetting = fast_refresh();
    let repeats: Vec<u8> = (0..12).map(|t: usize| w.lut()[60 + 7 * t + 6]).collect();
    assert_eq!(repeats, vec![0u8; 12]);
    assert_eq!(w.lut()[60], 0x14);
}

#[test]
fn fast_refresh2_runs_timing_group_one_twice() {
    let w: WaveformSetting = fast_refresh2();
    let repeats: Vec<u8> = (0..12).map(|t: usize| w.lut()[60 + 7 * t + 6]).collect();
    assert_eq!(repeats, vec![0u8, 2, 0, 0, 0, 0, 0, 0, 0, 0, 0, 0]);
}

#[test]
fn presets_share_frame_rate_and_gate_scan() {
    let all: Vec<WaveformSetting> = vec![gray4(), fast_refresh(), fast_refresh2()];
    for w in all {
        assert_eq!(&w.lut()[144..150], &[0x22u8; 6]);
        assert_eq!(&w.lut()[150..153], &[0u8; 3]);
    }
}
