use pgen_client::generators::internal::{InternalGenerator, PatchListPreset};
use pgen_client::pgen::pattern_config::PGenPatternConfig;
use pgen_client::pgen::BitDepth;
use pgen_client::utils::get_rgb_real_range;

const RGB_PRIMARIES: [[f64; 3]; 3] = [[1.0, 0.0, 0.0], [0.0, 1.0, 0.0], [0.0, 0.0, 1.0]];
const RGB_SECONDARIES: [[f64; 3]; 6] = [
    [1.0, 0.0, 0.0],
    [0.0, 1.0, 0.0],
    [0.0, 0.0, 1.0],
    [1.0, 1.0, 0.0],
    [1.0, 0.0, 1.0],
    [0.0, 1.0, 1.0],
];

// The lists as shares of the full range, computed with binary64 and binary32 numbers.
fn rgb_float_list(preset: PatchListPreset) -> Vec<[f64; 3]> {
    match preset {
        PatchListPreset::Basic => {
            let mut list = Vec::with_capacity(5);
            list.push([0.0, 0.0, 0.0]);
            list.extend(RGB_PRIMARIES);
            list.push([1.0, 1.0, 1.0]);
            list
        }
        PatchListPreset::Primaries => RGB_PRIMARIES.to_vec(),
        PatchListPreset::Secondaries => RGB_SECONDARIES.to_vec(),
        PatchListPreset::Greyscale => {
            let mut list = Vec::with_capacity(23);
            list.extend(&[
                [0.0, 0.0, 0.0],
                [0.025, 0.025, 0.025],
                [0.05, 0.05, 0.05],
                [0.075, 0.075, 0.075],
            ]);
            let start = 0.1;
            let step = 0.5;
            let rest = (0..19).map(|i| {
                let v = ((i as f64 / 10.0) * step) + start;
                let v = (v * 100.0).round() / 100.0;
                [v, v, v]
            });
            list.extend(rest);
            list
        }
        PatchListPreset::SaturationSweep => {
            let mut list = Vec::with_capacity(RGB_SECONDARIES.len() * 4);
            let points = 4;
            let step = 1.0 / points as f32;
            RGB_SECONDARIES.into_iter().for_each(|cmp| {
                let (h, _, v) = ecolor::hsv_from_rgb(cmp.map(|c| c as f32));
                let sweep = (1..=points).map(|i| {
                    let new_sat = i as f32 * step;
                    ecolor::rgb_from_hsv((h, new_sat, v)).map(|e| e as f64)
                });
                list.extend(sweep);
            });
            list
        }
        PatchListPreset::MinMax => {
            vec![[0.0, 0.0, 0.0], [1.0, 1.0, 1.0]]
        }
    }
}

fn all_presets() -> [PatchListPreset; 6] {
    [
        PatchListPreset::Basic,
        PatchListPreset::Primaries,
        PatchListPreset::Secondaries,
        PatchListPreset::Greyscale,
        PatchListPreset::SaturationSweep,
        PatchListPreset::MinMax,
    ]
}

#[test]
fn preset_lists_in_thousandths() {
    assert_eq!(
        PatchListPreset::Basic.rgb_thousandths(),
        vec![[0, 0, 0], [1000, 0, 0], [0, 1000, 0], [0, 0, 1000], [1000, 1000, 1000]]
    );
    assert_eq!(PatchListPreset::MinMax.rgb_thousandths(), vec![[0, 0, 0], [1000, 1000, 1000]]);
    let grey = PatchListPreset::Greyscale.rgb_thousandths();
    assert_eq!(grey.len(), 23);
    assert_eq!(grey[..6], [[0; 3], [25; 3], [50; 3], [75; 3], [100; 3], [150; 3]]);
    assert_eq!(grey[22], [1000; 3]);
    let sweep = PatchListPreset::SaturationSweep.rgb_thousandths();
    assert_eq!(sweep.len(), 24);
    assert_eq!(sweep[..4], [[1000, 750, 750], [1000, 500, 500], [1000, 250, 250], [1000, 0, 0]]);
    assert_eq!(sweep[12], [1000, 1000, 750]);
    assert_eq!(sweep[23], [0, 1000, 1000]);
    for preset in all_presets() {
        let floats = rgb_float_list(preset);
        let list = preset.rgb_thousandths();
        assert_eq!(list.len(), floats.len());
        for (a, b) in list.iter().zip(&floats) {
            for k in 0..3 {
                assert!((a[k] as f64 / 1000.0 - b[k]).abs() < 1e-6, "{preset:?}");
            }
        }
    }
}

#[test]
fn loaded_presets_agree_with_the_arithmetic_in_binary64() {
    for preset in all_presets() {
        for bit_depth in [BitDepth::Eight, BitDepth::Ten] {
            for limited_range in [false, true] {
                let config = PGenPatternConfig { bit_depth, limited_range, ..Default::default() };
                let mut g = InternalGenerator {
                    started: false,
                    auto_advance: true,
                    read_selected_continuously: false,
                    preset,
                    list: Vec::new(),
                    selected_idx: Some(3),
                };
                g.load_preset(&config);
                let (min, real_max) = get_rgb_real_range(limited_range, bit_depth.value() as u8);
                let (min, real_max) = (min as f64, real_max as f64);
                let expected: Vec<[u16; 3]> = rgb_float_list(preset)
                    .into_iter()
                    .map(|rgb| rgb.map(|c| ((c * real_max) + min).round() as u16))
                    .collect();
                let got: Vec<[u16; 3]> = g.list.iter().map(|p| p.rgb).collect();
                assert_eq!(got, expected, "{preset:?} {bit_depth:?} {limited_range}");
                assert!(g.list.iter().all(|p| !p.measured));
                assert_eq!(g.selected_idx, Some(3));
            }
        }
    }
    let mut g = InternalGenerator {
        started: false,
        auto_advance: false,
        read_selected_continuously: false,
        preset: PatchListPreset::Greyscale,
        list: Vec::new(),
        selected_idx: None,
    };
    g.load_preset(&PGenPatternConfig { limited_range: true, ..Default::default() });
    // 0.025 * 876 + 64 = 85.9 and 0.5 * 876 + 64 = 502
    assert_eq!(g.list[1].rgb, [86; 3]);
    assert_eq!(g.list[12].rgb, [502; 3]);
    assert_eq!(g.list[22].rgb, [940; 3]);
}
