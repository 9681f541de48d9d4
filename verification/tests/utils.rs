use pgen_client::pgen::pattern_config::PGenPatternConfig;
use pgen_client::pgen::BitDepth;
use pgen_client::utils::{
    compute_rgb_range, get_rgb_real_range, rgb_10b_to_8b, scale_8b_rgb_to_10b,
    scale_pattern_config_rgb_values,
};

#[test]
fn test_8bit_override() {
    let mut new_pattern_cfg = PGenPatternConfig {
        patch_colour: [514, 512, 512],
        background_colour: [64, 64, 64],
        bit_depth: BitDepth::Ten,
        ..Default::default()
    };

    let prev_depth = new_pattern_cfg.bit_depth.value() as u8;
    scale_pattern_config_rgb_values(&mut new_pattern_cfg, 8, prev_depth, false, false);

    assert_eq!(new_pattern_cfg.patch_colour, [129, 128, 128]);
    assert_eq!(new_pattern_cfg.background_colour, [16, 16, 16]);
    assert_eq!(new_pattern_cfg.bit_depth, BitDepth::Eight);
}

#[test]
fn rgb_ranges() {
    assert_eq!(compute_rgb_range(false, 8), 0..=255);
    assert_eq!(compute_rgb_range(true, 8), 16..=235);
    assert_eq!(compute_rgb_range(false, 10), 0..=1023);
    assert_eq!(compute_rgb_range(true, 10), 64..=940);
    assert_eq!(compute_rgb_range(true, 12), 256..=475);
    assert_eq!(compute_rgb_range(false, 15), 0..=32767);
    assert_eq!(compute_rgb_range(true, 19), 32768..=32987);
    assert_eq!(get_rgb_real_range(false, 8), (0, 255));
    assert_eq!(get_rgb_real_range(true, 8), (16, 219));
    assert_eq!(get_rgb_real_range(false, 10), (0, 1023));
    assert_eq!(get_rgb_real_range(true, 10), (64, 876));
}

#[test]
fn ten_bits_to_eight() {
    assert_eq!(rgb_10b_to_8b(10, [1023, 512, 3]), [255, 128, 0]);
    assert_eq!(rgb_10b_to_8b(8, [255, 128, 3]), [255, 128, 3]);
    // what does not fit eight bits loses its high bits
    assert_eq!(rgb_10b_to_8b(8, [256, 511, 1023]), [0, 255, 255]);
    assert_eq!(rgb_10b_to_8b(10, [1024, 4095, 65535]), [0, 255, 255]);
}

// The arithmetic of the rescaling, written with binary32 numbers.
fn scale_rgb_into_range(val: f32, depth: u8, limited_range: bool, prev_limited_range: bool) -> f32 {
    if prev_limited_range != limited_range {
        let limited_max = 219.0;
        let (min, max, limited_max) = if depth == 8 {
            (16.0, 255.0, limited_max)
        } else {
            (64.0, 1023.0, limited_max * 4.0)
        };
        if prev_limited_range && !limited_range {
            (val - min) / limited_max * max
        } else {
            ((val / max) * limited_max) + min
        }
    } else {
        val
    }
}

fn widen_binary32(c: u16, diff: f32, depth: u8, limited: bool, prev_limited: bool) -> u16 {
    let orig_val = c as f32;
    let mut val = scale_rgb_into_range(orig_val, 8, limited, prev_limited);
    if depth > 8 {
        if u8::MAX as f32 - orig_val <= f32::EPSILON {
            val = 2.0_f32.powf(depth as f32) - 1.0;
        }
        val *= 2.0_f32.powf(diff);
        val.round() as u16
    } else {
        val.round() as u16
    }
}

fn narrow_binary32(c: u16, diff: f32, depth: u8, limited: bool, prev_limited: bool) -> u16 {
    let mut val = c as f32 / 2.0_f32.powf(diff);
    val = scale_rgb_into_range(val, depth, limited, prev_limited);
    val.round() as u16
}

#[test]
fn widening_agrees_with_binary32_arithmetic() {
    for (limited, prev_limited) in [(false, false), (true, true), (true, false), (false, true)] {
        for depth in [8u8, 10, 12] {
            let diff = depth - 8;
            for c in 0..=u16::MAX {
                assert_eq!(
                    scale_8b_rgb_to_10b(c, diff, depth, limited, prev_limited),
                    widen_binary32(c, diff as f32, depth, limited, prev_limited),
                    "c {c} depth {depth} limited {limited} before {prev_limited}"
                );
            }
        }
    }
}

#[test]
fn rescaling_agrees_with_binary32_arithmetic_in_ten_bits() {
    for (limited, prev_limited) in [(false, false), (true, true), (true, false), (false, true)] {
        for depth in [8u8, 10] {
            for prev_depth in [8u8, 10] {
                if depth == prev_depth && limited == prev_limited {
                    continue;
                }
                let diff = depth.abs_diff(prev_depth);
                for c in 0..=1023u16 {
                    let mut cfg = PGenPatternConfig {
                        patch_colour: [c, 0, 1023 - c],
                        background_colour: [c, c, c],
                        ..Default::default()
                    };
                    scale_pattern_config_rgb_values(&mut cfg, depth, prev_depth, limited, prev_limited);
                    let expect = |v: u16| {
                        if prev_depth == 8 {
                            widen_binary32(v, diff as f32, depth, limited, prev_limited)
                        } else {
                            narrow_binary32(v, diff as f32, depth, limited, prev_limited)
                        }
                    };
                    assert_eq!(cfg.patch_colour, [expect(c), expect(0), expect(1023 - c)]);
                    assert_eq!(cfg.background_colour, [expect(c); 3]);
                    assert_eq!(cfg.bit_depth.value(), depth as usize);
                    assert_eq!(cfg.limited_range, limited);
                }
            }
        }
    }
}

#[test]
fn rescaling_by_hand() {
    // full range, 8 to 10 bits: the greatest value goes to the greatest value
    assert_eq!(scale_8b_rgb_to_10b(255, 2, 10, false, false), 4092);
    assert_eq!(scale_8b_rgb_to_10b(128, 2, 10, false, false), 512);
    // limited to full, 8 bits: (235 - 16) / 219 * 255
    assert_eq!(scale_8b_rgb_to_10b(235, 0, 8, false, true), 255);
    assert_eq!(scale_8b_rgb_to_10b(16, 0, 8, false, true), 0);
    assert_eq!(scale_8b_rgb_to_10b(0, 0, 8, false, true), 0);
    // full to limited, 8 bits: 128 / 255 * 219 + 16 = 125.93
    assert_eq!(scale_8b_rgb_to_10b(128, 0, 8, true, false), 126);
    assert_eq!(scale_8b_rgb_to_10b(255, 0, 8, true, false), 235);

    let mut cfg = PGenPatternConfig {
        patch_colour: [940, 64, 502], // 502 lies half way: 438 / 876 * 1023 = 511.5
        background_colour: [0, 2, 1023],
        limited_range: true,
        ..Default::default()
    };
    // 10 bits limited to 10 bits full: (c - 64) / 876 * 1023
    scale_pattern_config_rgb_values(&mut cfg, 10, 10, false, true);
    assert_eq!(cfg.patch_colour, [1023, 0, 512]);
    assert_eq!(cfg.background_colour, [0, 0, 1120]);
    assert!(!cfg.limited_range);

    // nothing changes where nothing is to change
    let before = cfg;
    scale_pattern_config_rgb_values(&mut cfg, 10, 10, false, false);
    assert_eq!(cfg, before);
    scale_pattern_config_rgb_values(&mut cfg, 77, 77, true, true);
    assert_eq!(cfg, before);

    // a depth far away narrows everything to black, or to the black of the limited range
    let mut cfg = PGenPatternConfig { patch_colour: [65535, 1, 0], ..Default::default() };
    scale_pattern_config_rgb_values(&mut cfg, 8, 200, false, false);
    assert_eq!(cfg.patch_colour, [0, 0, 0]);
    let mut cfg = PGenPatternConfig { patch_colour: [65535, 1, 0], ..Default::default() };
    scale_pattern_config_rgb_values(&mut cfg, 10, 100, true, false);
    assert_eq!(cfg.patch_colour, [64, 64, 64]);
}
