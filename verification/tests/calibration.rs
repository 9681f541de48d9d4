use pgen_client::calibration::binary64::{is_below_zero, is_less, minmax, total_less};
use pgen_client::calibration::cct::{find_bracket, is_too_dark, TABLE_ROWS};
use pgen_client::calibration::reading_result::ReadingResult;
use pgen_client::calibration::{CalibrationTarget, LuminanceEotf, TargetColorspace};

const RECIPROCAL_TEMP: [f64; 31] = [
    f64::MIN, 10.0e-6, 20.0e-6, 30.0e-6, 40.0e-6, 50.0e-6, 60.0e-6, 70.0e-6, 80.0e-6, 90.0e-6,
    100.0e-6, 125.0e-6, 150.0e-6, 175.0e-6, 200.0e-6, 225.0e-6, 250.0e-6, 275.0e-6, 300.0e-6,
    325.0e-6, 350.0e-6, 375.0e-6, 400.0e-6, 425.0e-6, 450.0e-6, 475.0e-6, 500.0e-6, 525.0e-6,
    550.0e-6, 575.0e-6, 600.0e-6,
];

const UVT: [[f64; 3]; 31] = [
    [0.18006, 0.26352, -0.24341],
    [0.18066, 0.26589, -0.25479],
    [0.18133, 0.26846, -0.26876],
    [0.18208, 0.27119, -0.28539],
    [0.18293, 0.27407, -0.30470],
    [0.18388, 0.27709, -0.32675],
    [0.18494, 0.28021, -0.35156],
    [0.18611, 0.28342, -0.37915],
    [0.18740, 0.28668, -0.40955],
    [0.18880, 0.28997, -0.44278],
    [0.19032, 0.29326, -0.47888],
    [0.19462, 0.30141, -0.58204],
    [0.19962, 0.30921, -0.70471],
    [0.20525, 0.31647, -0.84901],
    [0.21142, 0.32312, -1.0182],
    [0.21807, 0.32909, -1.2168],
    [0.22511, 0.33439, -1.4512],
    [0.23247, 0.33904, -1.7298],
    [0.24010, 0.34308, -2.0637],
    [0.24792, 0.34655, -2.4681],
    [0.25591, 0.34951, -2.9641],
    [0.26400, 0.35200, -3.5814],
    [0.27218, 0.35407, -4.3633],
    [0.28039, 0.35577, -5.3762],
    [0.28863, 0.35714, -6.7262],
    [0.29685, 0.35823, -8.5955],
    [0.30505, 0.35907, -11.324],
    [0.31320, 0.35968, -15.628],
    [0.32129, 0.36011, -23.325],
    [0.32931, 0.36038, -40.770],
    [0.33724, 0.36051, -116.45],
];

// The temperature of a colour: the arithmetic is done here, the rows that
// bound the colour are found by the library.
fn xyz_to_cct(xyz: [f64; 3]) -> Option<f64> {
    if is_too_dark(xyz.map(f64::to_bits)) {
        return None;
    }
    let us = (4.0 * xyz[0]) / (xyz[0] + 15.0 * xyz[1] + 3.0 * xyz[2]);
    let vs = (6.0 * xyz[1]) / (xyz[0] + 15.0 * xyz[1] + 3.0 * xyz[2]);
    let distances: Vec<f64> = UVT.iter().map(|uvt| (vs - uvt[1]) - uvt[2] * (us - uvt[0])).collect();
    let bits: Vec<u64> = distances.iter().map(|d| d.to_bits()).collect();
    let i = find_bracket(&bits)?;
    let di = distances[i] / (1.0 + UVT[i][2] * UVT[i][2]).sqrt();
    let dm = distances[i - 1] / (1.0 + UVT[i - 1][2] * UVT[i - 1][2]).sqrt();
    let p = dm / (dm - di);
    let v = RECIPROCAL_TEMP[i - 1];
    Some(1.0 / (v + (RECIPROCAL_TEMP[i] - v) * p))
}

#[test]
fn xyz_d65_to_cct() {
    let (x, y, big_y) = (0.3127_f64, 0.329_f64, 1.0_f64);
    let xyz = [(big_y / y) * x, big_y, (big_y / y) * (1.0 - x - y)];
    let cct = xyz_to_cct(xyz).unwrap();
    assert_eq!(cct, 6503.707184795284);
}

#[test]
fn no_temperature_without_a_colour() {
    assert_eq!(TABLE_ROWS, UVT.len());
    assert_eq!(xyz_to_cct([0.0, 0.0, 0.0]), None);
    assert_eq!(xyz_to_cct([1.0e-21, 0.0, -0.0]), None);
    assert!(is_too_dark([0.0f64.to_bits(); 3]));
    assert!(is_too_dark([(-5.0f64).to_bits(), 0, 0]));
    assert!(!is_too_dark([1.0e-20f64.to_bits(), 0, 0]));
    assert!(!is_too_dark([0, 0, f64::NAN.to_bits()]));
    // a saturated blue lies on one side of every line
    assert_eq!(xyz_to_cct([0.18, 0.07, 0.95]), None);
}

#[test]
fn bracket_is_the_first_change_of_side() {
    let bits = |v: &[f64]| v.iter().map(|d| d.to_bits()).collect::<Vec<u64>>();
    assert_eq!(find_bracket(&bits(&[1.0, 2.0, -1.0, 3.0])), Some(2));
    assert_eq!(find_bracket(&bits(&[-1.0, 0.0])), Some(1));
    assert_eq!(find_bracket(&bits(&[-1.0, -0.0])), Some(1));
    assert_eq!(find_bracket(&bits(&[0.0, -0.0, 0.0])), None);
    assert_eq!(find_bracket(&bits(&[1.0, 2.0, 3.0])), None);
    assert_eq!(find_bracket(&bits(&[-1.0, -2.0])), None);
    assert_eq!(find_bracket(&bits(&[-1.0])), None);
    assert_eq!(find_bracket(&[]), None);
    // a NaN is on neither side
    assert_eq!(find_bracket(&bits(&[1.0, f64::NAN, -1.0])), None);
    assert_eq!(find_bracket(&bits(&[1.0, f64::NAN, -1.0, 1.0])), Some(3));
}

fn target(ref_rgb: [f64; 3], eotf: LuminanceEotf) -> CalibrationTarget {
    CalibrationTarget {
        min_y: 0.1f64.to_bits(),
        max_y: 100.0f64.to_bits(),
        max_hdr_mdl: 1000.0f64.to_bits(),
        colorspace: TargetColorspace::default(),
        eotf,
        ref_rgb: ref_rgb.map(f64::to_bits),
    }
}

fn reading(ref_rgb: [f64; 3]) -> ReadingResult {
    ReadingResult::from_argyll_results(
        target(ref_rgb, LuminanceEotf::Gamma22),
        [26.976765f64, 28.54357, 30.785474].map(f64::to_bits),
        [60.376676f64, -2.187671, -12.309911].map(f64::to_bits),
    )
}

#[test]
fn white_stimulus_is_three_times_the_same_bits() {
    assert!(reading([0.5, 0.5, 0.5]).is_white_stimulus_reading());
    assert!(reading([0.0, 0.0, 0.0]).is_white_stimulus_reading());
    assert!(reading([1.0, 1.0, 1.0]).is_white_stimulus_reading());
    assert!(!reading([0.5, 0.5, 0.500001]).is_white_stimulus_reading());
    assert!(!reading([0.25024438, 0.25024438, 1.0]).is_white_stimulus_reading());
    assert!(!reading([0.5, 0.4, 0.5]).is_white_stimulus_reading());
    // equal as numbers, not as bits
    assert!(!reading([0.0, -0.0, 0.0]).is_white_stimulus_reading());
    // the same bits, though no number equals itself here
    assert!(reading([f64::NAN; 3]).is_white_stimulus_reading());
}

#[test]
fn gamma_needs_a_white_stimulus_inside_the_range() {
    assert!(reading([0.5, 0.5, 0.5]).has_gamma());
    assert!(reading([0.05, 0.05, 0.05]).has_gamma());
    assert!(reading([0.010001, 0.010001, 0.010001]).has_gamma());
    assert!(reading([0.999999, 0.999999, 0.999999]).has_gamma());
    assert!(!reading([0.01, 0.01, 0.01]).has_gamma());
    assert!(!reading([0.005, 0.005, 0.005]).has_gamma());
    assert!(!reading([0.0, 0.0, 0.0]).has_gamma());
    assert!(!reading([1.0, 1.0, 1.0]).has_gamma());
    assert!(!reading([1.5, 1.5, 1.5]).has_gamma());
    assert!(!reading([-0.5, -0.5, -0.5]).has_gamma());
    assert!(!reading([f64::NAN; 3]).has_gamma());
    assert!(!reading([f64::INFINITY; 3]).has_gamma());
    assert!(!reading([0.5, 0.5, 0.6]).has_gamma());
    assert!(reading([0.5, 0.6, 0.7]).not_zero_or_one_rgb());
    assert!(!reading([1.0, 0.5, 0.5]).not_zero_or_one_rgb());
}

#[test]
fn luminance_bounds_by_transfer_function() {
    let r = ReadingResult::from_argyll_results(
        target([0.5; 3], LuminanceEotf::PQ),
        [0; 3],
        [0; 3],
    );
    assert_eq!(r.luminance_bounds(), (0.0f64.to_bits(), 1000.0f64.to_bits()));
    assert!(!r.scales_reference(true));
    let r = reading([0.5; 3]);
    assert_eq!(r.luminance_bounds(), (0.1f64.to_bits(), 100.0f64.to_bits()));
    assert!(r.scales_reference(true));
    assert!(!r.scales_reference(false));
    assert!(LuminanceEotf::PQ.is_absolute());
    assert!(!LuminanceEotf::Gamma24.is_absolute());
    assert_eq!(LuminanceEotf::Gamma22.mean_tenths(), 22);
    assert_eq!(LuminanceEotf::Gamma24.mean_tenths(), 24);
    assert_eq!(LuminanceEotf::PQ.mean_tenths(), 50);
    assert_eq!(LuminanceEotf::default(), LuminanceEotf::Gamma22);
    assert_eq!(LuminanceEotf::PQ.as_ref(), "ST.2084 / PQ");
    assert_eq!(TargetColorspace::DisplayP3.as_ref(), "Display P3");
}

#[test]
fn comparisons_follow_the_numbers() {
    let values = [
        f64::NEG_INFINITY, -1.0e300, -2.5, -1.0, -1.0e-300, -0.0, 0.0, 1.0e-320, 1.0e-300, 0.01,
        0.5, 1.0, 2.5, 1.0e300, f64::INFINITY, f64::NAN, -f64::NAN,
    ];
    for a in values {
        for b in values {
            assert_eq!(is_less(a.to_bits(), b.to_bits()), a < b, "{a} < {b}");
            assert_eq!(
                total_less(a.to_bits(), b.to_bits()),
                a.total_cmp(&b) == std::cmp::Ordering::Less,
                "{a} before {b}"
            );
        }
        assert_eq!(is_below_zero(a.to_bits()), a < 0.0);
    }
}

#[test]
fn least_and_greatest_luminance() {
    let ys = [28.54357f64, 0.132061, 129.072427, 5.835576, 129.072427];
    let bits: Vec<u64> = ys.iter().map(|y| y.to_bits()).collect();
    let (min, max) = minmax(&bits).unwrap();
    assert_eq!((f64::from_bits(min), f64::from_bits(max)), (0.132061, 129.072427));
    assert_eq!(minmax(&[]), None);
    assert_eq!(minmax(&[7]), Some((7, 7)));
    let bits: Vec<u64> = [0.0f64, -0.0, -3.0, f64::NAN].iter().map(|y| y.to_bits()).collect();
    let (min, max) = minmax(&bits).unwrap();
    assert_eq!(f64::from_bits(min), -3.0);
    assert!(f64::from_bits(max).is_nan());
}
