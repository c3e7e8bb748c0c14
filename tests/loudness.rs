use trascri::{loudness, Loudness};

fn rms(l: Loudness) -> f64 {
    (l.energy as f64 / l.full_scale as f64).sqrt()
}

#[test]
fn silent_window_is_zero() {
    let l = loudness(&[0i16; 2048]);
    assert_eq!(l.energy, 0);
    assert_eq!(rms(l), 0.0);
}

#[test]
fn full_scale_window_is_one() {
    let w: Vec<i16> = (0..2048).map(|i| if i % 2 == 0 { 32767 } else { -32767 }).collect();
    let l = loudness(&w);
    assert_eq!(l.energy, l.full_scale);
    assert_eq!(rms(l), 1.0);
}

#[test]
fn most_negative_sample_counts_as_full_scale() {
    let l = loudness(&[i16::MIN, i16::MIN]);
    assert_eq!(l, Loudness { energy: 2 * 32767 * 32767, full_scale: 2 * 32767 * 32767 });
    assert!(rms(l) <= 1.0);
}

#[test]
fn energy_is_sum_of_squares() {
    let l = loudness(&[3i16, -4, 0, 1]);
    assert_eq!(l.energy, 26);
    assert_eq!(l.full_scale, 4 * 32767 * 32767);
}

#[test]
fn half_scale_square_wave() {
    let l = loudness(&[16384i16, -16384, 16384, -16384]);
    let r = rms(l);
    assert!((r - 16384.0 / 32767.0).abs() < 1e-12);
}

#[test]
fn empty_window_has_no_energy() {
    assert_eq!(loudness(&[]), Loudness { energy: 0, full_scale: 0 });
}
