use puzzle_timer::autosize::fit_font_size;
use puzzle_timer::autosize::MIN_SIZE;
use puzzle_timer::autosize::REF_SIZE;

#[test]
fn fitter_linear_text_hits_guess() {
    // Width exactly proportional to size: the linear guess is already right.
    let measure = |s: u32| s.saturating_mul(3);
    let (size, width) = fit_font_size(&measure, 300);
    // Reference: 200 -> 600, so the guess is 300 * 200 / 600 = 100.
    assert_eq!(size, 100);
    assert_eq!(width, 300);
    assert!(width <= 300);
}

#[test]
fn fitter_refines_overshooting_guess() {
    // Affine width: the linear estimate overshoots and the loop steps down.
    let measure = |s: u32| s.saturating_mul(3).saturating_add(7);
    let (size, width) = fit_font_size(&measure, 300);
    // Reference: 200 -> 607; guess = 300 * 200 / 607 = 98; 98 -> 301 > 300,
    // one step down: 97 -> 298.
    assert_eq!(size, 97);
    assert_eq!(width, 298);
    assert!(width <= 300);
}

#[test]
fn fitter_stops_at_floor_when_nothing_fits() {
    let measure = |s: u32| s.saturating_mul(3).saturating_add(7);
    let (size, width) = fit_font_size(&measure, 5);
    // Even the floor size overflows the target: best effort at the floor.
    assert_eq!(size, MIN_SIZE);
    assert_eq!(width, 19);
}

#[test]
fn fitter_fits_whenever_floor_fits() {
    let measure = |s: u32| s.saturating_mul(5).saturating_add(2);
    let floor_width = measure(MIN_SIZE);
    for target in [floor_width, 25, 40, 100, 1000, 100000] {
        let (size, width) = fit_font_size(&measure, target);
        assert!(width <= target, "target {target}: got {size}, {width}");
        assert!(size >= MIN_SIZE);
    }
}

#[test]
fn fitter_zero_width_text_keeps_reference_size() {
    // Empty text measures zero wide at every size.
    let measure = |_s: u32| 0;
    let (size, width) = fit_font_size(&measure, 0);
    assert_eq!(size, REF_SIZE);
    assert_eq!(width, 0);
}

#[test]
fn fitter_idempotent() {
    let measure = |s: u32| s.saturating_mul(3).saturating_add(7);
    for target in [0, 5, 19, 100, 300, 12345] {
        let first = fit_font_size(&measure, target);
        let second = fit_font_size(&measure, target);
        assert_eq!(first, second);
    }
}
