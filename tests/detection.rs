use oldies::{detect_bifurcation, is_stable, BifurcationType, EigenSummary, Sign};

fn real_eig(sign: Sign) -> EigenSummary {
    EigenSummary { real_sign: sign, imag_small: true, imag_large: false }
}

fn complex_eig(sign: Sign) -> EigenSummary {
    EigenSummary { real_sign: sign, imag_small: false, imag_large: true }
}

#[test]
fn real_eigenvalue_crossing_zero_is_a_saddle_node() {
    let prev = vec![real_eig(Sign::Negative), real_eig(Sign::Negative)];
    let curr = vec![real_eig(Sign::Positive), real_eig(Sign::Negative)];
    assert_eq!(detect_bifurcation(&prev, &curr), Some(BifurcationType::SaddleNode));
}

#[test]
fn complex_pair_crossing_the_axis_is_a_hopf_point() {
    let prev = vec![complex_eig(Sign::Negative), complex_eig(Sign::Negative)];
    let curr = vec![complex_eig(Sign::Positive), complex_eig(Sign::Positive)];
    assert_eq!(detect_bifurcation(&prev, &curr), Some(BifurcationType::Hopf));
}

#[test]
fn first_crossing_in_rank_order_wins() {
    let prev = vec![complex_eig(Sign::Positive), real_eig(Sign::Negative)];
    let curr = vec![complex_eig(Sign::Negative), real_eig(Sign::Positive)];
    assert_eq!(detect_bifurcation(&prev, &curr), Some(BifurcationType::Hopf));
    let prev = vec![real_eig(Sign::Positive), complex_eig(Sign::Negative)];
    let curr = vec![real_eig(Sign::Negative), complex_eig(Sign::Positive)];
    assert_eq!(detect_bifurcation(&prev, &curr), Some(BifurcationType::SaddleNode));
}

#[test]
fn no_sign_change_shows_nothing() {
    let prev = vec![real_eig(Sign::Negative), complex_eig(Sign::Positive)];
    let curr = vec![real_eig(Sign::Negative), complex_eig(Sign::Positive)];
    assert_eq!(detect_bifurcation(&prev, &curr), None);
    // reaching zero is no change of sign
    let curr = vec![real_eig(Sign::Zero), complex_eig(Sign::Zero)];
    assert_eq!(detect_bifurcation(&prev, &curr), None);
}

#[test]
fn lists_of_different_length_show_nothing() {
    let prev = vec![real_eig(Sign::Negative)];
    let curr = vec![real_eig(Sign::Positive), real_eig(Sign::Positive)];
    assert_eq!(detect_bifurcation(&prev, &curr), None);
    assert_eq!(detect_bifurcation(&vec![], &vec![]), None);
}

#[test]
fn real_to_complex_crossing_with_borderline_imaginary_part() {
    // neither small nor large in the previous point: no verdict
    let prev = vec![EigenSummary { real_sign: Sign::Negative, imag_small: false, imag_large: false }];
    let curr = vec![real_eig(Sign::Positive)];
    assert_eq!(detect_bifurcation(&prev, &curr), None);
    // complex before, real after: Hopf
    let prev = vec![complex_eig(Sign::Negative)];
    assert_eq!(detect_bifurcation(&prev, &curr), Some(BifurcationType::Hopf));
}

#[test]
fn stability_needs_every_real_part_negative() {
    assert!(is_stable(&vec![real_eig(Sign::Negative), complex_eig(Sign::Negative)]));
    assert!(!is_stable(&vec![real_eig(Sign::Negative), complex_eig(Sign::Zero)]));
    assert!(!is_stable(&vec![real_eig(Sign::Positive)]));
    assert!(is_stable(&vec![]));
}

#[test]
fn stable_points_show_no_bifurcation() {
    let prev = vec![real_eig(Sign::Negative), complex_eig(Sign::Negative), complex_eig(Sign::Negative)];
    let curr = vec![complex_eig(Sign::Negative), complex_eig(Sign::Negative), real_eig(Sign::Negative)];
    assert!(is_stable(&prev) && is_stable(&curr));
    assert_eq!(detect_bifurcation(&prev, &curr), None);
}
