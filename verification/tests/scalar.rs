use volume::scalar::{is_unit_scalar, settle, Verdict, FULL, NEGATIVE_ZERO};

fn in_range(x: f32) -> bool {
    (0.0..=1.0).contains(&x)
}

#[test]
fn named_patterns() {
    assert_eq!(FULL, 1.0f32.to_bits());
    assert_eq!(NEGATIVE_ZERO, (-0.0f32).to_bits());
}

#[test]
fn both_ends_are_in_range() {
    assert!(is_unit_scalar(0.0f32.to_bits()));
    assert!(is_unit_scalar((-0.0f32).to_bits()));
    assert!(is_unit_scalar(1.0f32.to_bits()));
}

#[test]
fn neighbours_of_the_ends() {
    // The least number above one and the greatest below it.
    assert!(!is_unit_scalar(1.0f32.to_bits() + 1));
    assert!(is_unit_scalar(1.0f32.to_bits() - 1));
    // The least number above zero is in, its negative is out.
    assert!(is_unit_scalar(1));
    assert!(!is_unit_scalar(0x8000_0001));
    assert_eq!(f32::from_bits(0x8000_0001), -f32::from_bits(1));
}

#[test]
fn ordinary_scalars() {
    for x in [0.01f32, 0.25, 0.5, 0.75, 0.99, 0.999_999_9, f32::MIN_POSITIVE, f32::EPSILON] {
        assert!(is_unit_scalar(x.to_bits()), "{}", x);
    }
    for x in [1.01f32, 1.5, 2.0, 100.0, f32::MAX, -0.01, -0.5, -1.0, -f32::MIN_POSITIVE, f32::MIN] {
        assert!(!is_unit_scalar(x.to_bits()), "{}", x);
    }
}

#[test]
fn what_is_no_number_is_out_of_range() {
    assert!(!is_unit_scalar(f32::INFINITY.to_bits()));
    assert!(!is_unit_scalar(f32::NEG_INFINITY.to_bits()));
    assert!(!is_unit_scalar(f32::NAN.to_bits()));
    assert!(!is_unit_scalar((-f32::NAN).to_bits()));
    assert!(!is_unit_scalar(0x7F80_0001));
    assert!(!is_unit_scalar(0x7FFF_FFFF));
    assert!(!is_unit_scalar(0xFF80_0001));
    assert!(!is_unit_scalar(0xFFFF_FFFF));
}

#[test]
fn agrees_with_the_comparison_of_the_numbers() {
    let mut bits: u32 = 0;
    loop {
        assert_eq!(is_unit_scalar(bits), in_range(f32::from_bits(bits)), "{:#010x}", bits);
        match bits.checked_add(40_507) {
            Some(next) => bits = next,
            None => break,
        }
    }
}

#[test]
fn agrees_with_the_comparison_around_every_exponent() {
    for exponent in 0u32..=255 {
        for sign in [0u32, 0x8000_0000] {
            let first = sign | (exponent << 23);
            for bits in [first, first + 1, first + 0x7F_FFFE, first + 0x7F_FFFF] {
                assert_eq!(is_unit_scalar(bits), in_range(f32::from_bits(bits)), "{:#010x}", bits);
            }
        }
    }
}

#[test]
fn a_word_that_is_no_number_asks_for_usage() {
    assert_eq!(settle(None), Verdict::Usage);
    assert_eq!(settle("loud".parse::<f32>().ok().map(f32::to_bits)), Verdict::Usage);
    assert_eq!(settle("".parse::<f32>().ok().map(f32::to_bits)), Verdict::Usage);
}

#[test]
fn set_one_half_is_applied() {
    let requested = "0.5".parse::<f32>().ok().map(f32::to_bits);
    assert_eq!(settle(requested), Verdict::Apply(0x3F00_0000));
    assert_eq!(f32::from_bits(0x3F00_0000), 0.5);
}

#[test]
fn set_one_and_a_half_is_refused() {
    let requested = "1.5".parse::<f32>().ok().map(f32::to_bits);
    assert_eq!(settle(requested), Verdict::Refuse);
}

#[test]
fn set_the_ends_is_applied() {
    assert_eq!(settle("0".parse::<f32>().ok().map(f32::to_bits)), Verdict::Apply(0));
    assert_eq!(settle("0.00".parse::<f32>().ok().map(f32::to_bits)), Verdict::Apply(0));
    assert_eq!(settle("1.00".parse::<f32>().ok().map(f32::to_bits)), Verdict::Apply(FULL));
    assert_eq!(settle("-0".parse::<f32>().ok().map(f32::to_bits)), Verdict::Apply(NEGATIVE_ZERO));
}

#[test]
fn words_that_read_as_no_finite_number_are_refused() {
    for word in ["NaN", "inf", "-inf", "infinity", "1e39", "-1e39"] {
        let requested = word.parse::<f32>().ok().map(f32::to_bits);
        assert!(requested.is_some(), "{}", word);
        assert_eq!(settle(requested), Verdict::Refuse, "{}", word);
    }
}

#[test]
fn a_step_up_below_the_top_is_applied() {
    let desired = 0.5f32 + 0.01;
    assert_eq!(settle(Some(desired.to_bits())), Verdict::Apply(0x3F02_8F5C));
}

#[test]
fn a_step_up_onto_the_top_is_applied() {
    let desired = 0.99f32 + 0.01;
    assert_eq!(desired.to_bits(), FULL);
    assert_eq!(settle(Some(desired.to_bits())), Verdict::Apply(FULL));
}

#[test]
fn a_step_up_from_the_top_is_refused() {
    let desired = 1.0f32 + 0.01;
    assert_eq!(settle(Some(desired.to_bits())), Verdict::Refuse);
}

#[test]
fn a_step_down_above_the_bottom_is_applied() {
    let desired = 0.5f32 - 0.01;
    assert_eq!(settle(Some(desired.to_bits())), Verdict::Apply(0x3EFA_E148));
}

#[test]
fn a_step_down_onto_the_bottom_is_applied() {
    let desired = 0.01f32 - 0.01;
    assert_eq!(settle(Some(desired.to_bits())), Verdict::Apply(0));
}

#[test]
fn a_step_down_from_the_bottom_is_refused() {
    let desired = 0.0f32 - 0.01;
    assert_eq!(settle(Some(desired.to_bits())), Verdict::Refuse);
}

#[test]
fn an_applied_pattern_is_the_requested_one() {
    for bits in [0u32, 1, 0x0080_0000, 0x3C23_D70A, 0x3F7F_FFFF, FULL, NEGATIVE_ZERO] {
        assert_eq!(settle(Some(bits)), Verdict::Apply(bits));
    }
}
