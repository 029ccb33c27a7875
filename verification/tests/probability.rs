use atc::probability::{Probability, RESOLUTION};

fn diverted_as_float(draw: u32, probability: f32) -> bool {
    (draw as f32) / 16_777_216.0 >= probability
}

fn agrees_with_float(value: f32) {
    let probability = Probability::from_f32_bits(value.to_bits());
    assert!(probability.ticks() <= RESOLUTION);
    let ticks = probability.ticks();
    let mut draws = vec![0, 1, 2, RESOLUTION / 2 - 1, RESOLUTION / 2, RESOLUTION - 2, RESOLUTION - 1];
    for near in [ticks.saturating_sub(1), ticks, ticks.saturating_add(1)] {
        if near < RESOLUTION {
            draws.push(near);
        }
    }
    for draw in draws {
        assert_eq!(
            probability.is_diverted(draw),
            diverted_as_float(draw, value),
            "draw {} against {}",
            draw,
            value
        );
    }
}

#[test]
fn resolution_is_two_to_the_24() {
    assert_eq!(RESOLUTION, 1 << 24);
}

#[test]
fn from_ticks_accepts_zero_to_resolution() {
    assert_eq!(Probability::from_ticks(0).unwrap().ticks(), 0);
    assert_eq!(Probability::from_ticks(1).unwrap().ticks(), 1);
    assert_eq!(Probability::from_ticks(RESOLUTION).unwrap().ticks(), RESOLUTION);
    assert_eq!(Probability::from_ticks(RESOLUTION + 1), None);
    assert_eq!(Probability::from_ticks(u32::MAX), None);
}

#[test]
fn certain_and_impossible() {
    assert_eq!(Probability::certain().ticks(), RESOLUTION);
    assert_eq!(Probability::impossible().ticks(), 0);
    assert_eq!(Probability::certain(), Probability::from_ticks(RESOLUTION).unwrap());
    assert_eq!(Probability::impossible(), Probability::from_ticks(0).unwrap());
}

#[test]
fn certain_diverts_no_draw() {
    let certain = Probability::certain();
    assert!(!certain.is_diverted(0));
    assert!(!certain.is_diverted(RESOLUTION / 2));
    assert!(!certain.is_diverted(RESOLUTION - 1));
}

#[test]
fn impossible_diverts_every_draw() {
    let impossible = Probability::impossible();
    assert!(impossible.is_diverted(0));
    assert!(impossible.is_diverted(1));
    assert!(impossible.is_diverted(RESOLUTION - 1));
}

#[test]
fn draw_equal_to_probability_is_diverted() {
    let half = Probability::from_ticks(RESOLUTION / 2).unwrap();
    assert!(!half.is_diverted(RESOLUTION / 2 - 1));
    assert!(half.is_diverted(RESOLUTION / 2));
    assert!(half.is_diverted(RESOLUTION / 2 + 1));
}

#[test]
fn from_f32_bits_exact_values() {
    assert_eq!(Probability::from_f32_bits(1.0f32.to_bits()).ticks(), 16_777_216);
    assert_eq!(Probability::from_f32_bits(0.0f32.to_bits()).ticks(), 0);
    assert_eq!(Probability::from_f32_bits(0.5f32.to_bits()).ticks(), 8_388_608);
    assert_eq!(Probability::from_f32_bits(0.25f32.to_bits()).ticks(), 4_194_304);
    assert_eq!(Probability::from_f32_bits(0.65f32.to_bits()).ticks(), 10_905_190);
    assert_eq!(Probability::from_f32_bits(0.8f32.to_bits()).ticks(), 13_421_773);
    assert_eq!(Probability::from_f32_bits(0.3f32.to_bits()).ticks(), 5_033_165);
    // 0.1 lies between two ticks and is rounded up to the first draw that reaches it
    assert_eq!(Probability::from_f32_bits(0.1f32.to_bits()).ticks(), 1_677_722);
}

#[test]
fn from_f32_bits_out_of_range() {
    assert_eq!(Probability::from_f32_bits(1.5f32.to_bits()).ticks(), RESOLUTION);
    assert_eq!(Probability::from_f32_bits(f32::INFINITY.to_bits()).ticks(), RESOLUTION);
    assert_eq!(Probability::from_f32_bits(f32::MAX.to_bits()).ticks(), RESOLUTION);
    assert_eq!(Probability::from_f32_bits(f32::NAN.to_bits()).ticks(), RESOLUTION);
    assert_eq!(Probability::from_f32_bits((-f32::NAN).to_bits()).ticks(), RESOLUTION);
    assert_eq!(Probability::from_f32_bits((-0.0f32).to_bits()).ticks(), 0);
    assert_eq!(Probability::from_f32_bits((-0.25f32).to_bits()).ticks(), 0);
    assert_eq!(Probability::from_f32_bits(f32::NEG_INFINITY.to_bits()).ticks(), 0);
}

#[test]
fn from_f32_bits_tiny_values() {
    // anything above zero and below one tick is reached by every draw but 0
    assert_eq!(Probability::from_f32_bits(f32::MIN_POSITIVE.to_bits()).ticks(), 1);
    assert_eq!(Probability::from_f32_bits(1u32).ticks(), 1);
    assert_eq!(Probability::from_f32_bits(1.0e-10f32.to_bits()).ticks(), 1);
    // exactly one tick
    assert_eq!(Probability::from_f32_bits((1.0f32 / 16_777_216.0).to_bits()).ticks(), 1);
    // just above one tick
    assert_eq!(Probability::from_f32_bits((1.5f32 / 16_777_216.0).to_bits()).ticks(), 2);
}

#[test]
fn from_f32_bits_agrees_with_float_comparison() {
    for value in [
        0.0f32,
        -0.0,
        1.0,
        0.5,
        0.65,
        0.8,
        0.3,
        0.1,
        0.999_999_9,
        0.000_000_1,
        1.0e-30,
        1.0e-40,
        2.0,
        -1.0,
        f32::NAN,
        f32::INFINITY,
        f32::NEG_INFINITY,
        0.333_333_34,
        0.123_456_79,
    ] {
        agrees_with_float(value);
    }
}
