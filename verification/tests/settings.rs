use elevenlabs_ttd::types::{
    HALF_BITS, INFINITY_BITS, NEGATIVE_INFINITY_BITS, NEGATIVE_ZERO_BITS, ONE_BITS, ZERO_BITS,
};
use elevenlabs_ttd::TTDSettings;

fn stored(stability: f32) -> f32 {
    let settings = TTDSettings::new().stability(stability.to_bits());
    f32::from_bits(settings.stability.unwrap())
}

#[test]
fn the_named_encodings_are_those_of_the_numbers() {
    assert_eq!(ZERO_BITS, 0.0f32.to_bits());
    assert_eq!(NEGATIVE_ZERO_BITS, (-0.0f32).to_bits());
    assert_eq!(HALF_BITS, 0.5f32.to_bits());
    assert_eq!(ONE_BITS, 1.0f32.to_bits());
    assert_eq!(INFINITY_BITS, f32::INFINITY.to_bits());
    assert_eq!(NEGATIVE_INFINITY_BITS, f32::NEG_INFINITY.to_bits());
}

#[test]
fn new_settings_have_half_stability_and_speaker_boost() {
    let settings = TTDSettings::new();
    assert_eq!(settings.stability.map(f32::from_bits), Some(0.5));
    assert_eq!(settings.use_speaker_boost, Some(true));
}

#[test]
fn default_settings_are_the_new_ones() {
    let settings = TTDSettings::default();
    assert_eq!(settings.stability, TTDSettings::new().stability);
    assert_eq!(settings.use_speaker_boost, TTDSettings::new().use_speaker_boost);
}

#[test]
fn stability_below_the_range_becomes_zero() {
    assert_eq!(stored(-1.0), 0.0);
    assert_eq!(stored(-1.0).to_bits(), ZERO_BITS);
    assert_eq!(stored(f32::NEG_INFINITY).to_bits(), ZERO_BITS);
    assert_eq!(stored(-f32::MIN_POSITIVE).to_bits(), ZERO_BITS);
}

#[test]
fn stability_above_the_range_becomes_one() {
    assert_eq!(stored(2.0), 1.0);
    assert_eq!(stored(f32::INFINITY), 1.0);
    assert_eq!(stored(f32::MAX), 1.0);
    assert_eq!(stored(f32::from_bits(ONE_BITS + 1)), 1.0);
}

#[test]
fn stability_in_the_range_is_kept() {
    assert_eq!(stored(0.7), 0.7);
    assert_eq!(stored(0.0), 0.0);
    assert_eq!(stored(0.5), 0.5);
    assert_eq!(stored(1.0), 1.0);
    assert_eq!(stored(f32::MIN_POSITIVE), f32::MIN_POSITIVE);
}

#[test]
fn stability_keeps_negative_zero_and_nan() {
    assert_eq!(stored(-0.0).to_bits(), NEGATIVE_ZERO_BITS);
    assert!(stored(f32::NAN).is_nan());
    assert_eq!(stored(f32::NAN).to_bits(), f32::NAN.to_bits());
    let negative_nan = f32::from_bits(0xffc0_0001);
    assert_eq!(stored(negative_nan).to_bits(), 0xffc0_0001);
}

#[test]
fn stability_agrees_with_the_clamp_of_the_numbers() {
    let mut bits: u32 = 0;
    let mut count = 0;
    loop {
        let number = f32::from_bits(bits);
        let expected = number.clamp(0.0, 1.0);
        let settings = TTDSettings::new().stability(bits);
        assert_eq!(settings.stability, Some(expected.to_bits()), "for {:#010x}", bits);
        count += 1;
        match bits.checked_add(0x0001_2345) {
            Some(next) => bits = next,
            None => break,
        }
    }
    assert!(count > 50_000);
    for bits in [
        0x3f7f_ffff,
        0x3f80_0000,
        0x3f80_0001,
        0x7f7f_ffff,
        0x7f80_0000,
        0x7f80_0001,
        0x7fff_ffff,
        0x8000_0000,
        0x8000_0001,
        0xff7f_ffff,
        0xff80_0000,
        0xff80_0001,
        0xffff_ffff,
    ] {
        let expected = f32::from_bits(bits).clamp(0.0, 1.0).to_bits();
        assert_eq!(TTDSettings::new().stability(bits).stability, Some(expected));
    }
}

#[test]
fn stability_leaves_speaker_boost_alone() {
    let settings = TTDSettings::new().speaker_boost(false).stability(0.25f32.to_bits());
    assert_eq!(settings.use_speaker_boost, Some(false));
    assert_eq!(settings.stability.map(f32::from_bits), Some(0.25));
}

#[test]
fn speaker_boost_leaves_stability_alone() {
    let settings = TTDSettings::new().stability(0.25f32.to_bits()).speaker_boost(false);
    assert_eq!(settings.stability.map(f32::from_bits), Some(0.25));
    assert_eq!(settings.use_speaker_boost, Some(false));
    let settings = settings.speaker_boost(true);
    assert_eq!(settings.use_speaker_boost, Some(true));
}
