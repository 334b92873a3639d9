use quasi_core::decimal::dec_string;
use quasi_core::decimal::format_milli;
use quasi_core::Ratio;

#[test]
fn dec_string_spells_plain_decimals() {
    assert_eq!(dec_string(0), "0");
    assert_eq!(dec_string(7), "7");
    assert_eq!(dec_string(10), "10");
    assert_eq!(dec_string(84_800), "84800");
    assert_eq!(dec_string(u64::MAX), "18446744073709551615");
}

#[test]
fn format_milli_spells_three_decimals() {
    assert_eq!(format_milli(0), "0.000");
    assert_eq!(format_milli(42_000), "42.000");
    assert_eq!(format_milli(-41_800), "-41.800");
    assert_eq!(format_milli(12), "0.012");
    assert_eq!(format_milli(-1), "-0.001");
    assert_eq!(format_milli(999), "0.999");
    assert_eq!(format_milli(1000), "1.000");
    assert_eq!(format_milli(1_000_000_000_000), "1000000000.000");
    assert_eq!(format_milli(-1_000_000_000_000), "-1000000000.000");
}

#[test]
fn to_milli_rounds_to_nearest_thousandth() {
    assert_eq!(Ratio { num: 1000, den: 84_800 }.to_milli(), 12);
    assert_eq!(Ratio { num: 1, den: 2 }.to_milli(), 500);
    assert_eq!(Ratio { num: 1, den: 1 }.to_milli(), 1000);
    assert_eq!(Ratio { num: 0, den: 5 }.to_milli(), 0);
    // a half thousandth rounds up
    assert_eq!(Ratio { num: 1, den: 2000 }.to_milli(), 1);
    // just under a half thousandth rounds down
    assert_eq!(Ratio { num: 499, den: 1_000_000 }.to_milli(), 0);
    assert_eq!(Ratio { num: 1, den: 4_000_000_000_000 }.to_milli(), 0);
}

#[test]
fn rounded_coherence_prints_like_the_float() {
    let c = Ratio { num: 1000, den: 84_800 };
    let printed = format_milli(c.to_milli());
    let float_form = format!("{:.3}", 1.0f64 - 83.8 / 84.8);
    assert_eq!(printed, float_form);
}
