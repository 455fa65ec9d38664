use stdf_ingest::fbits::{bits_is_finite, bits_is_nan, option_value, replace_inf, storable_result};
use stdf_ingest::hexblob::{result_blob_hex, stat_blob_hex};
use stdf_ingest::strings::{i64_to_string, u64_to_hex_string, u64_to_string};

#[test]
fn decimal_rendering() {
    assert_eq!(u64_to_string(0), "0");
    assert_eq!(u64_to_string(7), "7");
    assert_eq!(u64_to_string(10), "10");
    assert_eq!(u64_to_string(65535), "65535");
    assert_eq!(u64_to_string(u64::MAX), "18446744073709551615");
    assert_eq!(i64_to_string(-1), "-1");
    assert_eq!(i64_to_string(-32768), "-32768");
    assert_eq!(i64_to_string(i64::MIN), "-9223372036854775808");
    assert_eq!(i64_to_string(42), "42");
}

#[test]
fn hex_rendering() {
    assert_eq!(u64_to_hex_string(0), "0");
    assert_eq!(u64_to_hex_string(0xA), "A");
    assert_eq!(u64_to_hex_string(255), "FF");
    assert_eq!(stat_blob_hex(&vec![]), "");
    assert_eq!(stat_blob_hex(&vec![0x0F, 0xA0]), "0FA0");
    // Each 32-bit value contributes its four little-endian bytes.
    assert_eq!(result_blob_hex(&vec![0x01020304]), "04030201");
    assert_eq!(
        result_blob_hex(&vec![1.0f32.to_bits(), 2.5f32.to_bits()]),
        format!(
            "{}{}",
            hex::encode_upper(1.0f32.to_le_bytes()),
            hex::encode_upper(2.5f32.to_le_bytes())
        )
    );
}

#[test]
fn clamping_round_trip() {
    // A finite scaled value is stored exactly as it is.
    let finite = 5.0f32;
    assert_eq!(replace_inf(finite.to_bits()), finite.to_bits());
    assert_eq!(f32::from_bits(replace_inf((-3.25f32).to_bits())), -3.25f32);
    // Positive infinity is clamped to the largest finite value.
    assert_eq!(f32::from_bits(replace_inf(f32::INFINITY.to_bits())), f32::MAX);
    // Negative infinity to the smallest.
    assert_eq!(f32::from_bits(replace_inf(f32::NEG_INFINITY.to_bits())), f32::MIN);
    // NaN stays NaN: "no valid result" is preserved.
    assert!(f32::from_bits(replace_inf(f32::NAN.to_bits())).is_nan());
    // A scaled overflow behaves like infinity.
    let overflow = f32::MAX * 10f32;
    assert_eq!(f32::from_bits(replace_inf(overflow.to_bits())), f32::MAX);
    // The clamp output is always storable: finite or NaN, never infinite.
    for v in [0.0f32, f32::MAX, f32::INFINITY, f32::NEG_INFINITY, f32::NAN] {
        let out = replace_inf(v.to_bits());
        assert!(bits_is_finite(out) || bits_is_nan(out));
    }
}

#[test]
fn option_values_resolve_against_flags() {
    let v = 2.5f32.to_bits();
    // Present and valid: the raw bits pass through.
    assert_eq!(option_value(&Some(v), &Some(0), 0x50), v);
    // The masked "invalid" bit turns the field into NaN.
    assert!(bits_is_nan(option_value(&Some(v), &Some(0x10), 0x50)));
    assert!(bits_is_nan(option_value(&Some(v), &Some(0x40), 0x50)));
    // A bit outside the mask does not.
    assert_eq!(option_value(&Some(v), &Some(0x04), 0x50), v);
    // Absent value or absent flag byte: NaN.
    assert!(bits_is_nan(option_value(&None, &Some(0), 0x50)));
    assert!(bits_is_nan(option_value(&Some(v), &None, 0x50)));
}

#[test]
fn storable_results_round_trip() {
    // Finite values pass through exactly.
    assert_eq!(storable_result(5.0f32.to_bits()), Some(5.0f32.to_bits()));
    // Infinities are clamped to the extreme finite values.
    assert_eq!(
        storable_result(f32::INFINITY.to_bits()).map(f32::from_bits),
        Some(f32::MAX)
    );
    assert_eq!(
        storable_result(f32::NEG_INFINITY.to_bits()).map(f32::from_bits),
        Some(f32::MIN)
    );
    // NaN is "no valid result": stored as absent.
    assert_eq!(storable_result(f32::NAN.to_bits()), None);
}
