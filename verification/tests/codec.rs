use seify::freq_params;
use seify::UsbVersion;

#[test]
fn nominal() {
    assert_eq!(freq_params(915_000_000), [0x93, 0x03, 0, 0, 0, 0, 0, 0]);
    assert_eq!(freq_params(915_000_001), [0x93, 0x03, 0, 0, 1, 0, 0, 0]);
    assert_eq!(
        freq_params(123456789),
        [0x7B, 0, 0, 0, 0x55, 0xF8, 0x06, 0x00]
    );
}

#[test]
fn min() {
    assert_eq!(freq_params(0), [0; 8]);
}

#[test]
fn max() {
    assert_eq!(freq_params(u64::MAX), [0xFF; 8]);
}

#[test]
fn freq_params_mhz_boundary() {
    // 1 MHz exactly: one in the MHz field, nothing in the remainder.
    assert_eq!(freq_params(1_000_000), [1, 0, 0, 0, 0, 0, 0, 0]);
    // Just below 1 MHz: everything in the remainder field.
    assert_eq!(freq_params(999_999), [0, 0, 0, 0, 0x3F, 0x42, 0x0F, 0]);
}

#[test]
fn from_bcd_decodes_components() {
    assert_eq!(UsbVersion::from_bcd(0x0102), UsbVersion(1, 0, 2));
    assert_eq!(UsbVersion::from_bcd(0x0200), UsbVersion(2, 0, 0));
    assert_eq!(UsbVersion::from_bcd(0x0110), UsbVersion(1, 1, 0));
}

#[test]
fn version_accessors() {
    let v = UsbVersion::from_bcd(0x0123);
    assert_eq!(v.major(), 1);
    assert_eq!(v.minor(), 2);
    assert_eq!(v.sub_minor(), 3);
}

#[test]
fn version_key_orders_versions() {
    assert!(UsbVersion(1, 2, 0).key() > UsbVersion(1, 0, 2).key());
    assert!(UsbVersion(2, 0, 0).key() > UsbVersion(1, 9, 9).key());
    assert_eq!(UsbVersion(1, 2, 3).key(), 0x010203);
}

#[test]
fn rate_params_little_endian() {
    assert_eq!(
        seify::codec::rate_params(8_000_000, 1),
        [0x00, 0x12, 0x7A, 0x00, 1, 0, 0, 0]
    );
}

#[test]
fn filter_bandwidth_is_three_quarters() {
    assert_eq!(seify::codec::filter_bandwidth(8_000_000, 1), 6_000_000);
    assert_eq!(seify::codec::filter_bandwidth(2_500_000, 1), 1_875_000);
    assert_eq!(seify::codec::filter_bandwidth(10_000_000, 2), 3_750_000);
    // Rounded down to whole Hz.
    assert_eq!(seify::codec::filter_bandwidth(3, 1), 2);
    // A zero divisor saturates.
    assert_eq!(seify::codec::filter_bandwidth(8_000_000, 0), u32::MAX);
}
