use uhd::time::{NEGATIVE_ZERO_BITS, ONE_SECOND_BITS};
use uhd::{BurstSpec, RawMetadata, TimeSpec, TransmitMetadata};

#[test]
fn default_tx_metadata() {
    let metadata = TransmitMetadata::default();
    assert_eq!(None, metadata.time_spec());
    assert_eq!(false, metadata.start_of_burst());
    assert_eq!(false, metadata.end_of_burst());
}

#[test]
fn default_metadata_has_sent_nothing() {
    let metadata = TransmitMetadata::default();
    assert_eq!(0, metadata.samples());
}

#[test]
fn new_metadata_gives_back_burst_and_time() {
    let time = TimeSpec { seconds: 1_700_000_000, fraction_bits: 0.25f64.to_bits() };
    let metadata = TransmitMetadata::new(BurstSpec { start: true, end: false }, Some(time));
    assert_eq!(Some(time), metadata.time_spec());
    assert_eq!(true, metadata.start_of_burst());
    assert_eq!(false, metadata.end_of_burst());
    assert_eq!(0, metadata.samples());
}

#[test]
fn new_metadata_without_time() {
    let metadata = TransmitMetadata::new(BurstSpec { start: false, end: true }, None);
    assert_eq!(None, metadata.time_spec());
    assert_eq!(false, metadata.start_of_burst());
    assert_eq!(true, metadata.end_of_burst());
    assert_eq!(0, metadata.samples());
}

#[test]
fn new_metadata_round_trips_every_flag_pair() {
    let times = [
        None,
        Some(TimeSpec { seconds: 0, fraction_bits: 0 }),
        Some(TimeSpec { seconds: -5, fraction_bits: 0.999f64.to_bits() }),
        Some(TimeSpec { seconds: i64::MAX, fraction_bits: 0.5f64.to_bits() }),
        Some(TimeSpec { seconds: i64::MIN, fraction_bits: u64::MAX }),
    ];
    for start in [false, true] {
        for end in [false, true] {
            for time in times {
                let metadata = TransmitMetadata::new(BurstSpec { start, end }, time);
                assert_eq!(time, metadata.time_spec());
                assert_eq!(start, metadata.start_of_burst());
                assert_eq!(end, metadata.end_of_burst());
                assert_eq!(0, metadata.samples());
            }
        }
    }
}

#[test]
fn metadata_without_time_or_burst_is_the_default() {
    let made = TransmitMetadata::new(BurstSpec { start: false, end: false }, None);
    let default = TransmitMetadata::default();
    assert_eq!(default.time_spec(), made.time_spec());
    assert_eq!(default.start_of_burst(), made.start_of_burst());
    assert_eq!(default.end_of_burst(), made.end_of_burst());
    assert_eq!(default.samples(), made.samples());
}

#[test]
fn metadata_debug_names_its_fields() {
    let text = format!("{:?}", TransmitMetadata::default());
    assert_eq!(
        "TransmitMetadata { time_spec: None, start_of_burst: false, end_of_burst: false, received_samples: 0 }",
        text
    );
}

#[test]
fn time_spec_bit_patterns() {
    assert_eq!(1.0f64.to_bits(), ONE_SECOND_BITS);
    assert_eq!((-0.0f64).to_bits(), NEGATIVE_ZERO_BITS);
}

#[test]
fn time_spec_fraction_below_one_second_is_valid() {
    for fraction in [0.0f64, -0.0, 0.1, 0.5, 0.999_999_999, f64::MIN_POSITIVE] {
        let time = TimeSpec { seconds: 3, fraction_bits: fraction.to_bits() };
        assert!(time.is_valid(), "{fraction}");
    }
    let largest = TimeSpec { seconds: 3, fraction_bits: ONE_SECOND_BITS - 1 };
    assert!(largest.is_valid());
    assert!(f64::from_bits(largest.fraction_bits) < 1.0);
}

#[test]
fn time_spec_fraction_outside_a_second_is_invalid() {
    for fraction in [1.0f64, 1.5, -0.5, -1.0, f64::INFINITY, f64::NEG_INFINITY, f64::NAN, -f64::MIN_POSITIVE] {
        let time = TimeSpec { seconds: 3, fraction_bits: fraction.to_bits() };
        assert!(!time.is_valid(), "{fraction}");
    }
}

#[test]
fn time_spec_equality_is_by_fields() {
    let a = TimeSpec { seconds: 7, fraction_bits: 0.5f64.to_bits() };
    let b = TimeSpec { seconds: 7, fraction_bits: 0.5f64.to_bits() };
    let c = TimeSpec { seconds: 8, fraction_bits: 0.5f64.to_bits() };
    let d = TimeSpec { seconds: 7, fraction_bits: 0.25f64.to_bits() };
    assert_eq!(a, b);
    assert_ne!(a, c);
    assert_ne!(a, d);
}

#[test]
fn raw_form_of_a_descriptor_with_a_time_marker() {
    let time = TimeSpec { seconds: 42, fraction_bits: 0.75f64.to_bits() };
    let metadata = TransmitMetadata::new(BurstSpec { start: true, end: true }, Some(time));
    let raw = metadata.to_raw();
    assert_eq!(
        RawMetadata {
            has_time_spec: true,
            full_secs: 42,
            frac_secs_bits: 0.75f64.to_bits(),
            start_of_burst: true,
            end_of_burst: true,
        },
        raw
    );
}

#[test]
fn raw_form_of_a_descriptor_without_a_time_marker() {
    let metadata = TransmitMetadata::new(BurstSpec { start: false, end: true }, None);
    let raw = metadata.to_raw();
    assert_eq!(
        RawMetadata {
            has_time_spec: false,
            full_secs: 0,
            frac_secs_bits: 0.0f64.to_bits(),
            start_of_burst: false,
            end_of_burst: true,
        },
        raw
    );
}

#[test]
fn raw_form_of_the_default_descriptor() {
    let raw = TransmitMetadata::default().to_raw();
    assert_eq!(
        RawMetadata {
            has_time_spec: false,
            full_secs: 0,
            frac_secs_bits: 0,
            start_of_burst: false,
            end_of_burst: false,
        },
        raw
    );
}

#[test]
fn reading_a_raw_descriptor_with_the_flag_set() {
    let raw = RawMetadata {
        has_time_spec: true,
        full_secs: -3,
        frac_secs_bits: 0.125f64.to_bits(),
        start_of_burst: false,
        end_of_burst: true,
    };
    let metadata = TransmitMetadata::from_raw(raw);
    let expected = TimeSpec { seconds: -3, fraction_bits: 0.125f64.to_bits() };
    assert_eq!(Some(expected), metadata.time_spec());
    assert_eq!(false, metadata.start_of_burst());
    assert_eq!(true, metadata.end_of_burst());
    assert_eq!(0, metadata.samples());
}

#[test]
fn reading_a_raw_descriptor_with_the_flag_clear_drops_the_time() {
    let raw = RawMetadata {
        has_time_spec: false,
        full_secs: 99,
        frac_secs_bits: 0.5f64.to_bits(),
        start_of_burst: true,
        end_of_burst: false,
    };
    let metadata = TransmitMetadata::from_raw(raw);
    assert_eq!(None, metadata.time_spec());
    assert_eq!(true, metadata.start_of_burst());
    assert_eq!(false, metadata.end_of_burst());
}

#[test]
fn a_descriptor_survives_the_raw_form() {
    let times = [
        None,
        Some(TimeSpec { seconds: 0, fraction_bits: 0 }),
        Some(TimeSpec { seconds: 1_700_000_000, fraction_bits: 0.333f64.to_bits() }),
    ];
    for start in [false, true] {
        for end in [false, true] {
            for time in times {
                let written = TransmitMetadata::new(BurstSpec { start, end }, time);
                let read = TransmitMetadata::from_raw(written.to_raw());
                assert_eq!(time, read.time_spec());
                assert_eq!(start, read.start_of_burst());
                assert_eq!(end, read.end_of_burst());
                assert_eq!(written.to_raw(), read.to_raw());
            }
        }
    }
}
