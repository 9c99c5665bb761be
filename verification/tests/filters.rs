//! Tests for the window reducers: rounding, error slots, the rolling
//! window, peak, and the saturating sum.

use minmon::filter::{FilterOp, WindowFilter};
use minmon::measurement::{DataSize, Level, Measurement, MeasurementKind};

fn level(value: u8) -> Measurement {
    Measurement::Level(Level::new(value).unwrap())
}

fn size(value: u64) -> Measurement {
    Measurement::DataSize(DataSize::new(value).unwrap())
}

fn level_of(m: Measurement) -> u8 {
    match m {
        Measurement::Level(l) => l.data(),
        _ => panic!("expected a level"),
    }
}

fn size_of(m: Measurement) -> u64 {
    match m {
        Measurement::DataSize(d) => d.data(),
        _ => panic!("expected a data size"),
    }
}

#[test]
fn test_average_filter_rounding() {
    let mut filter = WindowFilter::new(FilterOp::Average, 5, MeasurementKind::Level).unwrap();
    assert_eq!(level_of(filter.filter(level(1))), 1); // identity
    assert_eq!(level_of(filter.filter(level(10))), 6); // even window, round up
    assert_eq!(level_of(filter.filter(level(30))), 14); // odd window, round up
    assert_eq!(level_of(filter.filter(level(4))), 11); // even window, round down
    assert_eq!(level_of(filter.filter(level(3))), 10); // odd window, round down
}

#[test]
fn test_average_filter_errors() {
    let mut filter = WindowFilter::new(FilterOp::Average, 9, MeasurementKind::Level).unwrap();
    filter.error();
    assert_eq!(level_of(filter.filter(level(1))), 1);
    filter.error();
    assert_eq!(level_of(filter.filter(level(3))), 2);
    filter.error();
    assert_eq!(level_of(filter.filter(level(5))), 3);
    filter.error();
    assert_eq!(level_of(filter.filter(level(7))), 4);
    filter.error();
    assert_eq!(level_of(filter.filter(level(9))), 5);
}

#[test]
fn test_average_filter_window() {
    let mut filter = WindowFilter::new(FilterOp::Average, 3, MeasurementKind::Level).unwrap();
    assert_eq!(level_of(filter.filter(level(1))), 1);
    filter.error();
    assert_eq!(level_of(filter.filter(level(2))), 2);
    assert_eq!(level_of(filter.filter(level(3))), 3); // rolls off 1
    assert_eq!(level_of(filter.filter(level(4))), 3);
    filter.error(); // rolls off 2
    assert_eq!(level_of(filter.filter(level(5))), 5); // rolls off 3
}

#[test]
fn test_peak_filter() {
    let mut filter = WindowFilter::new(FilterOp::Peak, 3, MeasurementKind::Level).unwrap();
    assert_eq!(level_of(filter.filter(level(1))), 1);
    assert_eq!(level_of(filter.filter(level(2))), 2);
    assert_eq!(level_of(filter.filter(level(3))), 3);
    assert_eq!(level_of(filter.filter(level(2))), 3); // rolls off 1
    assert_eq!(level_of(filter.filter(level(1))), 3); // rolls off 2
    assert_eq!(level_of(filter.filter(level(2))), 2); // rolls off 3
    filter.error(); // rolls off 2
    assert_eq!(level_of(filter.filter(level(10))), 10); // rolls off 1
    filter.error(); // rolls off 2
    assert_eq!(level_of(filter.filter(level(9))), 10);
    assert_eq!(level_of(filter.filter(level(8))), 9); // rolls off 10
    filter.error();
    filter.error(); // rolls off 9
    assert_eq!(level_of(filter.filter(level(1))), 1); // rolls off 8
}

#[test]
fn test_sum_filter() {
    let mut filter = WindowFilter::new(FilterOp::Sum, 3, MeasurementKind::DataSize).unwrap();
    assert_eq!(size_of(filter.filter(size(1))), 1); // identity
    assert_eq!(size_of(filter.filter(size(2))), 3);
    assert_eq!(size_of(filter.filter(size(3))), 6);
    assert_eq!(size_of(filter.filter(size(4))), 9); // rolls off 1
    filter.error(); // rolls off 2
    assert_eq!(size_of(filter.filter(size(5))), 9); // rolls off 3
    filter.error(); // rolls off 4
    assert_eq!(size_of(filter.filter(size(0))), 5);
    assert_eq!(size_of(filter.filter(size(0))), 0); // rolls off 5
}

// The sum saturates at the top of the byte range instead of wrapping.
#[test]
fn test_sum_filter_saturates() {
    let mut filter = WindowFilter::new(FilterOp::Sum, 3, MeasurementKind::DataSize).unwrap();
    filter.filter(size(u64::MAX));
    assert_eq!(size_of(filter.filter(size(10))), u64::MAX);
}

// A filter is only built for kinds where the reducer is meaningful,
// and never with an empty window.
#[test]
fn test_filter_validation() {
    assert!(WindowFilter::new(FilterOp::Average, 5, MeasurementKind::BinaryState).is_err());
    assert!(WindowFilter::new(FilterOp::Sum, 5, MeasurementKind::Level).is_err());
    assert!(WindowFilter::new(FilterOp::Sum, 5, MeasurementKind::StatusCode).is_err());
    let err = WindowFilter::new(FilterOp::Peak, 0, MeasurementKind::Level).unwrap_err();
    assert_eq!(err.0, "'window_size' cannot be 0.");
}

// The average of a window of negative temperatures rounds like the
// big-integer reducer: towards zero, with the half-up step only for
// non-negative remainders.
#[test]
fn test_average_filter_negative() {
    let mut filter = WindowFilter::new(FilterOp::Average, 4, MeasurementKind::Temperature).unwrap();
    let temp = |v: i16| {
        Measurement::Temperature(minmon::measurement::Temperature::new(v).unwrap())
    };
    let temp_of = |m: Measurement| match m {
        Measurement::Temperature(t) => t.data(),
        _ => panic!("expected a temperature"),
    };
    assert_eq!(temp_of(filter.filter(temp(-10))), -10);
    assert_eq!(temp_of(filter.filter(temp(-5))), -7);
    assert_eq!(temp_of(filter.filter(temp(0))), -5);
}
