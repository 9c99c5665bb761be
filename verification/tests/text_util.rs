//! Tests for the textual helpers: placeholder merging and rendering,
//! duration and timestamp formatting, column parsing, and the size
//! strings.

use minmon::measurement::DataSize;
use minmon::placeholder::PlaceholderMap;

fn map_of(pairs: &[(&str, &str)]) -> PlaceholderMap {
    let mut m = PlaceholderMap::new();
    for (k, v) in pairs {
        m.insert(String::from(*k), String::from(*v));
    }
    m
}

#[test]
fn test_merge_placeholders() {
    let mut target = map_of(&[("A", "?")]);
    let source = map_of(&[("A", "B"), ("C", "D")]);
    minmon::merge_placeholders(&mut target, &source);
    assert_eq!(target.get("A").unwrap(), "B");
    assert_eq!(target.get("C").unwrap(), "D");
}

#[test]
fn test_fill_placeholders() {
    let template = "X{{A}}{{missing}}Z";
    let placeholders = map_of(&[("A", "Y")]);
    let filled = minmon::fill_placeholders(template, &placeholders);
    assert_eq!(filled, "XYZ");
}

#[test]
fn test_fill_placeholders_trims_keys() {
    let placeholders = map_of(&[("name", "world")]);
    assert_eq!(
        minmon::fill_placeholders("hello {{ name }}!", &placeholders),
        "hello world!"
    );
}

#[test]
fn test_fill_placeholders_unterminated() {
    let placeholders = map_of(&[("a", "1")]);
    assert_eq!(minmon::fill_placeholders("x{{a", &placeholders), "x{{a");
}

// The renderer agrees with the template crate the templates were
// written for.
#[test]
fn test_fill_placeholders_matches_template_crate() {
    let cases = [
        "plain text",
        "{{a}}-{{b}}",
        "{{ a }} {{missing}}",
        "{{a}{{b}}",
        "tail {{b}}",
        "{{}}",
        "brace } and { here",
    ];
    let placeholders = map_of(&[("a", "A"), ("b", "BB"), ("", "EMPTY")]);
    for template in cases {
        let mine = minmon::fill_placeholders(template, &placeholders);
        let mut table = std::collections::HashMap::new();
        for (k, v) in placeholders.pairs() {
            table.insert(k, v);
        }
        let borrowed: std::collections::HashMap<&str, &str> =
            table.iter().map(|(k, v)| (k.as_str(), v.as_str())).collect();
        let reference = text_placeholder::Template::new(template).fill_with_hashmap(&borrowed);
        assert_eq!(mine, reference, "template {template:?}");
    }
}

#[test]
fn test_datetime_iso8601() {
    assert_eq!(minmon::clock::datetime_iso8601(0), "1970-01-01T00:00:00Z");
}

#[test]
fn test_duration_iso8601() {
    assert_eq!(minmon::duration_iso8601(123630), "P1DT10H20M30S");
    assert_eq!(minmon::duration_iso8601(37230), "PT10H20M30S");
    assert_eq!(minmon::duration_iso8601(0), "PT0S");
}

#[test]
fn test_get_number() {
    let line = "0 1 2 3 4 5";
    assert_eq!(minmon::get_number("error", line, 0).unwrap(), 0);
    assert_eq!(minmon::get_number("error", line, 5).unwrap(), 5);
    assert!(minmon::get_number("error", line, 6).is_err());
}

#[test]
fn test_get_number_errors() {
    let err = minmon::get_number("oops", "a b", 4).unwrap_err();
    assert_eq!(err.0, "oops: Column not found.");
    let err = minmon::get_number("oops", "12 x3", 1).unwrap_err();
    assert_eq!(err.0, "oops: Could not parse number.");
}

#[test]
fn test_data_size_as_string_binary() {
    let data_size = DataSize::new(999).unwrap();
    assert_eq!(data_size.as_string_binary(), "999B");
    let data_size = DataSize::new(9999).unwrap();
    assert_eq!(data_size.as_string_binary(), "9.765KiB");
    let data_size = DataSize::new(9999999).unwrap();
    assert_eq!(data_size.as_string_binary(), "9.537MiB");
    let data_size = DataSize::new(1024).unwrap();
    assert_eq!(data_size.as_string_binary(), "1KiB");
    let data_size = DataSize::new(1024 * 1024).unwrap();
    assert_eq!(data_size.as_string_binary(), "1MiB");
    let data_size = DataSize::new(1024 * 1024 * 1024).unwrap();
    assert_eq!(data_size.as_string_binary(), "1GiB");
}

#[test]
fn test_data_size_as_string_decimal() {
    assert_eq!(DataSize::new(999).unwrap().as_string_decimal(), "999B");
    assert_eq!(DataSize::new(1000).unwrap().as_string_decimal(), "1kB");
    assert_eq!(DataSize::new(1500).unwrap().as_string_decimal(), "1.5kB");
    assert_eq!(DataSize::new(2_500_000).unwrap().as_string_decimal(), "2.5MB");
    assert_eq!(
        DataSize::new(3_000_000_000).unwrap().as_string_decimal(),
        "3GB"
    );
}

#[test]
fn test_placeholder_map_overwrites() {
    let mut m = PlaceholderMap::new();
    m.insert(String::from("k"), String::from("1"));
    m.insert(String::from("k"), String::from("2"));
    assert_eq!(m.len(), 1);
    assert_eq!(m.get("k").unwrap(), "2");
    assert!(m.get("other").is_none());
}

#[test]
fn test_global_placeholders() {
    let g = minmon::global_placeholders(123630, 30);
    assert_eq!(g.get("system_uptime").unwrap(), "123630");
    assert_eq!(g.get("system_uptime_iso").unwrap(), "P1DT10H20M30S");
    assert_eq!(g.get("minmon_uptime").unwrap(), "30");
    assert_eq!(g.get("minmon_uptime_iso").unwrap(), "PT30S");
    assert_eq!(g.len(), 4);
}

#[test]
fn test_user_agent() {
    assert_eq!(minmon::user_agent(), "MinMon/v0.1.0");
}

// The measurement domains: a level never exceeds 100 and a temperature
// never goes below absolute zero.
#[test]
fn test_measurement_domains() {
    assert_eq!(
        minmon::measurement::Level::new(101).unwrap_err().0,
        "'level' cannot be greater than 100."
    );
    assert_eq!(minmon::measurement::Level::new(100).unwrap().data(), 100);
    assert_eq!(
        minmon::measurement::Temperature::new(-274).unwrap_err().0,
        "'temperature' cannot be less than -273\u{b0}C."
    );
    assert_eq!(
        minmon::measurement::Temperature::new(-273).unwrap().data(),
        -273
    );
}

#[test]
fn test_display_strings() {
    let t = minmon::measurement::Temperature::new(-5).unwrap();
    assert_eq!(
        minmon::measurement::Measurement::Temperature(t).to_display_string(),
        "-5\u{b0}C"
    );
    let i = minmon::measurement::Integer::new(-42).unwrap();
    assert_eq!(
        minmon::measurement::Measurement::Integer(i).to_display_string(),
        "-42"
    );
    let c = minmon::measurement::StatusCode::new(3).unwrap();
    assert_eq!(
        minmon::measurement::Measurement::StatusCode(c).to_display_string(),
        "3"
    );
}

// The configured threshold of a data-size alarm, scaled into bytes,
// saturating at the top of the range.
#[test]
fn test_alarm_data_size_bytes() {
    let d = minmon::config::AlarmDataSize {
        unit: minmon::config::DataSizeUnit::Kibibyte,
        data_size: 3,
    };
    assert_eq!(d.bytes(), 3072);
    let d = minmon::config::AlarmDataSize {
        unit: minmon::config::DataSizeUnit::Gibibyte,
        data_size: u64::MAX,
    };
    assert_eq!(d.bytes(), u64::MAX);
}
