//! Tests for the data sources: the proc-file parsers, the wrap-aware
//! network counters, and the per-reading classifiers.

use minmon::check::docker_container_status::{ContainerStatus, DockerContainerStatus, HealthStatus};
use minmon::check::filesystem_usage::{FilesystemUsage, StatvfsReading};
use minmon::check::memory_usage::{MeminfoFileContent, MemoryUsage};
use minmon::check::network_throughput::WrappingItem;
use minmon::check::pressure_average::{PressureFileContent, PressureFileLine, PressureLabel};
use minmon::check::systemd_unit_status::SystemdUnitStatus;
use minmon::measurement::{DataSize, Measurement};

#[test]
fn test_meminfo_file_content_from_str() {
    let content_str = "MemTotal:           1234 kB\n\
                       MemFree:            2345 kB\n\
                       MemAvailable:       3456 kB\n\
                       Cached:             4567 kB\n\
                       SwapTotal:          5678 kB\n\
                       SwapFree:           6789 kB";
    let content = MeminfoFileContent::try_from_str(content_str).unwrap();
    assert_eq!(content.mem_total, 1234);
    assert_eq!(content.mem_available, 3456);
    assert_eq!(content.swap_total, 5678);
    assert_eq!(content.swap_free, 6789);
}

#[test]
fn test_meminfo_missing_field() {
    assert!(MeminfoFileContent::try_from_str("MemTotal: 10 kB\n").is_err());
}

// A matching line whose value is unreadable fails the parse, even when
// the other fields are fine.
#[test]
fn test_meminfo_unreadable_field() {
    let content = "MemTotal:  x kB\nMemAvailable: 2 kB\nSwapTotal: 3 kB\nSwapFree: 4 kB";
    assert!(MeminfoFileContent::try_from_str(content).is_err());
    // the last matching line wins
    let content = "MemTotal: 1 kB\nMemTotal: 9 kB\nMemAvailable: 2 kB\nSwapTotal: 3 kB\nSwapFree: 4 kB";
    let parsed = MeminfoFileContent::try_from_str(content).unwrap();
    assert_eq!(parsed.mem_total, 9);
}

#[test]
fn test_memory_usage_compute() {
    let source = MemoryUsage::from_config(&minmon::config::CheckMemoryUsage {
        memory: true,
        swap: true,
    })
    .unwrap();
    let meminfo = MeminfoFileContent {
        mem_total: 1000,
        mem_available: 250,
        swap_total: 0,
        swap_free: 0,
    };
    let res = source.compute(&meminfo);
    assert_eq!(res.len(), 2);
    match &res[0] {
        Ok(Some(Measurement::Level(l))) => assert_eq!(l.data(), 75),
        _ => panic!("expected a level"),
    }
    match &res[1] {
        Err(e) => assert_eq!(e.0, "Could not read swap usage."),
        _ => panic!("expected an error"),
    }
}

#[test]
fn test_memory_usage_validation() {
    let err = MemoryUsage::from_config(&minmon::config::CheckMemoryUsage {
        memory: false,
        swap: false,
    })
    .unwrap_err();
    assert_eq!(err.0, "Either 'memory' or 'swap' or both need to be enabled.");
}

#[test]
fn test_wrapping_item() {
    let mut wrapping = WrappingItem::new();
    let value = wrapping.update(DataSize::new(123).unwrap());
    assert!(value.is_none());
    let value = wrapping.update(DataSize::new(234).unwrap());
    assert_eq!(value.unwrap().data(), 111);
    wrapping.update(DataSize::new(u64::MAX - 10).unwrap());
    let value = wrapping.update(DataSize::new(10).unwrap());
    assert_eq!(value.unwrap().data(), 21);
}

#[test]
fn test_pressure_file_line_from_str() {
    let line_str = "some avg10=1.00 avg60=2.00 avg300=3.99 total=4";
    let line = PressureFileLine::try_from_str(line_str).unwrap();
    assert_eq!(line.label, PressureLabel::SomeStall);
    assert_eq!(line.avg10, 1);
    assert_eq!(line.avg60, 2);
    assert_eq!(line.avg300, 3);
    let line_str = "full avg10=5.00 avg60=6.00 avg300=7.99 total=8";
    let line = PressureFileLine::try_from_str(line_str).unwrap();
    assert_eq!(line.label, PressureLabel::FullStall);
    assert_eq!(line.avg10, 5);
    assert_eq!(line.avg60, 6);
    assert_eq!(line.avg300, 7);
}

#[test]
fn test_pressure_file_content_from_str() {
    let content_str = "some avg10=1.00 avg60=2.00 avg300=3.99 total=4\n\
                       full avg10=5.00 avg60=6.00 avg300=7.99 total=8";
    let content = PressureFileContent::try_from_str(content_str).unwrap();
    assert!(content.full_line.is_some());
}

// A file without a `some` line, or with any unreadable line, fails.
#[test]
fn test_pressure_content_errors() {
    assert!(PressureFileContent::try_from_str(
        "full avg10=5.00 avg60=6.00 avg300=7.99 total=8"
    )
    .is_err());
    assert!(PressureFileContent::try_from_str(
        "some avg10=1.00 avg60=2.00 avg300=3.99 total=4\ngarbage"
    )
    .is_err());
}

#[test]
fn test_pressure_line_rejects_wrong_label() {
    assert!(PressureFileLine::try_from_str("weird avg10=1.00 avg60=2.00 avg300=3.00").is_err());
    assert!(PressureFileLine::try_from_str("some avg60=1.00 avg10=2.00 avg300=3.00").is_err());
    assert!(PressureFileLine::try_from_str("").is_err());
}

#[test]
fn test_pressure_average_compute() {
    let source = minmon::check::pressure_average::PressureAverage::from_config(
        &minmon::config::CheckPressureAverage {
            cpu: true,
            io: minmon::config::PressureChoice::Neither,
            memory: minmon::config::PressureChoice::Neither,
            avg10: true,
            avg60: false,
            avg300: true,
        },
    )
    .unwrap();
    assert_eq!(source.id, vec!["cpu/avg10", "cpu/avg300"]);
    let content = PressureFileContent::try_from_str(
        "some avg10=1.50 avg60=2.00 avg300=3.99 total=4",
    );
    let mut data = Vec::new();
    source.add_data_from_content(
        minmon::config::PressureChoice::SomeStall,
        &content,
        &mut data,
    );
    assert_eq!(data.len(), 2);
    match &data[0] {
        Ok(Some(Measurement::Level(l))) => assert_eq!(l.data(), 1),
        _ => panic!("expected a level"),
    }
    match &data[1] {
        Ok(Some(Measurement::Level(l))) => assert_eq!(l.data(), 3),
        _ => panic!("expected a level"),
    }
}

#[test]
fn test_pressure_validation() {
    let err = minmon::check::pressure_average::PressureAverage::from_config(
        &minmon::config::CheckPressureAverage {
            cpu: true,
            io: minmon::config::PressureChoice::Neither,
            memory: minmon::config::PressureChoice::Neither,
            avg10: false,
            avg60: false,
            avg300: false,
        },
    )
    .unwrap_err();
    assert_eq!(
        err.0,
        "At least one of 'avg10', 'avg60', or 'avg300' needs to be enabled."
    );
}

#[test]
fn test_filesystem_usage_compute() {
    let source = FilesystemUsage::from_config(&minmon::config::CheckFilesystemUsage {
        mountpoints: vec![String::from("/")],
    })
    .unwrap();
    let reading = StatvfsReading {
        blocks: 100,
        blocks_available: 60,
    };
    match source.compute_one(&reading) {
        Ok(Some(Measurement::Level(l))) => assert_eq!(l.data(), 40),
        _ => panic!("expected a level"),
    }
    assert!(source
        .compute_one(&StatvfsReading {
            blocks: 0,
            blocks_available: 0,
        })
        .is_err());
}

#[test]
fn test_filesystem_usage_validation() {
    let err = FilesystemUsage::from_config(&minmon::config::CheckFilesystemUsage {
        mountpoints: vec![String::new()],
    })
    .unwrap_err();
    assert_eq!(err.0, "'mountpoints' cannot contain empty paths.");
}

#[test]
fn test_systemd_status_codes() {
    match SystemdUnitStatus::status_from_code(0) {
        Ok(Some(Measurement::BinaryState(b))) => assert!(b.data()),
        _ => panic!("expected an active unit"),
    }
    match SystemdUnitStatus::status_from_code(3) {
        Ok(Some(Measurement::BinaryState(b))) => assert!(!b.data()),
        _ => panic!("expected an inactive unit"),
    }
    assert_eq!(
        SystemdUnitStatus::status_from_code(4).unwrap_err().0,
        "No such unit."
    );
    assert_eq!(
        SystemdUnitStatus::status_from_code(7).unwrap_err().0,
        "Unknown error code 7."
    );
}

#[test]
fn test_docker_evaluate() {
    match DockerContainerStatus::evaluate(Some(ContainerStatus::Running), None) {
        Ok(Some(Measurement::BinaryState(b))) => assert!(b.data()),
        _ => panic!("expected a good container"),
    }
    match DockerContainerStatus::evaluate(
        Some(ContainerStatus::Running),
        Some(HealthStatus::Other),
    ) {
        Ok(Some(Measurement::BinaryState(b))) => assert!(!b.data()),
        _ => panic!("expected an unhealthy container"),
    }
    match DockerContainerStatus::evaluate(Some(ContainerStatus::Other), None) {
        Ok(Some(Measurement::BinaryState(b))) => assert!(!b.data()),
        _ => panic!("expected a stopped container"),
    }
    assert_eq!(
        DockerContainerStatus::evaluate(None, None).unwrap_err().0,
        "Could not read container status."
    );
}

#[test]
fn test_network_throughput_ids() {
    let source = minmon::check::network_throughput::NetworkThroughput::from_config(
        &minmon::config::CheckNetworkThroughput {
            interfaces: vec![String::from("eth0")],
            received: true,
            sent: true,
            log_format: minmon::config::DataSizeFormat::Binary,
        },
    )
    .unwrap();
    assert_eq!(source.id.len(), 2);
    assert_eq!(source.id[0], "eth0[rx]");
    assert_eq!(source.id[1], "eth0[tx]");
}

#[test]
fn test_network_throughput_advance() {
    let mut source = minmon::check::network_throughput::NetworkThroughput::from_config(
        &minmon::config::CheckNetworkThroughput {
            interfaces: vec![String::from("eth0")],
            received: true,
            sent: false,
            log_format: minmon::config::DataSizeFormat::Bytes,
        },
    )
    .unwrap();
    let first = source.advance(vec![Ok(1000)]);
    assert!(matches!(first[0], Ok(None)));
    let second = source.advance(vec![Ok(1600)]);
    match &second[0] {
        Ok(Some(Measurement::DataSize(d))) => assert_eq!(d.data(), 600),
        _ => panic!("expected a throughput"),
    }
    let third = source.advance(vec![Err(minmon::Error(String::from("gone")))]);
    match &third[0] {
        Err(e) => assert_eq!(e.0, "gone"),
        _ => panic!("expected an error"),
    }
}
