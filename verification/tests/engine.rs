use xlnpwmon::errors::Error;
use xlnpwmon::monitor::{PowerMonitor, DEFAULT_FREQUENCY_HZ, MAX_SENSORS};
use xlnpwmon::sensor::{PowerDomain, Reading, SensorIdentity, SensorType};

/// A small registry like the one a real platform discovers: two PS rails and
/// one PL rail, in discovery order.
fn test_sensors() -> Vec<SensorIdentity> {
    vec![
        SensorIdentity {
            name: "VCCPSINTFP".to_string(),
            kind: SensorType::I2C,
            domain: PowerDomain::ProcessingSystem,
            warning_threshold: 5_000_000,
            critical_threshold: 8_000_000,
        },
        SensorIdentity {
            name: "VCCPSAUX".to_string(),
            kind: SensorType::I2C,
            domain: PowerDomain::ProcessingSystem,
            warning_threshold: 2_000_000,
            critical_threshold: 3_000_000,
        },
        SensorIdentity {
            name: "VCCINT".to_string(),
            kind: SensorType::System,
            domain: PowerDomain::ProgrammableLogic,
            warning_threshold: 10_000_000,
            critical_threshold: 15_000_000,
        },
    ]
}

fn reading(voltage: u64, current: u64, power: u64, online: bool) -> Reading {
    Reading {
        voltage,
        current,
        power,
        online,
        status: String::new(),
    }
}

/// One tick's batch for `test_sensors()`: powers 1 W, 2 W and 0.5 W, all
/// online. Total power 3.5 W; PS 3 W; PL 0.5 W (in microwatts).
fn tick_readings() -> Vec<Reading> {
    vec![
        reading(850_000, 1_176_470, 1_000_000, true),
        reading(1_800_000, 1_111_111, 2_000_000, true),
        reading(850_000, 588_235, 500_000, true),
    ]
}

#[test]
fn test_init() {
    println!("\n=== Running test_init ===");
    let monitor = PowerMonitor::new(test_sensors()).unwrap();
    assert!(monitor.get_sensor_count().unwrap() >= 0);
}

#[test]
fn test_sampling_frequency() {
    println!("\n=== Running test_sampling_frequency ===");
    let mut monitor = PowerMonitor::new(test_sensors()).unwrap();

    // Test setting sampling frequency
    let test_freq: i32 = 10;
    monitor.set_sampling_frequency(test_freq).unwrap();

    // Test getting sampling frequency
    let actual_freq = monitor.get_sampling_frequency().unwrap();
    assert_eq!(actual_freq, test_freq);

    // Test invalid sampling frequency
    assert!(matches!(
        monitor.set_sampling_frequency(0).unwrap_err(),
        Error::InvalidFrequency
    ));
}

#[test]
fn test_sampling_control() {
    println!("\n=== Running test_sampling_control ===");
    let mut monitor = PowerMonitor::new(test_sensors()).unwrap();

    // Test starting sampling
    monitor.start_sampling().unwrap();
    assert!(monitor.is_sampling().unwrap());

    // Test duplicate start sampling
    assert!(matches!(
        monitor.start_sampling().unwrap_err(),
        Error::AlreadyRunning
    ));

    // Test stopping sampling
    monitor.stop_sampling().unwrap();
    assert!(!monitor.is_sampling().unwrap());

    // Test duplicate stop sampling
    assert!(matches!(
        monitor.stop_sampling().unwrap_err(),
        Error::NotRunning
    ));
}

#[test]
fn test_data_collection() {
    println!("\n=== Running test_data_collection ===");
    let mut monitor = PowerMonitor::new(test_sensors()).unwrap();

    // Set sampling frequency and start sampling
    monitor.set_sampling_frequency(10).unwrap();
    monitor.start_sampling().unwrap();

    // Drive a few ticks, as the platform's tick driver would
    for _ in 0..5 {
        monitor.process_tick(&tick_readings()).unwrap();
    }

    // Get latest data
    let data = monitor.get_latest_data().unwrap();

    // Verify total data: sum of the online sensors' instantaneous values
    assert_eq!(data.total.power, 3_500_000);
    assert_eq!(data.total.current, 2_875_816);
    assert!(data.total.online);

    // Verify sensor data
    let sensor_count = monitor.get_sensor_count().unwrap();
    println!("Sensor count: {}", sensor_count);
    assert_eq!(sensor_count, 3);
    assert_eq!(data.sensor_count, sensor_count);
    assert_eq!(data.sensors.len(), 3);

    for (i, sensor) in data.sensors.iter().enumerate() {
        println!("Processing sensor {}: {}", i, sensor.name);
        assert!(!sensor.name.is_empty());
        assert!(sensor.online);
    }
    assert_eq!(data.sensors[0].power, 1_000_000);
    assert_eq!(data.sensors[1].power, 2_000_000);
    assert_eq!(data.sensors[2].power, 500_000);
    assert_eq!(data.sensors[0].voltage, 850_000);
    assert_eq!(data.sensors[2].current, 588_235);

    monitor.stop_sampling().unwrap();
}

#[test]
fn test_statistics() {
    println!("\n=== Running test_statistics ===");
    let mut monitor = PowerMonitor::new(test_sensors()).unwrap();

    // Reset statistics
    monitor.reset_statistics().unwrap();

    // Set sampling frequency and start sampling
    monitor.set_sampling_frequency(10).unwrap();
    monitor.start_sampling().unwrap();

    // Drive a few ticks
    for _ in 0..5 {
        monitor.process_tick(&tick_readings()).unwrap();
    }

    // Get statistics
    let stats = monitor.get_statistics().unwrap();

    // Verify total statistics: the same batch every tick, so min == max
    assert_eq!(stats.total.power.count, 5);
    assert_eq!(stats.total.power.min, 3_500_000);
    assert_eq!(stats.total.power.max, 3_500_000);
    assert_eq!(stats.total.power.avg, 3_500_000);
    assert_eq!(stats.total.power.total, 5 * 3_500_000);

    // Verify sensor statistics
    let sensor_count = monitor.get_sensor_count().unwrap();
    assert_eq!(stats.sensor_count, sensor_count);

    for sensor in &stats.sensors {
        assert!(!sensor.name.is_empty());
        assert_eq!(sensor.power.count, 5);
        assert!(sensor.power.min <= sensor.power.avg);
        assert!(sensor.power.avg <= sensor.power.max);
    }
    assert_eq!(stats.sensors[0].power.avg, 1_000_000);
    assert_eq!(stats.sensors[1].voltage.avg, 1_800_000);

    monitor.stop_sampling().unwrap();
}

#[test]
fn test_sensor_info() {
    println!("\n=== Running test_sensor_info ===");
    let monitor = PowerMonitor::new(test_sensors()).unwrap();
    println!("PowerMonitor created successfully");

    // Get sensor count
    let count = monitor.get_sensor_count().unwrap();
    println!("Sensor count: {}", count);
    assert!(count >= 0);

    // Get sensor names
    println!("Getting sensor names...");
    let names = monitor.get_sensor_names().unwrap();
    println!("Got {} sensor names", names.len());
    assert_eq!(names.len(), count as usize);

    println!("Verifying sensor names:");
    for (i, name) in names.iter().enumerate() {
        println!("Sensor {}: {}", i, name);
        assert!(!name.is_empty());
    }
}

#[test]
fn test_error_codes() {
    println!("\n=== Running test_error_codes ===");
    assert_eq!(i32::from(Error::InitFailed), -1);
    assert_eq!(i32::from(Error::NotInitialized), -2);
    assert_eq!(i32::from(Error::AlreadyRunning), -3);
    assert_eq!(i32::from(Error::NotRunning), -4);
    assert_eq!(i32::from(Error::InvalidFrequency), -5);
    assert_eq!(i32::from(Error::NoSensors), -6);
    assert_eq!(i32::from(Error::FileAccess), -7);
    assert_eq!(i32::from(Error::Memory), -8);
    assert_eq!(i32::from(Error::Thread), -9);
}

#[test]
fn test_sensor_types() {
    println!("\n=== Running test_sensor_types ===");
    assert_eq!(SensorType::Unknown as u32, 0);
    assert_eq!(SensorType::I2C as u32, 1);
    assert_eq!(SensorType::System as u32, 2);
}

#[test]
fn test_power_summary() {
    println!("\n=== Running test_power_summary ===");
    let mut monitor = PowerMonitor::new(test_sensors()).unwrap();

    // Set sampling frequency and start sampling
    monitor.set_sampling_frequency(10).unwrap();
    monitor.start_sampling().unwrap();

    // Drive a few ticks
    for _ in 0..5 {
        monitor.process_tick(&tick_readings()).unwrap();
    }

    // Get power summary
    let summary = monitor.get_power_summary().unwrap();

    // Verify summary data
    println!("PS Total Power: {} uW", summary.ps_total_power);
    println!("PL Total Power: {} uW", summary.pl_total_power);
    println!("Total Power: {} uW", summary.total_power);

    assert_eq!(summary.ps_total_power, 3_000_000);
    assert_eq!(summary.pl_total_power, 500_000);

    // Total power equals PS + PL power exactly
    assert_eq!(
        summary.total_power,
        summary.ps_total_power + summary.pl_total_power
    );

    monitor.stop_sampling().unwrap();
}

#[test]
fn test_power_summary_stats() {
    println!("\n=== Running test_power_summary_stats ===");
    let mut monitor = PowerMonitor::new(test_sensors()).unwrap();

    // Reset statistics
    monitor.reset_statistics().unwrap();

    // Set sampling frequency and start sampling
    monitor.set_sampling_frequency(10).unwrap();
    monitor.start_sampling().unwrap();

    // Drive a few ticks
    for _ in 0..5 {
        monitor.process_tick(&tick_readings()).unwrap();
    }

    // Stop sampling
    monitor.stop_sampling().unwrap();

    // Get power summary statistics
    let summary_stats = monitor.get_power_summary_stats().unwrap();

    // Verify PS total power statistics
    println!(
        "PS Total Power Stats - Min: {}, Max: {}, Avg: {}, Count: {}",
        summary_stats.ps_total_power.min,
        summary_stats.ps_total_power.max,
        summary_stats.ps_total_power.avg,
        summary_stats.ps_total_power.count
    );

    assert!(summary_stats.ps_total_power.count > 0);
    assert!(summary_stats.ps_total_power.min <= summary_stats.ps_total_power.avg);
    assert!(summary_stats.ps_total_power.avg <= summary_stats.ps_total_power.max);

    // Verify PL total power statistics
    println!(
        "PL Total Power Stats - Min: {}, Max: {}, Avg: {}, Count: {}",
        summary_stats.pl_total_power.min,
        summary_stats.pl_total_power.max,
        summary_stats.pl_total_power.avg,
        summary_stats.pl_total_power.count
    );

    assert!(summary_stats.pl_total_power.count > 0);
    assert!(summary_stats.pl_total_power.min <= summary_stats.pl_total_power.avg);
    assert!(summary_stats.pl_total_power.avg <= summary_stats.pl_total_power.max);

    // Verify total power statistics
    println!(
        "Total Power Stats - Min: {}, Max: {}, Avg: {}, Count: {}",
        summary_stats.total_power.min,
        summary_stats.total_power.max,
        summary_stats.total_power.avg,
        summary_stats.total_power.count
    );

    assert!(summary_stats.total_power.count > 0);
    assert!(summary_stats.total_power.min <= summary_stats.total_power.avg);
    assert!(summary_stats.total_power.avg <= summary_stats.total_power.max);

    // All summary scopes fold once per tick, so the counts agree
    assert_eq!(
        summary_stats.ps_total_power.count,
        summary_stats.pl_total_power.count
    );
    assert_eq!(
        summary_stats.ps_total_power.count,
        summary_stats.total_power.count
    );
}

#[test]
fn test_no_sensors() {
    // A platform with nothing to discover cannot yield a usable monitor
    assert!(matches!(
        PowerMonitor::new(Vec::new()).unwrap_err(),
        Error::NoSensors
    ));
}

#[test]
fn test_too_many_sensors() {
    let mut sensors: Vec<SensorIdentity> = Vec::new();
    for i in 0..(MAX_SENSORS + 1) {
        sensors.push(SensorIdentity {
            name: format!("rail{}", i),
            kind: SensorType::Unknown,
            domain: PowerDomain::ProcessingSystem,
            warning_threshold: 0,
            critical_threshold: 0,
        });
    }
    assert!(matches!(
        PowerMonitor::new(sensors).unwrap_err(),
        Error::InitFailed
    ));
}

#[test]
fn test_invalid_frequency_while_running() {
    let mut monitor = PowerMonitor::new(test_sensors()).unwrap();
    monitor.start_sampling().unwrap();

    // Non-positive frequencies fail in any sampling state and change nothing
    assert!(matches!(
        monitor.set_sampling_frequency(0).unwrap_err(),
        Error::InvalidFrequency
    ));
    assert!(matches!(
        monitor.set_sampling_frequency(-5).unwrap_err(),
        Error::InvalidFrequency
    ));
    assert_eq!(
        monitor.get_sampling_frequency().unwrap(),
        DEFAULT_FREQUENCY_HZ
    );
}

#[test]
fn test_tick_requires_running() {
    let mut monitor = PowerMonitor::new(test_sensors()).unwrap();
    assert!(matches!(
        monitor.process_tick(&tick_readings()).unwrap_err(),
        Error::NotRunning
    ));

    // The failed tick left everything untouched
    let stats = monitor.get_statistics().unwrap();
    assert_eq!(stats.total.power.count, 0);
}

#[test]
fn test_offline_sensor_excluded_from_totals() {
    let mut monitor = PowerMonitor::new(test_sensors()).unwrap();
    monitor.start_sampling().unwrap();

    // The second (PS) sensor is offline; its stale values must not count
    let batch = vec![
        reading(850_000, 1_176_470, 1_000_000, true),
        reading(1_800_000, 999_999, 999_999, false),
        reading(850_000, 588_235, 500_000, true),
    ];
    monitor.process_tick(&batch).unwrap();

    let data = monitor.get_latest_data().unwrap();
    assert_eq!(data.total.power, 1_500_000);
    assert_eq!(data.total.current, 1_764_705);
    assert!(!data.sensors[1].online);

    let summary = monitor.get_power_summary().unwrap();
    assert_eq!(summary.ps_total_power, 1_000_000);
    assert_eq!(summary.pl_total_power, 500_000);
    assert_eq!(summary.total_power, 1_500_000);
}

#[test]
fn test_reset_statistics() {
    let mut monitor = PowerMonitor::new(test_sensors()).unwrap();
    monitor.start_sampling().unwrap();
    for _ in 0..3 {
        monitor.process_tick(&tick_readings()).unwrap();
    }

    let data_before = monitor.get_latest_data().unwrap();
    monitor.reset_statistics().unwrap();

    // Every scope's count reads 0 again
    let stats = monitor.get_statistics().unwrap();
    assert_eq!(stats.total.power.count, 0);
    assert_eq!(stats.total.voltage.count, 0);
    assert_eq!(stats.total.current.count, 0);
    for sensor in &stats.sensors {
        assert_eq!(sensor.power.count, 0);
        assert_eq!(sensor.voltage.count, 0);
        assert_eq!(sensor.current.count, 0);
    }
    let summary_stats = monitor.get_power_summary_stats().unwrap();
    assert_eq!(summary_stats.ps_total_power.count, 0);
    assert_eq!(summary_stats.pl_total_power.count, 0);
    assert_eq!(summary_stats.total_power.count, 0);

    // The snapshot is unaffected
    let data_after = monitor.get_latest_data().unwrap();
    assert_eq!(data_before, data_after);
}

#[test]
fn test_latest_data_idempotent() {
    let mut monitor = PowerMonitor::new(test_sensors()).unwrap();
    monitor.start_sampling().unwrap();
    monitor.process_tick(&tick_readings()).unwrap();

    // With no intervening tick, repeated queries return identical values
    let first = monitor.get_latest_data().unwrap();
    let second = monitor.get_latest_data().unwrap();
    assert_eq!(first, second);

    let stats_first = monitor.get_statistics().unwrap();
    let stats_second = monitor.get_statistics().unwrap();
    assert_eq!(stats_first, stats_second);
}

#[test]
fn test_running_stats_exact_values() {
    let sensors = vec![SensorIdentity {
        name: "VCCPSINTFP".to_string(),
        kind: SensorType::I2C,
        domain: PowerDomain::ProcessingSystem,
        warning_threshold: 0,
        critical_threshold: 0,
    }];
    let mut monitor = PowerMonitor::new(sensors).unwrap();
    monitor.start_sampling().unwrap();

    for power in [10_u64, 30, 20] {
        let batch = vec![reading(850_000, power / 2, power, true)];
        monitor.process_tick(&batch).unwrap();
    }

    let stats = monitor.get_statistics().unwrap();
    assert_eq!(stats.sensors[0].power.count, 3);
    assert_eq!(stats.sensors[0].power.min, 10);
    assert_eq!(stats.sensors[0].power.max, 30);
    assert_eq!(stats.sensors[0].power.total, 60);
    assert_eq!(stats.sensors[0].power.avg, 20);
}

#[test]
fn test_snapshot_before_first_tick() {
    let monitor = PowerMonitor::new(test_sensors()).unwrap();

    // Before any tick everything reads zero and offline
    let data = monitor.get_latest_data().unwrap();
    assert!(!data.total.online);
    assert_eq!(data.total.power, 0);
    for sensor in &data.sensors {
        assert!(!sensor.online);
        assert_eq!(sensor.power, 0);
    }
    let summary = monitor.get_power_summary().unwrap();
    assert_eq!(summary.ps_total_power, 0);
    assert_eq!(summary.pl_total_power, 0);
    assert_eq!(summary.total_power, 0);
}

#[test]
fn test_unknown_error_code() {
    assert!(matches!(Error::from(-42), Error::Unknown(-42)));
    assert_eq!(i32::from(Error::Unknown(-42)), -42);
    assert!(matches!(Error::from(-3), Error::AlreadyRunning));
}
