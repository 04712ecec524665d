use gmsv_serverstat::stats::{
    count_as_u16, cpu_refresh_due, CpuUsageCache, logical_cpus, physical_count_or_zero, physical_cpus, process_memory_usage,
    system_available_memory, system_memory_usage, system_total_memory, CPU_REFRESH_INTERVAL_NANOS,
};
use gmsv_serverstat::stats::OnceReading;
use sysinfo::{Pid, System};

#[test]
fn count_as_u16_keeps_the_low_bits() {
    assert_eq!(count_as_u16(0), 0);
    assert_eq!(count_as_u16(8), 8);
    assert_eq!(count_as_u16(65535), 65535);
    assert_eq!(count_as_u16(65536), 0);
    assert_eq!(count_as_u16(65536 + 3), 3);
}

#[test]
fn unknown_physical_count_is_zero() {
    assert_eq!(physical_count_or_zero(None), 0);
    assert_eq!(physical_count_or_zero(Some(4)), 4);
    assert_eq!(physical_count_or_zero(Some(70000)), 4464);
}

#[test]
fn refresh_is_due_after_the_interval() {
    assert_eq!(CPU_REFRESH_INTERVAL_NANOS, 200_000_000);
    assert!(!cpu_refresh_due(0));
    assert!(!cpu_refresh_due(200_000_000));
    assert!(cpu_refresh_due(200_000_001));
    assert!(cpu_refresh_due(5_000_000_000));
}

#[test]
fn refresh_stays_due() {
    let mut due = false;
    for elapsed in (0..1_000_000_000u128).step_by(10_000_000) {
        let now = cpu_refresh_due(elapsed);
        assert!(!due || now);
        due = now;
    }
    assert!(due);
}

#[test]
fn logical_cpus_counts_the_cpus() {
    let mut sys = System::new();
    assert_eq!(sys.cpus().len(), 0);
    let n = logical_cpus(&mut sys);
    assert_eq!(n, sys.cpus().len() as u16);
    assert!(n > 0);
}

#[test]
fn physical_cpus_reads_the_core_count() {
    let mut sys = System::new();
    let n = physical_cpus(&mut sys);
    assert_eq!(n, sys.physical_core_count().unwrap_or(0) as u16);
}

#[test]
fn total_memory_is_read_after_a_refresh() {
    let mut fresh = System::new();
    fresh.refresh_memory();
    let mut sys = System::new();
    assert_eq!(sys.total_memory(), 0);
    assert_eq!(system_total_memory(&mut sys), fresh.total_memory());
}

#[test]
fn used_and_available_memory_fit_in_the_total() {
    let mut sys = System::new();
    let total = system_total_memory(&mut sys);
    let available = system_available_memory(&mut sys);
    assert!(available <= total);
    let used = system_memory_usage(&mut sys).unwrap();
    assert!(used <= total);
    assert_eq!(used, sys.total_memory() - sys.available_memory());
}

#[test]
fn own_process_memory_is_found() {
    let mut sys = System::new();
    let pid = sysinfo::get_current_pid().unwrap();
    let memory = process_memory_usage(&mut sys, pid);
    assert!(memory.is_some());
    assert!(memory.unwrap() > 0);
}

#[test]
fn missing_process_has_no_memory() {
    let mut sys = System::new();
    assert_eq!(process_memory_usage(&mut sys, Pid::from_u32(0x7fff_fff0)), None);
}

#[test]
fn cache_keeps_the_first_reading_until_due() {
    let mut cache = CpuUsageCache::new(1.0f64);
    assert_eq!(cache.read(0, None), 1.0);
    assert_eq!(cache.read(200_000_000, None), 1.0);
    assert_eq!(cache.read(200_000_001, Some(2.0)), 2.0);
    assert_eq!(cache.read(900_000_000, Some(3.5)), 3.5);
    assert_eq!(cache.value, 3.5);
}

#[test]
fn once_reading_keeps_the_first_value() {
    let mut once = OnceReading::new();
    assert!(once.is_empty());
    assert_eq!(once.read(Some(7u16)), 7);
    assert!(!once.is_empty());
    assert_eq!(once.read(None), 7);
    assert_eq!(once.value, Some(7));
}
