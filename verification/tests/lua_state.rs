use gmsv_serverstat::lua::{load_status, pop_n_index, Key};

#[test]
fn pop_n_index_drops_the_top_values() {
    assert_eq!(pop_n_index(1), -2);
    assert_eq!(pop_n_index(0), -1);
    assert_eq!(pop_n_index(3), -4);
    assert_eq!(pop_n_index(i32::MAX), i32::MIN);
}

#[test]
fn load_status_zero_is_success() {
    assert_eq!(load_status(0), Ok(()));
}

#[test]
fn load_status_other_codes_are_errors() {
    assert_eq!(load_status(3), Err(3));
    assert_eq!(load_status(-1), Err(-1));
    assert_eq!(load_status(i32::MAX), Err(i32::MAX));
}

#[test]
fn key_names() {
    assert_eq!(Key::ProcessCPUUsage.name(), "ProcessCPUUsage");
    assert_eq!(Key::ProcessMemoryUsage.name(), "ProcessMemoryUsage");
    assert_eq!(Key::SystemCPUUsage.name(), "SystemCPUUsage");
    assert_eq!(Key::SystemMemoryUsage.name(), "SystemMemoryUsage");
    assert_eq!(Key::SystemTotalMemory.name(), "SystemTotalMemory");
    assert_eq!(Key::SystemAvailableMemory.name(), "SystemAvailableMemory");
    assert_eq!(Key::LogicalCPUs.name(), "LogicalCPUs");
    assert_eq!(Key::PhysicalCPUs.name(), "PhysicalCPUs");
    assert_eq!(Key::CPUUsage.name(), "CPUUsage");
    assert_eq!(Key::MemoryUsage.name(), "MemoryUsage");
    assert_eq!(Key::AvailableMemory.name(), "AvailableMemory");
    assert_eq!(Key::System.name(), "System");
    assert_eq!(Key::Process.name(), "Process");
    assert_eq!(Key::Serverstat.name(), "serverstat");
    assert_eq!(Key::Realtime.name(), "realtime");
    assert_eq!(Key::Refresh.name(), "Refresh");
    assert_eq!(Key::RefreshAsync.name(), "RefreshAsync");
    assert_eq!(Key::SetInterval.name(), "SetInterval");
}

#[test]
fn key_names_are_distinct() {
    let keys = [
        Key::ProcessCPUUsage,
        Key::ProcessMemoryUsage,
        Key::SystemCPUUsage,
        Key::SystemMemoryUsage,
        Key::SystemTotalMemory,
        Key::SystemAvailableMemory,
        Key::LogicalCPUs,
        Key::PhysicalCPUs,
        Key::CPUUsage,
        Key::MemoryUsage,
        Key::AvailableMemory,
        Key::System,
        Key::Process,
        Key::Serverstat,
        Key::Realtime,
        Key::Refresh,
        Key::RefreshAsync,
        Key::SetInterval,
    ];
    for (i, a) in keys.iter().enumerate() {
        for (j, b) in keys.iter().enumerate() {
            assert_eq!(i == j, a.name() == b.name());
        }
    }
}
