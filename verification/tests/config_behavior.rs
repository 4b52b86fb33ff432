use control_core::config::pool_memory_bound;
use control_core::config::socket_resource_count;
use control_core::config::stack_seed;
use control_core::config::validate_config;
use control_core::config::worker_count;
use control_core::config::ConfigError;
use control_core::config::DeviceConfig;
use control_core::config::ADDRESS_POLL_INTERVAL_MS;
use control_core::config::HTTP_PORT;
use control_core::config::RECONNECT_BACKOFF_MS;
use control_core::config::SETTLE_INTERVAL_MS;
use control_core::config::WORKER_BUFFER_BYTES;

fn config(ssid: &[u8], password: &[u8]) -> DeviceConfig {
    DeviceConfig { ssid: ssid.to_vec(), password: password.to_vec() }
}

#[test]
fn full_credentials_validate() {
    assert_eq!(validate_config(&config(b"homenet", b"correct horse")), Ok(()));
}

#[test]
fn an_empty_network_name_is_fatal() {
    assert_eq!(validate_config(&config(b"", b"secret")), Err(ConfigError::MissingSsid));
}

#[test]
fn an_empty_passphrase_is_fatal() {
    assert_eq!(validate_config(&config(b"homenet", b"")), Err(ConfigError::MissingPassword));
}

#[test]
fn an_unconfigured_device_fails_validation() {
    assert_eq!(validate_config(&DeviceConfig::default()), Err(ConfigError::MissingSsid));
}

#[test]
fn the_network_name_is_checked_first() {
    assert_eq!(validate_config(&config(b"", b"")), Err(ConfigError::MissingSsid));
}

#[test]
fn the_seed_packs_the_first_draw_into_the_high_half() {
    assert_eq!(stack_seed(0xDEAD_BEEF, 0x1234_5678), 0xDEAD_BEEF_1234_5678);
    assert_eq!(stack_seed(0, 7), 7);
    assert_eq!(stack_seed(1, 0), 0x1_0000_0000);
    assert_eq!(stack_seed(u32::MAX, u32::MAX), u64::MAX);
}

#[test]
fn the_pool_size_is_clamped_to_the_executor_bounds() {
    assert_eq!(worker_count(0), 1);
    assert_eq!(worker_count(1), 1);
    assert_eq!(worker_count(5), 5);
    assert_eq!(worker_count(8), 8);
    assert_eq!(worker_count(20), 8);
}

#[test]
fn the_stack_gets_one_socket_per_worker_plus_a_spare() {
    assert_eq!(socket_resource_count(1), 2);
    assert_eq!(socket_resource_count(4), 5);
    assert_eq!(socket_resource_count(8), 9);
    assert_eq!(socket_resource_count(100), 9);
}

#[test]
fn worst_case_memory_is_slots_times_fixed_buffers() {
    assert_eq!(WORKER_BUFFER_BYTES, 4096);
    assert_eq!(pool_memory_bound(1), 4096);
    assert_eq!(pool_memory_bound(8), 32768);
    assert_eq!(pool_memory_bound(100), 32768);
}

#[test]
fn the_reference_intervals_hold() {
    assert_eq!(SETTLE_INTERVAL_MS, 100);
    assert_eq!(RECONNECT_BACKOFF_MS, 5000);
    assert_eq!(ADDRESS_POLL_INTERVAL_MS, 100);
    assert_eq!(HTTP_PORT, 80);
}
