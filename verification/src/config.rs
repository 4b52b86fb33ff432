//! Build-time configuration of the device: credentials, intervals, buffer
//! sizes, and the derived sizing of the worker pool and network stack.

use vstd::prelude::*;

verus! {

/// Fixed settle delay, in milliseconds, observed after every produced or
/// consumed intent; a simple rate limiter shared by the button task, the
/// HTTP handlers and the actuator task.
pub const SETTLE_INTERVAL_MS: u64 = 100;

/// Fixed backoff, in milliseconds, between wireless association attempts
/// and after an observed disconnect.
pub const RECONNECT_BACKOFF_MS: u64 = 5000;

/// Interval, in milliseconds, at which the startup wait polls for carrier
/// and for an IPv4 lease.
pub const ADDRESS_POLL_INTERVAL_MS: u64 = 100;

/// TCP port the HTTP workers listen on.
pub const HTTP_PORT: u16 = 80;

/// Upper bound on the number of worker slots the executor can host.
pub const MAX_WORKER_SLOTS: usize = 8;

/// Size of each worker's TCP receive buffer, in bytes.
pub const TCP_RX_BUFFER_BYTES: usize = 1024;

/// Size of each worker's TCP transmit buffer, in bytes.
pub const TCP_TX_BUFFER_BYTES: usize = 1024;

/// Size of each worker's HTTP request-parsing buffer, in bytes.
pub const HTTP_BUFFER_BYTES: usize = 2048;

/// Fixed per-slot buffer memory: every worker owns exactly these three
/// buffers and nothing is allocated per request.
pub const WORKER_BUFFER_BYTES: usize = TCP_RX_BUFFER_BYTES + TCP_TX_BUFFER_BYTES
    + HTTP_BUFFER_BYTES;

/// The two startup credentials, as the bytes of the network name and of the
/// passphrase the device is built with.
pub struct DeviceConfig {
    pub ssid: Vec<u8>,
    pub password: Vec<u8>,
}

impl Default for DeviceConfig {
    /// The build-time default: both credentials empty. A device built
    /// without filling them in fails validation and halts at startup.
    fn default() -> (r: DeviceConfig)
        ensures
            r.ssid@.len() == 0,
            r.password@.len() == 0,
    {
        DeviceConfig { ssid: Vec::new(), password: Vec::new() }
    }
}

/// The fatal startup conditions: a missing required credential.
#[derive(Clone, Copy, PartialEq, Eq, Structural, Debug)]
pub enum ConfigError {
    MissingSsid,
    MissingPassword,
}

/// Check the startup credentials. Both must be non-empty; an empty field is
/// fatal and the device must halt before any concurrent task starts. An
/// empty network name is reported first.
pub fn validate_config(config: &DeviceConfig) -> (r: Result<(), ConfigError>)
    ensures
        r is Ok <==> (config.ssid@.len() > 0 && config.password@.len() > 0),
        (r == Err::<(), ConfigError>(ConfigError::MissingSsid)) <==> config.ssid@.len() == 0,
        (r == Err::<(), ConfigError>(ConfigError::MissingPassword)) <==> (config.ssid@.len() > 0
            && config.password@.len() == 0),
{
    if config.ssid.len() == 0 {
        Err(ConfigError::MissingSsid)
    } else if config.password.len() == 0 {
        Err(ConfigError::MissingPassword)
    } else {
        Ok(())
    }
}

/// The 64-bit seed handed to the network stack, combined from two
/// successive 32-bit draws of the hardware random source: the first draw
/// fills the high half, the second the low half.
pub fn stack_seed(hi: u32, lo: u32) -> (r: u64)
    ensures
        r == hi as u64 * 0x1_0000_0000 + lo as u64,
{
    let r: u64 = (hi as u64) << 32u64 | (lo as u64);
    proof {
        assert((hi as u64) << 32u64 | (lo as u64) == hi as u64 * 0x1_0000_0000 + lo as u64)
            by (bit_vector);
    }
    r
}

/// The number of worker slots actually started for a requested pool size:
/// at least one, and no more than the executor can host.
pub open spec fn spec_worker_count(requested: usize) -> usize {
    if requested == 0 {
        1
    } else if requested > MAX_WORKER_SLOTS {
        MAX_WORKER_SLOTS
    } else {
        requested
    }
}

/// Clamp a requested pool size to the number of worker slots started.
pub fn worker_count(requested: usize) -> (r: usize)
    ensures
        r == spec_worker_count(requested),
        1 <= r <= MAX_WORKER_SLOTS,
{
    if requested == 0 {
        1
    } else if requested > MAX_WORKER_SLOTS {
        MAX_WORKER_SLOTS
    } else {
        requested
    }
}

/// The number of socket slots the network stack is created with: one per
/// worker, plus one spare for the stack's own use.
pub fn socket_resource_count(requested: usize) -> (r: usize)
    ensures
        r == spec_worker_count(requested) + 1,
{
    worker_count(requested) + 1
}

/// Worst-case buffer memory of the whole pool: the slots are allocated once
/// at startup, so the bound is the slot count times the fixed per-slot
/// buffer size.
pub fn pool_memory_bound(requested: usize) -> (r: usize)
    ensures
        r == spec_worker_count(requested) * WORKER_BUFFER_BYTES,
{
    let slots = worker_count(requested);
    assert(WORKER_BUFFER_BYTES == 4096);
    assert(slots * WORKER_BUFFER_BYTES <= 8 * 4096);
    slots * WORKER_BUFFER_BYTES
}

} // verus!
