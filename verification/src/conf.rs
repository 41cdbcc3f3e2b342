//! Defaults for connection timeouts, keep-alive and retry behaviour, in
//! plain integers so the session logic stays free of clock types. Callers
//! that drive the session convert these to whatever their clock wants.

use vstd::prelude::*;

verus! {

/// Read timeout while waiting for a handshake reply, in milliseconds.
pub const SOCK_MAX_TIMEOUT_MS: u64 = 5000;

/// Timeout for opening the connection, in milliseconds.
pub const SOCK_TIMEOUT_MS: u64 = 1000;

/// Pause between send retries, in milliseconds.
pub const RETRIES_TX_DELAY_MS: u64 = 2;

/// How many times a send is attempted before it fails.
pub const RETRIES_TX_MAX_NUM: u8 = 3;

/// Back-off after a disconnect before reconnecting, in milliseconds.
pub const RECONNECT_SLEEP_MS: u64 = 1000;

/// Heartbeat period advertised to the server, in seconds.
pub const HEARTBEAT_PERIOD_SECS: u64 = 5;

/// Read timeout for one steady-state poll, in milliseconds.
pub const READ_POLL_TIMEOUT_MS: u64 = 5;

/// Inbound buffer size advertised during heartbeat setup, in bytes.
pub const RCV_BUFFER_SIZE: u16 = 1024;

} // verus!
