use vstd::prelude::*;
use std::time::Duration;
use crate::config::seconds;

verus! {

/// Resource limits of an echo server.
#[derive(Debug, Clone, Copy)]
pub struct ResourceLimits {
    /// Largest request or message, in bytes.
    pub max_request_size: usize,
    /// Largest number of concurrent stream connections.
    pub max_concurrent_connections: usize,
    /// Requests per second allowed to one client, if limited.
    pub max_requests_per_second: Option<u32>,
    /// Deadline for establishing a connection.
    pub connection_timeout: Duration,
    /// Longest idle time before a connection is closed.
    pub max_idle_time: Duration,
}

impl Default for ResourceLimits {
    /// Requests up to 1 MiB, 100 connections, 100 requests per second per
    /// client, 30 s to connect, 5 minutes of idleness.
    fn default() -> (r: Self)
        ensures
            r.max_request_size == 1024 * 1024,
            r.max_concurrent_connections == 100,
            r.max_requests_per_second == Some(100u32),
    {
        ResourceLimits {
            max_request_size: 1024 * 1024,
            max_concurrent_connections: 100,
            max_requests_per_second: Some(100),
            connection_timeout: seconds(30),
            max_idle_time: seconds(300),
        }
    }
}

/// Failures of a rate limiter.
#[derive(Debug, Clone, Copy, PartialEq, Eq, Structural)]
pub enum RateLimitError {
    /// No permit became available in time.
    Exceeded,
    /// The limiter was shut down.
    Closed,
}

/// Failures of a connection tracker.
#[derive(Debug, Clone, Copy, PartialEq, Eq, Structural)]
pub enum ConnectionError {
    /// The connection limit was reached and no slot freed in time.
    Timeout,
    /// The tracker was shut down.
    Closed,
}

/// Counters of a connection tracker.
#[derive(Debug, Clone, Copy)]
pub struct ConnectionMetrics {
    pub active_connections: usize,
    pub total_connections: u64,
    pub available_slots: usize,
    pub max_connections: usize,
}

/// Refusal of a request by its size.
#[derive(Debug, Clone, Copy, PartialEq, Eq, Structural)]
pub enum SizeError {
    /// The request holds `actual` bytes where at most `max` are allowed.
    TooLarge { actual: usize, max: usize },
}

/// Checks request sizes against a fixed maximum.
pub struct SizeValidator {
    max_size: usize,
}

impl SizeValidator {
    pub closed spec fn spec_max_size(&self) -> usize {
        self.max_size
    }

    pub fn new(max_size: usize) -> (r: Self)
        ensures
            r.spec_max_size() == max_size,
    {
        SizeValidator { max_size }
    }

    /// Accepts a size up to the maximum, inclusive.
    pub fn validate_size(&self, size: usize) -> (r: Result<(), SizeError>)
        ensures
            size <= self.spec_max_size() <==> r is Ok,
            size > self.spec_max_size() ==> r == Err::<(), SizeError>(
                SizeError::TooLarge { actual: size, max: self.spec_max_size() },
            ),
    {
        if size > self.max_size {
            Err(SizeError::TooLarge { actual: size, max: self.max_size })
        } else {
            Ok(())
        }
    }

    pub fn max_size(&self) -> (r: usize)
        ensures
            r == self.spec_max_size(),
    {
        self.max_size
    }
}

} // verus!
