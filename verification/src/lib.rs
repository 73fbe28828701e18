//! A TCP port scanner's decision logic, separated from the sockets and the
//! runtime that carry it out.
//!
//! A scan probes every port of a closed range on one address and reports the
//! ports that accepted a connection. The library decides which probes to
//! launch, what each probe does with the outcome of its connection attempt,
//! when the scan may be closed, and which of the delivered results make up the
//! report. Connecting, spawning and printing are left to the caller.

pub mod address;
pub mod channel;
pub mod laws;
pub mod output;
pub mod probe;
pub mod report;
pub mod scan;
pub mod target;
