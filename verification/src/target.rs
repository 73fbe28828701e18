//! What a scan is aimed at: one address and a closed range of ports.

use vstd::prelude::*;
use crate::address::Address;

verus! {

/// The first port of a scan for which none is given.
pub const DEFAULT_PORT_START: u16 = 1;

/// The last port of a scan for which none is given.
pub const DEFAULT_PORT_END: u16 = 1024;

/// Why a port range cannot be scanned.
#[derive(Clone, Copy, Debug, PartialEq, Eq, Structural)]
pub enum ConfigError {
    /// The first port is 0.
    ZeroStart,
    /// The last port lies below the first.
    InvertedRange,
}

/// The mathematical content of a [`Target`].
pub struct TargetView {
    pub address: Address,
    pub start: int,
    pub end: int,
}

impl TargetView {
    /// The range is not empty and does not hold port 0.
    pub open spec fn wf(self) -> bool {
        1 <= self.start <= self.end <= u16::MAX
    }

    /// `port` lies in the closed range.
    pub open spec fn contains(self, port: int) -> bool {
        self.start <= port <= self.end
    }

    /// The number of ports in the range.
    pub open spec fn count(self) -> int {
        self.end - self.start + 1
    }
}

/// An address and the closed port range `[start, end]` to probe on it, with
/// `1 <= start <= end`.
#[derive(Clone, Copy, Debug)]
pub struct Target {
    address: Address,
    start: u16,
    end: u16,
}

impl View for Target {
    type V = TargetView;

    closed spec fn view(&self) -> TargetView {
        TargetView { address: self.address, start: self.start as int, end: self.end as int }
    }
}

impl Target {
    #[verifier::type_invariant]
    pub open spec fn valid(self) -> bool {
        self@.wf()
    }

    /// Checks a port range. Port 0 as the first port is refused, and so is a
    /// last port below the first; every other range is accepted as given.
    pub fn new(address: Address, start: u16, end: u16) -> (checked: Result<Target, ConfigError>)
        ensures
            match checked {
                Ok(target) => 1 <= start <= end && target@ == (TargetView {
                    address,
                    start: start as int,
                    end: end as int,
                }),
                Err(ConfigError::ZeroStart) => start == 0,
                Err(ConfigError::InvertedRange) => 1 <= start && end < start,
            },
    {
        if start == 0 {
            Err(ConfigError::ZeroStart)
        } else if end < start {
            Err(ConfigError::InvertedRange)
        } else {
            Ok(Target { address, start, end })
        }
    }

    /// The address to scan.
    pub fn address(&self) -> (a: Address)
        ensures
            a == self@.address,
    {
        self.address
    }

    /// The first port of the range.
    pub fn start(&self) -> (p: u16)
        ensures
            p == self@.start,
            self@.wf(),
    {
        proof {
            use_type_invariant(self);
        }
        self.start
    }

    /// The last port of the range.
    pub fn end(&self) -> (p: u16)
        ensures
            p == self@.end,
            self@.wf(),
    {
        proof {
            use_type_invariant(self);
        }
        self.end
    }

    /// Whether `port` is one of the ports to probe.
    pub fn contains(&self, port: u16) -> (b: bool)
        ensures
            b == self@.contains(port as int),
    {
        self.start <= port && port <= self.end
    }

    /// How many ports the scan probes: at least 1, at most 65535.
    pub fn port_count(&self) -> (n: u32)
        ensures
            n == self@.count(),
            1 <= n <= u16::MAX,
    {
        proof {
            use_type_invariant(self);
        }
        (self.end - self.start) as u32 + 1
    }
}

} // verus!
