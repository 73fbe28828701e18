//! The address a scan is aimed at, held as plain integers.

use vstd::prelude::*;

verus! {

/// An IP address by its bits: 32 for version 4, 128 for version 6, most
/// significant octet first.
#[derive(Clone, Copy, Debug, PartialEq, Eq, Hash, Structural)]
pub enum Address {
    V4(u32),
    V6(u128),
}

} // verus!
