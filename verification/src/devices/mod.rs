//! The machines that a built application can run on.

pub mod host;

use vstd::prelude::*;

verus! {

/// Names one device.
#[derive(Clone, Copy, Debug, PartialEq, Eq, Structural, Hash)]
pub enum DeviceId {
    /// The machine that runs the build.
    Host,
}

} // verus!
