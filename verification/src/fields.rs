//! Plain device metadata.

use vstd::prelude::*;
use crate::native::{SPEED_FULL, SPEED_HIGH, SPEED_LOW, SPEED_SUPER, SPEED_SUPER_PLUS};

verus! {

/// The connection speed of a device.
#[derive(Debug, Clone, Copy, PartialEq, Eq, Structural)]
pub enum Speed {
    /// The native library does not know the speed, or reported a code that
    /// this crate does not know.
    Unknown,
    /// Low speed, 1.5 Mbit/s.
    Low,
    /// Full speed, 12 Mbit/s.
    Full,
    /// High speed, 480 Mbit/s.
    High,
    /// Super speed, 5 Gbit/s.
    Super,
    /// Super speed plus, 10 Gbit/s.
    SuperPlus,
}

/// The speed that a native speed code stands for.
pub open spec fn speed_of(code: int) -> Speed {
    if code == SPEED_LOW {
        Speed::Low
    } else if code == SPEED_FULL {
        Speed::Full
    } else if code == SPEED_HIGH {
        Speed::High
    } else if code == SPEED_SUPER {
        Speed::Super
    } else if code == SPEED_SUPER_PLUS {
        Speed::SuperPlus
    } else {
        Speed::Unknown
    }
}

/// Decodes a native speed code. Codes without a speed of their own decode to
/// `Unknown`.
pub fn speed_from_libusb(code: i32) -> (speed: Speed)
    ensures
        speed == speed_of(code as int),
{
    if code == SPEED_LOW {
        Speed::Low
    } else if code == SPEED_FULL {
        Speed::Full
    } else if code == SPEED_HIGH {
        Speed::High
    } else if code == SPEED_SUPER {
        Speed::Super
    } else if code == SPEED_SUPER_PLUS {
        Speed::SuperPlus
    } else {
        Speed::Unknown
    }
}

} // verus!
