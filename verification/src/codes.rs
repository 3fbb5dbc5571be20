//! Record types and counts of the Linux input event interface.

use vstd::prelude::*;

verus! {

/// Synchronization marker between packets of records.
pub const EV_SYN: u16 = 0x00;

/// State change of a key or button.
pub const EV_KEY: u16 = 0x01;

/// Movement along a relative axis.
pub const EV_REL: u16 = 0x02;

/// Position on an absolute axis.
pub const EV_ABS: u16 = 0x03;

/// Miscellaneous data that fits no other type.
pub const EV_MSC: u16 = 0x04;

/// Number of relative axis codes that the interface defines.
pub const REL_CNT: u16 = 0x10;

} // verus!
