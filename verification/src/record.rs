//! Raw records as a device node delivers them, and the outcome of one read.

use vstd::prelude::*;

verus! {

/// One record from a device: what kind of thing changed, which one, and to
/// what.
#[derive(Debug, Clone, Copy, PartialEq, Eq, Structural)]
pub struct InputEvent {
    /// The kind of thing that changed: one of the `EV_` types.
    pub type_: u16,
    /// Which key, button or axis.
    pub code: u16,
    /// The new state, the distance moved or the position.
    pub value: i32,
}

/// How the next record is asked for.
#[derive(Debug, Clone, Copy, PartialEq, Eq, Structural)]
pub enum ReadFlag {
    /// The ordinary way.
    Normal,
    /// While the handle replays the device's state after records were lost.
    Sync,
}

/// What one read from a device node gave.
#[derive(Debug, Clone, Copy, PartialEq, Eq, Structural)]
pub enum ReadStatus {
    /// Nothing more to read for now.
    Again,
    /// A record, and word that records were lost: the handle wants the
    /// following reads made with `ReadFlag::Sync`.
    Sync(InputEvent),
    /// A record.
    Success(InputEvent),
}

} // verus!
