//! Multiplexing core of an evdev input back-end.
//!
//! The crate holds the decisions of the back-end and none of its I/O: which
//! device nodes to open, which handles to keep, how raw records become events,
//! and in which order buffered events are handed to the consumer. A driver
//! does what the stream asks for and tells it what came of it.

pub mod codes;
pub mod context;
pub mod device;
pub mod event;
pub mod laws;
pub mod machine;
pub mod record;
pub mod stream;
pub mod translate;

pub use crate::context::{from_result, Context, DeviceInfo};
pub use crate::device::{Device, DeviceTable};
pub use crate::event::{AxisID, ButtonID, DeviceID, Event, WindowID};
pub use crate::record::{InputEvent, ReadFlag, ReadStatus};
pub use crate::stream::{Action, Report, Stream};
pub use crate::translate::map_device_event;
