//! Verified core of a client for the Linux GPIO character device.
//!
//! The kernel exposes every GPIO controller as a character device and
//! speaks to user space in fixed-size binary records.  This crate holds
//! everything about that conversation that can be decided without touching
//! a descriptor: how each record is filled in before it is handed to the
//! kernel, how a record that came back is read, which offsets and batch
//! sizes are acceptable, how failures are classified, and how a stream of
//! edge events is consumed, blocking or not.
//!
//! Nothing in here opens, reads or closes anything.  A caller performs the
//! transfer and hands the outcome back as plain values; descriptors are
//! carried as the numbers the kernel assigned to them.
//!
//! Every exchange with the kernel therefore shows as two functions.  One
//! builds the record to send, or refuses to where the arguments rule the
//! exchange out.  The other takes the outcome of the transfer and makes of
//! it what the caller asked for, or the failure tagged with the exchange
//! that failed:
//!
//! | exchange        | record to send                         | outcome taken by                          |
//! |-----------------|----------------------------------------|-------------------------------------------|
//! | chip info       | `gpiochip_info::zeroed`                | `Chip::new`                               |
//! | line info       | `Line::info_request`                   | `Line::info`                              |
//! | line handle     | `Line::request`, `Lines::request`      | `LineHandle::new`, `MultiLineHandle::new` |
//! | event handle    | `Line::events`, `Line::async_events`   | `LineEventHandle::new`                    |
//! | read values     | `gpiohandle_data::zeroed`              | `get_value`, `get_values`                 |
//! | write values    | `set_value`, `set_values`              | `ffi::gpiohandle_set_line_values_ioctl`   |
//!
//! Edge events are read, not exchanged.  The caller reads the event
//! descriptor into a buffer of one record and hands over what the read
//! returned and what it left in the buffer: to `LineEventHandle::get_event`
//! or `LineEventHandle::next` where it blocks, to
//! `AsyncLineEventHandle::poll_next` where it does not.
//!
//! A handle stands for a grant of the kernel, which lasts until the
//! descriptor in the handle is closed.  Whoever holds the descriptor must
//! keep it open for as long as the lines are in use, and close it to give
//! them up.
//!
//! Known gap of the kernel interface: when the kernel's queue of edge
//! events overflows, events are lost without a sign in the stream.  Nothing
//! here can detect that.

pub mod async_events;
pub mod chip;
pub mod cstr;
pub mod errors;
pub mod event;
pub mod ffi;
pub mod flags;
pub mod handle;
pub mod line;
pub mod lines;

pub use async_events::{AsyncLineEventHandle, NextEvent, ReadAttempt};
pub use chip::{is_chip_path, Chip, LineIterator};
pub use errors::{event_err, invalid_err, ioctl_err, offset_err, Error, ErrorKind, IoctlKind};
pub use event::{EventType, LineEvent, LineEventHandle};
pub use flags::{EventRequestFlags, LineDirection, LineFlags, LineRequestFlags};
pub use handle::LineHandle;
pub use line::{Line, LineInfo};
pub use lines::{Lines, MultiLineHandle};
