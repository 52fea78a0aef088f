//! Edge events of a line, read one fixed-size record at a time.

use crate::errors::{errno_from_i32, errno_of, event_err, Error, ErrorKind, IoctlKind, EIO};
use crate::ffi::{
    gpio_get_lineevent_ioctl, gpioevent_data, gpioevent_request, gpiohandle_data,
    gpiohandle_get_line_values_ioctl, GPIOEVENT_DATA_SIZE,
};
use crate::line::{Line, LineView};
use nix::errno::Errno;
use vstd::prelude::*;

verus! {

/// The event id that the kernel writes for a rising edge.
pub const GPIOEVENT_EVENT_RISING_EDGE: u32 = 0x01;

/// Whether a line rose, that is went active, or fell.
#[derive(Debug, Clone, Copy, PartialEq, Eq, Structural)]
pub enum EventType {
    RisingEdge,
    FallingEdge,
}

/// The edge that the event id `id` stands for: rising for 1, else falling.
pub open spec fn edge_of(id: u32) -> EventType {
    if id == GPIOEVENT_EVENT_RISING_EDGE {
        EventType::RisingEdge
    } else {
        EventType::FallingEdge
    }
}

/// A change of the state of a line: the record that the kernel wrote for it.
#[derive(Debug, Clone, Copy)]
pub struct LineEvent(pub gpioevent_data);

impl LineEvent {
    /// The kernel's best estimate of when the event happened, in
    /// nanoseconds.
    pub fn timestamp(&self) -> (t: u64)
        ensures
            t == self.0.timestamp,
    {
        self.0.timestamp
    }

    /// Whether this was a rising or a falling edge.
    pub fn event_type(&self) -> (e: EventType)
        ensures
            e == edge_of(self.0.id),
    {
        if self.0.id == GPIOEVENT_EVENT_RISING_EDGE {
            EventType::RisingEdge
        } else {
            EventType::FallingEdge
        }
    }
}

/// The failure that is reported for a read that brought part of a record.
pub open spec fn decode_failure() -> Error {
    Error { kind: ErrorKind::Event(errno_of(EIO)) }
}

/// What one read that returned `read` and left `data` in the buffer brought:
/// the event where a whole record came, nothing where another number of
/// bytes came, and the failure of the read where it failed.
pub open spec fn record_read(read: Result<usize, std::io::Error>, data: gpioevent_data) -> Result<
    Option<LineEvent>,
    std::io::Error,
> {
    match read {
        Ok(n) => if n == GPIOEVENT_DATA_SIZE {
            Ok(Some(LineEvent(data)))
        } else {
            Ok(None)
        },
        Err(e) => Err(e),
    }
}

/// The event that a caller who asked for one gets from a read that returned
/// `read` and left `data` in the buffer: the event where a whole record
/// came, a decode failure where another number of bytes came, and an I/O
/// error where the read failed.
pub open spec fn event_of(read: Result<usize, std::io::Error>, data: gpioevent_data) -> Result<
    LineEvent,
    Error,
> {
    match read {
        Ok(n) => if n == GPIOEVENT_DATA_SIZE {
            Ok(LineEvent(data))
        } else {
            Err(decode_failure())
        },
        Err(e) => Err(Error { kind: ErrorKind::Io(e) }),
    }
}

/// Whether a read that returned `read` found the descriptor closed: it
/// succeeded and brought no byte.
pub open spec fn found_closed(read: Result<usize, std::io::Error>) -> bool {
    read matches Ok(n) && n == 0
}

/// The item that a sequence of events yields for a read that returned
/// `read` and left `data` in the buffer: the end where the descriptor was
/// found closed, else what a caller who asked for one event gets.
pub open spec fn next_item(read: Result<usize, std::io::Error>, data: gpioevent_data) -> Option<
    Result<LineEvent, Error>,
> {
    if found_closed(read) {
        None
    } else {
        Some(event_of(read, data))
    }
}

/// The subscription to the edge events of one line that the kernel granted.
///
/// The descriptor is a queue of event records in the order in which the
/// edges happened.  It stands for the grant: the line is free for others
/// once it is closed.
#[derive(Debug)]
pub struct LineEventHandle {
    line: Line,
    fd: i32,
}

/// An event handle as contracts see it.
pub ghost struct LineEventHandleView {
    /// The line whose edges are reported.
    pub line: LineView,
    /// The descriptor that the kernel granted.
    pub fd: i32,
}

impl View for LineEventHandle {
    type V = LineEventHandleView;

    closed spec fn view(&self) -> LineEventHandleView {
        LineEventHandleView { line: self.line@, fd: self.fd }
    }
}

impl LineEventHandle {
    /// The subscription to the events of `line` that the kernel granted,
    /// from the outcome `reply` of sending it the request.
    ///
    /// Where the kernel refused, this fails with an ioctl error tagged
    /// `LineEvent` that keeps the kernel's error number.
    pub fn new(line: &Line, reply: Result<gpioevent_request, Errno>) -> (r: Result<
        LineEventHandle,
        Error,
    >)
        ensures
            match r {
                Ok(handle) => reply matches Ok(granted) && handle@ == (LineEventHandleView {
                    line: line@,
                    fd: granted.fd,
                }),
                Err(e) => reply matches Err(cause) && e.kind == (ErrorKind::Ioctl {
                    kind: IoctlKind::LineEvent,
                    cause,
                }),
            },
    {
        let granted = gpio_get_lineevent_ioctl(reply)?;
        Ok(LineEventHandle { line: line.clone(), fd: granted.fd })
    }

    /// The next event of the line, from a read of the descriptor into a
    /// buffer of one record, which returned `read` and left `data` there.
    ///
    /// A read that brought anything but one whole record is reported as a
    /// decode failure, an event error with the error number `EIO`; no event
    /// is made up from a part.  A read that failed is reported as an I/O
    /// error.
    pub fn get_event(&mut self, read: Result<usize, std::io::Error>, data: gpioevent_data) -> (r:
        Result<LineEvent, Error>)
        ensures
            *final(self) == *old(self),
            r == event_of(read, data),
    {
        match self.read_event(read, data) {
            Ok(Some(event)) => Ok(event),
            Ok(None) => Err(event_err(errno_from_i32(EIO))),
            Err(e) => Err(Error::from(e)),
        }
    }

    /// The value of the line, from the outcome `reply` of asking the kernel
    /// for it through the event descriptor, as the kernel gave it.
    ///
    /// Where the kernel refused, this fails with an ioctl error tagged
    /// `GetLine`.
    pub fn get_value(&self, reply: Result<gpiohandle_data, Errno>) -> (r: Result<u8, Error>)
        ensures
            match r {
                Ok(value) => reply matches Ok(data) && value == data.values@[0],
                Err(e) => reply matches Err(cause) && e.kind == (ErrorKind::Ioctl {
                    kind: IoctlKind::GetLine,
                    cause,
                }),
            },
    {
        let data = gpiohandle_get_line_values_ioctl(reply)?;
        Ok(data.values[0])
    }

    /// The line whose edges are reported.
    pub fn line(&self) -> (l: &Line)
        ensures
            l@ == self@.line,
    {
        &self.line
    }

    /// The descriptor that the kernel granted.
    pub fn as_raw_fd(&self) -> (fd: i32)
        ensures
            fd == self@.fd,
    {
        self.fd
    }

    /// What a read of the descriptor into a buffer of one record brought,
    /// where it returned `read` and left `data` there: the event where a
    /// whole record came, nothing where another number of bytes came, and
    /// the failure of the read where it failed.
    pub fn read_event(&mut self, read: Result<usize, std::io::Error>, data: gpioevent_data) -> (r:
        Result<Option<LineEvent>, std::io::Error>)
        ensures
            *final(self) == *old(self),
            r == record_read(read, data),
    {
        let bytes_read = read?;
        if bytes_read != GPIOEVENT_DATA_SIZE {
            Ok(None)
        } else {
            Ok(Some(LineEvent(data)))
        }
    }

    /// The next item of the sequence of events of the line, from a read of
    /// the descriptor into a buffer of one record, which returned `read`
    /// and left `data` there.
    ///
    /// The sequence ends where the descriptor is found closed.  Until then
    /// each read gives one item: the event, or the failure as `get_event`
    /// reports it.
    pub fn next(&mut self, read: Result<usize, std::io::Error>, data: gpioevent_data) -> (r:
        Option<Result<LineEvent, Error>>)
        ensures
            *final(self) == *old(self),
            r == next_item(read, data),
    {
        let closed = match &read {
            Ok(n) => *n == 0,
            Err(_) => false,
        };
        if closed {
            None
        } else {
            Some(self.get_event(read, data))
        }
    }
}

} // verus!
