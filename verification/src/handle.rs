//! The hold on one requested line.

use crate::errors::{Error, ErrorKind, IoctlKind};
use crate::ffi::{
    gpio_get_linehandle_ioctl, gpiohandle_data, gpiohandle_get_line_values_ioctl,
    gpiohandle_request, padded,
};
use crate::flags::LineRequestFlags;
use crate::line::{Line, LineView};
use nix::errno::Errno;
use vstd::prelude::*;

verus! {

/// The hold on one line that the kernel granted.
///
/// The descriptor stands for the grant: the line is free for others once it
/// is closed, and not before.  There is no way to make a second handle from
/// this one.
#[derive(Debug)]
pub struct LineHandle {
    line: Line,
    flags: LineRequestFlags,
    fd: i32,
}

/// A handle on one line as contracts see it.
pub ghost struct LineHandleView {
    /// The line that is held.
    pub line: LineView,
    /// The flags that it was requested with.
    pub flags: LineRequestFlags,
    /// The descriptor that the kernel granted.
    pub fd: i32,
}

impl View for LineHandle {
    type V = LineHandleView;

    closed spec fn view(&self) -> LineHandleView {
        LineHandleView { line: self.line@, flags: self.flags, fd: self.fd }
    }
}

impl LineHandle {
    /// The handle on `line` that the kernel granted, from the outcome
    /// `reply` of sending it the request made with `flags`.
    ///
    /// Where the kernel refused, as it does when another holds the line,
    /// this fails with an ioctl error tagged `LineHandle` that keeps the
    /// kernel's error number.
    pub fn new(line: &Line, flags: LineRequestFlags, reply: Result<gpiohandle_request, Errno>) -> (r:
        Result<LineHandle, Error>)
        ensures
            match r {
                Ok(handle) => reply matches Ok(granted) && handle@ == (LineHandleView {
                    line: line@,
                    flags,
                    fd: granted.fd,
                }),
                Err(e) => reply matches Err(cause) && e.kind == (ErrorKind::Ioctl {
                    kind: IoctlKind::LineHandle,
                    cause,
                }),
            },
    {
        let granted = gpio_get_linehandle_ioctl(reply)?;
        Ok(LineHandle { line: line.clone(), flags, fd: granted.fd })
    }

    /// The value of the line, from the outcome `reply` of asking the kernel
    /// for it, as the kernel gave it: 1 for active, whatever level that is.
    ///
    /// Where the kernel refused, this fails with an ioctl error tagged
    /// `GetLine`.
    pub fn get_value(&self, reply: Result<gpiohandle_data, Errno>) -> (r: Result<u8, Error>)
        ensures
            match r {
                Ok(value) => reply matches Ok(data) && value == data.values@[0],
                Err(e) => reply matches Err(cause) && e.kind == (ErrorKind::Ioctl {
                    kind: IoctlKind::GetLine,
                    cause,
                }),
            },
    {
        let data = gpiohandle_get_line_values_ioctl(reply)?;
        Ok(data.values[0])
    }

    /// The record that drives the line to `value`.
    pub fn set_value(&self, value: u8) -> (data: gpiohandle_data)
        ensures
            data.carries(seq![value]),
    {
        let mut data = gpiohandle_data::zeroed();
        data.values[0] = value;
        assert(data.values@ =~= padded(seq![value], 64, 0u8));
        data
    }

    /// The line that is held.
    pub fn line(&self) -> (l: &Line)
        ensures
            l@ == self@.line,
    {
        &self.line
    }

    /// The flags that the line was requested with.
    pub fn flags(&self) -> (f: LineRequestFlags)
        ensures
            f == self@.flags,
    {
        self.flags
    }

    /// The descriptor that the kernel granted.
    pub fn as_raw_fd(&self) -> (fd: i32)
        ensures
            fd == self@.fd,
    {
        self.fd
    }
}

} // verus!
