//! One line of a chip.

use crate::chip::{Chip, ChipView, InnerChip};
use crate::cstr::{cstr_bytes, cstrbuf_to_string, reads_as, rstr_lcpy};
use crate::errors::{offset_err, Error, ErrorKind, IoctlKind};
use crate::ffi::{
    gpio_get_lineinfo_ioctl, gpioevent_request, gpiohandle_request, gpioline_info, zeros,
};
use crate::flags::{
    has_bits, EventRequestFlags, LineDirection, LineFlags, LineRequestFlags,
    GPIOLINE_FLAG_ACTIVE_LOW, GPIOLINE_FLAG_ALL, GPIOLINE_FLAG_IS_OUT, GPIOLINE_FLAG_KERNEL,
    GPIOLINE_FLAG_OPEN_DRAIN, GPIOLINE_FLAG_OPEN_SOURCE,
};
use nix::errno::Errno;
use std::sync::Arc;
use vstd::prelude::*;
use vstd::string::StringSliceAdditionalSpecFns;

verus! {

/// One line of a chip: the chip and the line's offset on it.
///
/// A line holds no kernel resource.  Its offset is always one that the chip
/// has.
#[derive(Debug)]
pub struct Line {
    chip: Arc<InnerChip>,
    offset: u32,
}

/// A line as contracts see it.
pub ghost struct LineView {
    pub chip: ChipView,
    pub offset: u32,
}

impl View for Line {
    type V = LineView;

    closed spec fn view(&self) -> LineView {
        LineView { chip: self.chip@, offset: self.offset }
    }
}

impl Line {
    #[verifier::type_invariant]
    spec fn in_range(self) -> bool {
        self.offset < self.chip.lines
    }

    pub(crate) fn new(chip: Arc<InnerChip>, offset: u32) -> (r: Result<Line, Error>)
        ensures
            match r {
                Ok(line) => offset < chip@.lines && line@ == (LineView { chip: chip@, offset }),
                Err(e) => offset >= chip@.lines && e.kind == ErrorKind::Offset(offset),
            },
    {
        if offset >= chip.lines {
            return Err(offset_err(offset));
        }
        Ok(Line { chip, offset })
    }

    /// The offset of this line on its chip.  The chip has a line there.
    pub fn offset(&self) -> (o: u32)
        ensures
            o == self@.offset,
            o < self@.chip.lines,
    {
        proof {
            use_type_invariant(self);
        }
        self.offset
    }

    /// The chip that this line belongs to.
    pub fn chip(&self) -> (c: Chip)
        ensures
            c@ == self@.chip,
    {
        Chip::from_inner(self.chip.clone())
    }
}

/// Whether `text` is what the name field `buf` of a record holds: nothing
/// where the field starts with the terminator, else the text up to it.
pub open spec fn names(buf: Seq<u8>, text: Option<Seq<char>>) -> bool {
    match text {
        Some(t) => buf[0] != 0 && reads_as(cstr_bytes(buf), t),
        None => buf[0] == 0,
    }
}

/// Whether `info` is what the kernel's record `record` says of `line`: the
/// state bits that are known here, and name and consumer where the record
/// holds one.
pub open spec fn line_described(info: LineInfoView, line: LineView, record: gpioline_info) -> bool {
    &&& info.line == line
    &&& info.flags == record.flags & GPIOLINE_FLAG_ALL
    &&& names(record.name@, info.name)
    &&& names(record.consumer@, info.consumer)
}

impl Line {
    /// The record to hand to the kernel when asking about this line.
    pub fn info_request(&self) -> (record: gpioline_info)
        ensures
            record.asks_about(self@.offset),
    {
        let record = gpioline_info {
            line_offset: self.offset,
            flags: 0,
            name: [0; 32],
            consumer: [0; 32],
        };
        assert(record.name@ =~= zeros(32));
        assert(record.consumer@ =~= zeros(32));
        record
    }

    /// What the kernel said of this line, from the outcome `reply` of asking
    /// it.  The answer is a snapshot; ask again for a fresh one.
    ///
    /// Where the kernel refused, this fails with an ioctl error tagged
    /// `LineInfo`.
    pub fn info(&self, reply: Result<gpioline_info, Errno>) -> (r: Result<LineInfo, Error>)
        ensures
            match r {
                Ok(info) => reply matches Ok(record) && line_described(info@, self@, record),
                Err(e) => reply matches Err(cause) && e.kind == (ErrorKind::Ioctl {
                    kind: IoctlKind::LineInfo,
                    cause,
                }),
            },
    {
        let record = gpio_get_lineinfo_ioctl(reply)?;
        Ok(
            LineInfo {
                line: self.clone(),
                flags: LineFlags::from_bits_truncate(record.flags),
                name: cstrbuf_to_string(&record.name),
                consumer: cstrbuf_to_string(&record.consumer),
            },
        )
    }

    /// The record that requests this line from the kernel, to be configured
    /// by `flags`.  An output starts at `default`.  `consumer` names who
    /// holds the line; it is cut to 31 bytes.
    pub fn request(&self, flags: LineRequestFlags, default: u8, consumer: &str) -> (request:
        gpiohandle_request)
        ensures
            request.asks_for(seq![self@.offset], flags.bits, seq![default], consumer.spec_bytes()),
    {
        let mut request = gpiohandle_request {
            lineoffsets: [0; 64],
            flags: flags.bits(),
            default_values: [0; 64],
            consumer_label: [0; 32],
            lines: 1,
            fd: 0,
        };
        assert(request.consumer_label@ =~= zeros(32));
        request.lineoffsets[0] = self.offset;
        request.default_values[0] = default;
        rstr_lcpy(&mut request.consumer_label, consumer);
        assert(request.lineoffsets@ =~= crate::ffi::padded(seq![self@.offset], 64, 0u32));
        assert(request.default_values@ =~= crate::ffi::padded(seq![default], 64, 0u8));
        request
    }

    /// The record that subscribes to the edges `event_flags` of this line,
    /// which is to be configured by `handle_flags`.  `consumer` names who
    /// holds the line; it is cut to 31 bytes.
    pub fn events(
        &self,
        handle_flags: LineRequestFlags,
        event_flags: EventRequestFlags,
        consumer: &str,
    ) -> (request: gpioevent_request)
        ensures
            request.asks_for(
                self@.offset,
                handle_flags.bits,
                event_flags.bits,
                consumer.spec_bytes(),
            ),
    {
        let mut request = gpioevent_request {
            lineoffset: self.offset,
            handleflags: handle_flags.bits(),
            eventflags: event_flags.bits(),
            consumer_label: [0; 32],
            fd: 0,
        };
        assert(request.consumer_label@ =~= zeros(32));
        rstr_lcpy(&mut request.consumer_label, consumer);
        request
    }

    /// The record that subscribes to the edges of this line for a consumer
    /// that does not block: the same record as for one that does.
    pub fn async_events(
        &self,
        handle_flags: LineRequestFlags,
        event_flags: EventRequestFlags,
        consumer: &str,
    ) -> (request: gpioevent_request)
        ensures
            request.asks_for(
                self@.offset,
                handle_flags.bits,
                event_flags.bits,
                consumer.spec_bytes(),
            ),
    {
        self.events(handle_flags, event_flags, consumer)
    }
}

/// What the kernel said of a line at one moment.
#[derive(Debug)]
pub struct LineInfo {
    line: Line,
    flags: LineFlags,
    name: Option<String>,
    consumer: Option<String>,
}

/// Line information as contracts see it.
pub ghost struct LineInfoView {
    /// The line that was asked about.
    pub line: LineView,
    /// The state bits that are known here.
    pub flags: u32,
    /// The name of the line, where it has one.
    pub name: Option<Seq<char>>,
    /// Who holds the line, where somebody does.
    pub consumer: Option<Seq<char>>,
}

impl View for LineInfo {
    type V = LineInfoView;

    closed spec fn view(&self) -> LineInfoView {
        LineInfoView {
            line: self.line@,
            flags: self.flags.bits,
            name: match self.name {
                Some(s) => Some(s@),
                None => None,
            },
            consumer: match self.consumer {
                Some(s) => Some(s@),
                None => None,
            },
        }
    }
}

impl LineInfo {
    /// The line that this is about.
    pub fn line(&self) -> (l: &Line)
        ensures
            l@ == self@.line,
    {
        &self.line
    }

    /// The name of the line, such as the pin it leads to, where the chip
    /// gives one.
    pub fn name(&self) -> (n: Option<&str>)
        ensures
            match n {
                Some(s) => self@.name == Some(s@),
                None => self@.name is None,
            },
    {
        match &self.name {
            Some(s) => Some(s.as_str()),
            None => None,
        }
    }

    /// Who holds the line, where somebody does.
    pub fn consumer(&self) -> (c: Option<&str>)
        ensures
            match c {
                Some(s) => self@.consumer == Some(s@),
                None => self@.consumer is None,
            },
    {
        match &self.consumer {
            Some(s) => Some(s.as_str()),
            None => None,
        }
    }

    /// The direction of the line: out where the kernel marks it as an
    /// output, else in.
    pub fn direction(&self) -> (d: LineDirection)
        ensures
            d == (if has_bits(self@.flags, GPIOLINE_FLAG_IS_OUT) {
                LineDirection::Out
            } else {
                LineDirection::In
            }),
    {
        match self.flags.contains(LineFlags::is_out()) {
            true => LineDirection::Out,
            false => LineDirection::In,
        }
    }

    /// Whether any state bit is set for the line.
    pub fn is_used(&self) -> (r: bool)
        ensures
            r == (self@.flags != 0),
    {
        !self.flags.is_empty()
    }

    /// Whether the kernel itself holds the line, so that it cannot be
    /// requested.
    pub fn is_kernel(&self) -> (r: bool)
        ensures
            r == has_bits(self@.flags, GPIOLINE_FLAG_KERNEL),
    {
        self.flags.contains(LineFlags::kernel())
    }

    /// Whether the line is active when its level is low.
    pub fn is_active_low(&self) -> (r: bool)
        ensures
            r == has_bits(self@.flags, GPIOLINE_FLAG_ACTIVE_LOW),
    {
        self.flags.contains(LineFlags::active_low())
    }

    /// Whether the line is an open drain output.
    pub fn is_open_drain(&self) -> (r: bool)
        ensures
            r == has_bits(self@.flags, GPIOLINE_FLAG_OPEN_DRAIN),
    {
        self.flags.contains(LineFlags::open_drain())
    }

    /// Whether the line is an open source output.
    pub fn is_open_source(&self) -> (r: bool)
        ensures
            r == has_bits(self@.flags, GPIOLINE_FLAG_OPEN_SOURCE),
    {
        self.flags.contains(LineFlags::open_source())
    }
}

impl Clone for LineInfo {
    fn clone(&self) -> (info: LineInfo)
        ensures
            info@ == self@,
    {
        LineInfo {
            line: self.line.clone(),
            flags: self.flags,
            name: match &self.name {
                Some(s) => Some(s.clone()),
                None => None,
            },
            consumer: match &self.consumer {
                Some(s) => Some(s.clone()),
                None => None,
            },
        }
    }
}

impl Clone for Line {
    fn clone(&self) -> (l: Line)
        ensures
            l@ == self@,
    {
        proof {
            use_type_invariant(self);
        }
        Line { chip: self.chip.clone(), offset: self.offset }
    }
}

} // verus!
