//! Several lines of one chip, requested and driven together.

use crate::chip::{Chip, ChipView, InnerChip};
use crate::cstr::rstr_lcpy;
use crate::errors::{invalid_err, Error, ErrorKind, IoctlKind};
use crate::ffi::{
    gpio_get_linehandle_ioctl, gpiohandle_data, gpiohandle_get_line_values_ioctl,
    gpiohandle_request, padded, zeros, GPIOHANDLES_MAX,
};
use crate::flags::LineRequestFlags;
use crate::line::{Line, LineView};
use nix::errno::Errno;
use std::sync::Arc;
use vstd::prelude::*;
use vstd::string::StringSliceAdditionalSpecFns;

verus! {

/// Lines of one chip, in the order in which the caller named them.
///
/// There is at least one line and there are at most 64, the most that the
/// kernel takes in one request.
#[derive(Debug)]
pub struct Lines {
    lines: Vec<Line>,
}

/// A set of lines as contracts see it.
pub ghost struct LinesView {
    /// The chip that all the lines belong to.
    pub chip: ChipView,
    /// The offsets of the lines, in order.
    pub offsets: Seq<u32>,
}

impl View for Lines {
    type V = LinesView;

    closed spec fn view(&self) -> LinesView {
        LinesView {
            chip: self.lines[0]@.chip,
            offsets: Seq::new(self.lines.len() as nat, |i: int| self.lines[i]@.offset),
        }
    }
}

/// Whether `offsets` can be made into a set of lines of a chip with `lines`
/// lines: there is at least one, there are at most 64, and the chip has a
/// line at each.
pub open spec fn offsets_valid(offsets: Seq<u32>, lines: u32) -> bool {
    &&& 1 <= offsets.len() <= GPIOHANDLES_MAX
    &&& forall|i: int| 0 <= i < offsets.len() ==> offsets[i] < lines
}

/// Whether `i` is the first place in `offsets` that names no line of a chip
/// with `lines` lines.
pub open spec fn first_out_of_range(offsets: Seq<u32>, lines: u32, i: int) -> bool {
    &&& 0 <= i < offsets.len()
    &&& offsets[i] >= lines
    &&& forall|j: int| 0 <= j < i ==> offsets[j] < lines
}

impl Lines {
    #[verifier::type_invariant]
    spec fn well_formed(self) -> bool {
        &&& 1 <= self.lines.len() <= GPIOHANDLES_MAX
        &&& forall|i: int|
            0 <= i < self.lines.len() ==> (#[trigger] self.lines[i])@.chip == self.lines[0]@.chip
    }

    /// The lines of `chip` at `offsets`, in that order.
    ///
    /// A set of no lines or of more than 64 is refused as an invalid
    /// request, which names the limit and the number asked for.  Otherwise
    /// the first offset at which the chip has no line is refused as an
    /// offset error.
    pub(crate) fn new(chip: Arc<InnerChip>, offsets: &[u32]) -> (r: Result<Lines, Error>)
        ensures
            match r {
                Ok(set) => offsets_valid(offsets@, chip@.lines) && set@ == (LinesView {
                    chip: chip@,
                    offsets: offsets@,
                }),
                Err(e) => if 1 <= offsets@.len() <= GPIOHANDLES_MAX {
                    exists|i: int|
                        first_out_of_range(offsets@, chip@.lines, i) && e.kind
                            == ErrorKind::Offset(offsets@[i])
                } else {
                    e.kind == ErrorKind::InvalidRequest(GPIOHANDLES_MAX, offsets@.len() as usize)
                },
            },
    {
        let n = offsets.len();
        if n == 0 || n > GPIOHANDLES_MAX {
            return Err(invalid_err(GPIOHANDLES_MAX, n));
        }
        let mut lines: Vec<Line> = Vec::new();
        let mut i: usize = 0;
        while i < n
            invariant
                i <= n == offsets@.len(),
                1 <= n <= GPIOHANDLES_MAX,
                lines@.len() == i,
                forall|j: int|
                    0 <= j < i ==> (#[trigger] lines@[j])@ == (LineView {
                        chip: chip@,
                        offset: offsets@[j],
                    }),
                forall|j: int| 0 <= j < i ==> offsets@[j] < chip@.lines,
            decreases n - i,
        {
            match Line::new(chip.clone(), offsets[i]) {
                Ok(line) => {
                    lines.push(line);
                },
                Err(e) => {
                    assert(first_out_of_range(offsets@, chip@.lines, i as int) && e.kind
                        == ErrorKind::Offset(offsets@[i as int]));
                    return Err(e);
                },
            }
            i += 1;
        }
        let set = Lines { lines };
        assert(set@.offsets =~= offsets@);
        Ok(set)
    }

    /// The chip that the lines belong to.
    pub fn chip(&self) -> (c: Chip)
        ensures
            c@ == self@.chip,
    {
        proof {
            use_type_invariant(self);
        }
        self.lines[0].chip()
    }

    /// Whether there is no line in the set.  There always is one.
    pub fn is_empty(&self) -> (r: bool)
        ensures
            !r,
            self@.offsets.len() > 0,
    {
        proof {
            use_type_invariant(self);
        }
        self.lines.is_empty()
    }

    /// The number of lines in the set: at least one, at most 64.
    pub fn len(&self) -> (n: usize)
        ensures
            n == self@.offsets.len(),
            1 <= n <= GPIOHANDLES_MAX,
    {
        proof {
            use_type_invariant(self);
        }
        self.lines.len()
    }

    /// The line at place `i` of the set.
    pub fn index(&self, i: usize) -> (line: &Line)
        requires
            i < self@.offsets.len(),
        ensures
            line@ == (LineView { chip: self@.chip, offset: self@.offsets[i as int] }),
            self@.offsets[i as int] < self@.chip.lines,
    {
        proof {
            use_type_invariant(self);
        }
        let line = &self.lines[i];
        let _ = line.offset();
        line
    }

    /// The record that requests all the lines of the set from the kernel at
    /// once, to be configured by `flags`.  Outputs start at the values in
    /// `default`, one for each line in the order of the set.  `consumer`
    /// names who holds the lines; it is cut to 31 bytes.
    ///
    /// Where `default` does not hold one value for each line, there is no
    /// record to send: this fails as an invalid request, which names the
    /// number of lines and the number of values.
    pub fn request(&self, flags: LineRequestFlags, default: &[u8], consumer: &str) -> (r: Result<
        gpiohandle_request,
        Error,
    >)
        ensures
            match r {
                Ok(request) => default@.len() == self@.offsets.len() && request.asks_for(
                    self@.offsets,
                    flags.bits,
                    default@,
                    consumer.spec_bytes(),
                ),
                Err(e) => default@.len() != self@.offsets.len() && e.kind
                    == ErrorKind::InvalidRequest(
                    self@.offsets.len() as usize,
                    default@.len() as usize,
                ),
            },
    {
        proof {
            use_type_invariant(self);
        }
        let n = self.lines.len();
        if default.len() != n {
            return Err(invalid_err(n, default.len()));
        }
        let mut request = gpiohandle_request {
            lineoffsets: [0; 64],
            flags: flags.bits(),
            default_values: [0; 64],
            consumer_label: [0; 32],
            lines: n as u32,
            fd: 0,
        };
        let mut i: usize = 0;
        while i < n
            invariant
                i <= n == self.lines.len(),
                n == default@.len(),
                n <= 64,
                forall|j: int|
                    0 <= j < 64 ==> request.lineoffsets@[j] == (if j < i {
                        self.lines[j]@.offset
                    } else {
                        0u32
                    }),
                forall|j: int|
                    0 <= j < 64 ==> request.default_values@[j] == (if j < i {
                        default@[j]
                    } else {
                        0u8
                    }),
                request.flags == flags.bits,
                request.consumer_label@ == zeros(32),
                request.lines == n,
                request.fd == 0,
            decreases n - i,
        {
            request.lineoffsets[i] = self.lines[i].offset();
            request.default_values[i] = default[i];
            i += 1;
        }
        rstr_lcpy(&mut request.consumer_label, consumer);
        assert(request.lineoffsets@ =~= padded(self@.offsets, 64, 0u32));
        assert(request.default_values@ =~= padded(default@, 64, 0u8));
        Ok(request)
    }
}

impl Clone for Lines {
    fn clone(&self) -> (set: Lines)
        ensures
            set@ == self@,
    {
        proof {
            use_type_invariant(self);
        }
        let n = self.lines.len();
        let mut lines: Vec<Line> = Vec::new();
        let mut i: usize = 0;
        while i < n
            invariant
                i <= n == self.lines.len(),
                lines@.len() == i,
                forall|j: int| 0 <= j < i ==> (#[trigger] lines@[j])@ == self.lines[j]@,
            decreases n - i,
        {
            lines.push(self.lines[i].clone());
            i += 1;
        }
        let set = Lines { lines };
        assert(set@.offsets =~= self@.offsets);
        set
    }
}

/// The hold on several lines that the kernel granted in one request.
///
/// The descriptor stands for the grant: the lines are free for others once
/// it is closed, and not before.  There is no way to make a second handle
/// from this one.
#[derive(Debug)]
pub struct MultiLineHandle {
    lines: Lines,
    fd: i32,
}

/// A handle on several lines as contracts see it.
pub ghost struct MultiLineHandleView {
    /// The lines that are held, in the order of the request.
    pub lines: LinesView,
    /// The descriptor that the kernel granted.
    pub fd: i32,
}

impl View for MultiLineHandle {
    type V = MultiLineHandleView;

    closed spec fn view(&self) -> MultiLineHandleView {
        MultiLineHandleView { lines: self.lines@, fd: self.fd }
    }
}

impl MultiLineHandle {
    /// The handle on `lines` that the kernel granted, from the outcome
    /// `reply` of sending it the request for them.
    ///
    /// Where the kernel refused, as it does when another holds one of the
    /// lines, this fails with an ioctl error tagged `LineHandle` that keeps
    /// the kernel's error number.
    pub fn new(lines: &Lines, reply: Result<gpiohandle_request, Errno>) -> (r: Result<
        MultiLineHandle,
        Error,
    >)
        ensures
            match r {
                Ok(handle) => reply matches Ok(granted) && handle@ == (MultiLineHandleView {
                    lines: lines@,
                    fd: granted.fd,
                }),
                Err(e) => reply matches Err(cause) && e.kind == (ErrorKind::Ioctl {
                    kind: IoctlKind::LineHandle,
                    cause,
                }),
            },
    {
        let granted = gpio_get_linehandle_ioctl(reply)?;
        Ok(MultiLineHandle { lines: lines.clone(), fd: granted.fd })
    }

    /// The values of the lines, from the outcome `reply` of asking the
    /// kernel for them: one for each line, in the order of the request, as
    /// the kernel gave them.
    ///
    /// Where the kernel refused, this fails with an ioctl error tagged
    /// `GetLine`.
    pub fn get_values(&self, reply: Result<gpiohandle_data, Errno>) -> (r: Result<Vec<u8>, Error>)
        ensures
            match r {
                Ok(values) => reply matches Ok(data) && values@ == data.values@.take(
                    self@.lines.offsets.len() as int,
                ),
                Err(e) => reply matches Err(cause) && e.kind == (ErrorKind::Ioctl {
                    kind: IoctlKind::GetLine,
                    cause,
                }),
            },
    {
        let data = gpiohandle_get_line_values_ioctl(reply)?;
        let n = self.num_lines();
        let mut values: Vec<u8> = Vec::new();
        let mut i: usize = 0;
        while i < n
            invariant
                i <= n <= 64,
                values@.len() == i,
                forall|j: int| 0 <= j < i ==> values@[j] == data.values@[j],
            decreases n - i,
        {
            values.push(data.values[i]);
            i += 1;
        }
        Ok(values)
    }

    /// The record that drives the lines to `values`, one for each line in
    /// the order of the request.
    ///
    /// Where `values` does not hold one value for each line, there is no
    /// record to send: this fails as an invalid request, which names the
    /// number of lines and the number of values.
    pub fn set_values(&self, values: &[u8]) -> (r: Result<gpiohandle_data, Error>)
        ensures
            match r {
                Ok(data) => values@.len() == self@.lines.offsets.len() && data.carries(values@),
                Err(e) => values@.len() != self@.lines.offsets.len() && e.kind
                    == ErrorKind::InvalidRequest(
                    self@.lines.offsets.len() as usize,
                    values@.len() as usize,
                ),
            },
    {
        let n = self.num_lines();
        if values.len() != n {
            return Err(invalid_err(n, values.len()));
        }
        let mut data = gpiohandle_data { values: [0; 64] };
        let mut i: usize = 0;
        while i < n
            invariant
                i <= n <= 64,
                n == values@.len(),
                forall|j: int|
                    0 <= j < 64 ==> data.values@[j] == (if j < i {
                        values@[j]
                    } else {
                        0u8
                    }),
            decreases n - i,
        {
            data.values[i] = values[i];
            i += 1;
        }
        assert(data.values@ =~= padded(values@, 64, 0u8));
        Ok(data)
    }

    /// The number of lines that the handle holds: at least one, at most 64.
    pub fn num_lines(&self) -> (n: usize)
        ensures
            n == self@.lines.offsets.len(),
            1 <= n <= GPIOHANDLES_MAX,
    {
        self.lines.len()
    }

    /// The lines that the handle holds.
    pub fn lines(&self) -> (l: &Lines)
        ensures
            l@ == self@.lines,
    {
        &self.lines
    }

    /// The descriptor that the kernel granted.
    pub fn as_raw_fd(&self) -> (fd: i32)
        ensures
            fd == self@.fd,
    {
        self.fd
    }
}

/// What is written to a handle can be read back from the record: the first
/// values of a record that carries `values` are `values`, in order.
pub proof fn lemma_values_round_trip(data: gpiohandle_data, values: Seq<u8>)
    requires
        values.len() <= GPIOHANDLES_MAX,
        data.carries(values),
    ensures
        data.values@.take(values.len() as int) == values,
{
}

} // verus!
