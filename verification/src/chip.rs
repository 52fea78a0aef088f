//! A GPIO chip and the lines that are derived from it.

use crate::cstr::{cstr_bytes, cstrbuf_to_owned, reads_as};
use crate::errors::{invalid_err, Error, ErrorKind, IoctlKind};
use crate::ffi::{gpio_get_chipinfo_ioctl, gpiochip_info, GPIOHANDLES_MAX};
use crate::line::{Line, LineView};
use crate::lines::{first_out_of_range, offsets_valid, Lines, LinesView};
use nix::errno::Errno;
use std::sync::Arc;
use vstd::prelude::*;
use vstd::string::StringSliceAdditionalSpecFns;

verus! {

/// What is known of an open chip.  It is shared, never changed, by the chip
/// and every line derived from it.
#[derive(Debug)]
pub(crate) struct InnerChip {
    pub(crate) path: String,
    pub(crate) fd: i32,
    pub(crate) name: String,
    pub(crate) label: String,
    pub(crate) lines: u32,
}

/// A chip as contracts see it.
pub ghost struct ChipView {
    /// Where the device was opened.
    pub path: Seq<char>,
    /// The descriptor of the open device.
    pub fd: i32,
    /// The name of the kernel's driver instance.
    pub name: Seq<char>,
    /// A functional name; it may be empty.
    pub label: Seq<char>,
    /// The number of lines; they have the offsets below it.
    pub lines: u32,
}

/// A GPIO controller, opened as a character device.
#[derive(Debug)]
pub struct Chip {
    inner: Arc<InnerChip>,
}

impl InnerChip {
    pub(crate) open spec fn view(&self) -> ChipView {
        ChipView {
            path: self.path@,
            fd: self.fd,
            name: self.name@,
            label: self.label@,
            lines: self.lines,
        }
    }
}

impl View for Chip {
    type V = ChipView;

    closed spec fn view(&self) -> ChipView {
        self.inner@
    }
}

/// Whether `chip` is the chip that the device at `path`, open as `fd`, has
/// described as `info`: name and label are the texts in the record, the
/// number of lines is the record's.
pub open spec fn chip_described(
    chip: ChipView,
    path: Seq<char>,
    fd: i32,
    info: gpiochip_info,
) -> bool {
    &&& chip.path == path
    &&& chip.fd == fd
    &&& reads_as(cstr_bytes(info.name@), chip.name)
    &&& reads_as(cstr_bytes(info.label@), chip.label)
    &&& chip.lines == info.lines
}

impl Chip {
    /// The chip behind the device at `path`, which the caller has opened as
    /// `fd` and asked for its description, with the outcome `reply`.
    ///
    /// Where the kernel refused to describe the chip, this fails with an
    /// ioctl error tagged `ChipInfo`.
    pub fn new(path: &str, fd: i32, reply: Result<gpiochip_info, Errno>) -> (r: Result<Chip, Error>)
        ensures
            match r {
                Ok(chip) => reply matches Ok(info) && chip_described(chip@, path@, fd, info),
                Err(e) => reply matches Err(cause) && e.kind == (ErrorKind::Ioctl {
                    kind: IoctlKind::ChipInfo,
                    cause,
                }),
            },
    {
        let info = gpio_get_chipinfo_ioctl(reply)?;
        Ok(
            Chip {
                inner: Arc::new(
                    InnerChip {
                        path: path.to_owned(),
                        fd,
                        name: cstrbuf_to_owned(&info.name),
                        label: cstrbuf_to_owned(&info.label),
                        lines: info.lines,
                    },
                ),
            },
        )
    }

    pub(crate) fn from_inner(inner: Arc<InnerChip>) -> (chip: Chip)
        ensures
            chip@ == inner@,
    {
        Chip { inner }
    }

    /// The path of the character device.
    pub fn path(&self) -> (p: &str)
        ensures
            p@ == self@.path,
    {
        self.inner.path.as_str()
    }

    /// The name of the kernel's driver instance for this chip.
    pub fn name(&self) -> (n: &str)
        ensures
            n@ == self@.name,
    {
        self.inner.name.as_str()
    }

    /// A functional name for this chip, such as a product number.  It may
    /// be empty.
    pub fn label(&self) -> (l: &str)
        ensures
            l@ == self@.label,
    {
        self.inner.label.as_str()
    }

    /// The number of lines of this chip.
    pub fn num_lines(&self) -> (n: u32)
        ensures
            n == self@.lines,
    {
        self.inner.lines
    }

    /// The descriptor of the open device.
    pub fn as_raw_fd(&self) -> (fd: i32)
        ensures
            fd == self@.fd,
    {
        self.inner.fd
    }

    /// The line at `offset`.  It fails with an offset error exactly when the
    /// chip has no such line.
    pub fn get_line(&mut self, offset: u32) -> (r: Result<Line, Error>)
        ensures
            final(self)@ == old(self)@,
            match r {
                Ok(line) => offset < old(self)@.lines && line@ == (LineView {
                    chip: old(self)@,
                    offset,
                }),
                Err(e) => offset >= old(self)@.lines && e.kind == ErrorKind::Offset(offset),
            },
    {
        Line::new(self.inner.clone(), offset)
    }

    /// The lines at `offsets`, in that order, to be requested and driven
    /// together.
    ///
    /// A set of no lines or of more than 64 is refused as an invalid
    /// request, which names the limit of 64 and the number asked for.
    /// Otherwise the first offset at which the chip has no line is refused
    /// as an offset error.
    pub fn get_lines(&mut self, offsets: &[u32]) -> (r: Result<Lines, Error>)
        ensures
            final(self)@ == old(self)@,
            match r {
                Ok(set) => offsets_valid(offsets@, old(self)@.lines) && set@ == (LinesView {
                    chip: old(self)@,
                    offsets: offsets@,
                }),
                Err(e) => if 1 <= offsets@.len() <= GPIOHANDLES_MAX {
                    exists|i: int|
                        first_out_of_range(offsets@, old(self)@.lines, i) && e.kind
                            == ErrorKind::Offset(offsets@[i])
                } else {
                    e.kind == ErrorKind::InvalidRequest(GPIOHANDLES_MAX, offsets@.len() as usize)
                },
            },
    {
        Lines::new(self.inner.clone(), offsets)
    }

    /// The lines at the offsets from `start` up to, not including, `end`, to
    /// be requested and driven together.
    ///
    /// It fails as `get_lines` fails for these offsets: a range of no
    /// offsets or of more than 64 is an invalid request, and a range that
    /// goes beyond the lines of the chip is an offset error that names the
    /// first offset without a line.
    pub fn get_lines_range(&mut self, start: u32, end: u32) -> (r: Result<Lines, Error>)
        ensures
            final(self)@ == old(self)@,
            match r {
                Ok(set) => {
                    &&& 1 <= end - start <= GPIOHANDLES_MAX
                    &&& end <= old(self)@.lines
                    &&& set@ == (LinesView {
                        chip: old(self)@,
                        offsets: offsets_between(start, end),
                    })
                },
                Err(e) => if 1 <= end - start <= GPIOHANDLES_MAX {
                    &&& end > old(self)@.lines
                    &&& e.kind == ErrorKind::Offset(
                        if start >= old(self)@.lines {
                            start
                        } else {
                            old(self)@.lines
                        },
                    )
                } else {
                    e.kind == ErrorKind::InvalidRequest(
                        GPIOHANDLES_MAX,
                        offsets_between(start, end).len() as usize,
                    )
                },
            },
    {
        if end <= start {
            return Err(invalid_err(GPIOHANDLES_MAX, 0));
        }
        let n = end - start;
        if n > 64 {
            return Err(invalid_err(GPIOHANDLES_MAX, n as usize));
        }
        let mut offsets: Vec<u32> = Vec::new();
        let mut offset: u32 = start;
        while offset < end
            invariant
                start <= offset <= end,
                offsets@.len() == offset - start,
                forall|i: int| 0 <= i < offset - start ==> offsets@[i] == start + i,
            decreases end - offset,
        {
            offsets.push(offset);
            offset += 1;
        }
        assert(offsets@ =~= offsets_between(start, end));
        let r = self.get_lines(offsets.as_slice());
        proof {
            let lines = old(self)@.lines;
            match &r {
                Ok(_) => {
                    // The last offset has a line, so the range ends within the chip.
                    assert(offsets@[end - start - 1] < lines);
                },
                Err(e) => {
                    let i = choose|i: int|
                        first_out_of_range(offsets@, lines, i) && e.kind == ErrorKind::Offset(
                            offsets@[i],
                        );
                    // Every place before `i` has a line.  The place of the first
                    // offset without one is therefore not before `i`.
                    let first: int = if start < lines {
                        lines - start
                    } else {
                        0
                    };
                    if i > first {
                        assert(offsets@[first] < lines);
                    }
                },
            }
        }
        r
    }

    /// All the lines of the chip, in the order of their offsets.
    ///
    /// A chip with no lines or with more than 64 is refused as an invalid
    /// request, which names the limit of 64 and the number of lines.
    pub fn get_all_lines(&mut self) -> (r: Result<Lines, Error>)
        ensures
            final(self)@ == old(self)@,
            match r {
                Ok(set) => 1 <= old(self)@.lines <= GPIOHANDLES_MAX && set@ == (LinesView {
                    chip: old(self)@,
                    offsets: all_offsets(old(self)@.lines),
                }),
                Err(e) => !(1 <= old(self)@.lines <= GPIOHANDLES_MAX) && e.kind
                    == ErrorKind::InvalidRequest(GPIOHANDLES_MAX, old(self)@.lines as usize),
            },
    {
        let n = self.num_lines();
        if n == 0 || n > 64 {
            return Err(invalid_err(GPIOHANDLES_MAX, n as usize));
        }
        let mut offsets: Vec<u32> = Vec::new();
        let mut offset: u32 = 0;
        while offset < n
            invariant
                offset <= n,
                offsets@.len() == offset,
                forall|i: int| 0 <= i < offset ==> offsets@[i] == i,
            decreases n - offset,
        {
            offsets.push(offset);
            offset += 1;
        }
        assert(offsets@ =~= all_offsets(n));
        self.get_lines(offsets.as_slice())
    }

    /// The lines of the chip one by one, starting at offset 0.
    pub fn lines(&self) -> (it: LineIterator)
        ensures
            it@ == (LineIteratorView { chip: self@, idx: 0 }),
    {
        LineIterator { chip: self.inner.clone(), idx: 0 }
    }
}

/// Whether `needle` stands in `haystack` at place `at`.
pub open spec fn occurs_at(haystack: Seq<u8>, needle: Seq<u8>, at: int) -> bool {
    &&& 0 <= at
    &&& at + needle.len() <= haystack.len()
    &&& haystack.subrange(at, at + needle.len()) == needle
}

/// The bytes by which the device of a chip is told from others.
pub open spec fn chip_marker() -> Seq<u8> {
    "gpiochip".spec_bytes()
}

/// Whether the device at `path` is that of a GPIO chip, going by its name:
/// the path holds the word `gpiochip`.
pub fn is_chip_path(path: &str) -> (r: bool)
    ensures
        r == exists|at: int| occurs_at(path.spec_bytes(), chip_marker(), at),
{
    let haystack = path.as_bytes();
    let needle = "gpiochip".as_bytes();
    let n = haystack.len();
    let m = needle.len();
    if m > n {
        return false;
    }
    let mut at: usize = 0;
    while at <= n - m
        invariant
            m <= n,
            n == haystack@.len(),
            m == needle@.len(),
            haystack@ == path.spec_bytes(),
            needle@ == chip_marker(),
            at <= n - m + 1,
            forall|k: int| 0 <= k < at ==> !occurs_at(haystack@, needle@, k),
        decreases n - m + 1 - at,
    {
        let mut i: usize = 0;
        while i < m && haystack[at + i] == needle[i]
            invariant
                i <= m,
                at + m <= n,
                n == haystack@.len(),
                m == needle@.len(),
                forall|j: int| 0 <= j < i ==> haystack@[at + j] == needle@[j],
            decreases m - i,
        {
            i += 1;
        }
        if i == m {
            assert(haystack@.subrange(at as int, at + m) =~= needle@);
            assert(occurs_at(haystack@, needle@, at as int));
            return true;
        }
        at += 1;
    }
    false
}

/// The offsets from `start` up to, not including, `end`, in order; none
/// where `end` is not above `start`.
pub open spec fn offsets_between(start: u32, end: u32) -> Seq<u32> {
    Seq::new(
        if end > start {
            (end - start) as nat
        } else {
            0
        },
        |i: int| (start + i) as u32,
    )
}

/// The offsets of a chip with `lines` lines, in order.
pub open spec fn all_offsets(lines: u32) -> Seq<u32> {
    Seq::new(lines as nat, |i: int| i as u32)
}

/// A walk over the lines of a chip in the order of their offsets.  Each
/// walk starts anew at offset 0 and ends behind the last line.
#[derive(Debug)]
pub struct LineIterator {
    chip: Arc<InnerChip>,
    idx: u32,
}

/// A walk over lines as contracts see it.
pub ghost struct LineIteratorView {
    /// The chip whose lines are walked.
    pub chip: ChipView,
    /// The offset of the line that comes next.
    pub idx: u32,
}

impl View for LineIterator {
    type V = LineIteratorView;

    closed spec fn view(&self) -> LineIteratorView {
        LineIteratorView { chip: self.chip@, idx: self.idx }
    }
}

impl LineIterator {
    #[verifier::type_invariant]
    spec fn within(self) -> bool {
        self.idx <= self.chip.lines
    }

    /// The next line of the chip, or nothing behind the last one.
    pub fn next(&mut self) -> (r: Option<Line>)
        ensures
            final(self)@.chip == old(self)@.chip,
            match r {
                Some(line) => {
                    &&& old(self)@.idx < old(self)@.chip.lines
                    &&& line@ == (LineView { chip: old(self)@.chip, offset: old(self)@.idx })
                    &&& final(self)@.idx == old(self)@.idx + 1
                },
                None => old(self)@.idx >= old(self)@.chip.lines && final(self)@.idx == old(
                    self,
                )@.idx,
            },
    {
        proof {
            use_type_invariant(&*self);
        }
        if self.idx < self.chip.lines {
            let idx = self.idx;
            self.idx += 1;
            // The index was checked against the chip, so this does not fail.
            Some(Line::new(self.chip.clone(), idx).unwrap())
        } else {
            None
        }
    }
}

} // verus!
