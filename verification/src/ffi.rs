//! The records that are exchanged with the kernel.
//!
//! Each record is a fixed set of fixed-width fields.  A record that is sent
//! is built here with every field given a value, the unused ones zero,
//! because the kernel reads all of them.  Text travels in buffers of 32
//! bytes that end in a zero byte.

use crate::cstr::lcpy;
use crate::errors::{Error, ErrorKind, IoctlKind};
use nix::errno::Errno;
use vstd::prelude::*;

verus! {

/// The most lines that one request can cover.
pub const GPIOHANDLES_MAX: usize = 64;

/// The number of bytes that the kernel writes for one edge event: the
/// timestamp, the event id, and padding up to the timestamp's alignment.
pub const GPIOEVENT_DATA_SIZE: usize = 16;

/// The type byte that all GPIO exchanges share in their operation codes.
pub const GPIO_IOC_MAGIC: u8 = 0xB4;

/// The number of each exchange within the GPIO type.
pub open spec fn exchange_nr(kind: IoctlKind) -> u8 {
    match kind {
        IoctlKind::ChipInfo => 0x01,
        IoctlKind::LineInfo => 0x02,
        IoctlKind::LineHandle => 0x03,
        IoctlKind::LineEvent => 0x04,
        IoctlKind::GetLine => 0x08,
        IoctlKind::SetLine => 0x09,
    }
}

impl IoctlKind {
    /// The number of this exchange within the GPIO type.  Together with
    /// the type byte, the direction and the size of the record it makes
    /// the operation code.
    pub fn nr(&self) -> (nr: u8)
        ensures
            nr == exchange_nr(*self),
    {
        match self {
            IoctlKind::ChipInfo => 0x01,
            IoctlKind::LineInfo => 0x02,
            IoctlKind::LineHandle => 0x03,
            IoctlKind::LineEvent => 0x04,
            IoctlKind::GetLine => 0x08,
            IoctlKind::SetLine => 0x09,
        }
    }
}

/// No two exchanges share a number, so the operation code tells them
/// apart.
pub proof fn lemma_exchange_nr_distinct(a: IoctlKind, b: IoctlKind)
    requires
        a != b,
    ensures
        exchange_nr(a) != exchange_nr(b),
{
}

/// What the kernel tells about a chip.
#[allow(non_camel_case_types)]
#[derive(Debug, Clone, Copy)]
pub struct gpiochip_info {
    pub name: [u8; 32],
    pub label: [u8; 32],
    pub lines: u32,
}

/// What the kernel tells about one line; `line_offset` says which.
#[allow(non_camel_case_types)]
#[derive(Debug, Clone, Copy)]
pub struct gpioline_info {
    pub line_offset: u32,
    pub flags: u32,
    pub name: [u8; 32],
    pub consumer: [u8; 32],
}

/// A request for a handle on `lines` lines; the kernel answers in `fd`.
#[allow(non_camel_case_types)]
#[derive(Debug, Clone, Copy)]
pub struct gpiohandle_request {
    pub lineoffsets: [u32; 64],
    pub flags: u32,
    pub default_values: [u8; 64],
    pub consumer_label: [u8; 32],
    pub lines: u32,
    pub fd: i32,
}

/// The values of the lines of a handle, in the order of the request.
#[allow(non_camel_case_types)]
#[derive(Debug, Clone, Copy)]
pub struct gpiohandle_data {
    pub values: [u8; 64],
}

/// A request for the edge events of one line; the kernel answers in `fd`.
#[allow(non_camel_case_types)]
#[derive(Debug, Clone, Copy)]
pub struct gpioevent_request {
    pub lineoffset: u32,
    pub handleflags: u32,
    pub eventflags: u32,
    pub consumer_label: [u8; 32],
    pub fd: i32,
}

/// One edge event as the kernel writes it.
#[allow(non_camel_case_types)]
#[derive(Debug, Clone, Copy)]
pub struct gpioevent_data {
    pub timestamp: u64,
    pub id: u32,
}

/// A buffer of `n` zero bytes, as a sequence.
pub open spec fn zeros(n: nat) -> Seq<u8> {
    Seq::new(n, |i: int| 0u8)
}

/// The items of `s` in a field of `n` places, the places behind them filled
/// with `fill`.
pub open spec fn padded<T>(s: Seq<T>, n: nat, fill: T) -> Seq<T> {
    Seq::new(
        n,
        |i: int|
            if i < s.len() {
                s[i]
            } else {
                fill
            },
    )
}

/// The consumer label `consumer` as it travels: cut to 31 bytes, and the
/// rest of the buffer zero.
pub open spec fn label_field(consumer: Seq<u8>) -> Seq<u8> {
    lcpy(zeros(32), consumer)
}

impl gpioline_info {
    /// Whether this is the record that asks about the line at `offset`:
    /// the offset, and every other field zero.
    pub open spec fn asks_about(self, offset: u32) -> bool {
        &&& self.line_offset == offset
        &&& self.flags == 0
        &&& self.name@ == zeros(32)
        &&& self.consumer@ == zeros(32)
    }
}

impl gpiohandle_request {
    /// Whether this is the record that requests the lines at `offsets`,
    /// configured by `flags`, with the initial values `defaults`, for
    /// `consumer`: the offsets and values in order, their number, the
    /// label, and every other place zero.
    pub open spec fn asks_for(
        self,
        offsets: Seq<u32>,
        flags: u32,
        defaults: Seq<u8>,
        consumer: Seq<u8>,
    ) -> bool {
        &&& self.lineoffsets@ == padded(offsets, 64, 0u32)
        &&& self.flags == flags
        &&& self.default_values@ == padded(defaults, 64, 0u8)
        &&& self.consumer_label@ == label_field(consumer)
        &&& self.lines == offsets.len()
        &&& self.fd == 0
    }
}

impl gpioevent_request {
    /// Whether this is the record that subscribes to the edges `eventflags`
    /// of the line at `offset`, configured by `handleflags`, for `consumer`.
    pub open spec fn asks_for(
        self,
        offset: u32,
        handleflags: u32,
        eventflags: u32,
        consumer: Seq<u8>,
    ) -> bool {
        &&& self.lineoffset == offset
        &&& self.handleflags == handleflags
        &&& self.eventflags == eventflags
        &&& self.consumer_label@ == label_field(consumer)
        &&& self.fd == 0
    }
}

impl gpiochip_info {
    /// The record to hand to the kernel when asking about a chip: all zero.
    pub fn zeroed() -> (info: gpiochip_info)
        ensures
            info.name@ == zeros(32),
            info.label@ == zeros(32),
            info.lines == 0,
    {
        gpiochip_info { name: [0; 32], label: [0; 32], lines: 0 }
    }
}

impl gpiohandle_data {
    /// Whether this record carries `values`, in order, and zero behind them.
    pub open spec fn carries(self, values: Seq<u8>) -> bool {
        self.values@ == padded(values, 64, 0u8)
    }

    /// The record to hand to the kernel when reading values: all zero.
    pub fn zeroed() -> (data: gpiohandle_data)
        ensures
            data.values@ == zeros(64),
    {
        gpiohandle_data { values: [0; 64] }
    }
}

impl gpioevent_data {
    /// The record to read an event into: all zero.
    pub fn zeroed() -> (data: gpioevent_data)
        ensures
            data.timestamp == 0,
            data.id == 0,
    {
        gpioevent_data { timestamp: 0, id: 0 }
    }
}

/// The outcome of an exchange, with a failure tagged by the exchange that
/// failed: the record when the kernel accepted, else an ioctl error that
/// names `kind` and keeps the kernel's error number.
pub open spec fn tagged<T>(kind: IoctlKind, outcome: Result<T, Errno>) -> Result<T, Error> {
    match outcome {
        Ok(record) => Ok(record),
        Err(cause) => Err(Error { kind: ErrorKind::Ioctl { kind, cause } }),
    }
}

/// The outcome of asking for chip information.
pub fn gpio_get_chipinfo_ioctl(outcome: Result<gpiochip_info, Errno>) -> (r: Result<
    gpiochip_info,
    Error,
>)
    ensures
        r == tagged(IoctlKind::ChipInfo, outcome),
{
    match outcome {
        Ok(record) => Ok(record),
        Err(cause) => Err(crate::errors::ioctl_err(IoctlKind::ChipInfo, cause)),
    }
}

/// The outcome of asking for line information.
pub fn gpio_get_lineinfo_ioctl(outcome: Result<gpioline_info, Errno>) -> (r: Result<
    gpioline_info,
    Error,
>)
    ensures
        r == tagged(IoctlKind::LineInfo, outcome),
{
    match outcome {
        Ok(record) => Ok(record),
        Err(cause) => Err(crate::errors::ioctl_err(IoctlKind::LineInfo, cause)),
    }
}

/// The outcome of requesting a line handle.
pub fn gpio_get_linehandle_ioctl(outcome: Result<gpiohandle_request, Errno>) -> (r: Result<
    gpiohandle_request,
    Error,
>)
    ensures
        r == tagged(IoctlKind::LineHandle, outcome),
{
    match outcome {
        Ok(record) => Ok(record),
        Err(cause) => Err(crate::errors::ioctl_err(IoctlKind::LineHandle, cause)),
    }
}

/// The outcome of requesting an event handle.
pub fn gpio_get_lineevent_ioctl(outcome: Result<gpioevent_request, Errno>) -> (r: Result<
    gpioevent_request,
    Error,
>)
    ensures
        r == tagged(IoctlKind::LineEvent, outcome),
{
    match outcome {
        Ok(record) => Ok(record),
        Err(cause) => Err(crate::errors::ioctl_err(IoctlKind::LineEvent, cause)),
    }
}

/// The outcome of reading the values of a handle.
pub fn gpiohandle_get_line_values_ioctl(outcome: Result<gpiohandle_data, Errno>) -> (r: Result<
    gpiohandle_data,
    Error,
>)
    ensures
        r == tagged(IoctlKind::GetLine, outcome),
{
    match outcome {
        Ok(record) => Ok(record),
        Err(cause) => Err(crate::errors::ioctl_err(IoctlKind::GetLine, cause)),
    }
}

/// The outcome of writing the values of a handle.
pub fn gpiohandle_set_line_values_ioctl(outcome: Result<gpiohandle_data, Errno>) -> (r: Result<
    gpiohandle_data,
    Error,
>)
    ensures
        r == tagged(IoctlKind::SetLine, outcome),
{
    match outcome {
        Ok(record) => Ok(record),
        Err(cause) => Err(crate::errors::ioctl_err(IoctlKind::SetLine, cause)),
    }
}

} // verus!
