//! The three flag namespaces of the kernel interface.
//!
//! How a line is to be requested, which edges an event subscription covers,
//! and what the kernel reports about a line are three different sets of
//! bits that happen to share numeric values.  Each gets a type of its own,
//! so that a flag of one namespace cannot be passed where another is
//! expected.

use core::ops::BitOr;
use vstd::prelude::*;
use vstd::std_specs::ops::BitOrSpecImpl;

verus! {

/// Request flag: the line is to be an input.
pub const GPIOHANDLE_REQUEST_INPUT: u32 = 0x01;

/// Request flag: the line is to be an output.
pub const GPIOHANDLE_REQUEST_OUTPUT: u32 = 0x02;

/// Request flag: the line is active when its level is low.
pub const GPIOHANDLE_REQUEST_ACTIVE_LOW: u32 = 0x04;

/// Request flag: the output is open drain.
pub const GPIOHANDLE_REQUEST_OPEN_DRAIN: u32 = 0x08;

/// Request flag: the output is open source.
pub const GPIOHANDLE_REQUEST_OPEN_SOURCE: u32 = 0x10;

/// Every bit that a line request knows.
pub const GPIOHANDLE_REQUEST_ALL: u32 = 0x1f;

/// Event flag: report transitions to active.
pub const GPIOEVENT_REQUEST_RISING_EDGE: u32 = 0x01;

/// Event flag: report transitions to inactive.
pub const GPIOEVENT_REQUEST_FALLING_EDGE: u32 = 0x02;

/// Event flag: report both transitions.
pub const GPIOEVENT_REQUEST_BOTH_EDGES: u32 = 0x03;

/// Line state: the kernel itself holds the line.
pub const GPIOLINE_FLAG_KERNEL: u32 = 0x01;

/// Line state: the line is an output.
pub const GPIOLINE_FLAG_IS_OUT: u32 = 0x02;

/// Line state: the line is active when its level is low.
pub const GPIOLINE_FLAG_ACTIVE_LOW: u32 = 0x04;

/// Line state: the output is open drain.
pub const GPIOLINE_FLAG_OPEN_DRAIN: u32 = 0x08;

/// Line state: the output is open source.
pub const GPIOLINE_FLAG_OPEN_SOURCE: u32 = 0x10;

/// Every bit of line state that is known here.
pub const GPIOLINE_FLAG_ALL: u32 = 0x1f;

/// Whether every bit of `wanted` is set in `bits`.
pub open spec fn has_bits(bits: u32, wanted: u32) -> bool {
    bits & wanted == wanted
}

/// How a line is to be configured when it is requested.
#[derive(Debug, Clone, Copy, PartialEq, Eq, Structural)]
pub struct LineRequestFlags {
    pub bits: u32,
}

impl LineRequestFlags {
    /// The line is to be an input.
    pub fn input() -> (f: LineRequestFlags)
        ensures
            f.bits == GPIOHANDLE_REQUEST_INPUT,
    {
        LineRequestFlags { bits: GPIOHANDLE_REQUEST_INPUT }
    }

    /// The line is to be an output.
    pub fn output() -> (f: LineRequestFlags)
        ensures
            f.bits == GPIOHANDLE_REQUEST_OUTPUT,
    {
        LineRequestFlags { bits: GPIOHANDLE_REQUEST_OUTPUT }
    }

    /// The line is active when its level is low.
    pub fn active_low() -> (f: LineRequestFlags)
        ensures
            f.bits == GPIOHANDLE_REQUEST_ACTIVE_LOW,
    {
        LineRequestFlags { bits: GPIOHANDLE_REQUEST_ACTIVE_LOW }
    }

    /// The output is open drain.
    pub fn open_drain() -> (f: LineRequestFlags)
        ensures
            f.bits == GPIOHANDLE_REQUEST_OPEN_DRAIN,
    {
        LineRequestFlags { bits: GPIOHANDLE_REQUEST_OPEN_DRAIN }
    }

    /// The output is open source.
    pub fn open_source() -> (f: LineRequestFlags)
        ensures
            f.bits == GPIOHANDLE_REQUEST_OPEN_SOURCE,
    {
        LineRequestFlags { bits: GPIOHANDLE_REQUEST_OPEN_SOURCE }
    }

    /// No flag at all.
    pub fn empty() -> (f: LineRequestFlags)
        ensures
            f.bits == 0,
    {
        LineRequestFlags { bits: 0 }
    }

    /// The flags of `bits`, without the bits that name no request flag.
    pub fn from_bits_truncate(bits: u32) -> (f: LineRequestFlags)
        ensures
            f.bits == bits & GPIOHANDLE_REQUEST_ALL,
    {
        LineRequestFlags { bits: bits & GPIOHANDLE_REQUEST_ALL }
    }

    /// The raw bits, as the kernel takes them.
    pub fn bits(&self) -> (b: u32)
        ensures
            b == self.bits,
    {
        self.bits
    }

    /// Whether no flag is set.
    pub fn is_empty(&self) -> (r: bool)
        ensures
            r == (self.bits == 0),
    {
        self.bits == 0
    }

    /// Whether every flag of `other` is set here too.
    pub fn contains(&self, other: LineRequestFlags) -> (r: bool)
        ensures
            r == has_bits(self.bits, other.bits),
    {
        self.bits & other.bits == other.bits
    }

}

/// `a | b` holds the flags of both.
impl BitOr for LineRequestFlags {
    type Output = LineRequestFlags;

    fn bitor(self, rhs: LineRequestFlags) -> (f: LineRequestFlags) {
        LineRequestFlags { bits: self.bits | rhs.bits }
    }
}

impl BitOrSpecImpl for LineRequestFlags {
    open spec fn obeys_bitor_spec() -> bool {
        true
    }

    open spec fn bitor_req(self, rhs: LineRequestFlags) -> bool {
        true
    }

    open spec fn bitor_spec(self, rhs: LineRequestFlags) -> LineRequestFlags {
        LineRequestFlags { bits: self.bits | rhs.bits }
    }
}

/// Which edges an event subscription reports.
#[derive(Debug, Clone, Copy, PartialEq, Eq, Structural)]
pub struct EventRequestFlags {
    pub bits: u32,
}

impl EventRequestFlags {
    /// Transitions to active.
    pub fn rising_edge() -> (f: EventRequestFlags)
        ensures
            f.bits == GPIOEVENT_REQUEST_RISING_EDGE,
    {
        EventRequestFlags { bits: GPIOEVENT_REQUEST_RISING_EDGE }
    }

    /// Transitions to inactive.
    pub fn falling_edge() -> (f: EventRequestFlags)
        ensures
            f.bits == GPIOEVENT_REQUEST_FALLING_EDGE,
    {
        EventRequestFlags { bits: GPIOEVENT_REQUEST_FALLING_EDGE }
    }

    /// Both transitions: the rising and the falling edge together.
    pub fn both_edges() -> (f: EventRequestFlags)
        ensures
            f.bits == GPIOEVENT_REQUEST_BOTH_EDGES,
            f.bits == GPIOEVENT_REQUEST_RISING_EDGE | GPIOEVENT_REQUEST_FALLING_EDGE,
    {
        assert(0x03u32 == 0x01u32 | 0x02u32) by (bit_vector);
        EventRequestFlags { bits: GPIOEVENT_REQUEST_BOTH_EDGES }
    }

    /// The flags of `bits`, without the bits that name no edge.
    pub fn from_bits_truncate(bits: u32) -> (f: EventRequestFlags)
        ensures
            f.bits == bits & GPIOEVENT_REQUEST_BOTH_EDGES,
    {
        EventRequestFlags { bits: bits & GPIOEVENT_REQUEST_BOTH_EDGES }
    }

    /// The raw bits, as the kernel takes them.
    pub fn bits(&self) -> (b: u32)
        ensures
            b == self.bits,
    {
        self.bits
    }

    /// Whether no edge is selected.
    pub fn is_empty(&self) -> (r: bool)
        ensures
            r == (self.bits == 0),
    {
        self.bits == 0
    }

    /// Whether every edge of `other` is selected here too.
    pub fn contains(&self, other: EventRequestFlags) -> (r: bool)
        ensures
            r == has_bits(self.bits, other.bits),
    {
        self.bits & other.bits == other.bits
    }

}

/// `a | b` holds the edges of both.
impl BitOr for EventRequestFlags {
    type Output = EventRequestFlags;

    fn bitor(self, rhs: EventRequestFlags) -> (f: EventRequestFlags) {
        EventRequestFlags { bits: self.bits | rhs.bits }
    }
}

impl BitOrSpecImpl for EventRequestFlags {
    open spec fn obeys_bitor_spec() -> bool {
        true
    }

    open spec fn bitor_req(self, rhs: EventRequestFlags) -> bool {
        true
    }

    open spec fn bitor_spec(self, rhs: EventRequestFlags) -> EventRequestFlags {
        EventRequestFlags { bits: self.bits | rhs.bits }
    }
}

/// What the kernel reports about a line.
#[derive(Debug, Clone, Copy, PartialEq, Eq, Structural)]
pub struct LineFlags {
    pub bits: u32,
}

impl LineFlags {
    /// The kernel itself holds the line.
    pub fn kernel() -> (f: LineFlags)
        ensures
            f.bits == GPIOLINE_FLAG_KERNEL,
    {
        LineFlags { bits: GPIOLINE_FLAG_KERNEL }
    }

    /// The line is an output.
    pub fn is_out() -> (f: LineFlags)
        ensures
            f.bits == GPIOLINE_FLAG_IS_OUT,
    {
        LineFlags { bits: GPIOLINE_FLAG_IS_OUT }
    }

    /// The line is active when its level is low.
    pub fn active_low() -> (f: LineFlags)
        ensures
            f.bits == GPIOLINE_FLAG_ACTIVE_LOW,
    {
        LineFlags { bits: GPIOLINE_FLAG_ACTIVE_LOW }
    }

    /// The output is open drain.
    pub fn open_drain() -> (f: LineFlags)
        ensures
            f.bits == GPIOLINE_FLAG_OPEN_DRAIN,
    {
        LineFlags { bits: GPIOLINE_FLAG_OPEN_DRAIN }
    }

    /// The output is open source.
    pub fn open_source() -> (f: LineFlags)
        ensures
            f.bits == GPIOLINE_FLAG_OPEN_SOURCE,
    {
        LineFlags { bits: GPIOLINE_FLAG_OPEN_SOURCE }
    }

    /// The flags of `bits`, without the bits that are not known here.
    pub fn from_bits_truncate(bits: u32) -> (f: LineFlags)
        ensures
            f.bits == bits & GPIOLINE_FLAG_ALL,
    {
        LineFlags { bits: bits & GPIOLINE_FLAG_ALL }
    }

    /// The raw bits.
    pub fn bits(&self) -> (b: u32)
        ensures
            b == self.bits,
    {
        self.bits
    }

    /// Whether no flag is set.
    pub fn is_empty(&self) -> (r: bool)
        ensures
            r == (self.bits == 0),
    {
        self.bits == 0
    }

    /// Whether every flag of `other` is set here too.
    pub fn contains(&self, other: LineFlags) -> (r: bool)
        ensures
            r == has_bits(self.bits, other.bits),
    {
        self.bits & other.bits == other.bits
    }
}

/// Which way a line points.
#[derive(Debug, Clone, Copy, PartialEq, Eq, Structural)]
pub enum LineDirection {
    In,
    Out,
}

} // verus!
