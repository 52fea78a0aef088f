//! The failures that callers can branch on.

use nix::errno::Errno;
use vstd::prelude::*;
use vstd::std_specs::convert::FromSpecImpl;

verus! {

/// The error number that the operating system reports, as `nix` names it.
/// It is carried through untouched; nothing here looks inside.
#[verifier::external_type_specification]
#[verifier::external_body]
pub struct ExErrno(nix::errno::Errno);

/// The standard library's I/O error.  It is carried through untouched.
#[verifier::external_type_specification]
#[verifier::external_body]
pub struct ExIoError(std::io::Error);

/// The raw error number for a failed transfer of data, `EIO`, as Linux
/// numbers it.
pub const EIO: i32 = 5;

/// The error number that `nix` makes of the raw number `code`.
pub uninterp spec fn errno_of(code: i32) -> Errno;

/// `Errno::from_i32` of `nix`: the error number for a raw number.  It is a
/// table from numbers to names and depends on nothing else.
#[verifier::external_body]
pub(crate) fn errno_from_i32(code: i32) -> (e: Errno)
    ensures
        e == errno_of(code),
{
    Errno::from_i32(code)
}

/// The kernel exchanges, by which a failed transfer is tagged.
#[derive(Debug, Clone, Copy, PartialEq, Eq, Structural)]
pub enum IoctlKind {
    ChipInfo,
    LineInfo,
    LineHandle,
    LineEvent,
    GetLine,
    SetLine,
}

/// The words for the exchange `kind` in a message.
pub open spec fn kind_text(kind: IoctlKind) -> Seq<char> {
    match kind {
        IoctlKind::ChipInfo => "get chip info"@,
        IoctlKind::LineInfo => "get line info"@,
        IoctlKind::LineHandle => "get line handle"@,
        IoctlKind::LineEvent => "get line event "@,
        IoctlKind::GetLine => "get line value"@,
        IoctlKind::SetLine => "set line value"@,
    }
}

impl IoctlKind {
    /// The words for this exchange in a message.
    pub fn as_str(&self) -> (text: &'static str)
        ensures
            text@ == kind_text(*self),
    {
        match self {
            IoctlKind::ChipInfo => "get chip info",
            IoctlKind::LineInfo => "get line info",
            IoctlKind::LineHandle => "get line handle",
            IoctlKind::LineEvent => "get line event ",
            IoctlKind::GetLine => "get line value",
            IoctlKind::SetLine => "set line value",
        }
    }
}

/// What went wrong.
#[derive(Debug)]
pub enum ErrorKind {
    /// An event record could not be taken from the event descriptor.
    Event(Errno),
    /// Opening or reading a descriptor failed.
    Io(std::io::Error),
    /// The kernel refused the exchange named by `kind`.
    Ioctl { kind: IoctlKind, cause: Errno },
    /// A batch of `.1` values was offered for `.0` lines; or `.1` lines were
    /// asked for at once where only from one up to `.0` can be.
    InvalidRequest(usize, usize),
    /// The chip has no line at this offset.
    Offset(u32),
}

/// A failure of one operation.  It never poisons the value it came from.
#[derive(Debug)]
pub struct Error {
    pub kind: ErrorKind,
}

impl Error {
    /// What went wrong.
    pub fn kind(&self) -> (k: &ErrorKind)
        ensures
            *k == self.kind,
    {
        &self.kind
    }
}

/// The failure of the exchange `kind` with the error number `cause`.
pub fn ioctl_err(kind: IoctlKind, cause: Errno) -> (e: Error)
    ensures
        e.kind == (ErrorKind::Ioctl { kind, cause }),
{
    Error { kind: ErrorKind::Ioctl { kind, cause } }
}

/// The failure of a batch operation that was given `n_values` values for
/// `n_lines` lines.
pub fn invalid_err(n_lines: usize, n_values: usize) -> (e: Error)
    ensures
        e.kind == ErrorKind::InvalidRequest(n_lines, n_values),
{
    Error { kind: ErrorKind::InvalidRequest(n_lines, n_values) }
}

/// The failure of asking for a line that the chip does not have.
pub fn offset_err(offset: u32) -> (e: Error)
    ensures
        e.kind == ErrorKind::Offset(offset),
{
    Error { kind: ErrorKind::Offset(offset) }
}

/// The failure of taking an event from its descriptor.
pub fn event_err(err: Errno) -> (e: Error)
    ensures
        e.kind == ErrorKind::Event(err),
{
    Error { kind: ErrorKind::Event(err) }
}

impl From<std::io::Error> for Error {
    fn from(err: std::io::Error) -> (e: Error) {
        Error { kind: ErrorKind::Io(err) }
    }
}

impl FromSpecImpl<std::io::Error> for Error {
    open spec fn obeys_from_spec() -> bool {
        true
    }

    open spec fn from_spec(err: std::io::Error) -> Error {
        Error { kind: ErrorKind::Io(err) }
    }
}

} // verus!
