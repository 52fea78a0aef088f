//! Edge events for a consumer that does not block.
//!
//! The event descriptor is put into non-blocking mode and watched by a
//! reactor.  Each time the consumer is polled for the next event, the
//! caller waits for the descriptor to become readable and then tries one
//! read.  What to make of the outcome is decided here: suspend, try again,
//! or yield an item.

use crate::errors::{Error, ErrorKind};
use crate::event::{
    decode_failure, event_of, next_item, LineEvent, LineEventHandle, LineEventHandleView,
};
use crate::ffi::{gpioevent_data, GPIOEVENT_DATA_SIZE};
use vstd::prelude::*;

verus! {

/// What came of one attempt to take an event from a watched descriptor.
#[derive(Debug)]
pub enum ReadAttempt {
    /// The reactor has not reported the descriptor readable yet.
    NotReady,
    /// Asking the reactor failed.
    WaitFailed(std::io::Error),
    /// The descriptor was reported readable, but the read found no data.
    WouldBlock,
    /// The read into a buffer of one record returned this and left this
    /// in the buffer.
    Done(Result<usize, std::io::Error>, gpioevent_data),
}

/// What the consumer is told when it polls for the next event.
#[derive(Debug)]
pub enum NextEvent {
    /// There is nothing yet: suspend until the reactor wakes the task.
    Pending,
    /// The wake was spurious: wait for the descriptor again, then read.
    Retry,
    /// The next item of the sequence, or its end.
    Ready(Option<Result<LineEvent, Error>>),
}

/// What the consumer is told after the attempt `attempt`.
///
/// A read that ran yields what the blocking sequence yields for it.  A read
/// that found no data after the descriptor was reported readable is no
/// failure: the wait is tried again.  A failure of the wait is yielded as
/// an I/O error.
pub open spec fn polled(attempt: ReadAttempt) -> NextEvent {
    match attempt {
        ReadAttempt::NotReady => NextEvent::Pending,
        ReadAttempt::WaitFailed(e) => NextEvent::Ready(
            Some(Err(Error { kind: ErrorKind::Io(e) })),
        ),
        ReadAttempt::WouldBlock => NextEvent::Retry,
        ReadAttempt::Done(read, data) => NextEvent::Ready(next_item(read, data)),
    }
}

/// The edge events of a line for a consumer that does not block.
///
/// It owns the event handle; giving it up gives up the subscription.
#[derive(Debug)]
pub struct AsyncLineEventHandle {
    handle: LineEventHandle,
}

impl View for AsyncLineEventHandle {
    type V = LineEventHandleView;

    closed spec fn view(&self) -> LineEventHandleView {
        self.handle@
    }
}

impl AsyncLineEventHandle {
    /// Wraps `handle`, whose descriptor the caller has put into
    /// non-blocking mode and handed to the reactor, with the outcome
    /// `registered`.
    ///
    /// Where the reactor refused the descriptor, this fails with that I/O
    /// error.
    pub fn new(handle: LineEventHandle, registered: Result<(), std::io::Error>) -> (r: Result<
        AsyncLineEventHandle,
        Error,
    >)
        ensures
            match r {
                Ok(wrapped) => registered is Ok && wrapped@ == handle@,
                Err(e) => registered matches Err(cause) && e.kind == ErrorKind::Io(cause),
            },
    {
        match registered {
            Ok(_) => Ok(AsyncLineEventHandle { handle }),
            Err(e) => Err(Error::from(e)),
        }
    }

    /// What to tell the consumer that polls for the next event, after the
    /// attempt `attempt` to take one from the descriptor.
    pub fn poll_next(&mut self, attempt: ReadAttempt) -> (r: NextEvent)
        ensures
            final(self)@ == old(self)@,
            r == polled(attempt),
    {
        match attempt {
            ReadAttempt::NotReady => NextEvent::Pending,
            ReadAttempt::WaitFailed(e) => NextEvent::Ready(Some(Err(Error::from(e)))),
            ReadAttempt::WouldBlock => NextEvent::Retry,
            ReadAttempt::Done(read, data) => NextEvent::Ready(self.handle.next(read, data)),
        }
    }

    /// The event handle inside.
    pub fn as_ref(&self) -> (handle: &LineEventHandle)
        ensures
            handle@ == self@,
    {
        &self.handle
    }
}

/// A read that brought some bytes, but not a whole record, is reported once
/// as a decode failure, by the blocking sequence, to a caller who asks for
/// one event, and to the consumer that does not block.  None of them makes
/// up an event.
pub proof fn lemma_short_read_is_reported(n: usize, data: gpioevent_data)
    requires
        0 < n < GPIOEVENT_DATA_SIZE,
    ensures
        event_of(Ok(n), data) == Err::<LineEvent, Error>(decode_failure()),
        next_item(Ok(n), data) == Some(Err::<LineEvent, Error>(decode_failure())),
        polled(ReadAttempt::Done(Ok(n), data)) == NextEvent::Ready(
            Some(Err(decode_failure())),
        ),
{
}

/// The reads of a descriptor that delivers the records `records` whole and
/// is then found closed.
pub open spec fn delivery(records: Seq<gpioevent_data>) -> Seq<
    (Result<usize, std::io::Error>, gpioevent_data),
> {
    Seq::new(
        records.len() + 1,
        |i: int|
            if i < records.len() {
                (Ok(GPIOEVENT_DATA_SIZE), records[i])
            } else {
                (Ok(0usize), gpioevent_data { timestamp: 0, id: 0 })
            },
    )
}

/// The events of `records`, in order.
pub open spec fn events_of(records: Seq<gpioevent_data>) -> Seq<Result<LineEvent, Error>> {
    Seq::new(records.len(), |i: int| Ok(LineEvent(records[i])))
}

/// The items that the blocking sequence yields over the reads `reads`, one
/// for each read up to the read at which it ends.
pub open spec fn yielded(reads: Seq<(Result<usize, std::io::Error>, gpioevent_data)>) -> Seq<
    Result<LineEvent, Error>,
>
    decreases reads.len(),
{
    if reads.len() == 0 {
        Seq::empty()
    } else {
        match next_item(reads[0].0, reads[0].1) {
            None => Seq::empty(),
            Some(item) => seq![item] + yielded(reads.drop_first()),
        }
    }
}

/// The items that the consumer that does not block is given over the
/// attempts `attempts`, up to the attempt at which the sequence ends.  An
/// attempt that makes it suspend or try again gives no item.
pub open spec fn polled_items(attempts: Seq<ReadAttempt>) -> Seq<Result<LineEvent, Error>>
    decreases attempts.len(),
{
    if attempts.len() == 0 {
        Seq::empty()
    } else {
        match polled(attempts[0]) {
            NextEvent::Pending => polled_items(attempts.drop_first()),
            NextEvent::Retry => polled_items(attempts.drop_first()),
            NextEvent::Ready(Some(item)) => seq![item] + polled_items(attempts.drop_first()),
            NextEvent::Ready(None) => Seq::empty(),
        }
    }
}

/// The reads that ran among the attempts `attempts`, in order.
pub open spec fn reads_among(attempts: Seq<ReadAttempt>) -> Seq<
    (Result<usize, std::io::Error>, gpioevent_data),
>
    decreases attempts.len(),
{
    if attempts.len() == 0 {
        Seq::empty()
    } else {
        match attempts[0] {
            ReadAttempt::Done(read, data) => seq![(read, data)] + reads_among(
                attempts.drop_first(),
            ),
            _ => reads_among(attempts.drop_first()),
        }
    }
}

/// Whether the wait for the descriptor never failed among `attempts`.
pub open spec fn waits_succeeded(attempts: Seq<ReadAttempt>) -> bool {
    forall|i: int| 0 <= i < attempts.len() ==> !(attempts[i] is WaitFailed)
}

/// A descriptor that delivers some records whole and is then found closed
/// gives the blocking sequence one event for each record, in order, and then
/// the end: nothing is lost, added or reordered.
pub proof fn lemma_delivery_yields_events(records: Seq<gpioevent_data>)
    ensures
        yielded(delivery(records)) == events_of(records),
    decreases records.len(),
{
    if records.len() > 0 {
        let rest = records.drop_first();
        lemma_delivery_yields_events(rest);
        assert(delivery(records).drop_first() =~= delivery(rest));
    }
}

/// The consumer that does not block is given what the blocking sequence
/// yields over the reads that ran, however often it had to suspend and
/// however many wakes were spurious, as long as no wait failed.
pub proof fn lemma_polled_as_blocking(attempts: Seq<ReadAttempt>)
    requires
        waits_succeeded(attempts),
    ensures
        polled_items(attempts) == yielded(reads_among(attempts)),
    decreases attempts.len(),
{
    if attempts.len() > 0 {
        let rest = attempts.drop_first();
        lemma_polled_as_blocking(rest);
        if attempts[0] is Done {
            assert(reads_among(attempts).drop_first() =~= reads_among(rest));
        }
    }
}

/// A descriptor that delivers some records whole and is then found closed
/// gives the blocking sequence and the consumer that does not block alike
/// one event for each record, in order, and then the end.
pub proof fn lemma_event_round_trip(records: Seq<gpioevent_data>, attempts: Seq<ReadAttempt>)
    requires
        waits_succeeded(attempts),
        reads_among(attempts) == delivery(records),
    ensures
        yielded(delivery(records)) == events_of(records),
        polled_items(attempts) == events_of(records),
{
    lemma_delivery_yields_events(records);
    lemma_polled_as_blocking(attempts);
}

} // verus!
