use gpio_cdev::ffi::{gpiochip_info, gpioevent_data, gpioevent_request, gpiohandle_data};
use gpio_cdev::{
    AsyncLineEventHandle, Chip, Error, ErrorKind, EventRequestFlags, EventType, IoctlKind,
    LineEvent, LineEventHandle, LineRequestFlags, NextEvent, ReadAttempt,
};
use nix::errno::Errno;

fn event_handle(fd: i32) -> LineEventHandle {
    let mut name = [0u8; 32];
    name[..9].copy_from_slice(b"gpiochip0");
    let mut chip =
        Chip::new("/dev/gpiochip0", 3, Ok(gpiochip_info { name, label: [0; 32], lines: 8 }))
            .unwrap();
    let line = chip.get_line(6).unwrap();
    let mut request =
        line.events(LineRequestFlags::input(), EventRequestFlags::both_edges(), "events");
    request.fd = fd;
    LineEventHandle::new(&line, Ok(request)).unwrap()
}

fn record(timestamp: u64, id: u32) -> gpioevent_data {
    gpioevent_data { timestamp, id }
}

fn is_decode_failure(err: &Error) -> bool {
    matches!(err.kind, ErrorKind::Event(Errno::EIO))
}

/// A descriptor that delivers the given reads one after the other.
struct Script {
    reads: Vec<(Result<usize, i32>, gpioevent_data)>,
    at: usize,
}

impl Script {
    fn of_records(records: &[gpioevent_data]) -> Script {
        let mut reads: Vec<(Result<usize, i32>, gpioevent_data)> =
            records.iter().map(|r| (Ok(16), *r)).collect();
        reads.push((Ok(0), gpioevent_data::zeroed()));
        Script { reads, at: 0 }
    }

    fn read(&mut self) -> (Result<usize, std::io::Error>, gpioevent_data) {
        let (n, data) = self.reads[self.at];
        self.at += 1;
        (n.map_err(std::io::Error::from_raw_os_error), data)
    }
}

#[test]
fn event_handle_keeps_line_and_descriptor() {
    let handle = event_handle(12);
    assert_eq!(handle.as_raw_fd(), 12);
    assert_eq!(handle.line().offset(), 6);
}

#[test]
fn event_handle_that_the_kernel_refuses_fails_as_line_event() {
    let mut name = [0u8; 32];
    name[..9].copy_from_slice(b"gpiochip0");
    let mut chip =
        Chip::new("/dev/gpiochip0", 3, Ok(gpiochip_info { name, label: [0; 32], lines: 8 }))
            .unwrap();
    let line = chip.get_line(6).unwrap();
    let reply: Result<gpioevent_request, Errno> = Err(Errno::EBUSY);
    let err = LineEventHandle::new(&line, reply).unwrap_err();
    match err.kind {
        ErrorKind::Ioctl { kind, cause } => {
            assert_eq!(kind, IoctlKind::LineEvent);
            assert_eq!(cause, Errno::EBUSY);
        }
        other => panic!("unexpected error: {:?}", other),
    }
}

#[test]
fn event_has_the_timestamp_of_its_record() {
    assert_eq!(LineEvent(record(1_234_567_890_123, 1)).timestamp(), 1_234_567_890_123);
    assert_eq!(LineEvent(record(0, 2)).timestamp(), 0);
    assert_eq!(LineEvent(record(u64::MAX, 2)).timestamp(), u64::MAX);
}

#[test]
fn event_id_one_is_rising_and_any_other_is_falling() {
    assert_eq!(LineEvent(record(5, 1)).event_type(), EventType::RisingEdge);
    assert_eq!(LineEvent(record(5, 2)).event_type(), EventType::FallingEdge);
    assert_eq!(LineEvent(record(5, 0)).event_type(), EventType::FallingEdge);
    assert_eq!(LineEvent(record(5, 3)).event_type(), EventType::FallingEdge);
    assert_eq!(LineEvent(record(5, u32::MAX)).event_type(), EventType::FallingEdge);
}

#[test]
fn whole_record_gives_its_event() {
    let mut handle = event_handle(12);
    let event = handle.get_event(Ok(16), record(77, 1)).unwrap();
    assert_eq!(event.timestamp(), 77);
    assert_eq!(event.event_type(), EventType::RisingEdge);
    let event = handle.read_event(Ok(16), record(78, 2)).unwrap().unwrap();
    assert_eq!(event.timestamp(), 78);
    assert_eq!(event.event_type(), EventType::FallingEdge);
}

#[test]
fn short_read_is_one_decode_failure_and_no_event() {
    for n in 1usize..16 {
        let mut handle = event_handle(12);
        let err = handle.get_event(Ok(n), record(77, 1)).unwrap_err();
        assert!(is_decode_failure(&err));
        assert!(handle.read_event(Ok(n), record(77, 1)).unwrap().is_none());
        match handle.next(Ok(n), record(77, 1)) {
            Some(Err(err)) => assert!(is_decode_failure(&err)),
            other => panic!("unexpected item: {:?}", other),
        }
        let mut wrapped = AsyncLineEventHandle::new(handle, Ok(())).unwrap();
        match wrapped.poll_next(ReadAttempt::Done(Ok(n), record(77, 1))) {
            NextEvent::Ready(Some(Err(err))) => assert!(is_decode_failure(&err)),
            other => panic!("unexpected outcome: {:?}", other),
        }
    }
}

#[test]
fn read_of_more_than_a_record_is_a_decode_failure_too() {
    let mut handle = event_handle(12);
    let err = handle.get_event(Ok(17), record(77, 1)).unwrap_err();
    assert!(is_decode_failure(&err));
    assert!(handle.read_event(Ok(usize::MAX), record(77, 1)).unwrap().is_none());
}

#[test]
fn read_of_nothing_fails_the_caller_who_asked_for_an_event() {
    let mut handle = event_handle(12);
    let err = handle.get_event(Ok(0), record(0, 0)).unwrap_err();
    assert!(is_decode_failure(&err));
}

#[test]
fn read_of_nothing_ends_the_sequence() {
    let mut handle = event_handle(12);
    assert!(handle.next(Ok(0), record(0, 0)).is_none());
    let mut wrapped = AsyncLineEventHandle::new(handle, Ok(())).unwrap();
    assert!(matches!(
        wrapped.poll_next(ReadAttempt::Done(Ok(0), record(0, 0))),
        NextEvent::Ready(None)
    ));
}

#[test]
fn failed_read_is_an_io_error() {
    let mut handle = event_handle(12);
    let err = handle.get_event(Err(std::io::Error::from_raw_os_error(9)), record(1, 1));
    match err.unwrap_err().kind {
        ErrorKind::Io(e) => assert_eq!(e.raw_os_error(), Some(9)),
        other => panic!("unexpected error: {:?}", other),
    }
    let err = handle.read_event(Err(std::io::Error::from_raw_os_error(9)), record(1, 1));
    assert_eq!(err.unwrap_err().raw_os_error(), Some(9));
    match handle.next(Err(std::io::Error::from_raw_os_error(4)), record(1, 1)) {
        Some(Err(Error { kind: ErrorKind::Io(e) })) => assert_eq!(e.raw_os_error(), Some(4)),
        other => panic!("unexpected item: {:?}", other),
    }
}

#[test]
fn blocking_sequence_yields_one_event_for_each_record_and_then_ends() {
    let records: Vec<gpioevent_data> =
        (0..10u64).map(|i| record(1000 + i, if i % 3 == 0 { 1 } else { 2 })).collect();
    let mut script = Script::of_records(&records);
    let mut handle = event_handle(12);
    let mut events = Vec::new();
    loop {
        let (read, data) = script.read();
        match handle.next(read, data) {
            Some(item) => events.push(item.unwrap()),
            None => break,
        }
    }
    assert_eq!(script.at, 11);
    assert_eq!(events.len(), 10);
    for (i, event) in events.iter().enumerate() {
        assert_eq!(event.timestamp(), 1000 + i as u64);
        let expected = if i % 3 == 0 { EventType::RisingEdge } else { EventType::FallingEdge };
        assert_eq!(event.event_type(), expected);
    }
}

#[test]
fn asynchronous_adaptor_yields_the_same_events_and_then_ends() {
    let records: Vec<gpioevent_data> =
        (0..10u64).map(|i| record(1000 + i, if i % 3 == 0 { 1 } else { 2 })).collect();
    let mut script = Script::of_records(&records);
    let mut wrapped = AsyncLineEventHandle::new(event_handle(12), Ok(())).unwrap();
    let mut events = Vec::new();
    let mut suspended = 0;
    let mut retried = 0;
    let mut turn = 0;
    loop {
        // The reactor is slow every third turn, and wakes in vain every fifth.
        turn += 1;
        let attempt = if turn % 3 == 0 {
            ReadAttempt::NotReady
        } else if turn % 5 == 0 {
            ReadAttempt::WouldBlock
        } else {
            let (read, data) = script.read();
            ReadAttempt::Done(read, data)
        };
        match wrapped.poll_next(attempt) {
            NextEvent::Pending => suspended += 1,
            NextEvent::Retry => retried += 1,
            NextEvent::Ready(Some(item)) => events.push(item.unwrap()),
            NextEvent::Ready(None) => break,
        }
    }
    assert_eq!(script.at, 11);
    assert!(suspended > 0 && retried > 0);
    assert_eq!(events.len(), 10);
    for (i, event) in events.iter().enumerate() {
        assert_eq!(event.timestamp(), 1000 + i as u64);
        let expected = if i % 3 == 0 { EventType::RisingEdge } else { EventType::FallingEdge };
        assert_eq!(event.event_type(), expected);
    }
}

#[test]
fn empty_delivery_ends_both_sequences_at_once() {
    let mut script = Script::of_records(&[]);
    let mut handle = event_handle(12);
    let (read, data) = script.read();
    assert!(handle.next(read, data).is_none());
    let mut script = Script::of_records(&[]);
    let mut wrapped = AsyncLineEventHandle::new(handle, Ok(())).unwrap();
    let (read, data) = script.read();
    assert!(matches!(wrapped.poll_next(ReadAttempt::Done(read, data)), NextEvent::Ready(None)));
}

#[test]
fn adaptor_suspends_while_the_descriptor_is_not_readable() {
    let mut wrapped = AsyncLineEventHandle::new(event_handle(12), Ok(())).unwrap();
    assert!(matches!(wrapped.poll_next(ReadAttempt::NotReady), NextEvent::Pending));
    assert!(matches!(wrapped.poll_next(ReadAttempt::NotReady), NextEvent::Pending));
}

#[test]
fn adaptor_takes_a_wake_without_data_as_spurious() {
    let mut wrapped = AsyncLineEventHandle::new(event_handle(12), Ok(())).unwrap();
    assert!(matches!(wrapped.poll_next(ReadAttempt::WouldBlock), NextEvent::Retry));
    match wrapped.poll_next(ReadAttempt::Done(Ok(16), record(5, 1))) {
        NextEvent::Ready(Some(Ok(event))) => {
            assert_eq!(event.timestamp(), 5);
            assert_eq!(event.event_type(), EventType::RisingEdge);
        }
        other => panic!("unexpected outcome: {:?}", other),
    }
}

#[test]
fn adaptor_yields_failures_of_wait_and_read_as_io_errors() {
    let mut wrapped = AsyncLineEventHandle::new(event_handle(12), Ok(())).unwrap();
    let failed = ReadAttempt::WaitFailed(std::io::Error::from_raw_os_error(9));
    match wrapped.poll_next(failed) {
        NextEvent::Ready(Some(Err(Error { kind: ErrorKind::Io(e) }))) => {
            assert_eq!(e.raw_os_error(), Some(9))
        }
        other => panic!("unexpected outcome: {:?}", other),
    }
    let failed = ReadAttempt::Done(Err(std::io::Error::from_raw_os_error(5)), record(0, 0));
    match wrapped.poll_next(failed) {
        NextEvent::Ready(Some(Err(Error { kind: ErrorKind::Io(e) }))) => {
            assert_eq!(e.raw_os_error(), Some(5))
        }
        other => panic!("unexpected outcome: {:?}", other),
    }
}

#[test]
fn adaptor_that_the_reactor_refuses_fails_with_that_error() {
    let refused = Err(std::io::Error::from_raw_os_error(1));
    let err = AsyncLineEventHandle::new(event_handle(12), refused).unwrap_err();
    match err.kind {
        ErrorKind::Io(e) => assert_eq!(e.raw_os_error(), Some(1)),
        other => panic!("unexpected error: {:?}", other),
    }
}

#[test]
fn adaptor_gives_access_to_the_handle_inside() {
    let wrapped = AsyncLineEventHandle::new(event_handle(12), Ok(())).unwrap();
    assert_eq!(wrapped.as_ref().as_raw_fd(), 12);
    assert_eq!(wrapped.as_ref().line().offset(), 6);
}

#[test]
fn event_handle_reads_the_value_of_its_line() {
    let handle = event_handle(12);
    let mut data = gpiohandle_data::zeroed();
    data.values[0] = 1;
    data.values[1] = 1;
    assert_eq!(handle.get_value(Ok(data)).unwrap(), 1);
    assert_eq!(handle.get_value(Ok(gpiohandle_data::zeroed())).unwrap(), 0);
    let err = handle.get_value(Err(Errno::ENODEV)).unwrap_err();
    match err.kind {
        ErrorKind::Ioctl { kind, cause } => {
            assert_eq!(kind, IoctlKind::GetLine);
            assert_eq!(cause, Errno::ENODEV);
        }
        other => panic!("unexpected error: {:?}", other),
    }
}
