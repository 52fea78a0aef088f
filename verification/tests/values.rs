use gpio_cdev::ffi::{
    gpiochip_info, gpiohandle_data, gpiohandle_request, gpiohandle_set_line_values_ioctl,
};
use gpio_cdev::{Chip, ErrorKind, IoctlKind, LineHandle, LineRequestFlags, MultiLineHandle};
use nix::errno::Errno;

/// A stand-in for the kernel side of one chip: who holds which line, and
/// the level of each line.
struct Board {
    holder: Vec<Option<i32>>,
    level: Vec<u8>,
    grants: Vec<(i32, Vec<u32>, bool)>,
    next_fd: i32,
    exchanges: usize,
}

impl Board {
    fn with_lines(n: usize) -> Board {
        Board { holder: vec![None; n], level: vec![0; n], grants: Vec::new(), next_fd: 10, exchanges: 0 }
    }

    fn describe(&self) -> gpiochip_info {
        let mut name = [0u8; 32];
        name[..9].copy_from_slice(b"gpiochip0");
        gpiochip_info { name, label: [0; 32], lines: self.holder.len() as u32 }
    }

    fn line_handle(&mut self, mut request: gpiohandle_request) -> Result<gpiohandle_request, Errno> {
        self.exchanges += 1;
        let n = request.lines as usize;
        if n == 0 || n > 64 {
            return Err(Errno::EINVAL);
        }
        let offsets: Vec<u32> = request.lineoffsets[..n].to_vec();
        for (i, o) in offsets.iter().enumerate() {
            if *o as usize >= self.holder.len() {
                return Err(Errno::EINVAL);
            }
            if self.holder[*o as usize].is_some() || offsets[..i].contains(o) {
                return Err(Errno::EBUSY);
            }
        }
        let output = request.flags & 0x02 != 0;
        let fd = self.next_fd;
        self.next_fd += 1;
        for (i, o) in offsets.iter().enumerate() {
            self.holder[*o as usize] = Some(fd);
            if output {
                self.level[*o as usize] = (request.default_values[i] != 0) as u8;
            }
        }
        self.grants.push((fd, offsets, output));
        request.fd = fd;
        Ok(request)
    }

    fn get_values(&mut self, fd: i32, mut data: gpiohandle_data) -> Result<gpiohandle_data, Errno> {
        self.exchanges += 1;
        let grant = self.grants.iter().find(|g| g.0 == fd).ok_or(Errno::EBADF)?;
        for (i, o) in grant.1.iter().enumerate() {
            data.values[i] = self.level[*o as usize];
        }
        Ok(data)
    }

    fn set_values(&mut self, fd: i32, data: gpiohandle_data) -> Result<gpiohandle_data, Errno> {
        self.exchanges += 1;
        let grant = self.grants.iter().find(|g| g.0 == fd).ok_or(Errno::EBADF)?.clone();
        if !grant.2 {
            return Err(Errno::EPERM);
        }
        for (i, o) in grant.1.iter().enumerate() {
            self.level[*o as usize] = (data.values[i] != 0) as u8;
        }
        Ok(data)
    }

    fn close(&mut self, fd: i32) {
        self.grants.retain(|g| g.0 != fd);
        for h in self.holder.iter_mut() {
            if *h == Some(fd) {
                *h = None;
            }
        }
    }
}

fn open(board: &Board) -> Chip {
    Chip::new("/dev/gpiochip0", 3, Ok(board.describe())).unwrap()
}

fn tagged_as(err: &gpio_cdev::Error) -> (IoctlKind, Errno) {
    match err.kind() {
        ErrorKind::Ioctl { kind, cause } => (*kind, *cause),
        other => panic!("unexpected error: {:?}", other),
    }
}

#[test]
fn outputs_start_at_their_defaults_and_follow_what_is_set() {
    let mut board = Board::with_lines(8);
    let mut chip = open(&board);
    let lines = chip.get_lines(&[0, 2, 4]).unwrap();
    let request = lines.request(LineRequestFlags::output(), &[1, 0, 1], "test").unwrap();
    let handle = MultiLineHandle::new(&lines, board.line_handle(request)).unwrap();
    assert_eq!(handle.num_lines(), 3);
    assert_eq!(handle.as_raw_fd(), 10);

    let reply = board.get_values(handle.as_raw_fd(), gpiohandle_data::zeroed());
    assert_eq!(handle.get_values(reply).unwrap(), vec![1, 0, 1]);

    let data = handle.set_values(&[0, 1, 0]).unwrap();
    gpiohandle_set_line_values_ioctl(board.set_values(handle.as_raw_fd(), data)).unwrap();
    let reply = board.get_values(handle.as_raw_fd(), gpiohandle_data::zeroed());
    assert_eq!(handle.get_values(reply).unwrap(), vec![0, 1, 0]);
    assert_eq!(board.level, vec![0, 0, 1, 0, 0, 0, 0, 0]);
}

#[test]
fn values_that_are_set_are_the_values_that_are_got() {
    let mut board = Board::with_lines(8);
    let mut chip = open(&board);
    let lines = chip.get_lines(&[7, 1, 3]).unwrap();
    let request = lines.request(LineRequestFlags::output(), &[0, 0, 0], "roundtrip").unwrap();
    let handle = MultiLineHandle::new(&lines, board.line_handle(request)).unwrap();
    for pattern in 0u8..8 {
        let values = [pattern & 1, (pattern >> 1) & 1, (pattern >> 2) & 1];
        let data = handle.set_values(&values).unwrap();
        gpiohandle_set_line_values_ioctl(board.set_values(handle.as_raw_fd(), data)).unwrap();
        let reply = board.get_values(handle.as_raw_fd(), gpiohandle_data::zeroed());
        assert_eq!(handle.get_values(reply).unwrap(), values.to_vec());
    }
}

#[test]
fn record_of_values_carries_them_in_order_and_zero_behind() {
    let mut board = Board::with_lines(8);
    let mut chip = open(&board);
    let lines = chip.get_lines(&[0, 2, 4]).unwrap();
    let request = lines.request(LineRequestFlags::output(), &[0, 0, 0], "test").unwrap();
    let handle = MultiLineHandle::new(&lines, board.line_handle(request)).unwrap();
    let data = handle.set_values(&[1, 0, 1]).unwrap();
    let mut expected = [0u8; 64];
    expected[..3].copy_from_slice(&[1, 0, 1]);
    assert_eq!(data.values, expected);
    assert_eq!(handle.get_values(Ok(data)).unwrap(), vec![1, 0, 1]);
}

#[test]
fn values_are_reported_as_the_kernel_gave_them() {
    let mut board = Board::with_lines(8);
    let mut chip = open(&board);
    let lines = chip.get_lines(&[0, 1]).unwrap();
    let request = lines.request(LineRequestFlags::input(), &[0, 0], "test").unwrap();
    let handle = MultiLineHandle::new(&lines, board.line_handle(request)).unwrap();
    let mut data = gpiohandle_data { values: [9; 64] };
    data.values[0] = 1;
    data.values[1] = 200;
    assert_eq!(handle.get_values(Ok(data)).unwrap(), vec![1, 200]);
}

#[test]
fn wrong_number_of_values_is_refused_before_any_exchange() {
    let mut board = Board::with_lines(8);
    let mut chip = open(&board);
    let lines = chip.get_lines(&[0, 2, 4]).unwrap();
    let request = lines.request(LineRequestFlags::output(), &[1, 1, 1], "test").unwrap();
    let handle = MultiLineHandle::new(&lines, board.line_handle(request)).unwrap();
    let before = board.exchanges;
    let err = handle.set_values(&[0, 1]).unwrap_err();
    assert!(matches!(err.kind, ErrorKind::InvalidRequest(3, 2)));
    let err = handle.set_values(&[0, 1, 0, 1]).unwrap_err();
    assert!(matches!(err.kind, ErrorKind::InvalidRequest(3, 4)));
    let err = handle.set_values(&[]).unwrap_err();
    assert!(matches!(err.kind, ErrorKind::InvalidRequest(3, 0)));
    assert_eq!(board.exchanges, before);
    let reply = board.get_values(handle.as_raw_fd(), gpiohandle_data::zeroed());
    assert_eq!(handle.get_values(reply).unwrap(), vec![1, 1, 1]);
}

#[test]
fn mismatched_defaults_issue_no_request() {
    let mut board = Board::with_lines(8);
    let mut chip = open(&board);
    let lines = chip.get_lines(&[0, 2, 4]).unwrap();
    let err = lines.request(LineRequestFlags::output(), &[1, 0], "test").unwrap_err();
    assert!(matches!(err.kind, ErrorKind::InvalidRequest(3, 2)));
    assert_eq!(board.exchanges, 0);
    assert!(board.holder.iter().all(|h| h.is_none()));
    let request = lines.request(LineRequestFlags::output(), &[1, 0, 1], "test").unwrap();
    assert!(MultiLineHandle::new(&lines, board.line_handle(request)).is_ok());
}

#[test]
fn line_that_is_held_cannot_be_requested_again_until_it_is_released() {
    let mut board = Board::with_lines(8);
    let mut chip = open(&board);
    let line = chip.get_line(4).unwrap();
    let flags = LineRequestFlags::output();

    let first = LineHandle::new(&line, flags, board.line_handle(line.request(flags, 1, "first")));
    let first = first.unwrap();

    let second = LineHandle::new(&line, flags, board.line_handle(line.request(flags, 0, "second")));
    assert_eq!(tagged_as(&second.unwrap_err()), (IoctlKind::LineHandle, Errno::EBUSY));

    let lines = chip.get_lines(&[3, 4]).unwrap();
    let batch = lines.request(flags, &[0, 0], "batch").unwrap();
    let batch = MultiLineHandle::new(&lines, board.line_handle(batch));
    assert_eq!(tagged_as(&batch.unwrap_err()), (IoctlKind::LineHandle, Errno::EBUSY));

    // A failed request harms neither the chip nor the handle that holds the line.
    let reply = board.get_values(first.as_raw_fd(), gpiohandle_data::zeroed());
    assert_eq!(first.get_value(reply).unwrap(), 1);
    assert!(chip.get_line(5).is_ok());

    board.close(first.as_raw_fd());
    let third = LineHandle::new(&line, flags, board.line_handle(line.request(flags, 0, "third")));
    let third = third.unwrap();
    assert_eq!(third.line().offset(), 4);
    let reply = board.get_values(third.as_raw_fd(), gpiohandle_data::zeroed());
    assert_eq!(third.get_value(reply).unwrap(), 0);
}

#[test]
fn single_line_follows_what_is_set() {
    let mut board = Board::with_lines(4);
    let mut chip = open(&board);
    let line = chip.get_line(2).unwrap();
    let flags = LineRequestFlags::output() | LineRequestFlags::active_low();
    let handle =
        LineHandle::new(&line, flags, board.line_handle(line.request(flags, 1, "drive"))).unwrap();
    assert_eq!(handle.flags(), flags);
    assert_eq!(handle.line().offset(), 2);
    let reply = board.get_values(handle.as_raw_fd(), gpiohandle_data::zeroed());
    assert_eq!(handle.get_value(reply).unwrap(), 1);
    for value in [0u8, 1, 1, 0] {
        let data = handle.set_value(value);
        let mut expected = [0u8; 64];
        expected[0] = value;
        assert_eq!(data.values, expected);
        gpiohandle_set_line_values_ioctl(board.set_values(handle.as_raw_fd(), data)).unwrap();
        let reply = board.get_values(handle.as_raw_fd(), gpiohandle_data::zeroed());
        assert_eq!(handle.get_value(reply).unwrap(), value);
    }
}

#[test]
fn setting_an_input_surfaces_the_refusal_of_the_kernel() {
    let mut board = Board::with_lines(4);
    let mut chip = open(&board);
    let line = chip.get_line(1).unwrap();
    let flags = LineRequestFlags::input();
    let handle =
        LineHandle::new(&line, flags, board.line_handle(line.request(flags, 0, "read"))).unwrap();
    let data = handle.set_value(1);
    let err = gpiohandle_set_line_values_ioctl(board.set_values(handle.as_raw_fd(), data));
    assert_eq!(tagged_as(&err.unwrap_err()), (IoctlKind::SetLine, Errno::EPERM));
    // The handle is as usable as before.
    let reply = board.get_values(handle.as_raw_fd(), gpiohandle_data::zeroed());
    assert_eq!(handle.get_value(reply).unwrap(), 0);
}

#[test]
fn failed_reads_of_values_are_tagged_as_such() {
    let mut board = Board::with_lines(4);
    let mut chip = open(&board);
    let lines = chip.get_lines(&[0, 1]).unwrap();
    let request = lines.request(LineRequestFlags::input(), &[0, 0], "x").unwrap();
    let handle = MultiLineHandle::new(&lines, board.line_handle(request)).unwrap();
    let err = handle.get_values(Err(Errno::EBADF)).unwrap_err();
    assert_eq!(tagged_as(&err), (IoctlKind::GetLine, Errno::EBADF));

    let line = chip.get_line(3).unwrap();
    let flags = LineRequestFlags::input();
    let single =
        LineHandle::new(&line, flags, board.line_handle(line.request(flags, 0, "y"))).unwrap();
    let err = single.get_value(Err(Errno::EIO)).unwrap_err();
    assert_eq!(tagged_as(&err), (IoctlKind::GetLine, Errno::EIO));
}

#[test]
fn handle_keeps_the_lines_it_was_granted_for() {
    let mut board = Board::with_lines(8);
    let mut chip = open(&board);
    let lines = chip.get_lines(&[5, 6]).unwrap();
    let request = lines.request(LineRequestFlags::input(), &[0, 0], "x").unwrap();
    let handle = MultiLineHandle::new(&lines, board.line_handle(request)).unwrap();
    assert_eq!(handle.lines().len(), 2);
    assert_eq!(handle.lines().index(0).offset(), 5);
    assert_eq!(handle.lines().index(1).offset(), 6);
    assert_eq!(handle.lines().chip().num_lines(), 8);
    let copy = lines.clone();
    assert_eq!(copy.len(), 2);
    assert_eq!(copy.index(1).offset(), 6);
}
