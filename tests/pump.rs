use tlsecho::error::EchoError;
use tlsecho::pump::{Action, Event, Pump, MAX_ITERS};

/// A session stand-in: completes after `reads_needed` reads and
/// `writes_needed` writes; the flags make it never complete or make one
/// kind of operation fail.
struct Mock {
    reads_needed: u32,
    writes_needed: u32,
    reads: u32,
    writes: u32,
    never_completes: bool,
    read_fails: bool,
    process_fails: bool,
    write_fails: bool,
    wants_read_always: bool,
    trace: Vec<Action>,
}

impl Mock {
    fn new(reads_needed: u32, writes_needed: u32) -> Mock {
        Mock {
            reads_needed,
            writes_needed,
            reads: 0,
            writes: 0,
            never_completes: false,
            read_fails: false,
            process_fails: false,
            write_fails: false,
            wants_read_always: false,
            trace: Vec::new(),
        }
    }

    fn handshaking(&self) -> bool {
        self.never_completes || self.reads < self.reads_needed || self.writes < self.writes_needed
    }

    fn answer(&mut self, a: Action) -> Event {
        self.trace.push(a);
        match a {
            Action::AskHandshaking => Event::Handshaking(self.handshaking()),
            Action::AskWantsRead => {
                Event::WantsRead(self.wants_read_always || self.reads < self.reads_needed)
            }
            Action::ReadTls => {
                self.reads += 1;
                Event::TlsRead(!self.read_fails)
            }
            Action::ProcessPackets => Event::PacketsProcessed(!self.process_fails),
            Action::AskWantsWrite => Event::WantsWrite(self.writes < self.writes_needed),
            Action::WriteTls => {
                self.writes += 1;
                Event::TlsWritten(!self.write_fails)
            }
            Action::Complete | Action::Fail(_) => unreachable!(),
        }
    }
}

/// Runs the pump against the mock until it finishes; returns its outcome.
fn drive(pump: &mut Pump, mock: &mut Mock) -> Result<(), EchoError> {
    let mut action = pump.pending();
    loop {
        match action {
            Action::Complete => return Ok(()),
            Action::Fail(e) => return Err(e),
            a => {
                let ev = mock.answer(a);
                action = pump.step(ev);
            }
        }
    }
}

fn iterations(p: &Pump) -> u32 {
    p.bound - p.remaining
}

#[test]
fn never_completing_session_times_out_within_bound() {
    let mut mock = Mock::new(0, 0);
    mock.never_completes = true;
    mock.wants_read_always = true;
    let mut pump = Pump::new(5);
    assert_eq!(drive(&mut pump, &mut mock), Err(EchoError::HandshakeTimeout { bound: 5 }));
    assert_eq!(iterations(&pump), 5);
    let entries = mock.trace.iter().filter(|a| **a == Action::AskHandshaking).count();
    assert_eq!(entries, 6);
    assert_eq!(mock.reads, 5);
}

#[test]
fn default_bound_is_thirty_two() {
    let mut mock = Mock::new(0, 0);
    mock.never_completes = true;
    let mut pump = Pump::with_default_bound();
    assert_eq!(MAX_ITERS, 32);
    assert_eq!(drive(&mut pump, &mut mock), Err(EchoError::HandshakeTimeout { bound: 32 }));
    assert_eq!(iterations(&pump), 32);
}

#[test]
fn zero_bound_fails_at_first_check() {
    let mut mock = Mock::new(1, 0);
    let mut pump = Pump::new(0);
    assert_eq!(drive(&mut pump, &mut mock), Err(EchoError::HandshakeTimeout { bound: 0 }));
    assert_eq!(mock.trace, vec![Action::AskHandshaking]);
}

#[test]
fn bound_one_against_two_iterations_times_out() {
    let mut mock = Mock::new(2, 0);
    let mut pump = Pump::new(1);
    assert_eq!(drive(&mut pump, &mut mock), Err(EchoError::HandshakeTimeout { bound: 1 }));
    assert_eq!(mock.reads, 1);
}

#[test]
fn bound_two_against_two_iterations_completes() {
    let mut mock = Mock::new(2, 0);
    let mut pump = Pump::new(2);
    assert_eq!(drive(&mut pump, &mut mock), Ok(()));
    assert_eq!(iterations(&pump), 2);
}

#[test]
fn completes_within_reads_plus_writes_iterations() {
    let mut mock = Mock::new(3, 2);
    let mut pump = Pump::new(MAX_ITERS);
    assert_eq!(drive(&mut pump, &mut mock), Ok(()));
    assert!(iterations(&pump) <= 5);
    assert_eq!(iterations(&pump), 3);
    assert_eq!((mock.reads, mock.writes), (3, 2));
    // 5 actions per iteration with a read, 2 per write, and the final check.
    assert_eq!(mock.trace.len(), 5 * 3 + 2 * 2 + 1);
}

#[test]
fn writes_only_session_completes_in_one_iteration() {
    let mut mock = Mock::new(0, 3);
    let mut pump = Pump::new(MAX_ITERS);
    assert_eq!(drive(&mut pump, &mut mock), Ok(()));
    assert_eq!(iterations(&pump), 1);
    assert_eq!(mock.trace.len(), 2 * 3 + 4);
}

#[test]
fn already_established_session_needs_no_work() {
    let mut mock = Mock::new(0, 0);
    let mut pump = Pump::new(MAX_ITERS);
    assert_eq!(drive(&mut pump, &mut mock), Ok(()));
    assert_eq!(iterations(&pump), 0);
    assert_eq!(mock.trace, vec![Action::AskHandshaking]);
}

#[test]
fn reads_and_writes_follow_their_questions() {
    let mut mock = Mock::new(2, 3);
    let mut pump = Pump::new(MAX_ITERS);
    assert_eq!(drive(&mut pump, &mut mock), Ok(()));
    let t = &mock.trace;
    for i in 0..t.len() {
        if t[i] == Action::ReadTls {
            assert_eq!(t[i - 1], Action::AskWantsRead);
            assert_eq!(t[i + 1], Action::ProcessPackets);
        }
        if t[i] == Action::WriteTls {
            assert_eq!(t[i - 1], Action::AskWantsWrite);
        }
    }
    let expected_first_iteration = vec![
        Action::AskHandshaking,
        Action::AskWantsRead,
        Action::ReadTls,
        Action::ProcessPackets,
        Action::AskWantsWrite,
        Action::WriteTls,
        Action::AskWantsWrite,
        Action::WriteTls,
        Action::AskWantsWrite,
        Action::WriteTls,
        Action::AskWantsWrite,
        Action::AskHandshaking,
    ];
    assert_eq!(t[..12].to_vec(), expected_first_iteration);
}

#[test]
fn no_read_when_not_wanted() {
    let mut pump = Pump::new(4);
    assert_eq!(pump.step(Event::Handshaking(true)), Action::AskWantsRead);
    assert_eq!(pump.step(Event::WantsRead(false)), Action::AskWantsWrite);
    assert_eq!(pump.step(Event::WantsWrite(false)), Action::AskHandshaking);
    assert_eq!(pump.remaining, 3);
}

#[test]
fn read_failure_is_io_error() {
    let mut mock = Mock::new(1, 1);
    mock.read_fails = true;
    let mut pump = Pump::new(MAX_ITERS);
    assert_eq!(drive(&mut pump, &mut mock), Err(EchoError::HandshakeIoError));
    assert_eq!(mock.writes, 0);
}

#[test]
fn rejected_records_are_protocol_error() {
    let mut mock = Mock::new(1, 1);
    mock.process_fails = true;
    let mut pump = Pump::new(MAX_ITERS);
    assert_eq!(drive(&mut pump, &mut mock), Err(EchoError::HandshakeProtocolError));
    assert_eq!(mock.writes, 0);
    assert_eq!(*mock.trace.last().unwrap(), Action::ProcessPackets);
}

#[test]
fn write_failure_is_io_error() {
    let mut mock = Mock::new(1, 2);
    mock.write_fails = true;
    let mut pump = Pump::new(MAX_ITERS);
    assert_eq!(drive(&mut pump, &mut mock), Err(EchoError::HandshakeIoError));
    assert_eq!(mock.writes, 1);
}

#[test]
fn unexpected_event_is_ignored() {
    let mut pump = Pump::new(3);
    let before = pump;
    assert_eq!(pump.step(Event::TlsWritten(true)), Action::AskHandshaking);
    assert_eq!(pump, before);
}

#[test]
fn finished_pump_stays_finished() {
    let mut pump = Pump::new(3);
    assert_eq!(pump.step(Event::Handshaking(false)), Action::Complete);
    assert_eq!(pump.step(Event::Handshaking(true)), Action::Complete);
    assert_eq!(pump.step(Event::WantsRead(true)), Action::Complete);
    assert_eq!(pump.remaining, 3);
}
