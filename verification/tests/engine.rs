use ts3::engine::{
    finish, resolve, stream_ended, strip_terminator, Action, Correlator, Framer, Pending, Step,
    GREETING_LINES, KEEPALIVE_SECS, NEWLINE, TERMINATOR_LEN,
};
use ts3::event::Event;
use ts3::response::Version;
use ts3::{DecodeError, Error, ErrorKind, IntErrorKind};

fn protocol_error(id: u16, msg: &str) -> Error {
    Error(ErrorKind::TS3 {
        id,
        msg: msg.to_owned(),
    })
}

fn command(text: &str, slot: u32) -> Pending<u32> {
    Pending {
        bytes: text.as_bytes().to_vec(),
        slot,
    }
}

fn nothing<T: std::fmt::Debug>(step: Step<T>) {
    assert!(step.settle.is_none(), "{:?}", step);
    assert!(step.transmit.is_none(), "{:?}", step);
}

#[test]
fn constants_of_the_engine() {
    assert_eq!(TERMINATOR_LEN, 2);
    assert_eq!(NEWLINE, b'\n');
    assert_eq!(KEEPALIVE_SECS, 60);
    assert_eq!(GREETING_LINES, 2);
}

#[test]
fn strip_terminator_drops_the_last_two_bytes() {
    assert_eq!(strip_terminator(b"error id=0 msg=ok\n\r"), b"error id=0 msg=ok");
    assert_eq!(strip_terminator(b"\n\r"), b"");
    assert_eq!(strip_terminator(b"ab"), b"");
    assert_eq!(strip_terminator(b"abc"), b"a");
}

#[test]
fn framer_takes_an_error_line_as_a_response_without_data() {
    match Framer::new().on_line(b"error id=0 msg=ok") {
        (Framer::AwaitingLine, Action::Deliver(data, error)) => {
            assert_eq!(data, b"");
            assert!(error.ok());
        }
        other => panic!("{:?}", other),
    }
}

#[test]
fn framer_pairs_data_with_the_next_line() {
    let (framer, action) = Framer::new().on_line(b"version=3.13.7 build=1 platform=Linux");
    assert!(matches!(action, Action::Wait));
    match &framer {
        Framer::AwaitingError(data) => assert_eq!(data, b"version=3.13.7 build=1 platform=Linux"),
        other => panic!("{:?}", other),
    }
    match framer.on_line(b"error id=0 msg=ok") {
        (Framer::AwaitingLine, Action::Deliver(data, error)) => {
            assert_eq!(data, b"version=3.13.7 build=1 platform=Linux");
            match error.0 {
                ErrorKind::TS3 { id, msg } => {
                    assert_eq!(id, 0);
                    assert_eq!(msg, "ok");
                }
                other => panic!("{:?}", other),
            }
        }
        other => panic!("{:?}", other),
    }
}

#[test]
fn framer_dispatches_an_event_and_stays() {
    match Framer::new().on_line(b"notifytextmessage targetmode=1 msg=hi") {
        (Framer::AwaitingLine, Action::Dispatch(Event::TextMessage(e))) => assert_eq!(e.msg, "hi"),
        other => panic!("{:?}", other),
    }
}

#[test]
fn framer_reports_an_event_that_cannot_be_read() {
    match Framer::new().on_line(b"notifytextmessage targetmode=x") {
        (Framer::AwaitingLine, Action::Report(Error(ErrorKind::ParseInt(kind)))) => {
            assert_eq!(kind, IntErrorKind::InvalidDigit)
        }
        other => panic!("{:?}", other),
    }
}

#[test]
fn framer_takes_an_unknown_event_name_as_data() {
    let (framer, action) = Framer::new().on_line(b"notifysomethingelse a=1");
    assert!(matches!(action, Action::Wait));
    match framer.on_line(b"error id=0 msg=ok") {
        (Framer::AwaitingLine, Action::Deliver(data, _)) => {
            assert_eq!(data, b"notifysomethingelse a=1")
        }
        other => panic!("{:?}", other),
    }
}

#[test]
fn framer_reports_an_error_line_that_cannot_be_read() {
    match Framer::new().on_line(b"error id=x msg=ok") {
        (Framer::AwaitingLine, Action::Report(Error(ErrorKind::ParseInt(_)))) => {}
        other => panic!("{:?}", other),
    }
    let (framer, _) = Framer::new().on_line(b"a=1");
    match framer.on_line(b"not an error line") {
        (Framer::AwaitingLine, Action::Report(Error(ErrorKind::Decode(
            DecodeError::UnexpectedEof,
        )))) => {}
        other => panic!("{:?}", other),
    }
}

#[test]
fn framer_reads_the_line_behind_data_as_its_error_line() {
    let (framer, _) = Framer::new().on_line(b"a=1");
    match framer.on_line(b"notifytextmessage msg=hi") {
        (Framer::AwaitingLine, Action::Report(_)) => {}
        other => panic!("{:?}", other),
    }
}

#[test]
fn framer_drops_the_data_when_a_read_fails() {
    let (framer, _) = Framer::new().on_line(b"a=1");
    match framer.on_failure(Error(ErrorKind::SendError)) {
        (Framer::AwaitingLine, Action::Report(Error(ErrorKind::SendError))) => {}
        other => panic!("{:?}", other),
    }
}

#[test]
fn framer_takes_a_line_with_the_bytes_that_end_it() {
    let (framer, action) = Framer::new().on_raw(b"version=3 build=1 platform=Linux\n\r");
    assert!(matches!(action, Action::Wait));
    match framer.on_raw(b"error id=0 msg=ok\n\r") {
        (Framer::AwaitingLine, Action::Deliver(data, error)) => {
            assert_eq!(data, b"version=3 build=1 platform=Linux");
            match error.0 {
                ErrorKind::TS3 { id, msg } => {
                    assert_eq!(id, 0);
                    assert_eq!(msg, "ok");
                }
                other => panic!("{:?}", other),
            }
        }
        other => panic!("{:?}", other),
    }
    match Framer::new().on_raw(b"notifytextmessage msg=hi\n\r") {
        (Framer::AwaitingLine, Action::Dispatch(Event::TextMessage(e))) => assert_eq!(e.msg, "hi"),
        other => panic!("{:?}", other),
    }
}

#[test]
fn framer_reports_what_is_too_short_to_be_a_line() {
    for raw in [b"".as_slice(), b"\r".as_slice(), b"x".as_slice()] {
        match Framer::new().on_raw(raw) {
            (Framer::AwaitingLine, Action::Report(Error(ErrorKind::Decode(
                DecodeError::UnexpectedEof,
            )))) => {}
            other => panic!("{:?}", other),
        }
        let (framer, _) = Framer::new().on_raw(b"a=1\n\r");
        match framer.on_raw(raw) {
            (Framer::AwaitingLine, Action::Report(Error(ErrorKind::Decode(
                DecodeError::UnexpectedEof,
            )))) => {}
            other => panic!("{:?}", other),
        }
    }
}

#[test]
fn framer_reads_on_behind_bad_lines() {
    let raws: [&[u8]; 9] = [
        b"\r",
        b"nospace\n\r",
        b"error id=0 msg=ok\n\r",
        b"",
        b"notifytextmessage targetmode=x\n\r",
        b"error id=x\n\r",
        b"a=1\n\r",
        b"x",
        b"error id=7 msg=late\n\r",
    ];
    let mut framer = Framer::new();
    let mut delivered = Vec::new();
    let mut reported = 0;
    for raw in raws {
        let (next, action) = framer.on_raw(raw);
        framer = next;
        match action {
            Action::Deliver(data, error) => delivered.push((data, error.ok())),
            Action::Report(_) => reported += 1,
            Action::Dispatch(_) => panic!("no event is among the lines"),
            Action::Wait => {}
        }
    }
    assert!(matches!(framer, Framer::AwaitingLine));
    assert_eq!(
        delivered,
        vec![(b"nospace".to_vec(), true), (b"".to_vec(), false)]
    );
    assert_eq!(reported, 5);
}

#[test]
fn a_read_without_bytes_is_the_end_of_the_stream() {
    assert!(stream_ended(b""));
    assert!(!stream_ended(b"\r"));
    assert!(!stream_ended(b"a=1\n\r"));
}

#[test]
fn framer_reports_a_transport_error() {
    let broken = std::io::Error::new(std::io::ErrorKind::BrokenPipe, "broken pipe");
    match Framer::new().on_failure(Error(ErrorKind::Io(broken))) {
        (Framer::AwaitingLine, Action::Report(Error(ErrorKind::Io(e)))) => {
            assert_eq!(e.kind(), std::io::ErrorKind::BrokenPipe)
        }
        other => panic!("{:?}", other),
    }
    let broken = std::io::Error::new(std::io::ErrorKind::BrokenPipe, "broken pipe");
    assert!(!Error(ErrorKind::Io(broken)).ok());
}

#[test]
fn events_between_responses_leave_the_responses_alone() {
    let lines: [&[u8]; 7] = [
        b"notifytextmessage msg=one",
        b"a=1",
        b"error id=0 msg=ok",
        b"notifyclientmoved ctid=2 clid=6",
        b"notifytextmessage targetmode=broken",
        b"error id=512 msg=invalid\\sclientID",
        b"notifytokenused clid=1",
    ];
    let mut framer = Framer::new();
    let mut delivered = Vec::new();
    let mut dispatched = 0;
    let mut reported = 0;
    for line in lines {
        let (next, action) = framer.on_line(line);
        framer = next;
        match action {
            Action::Deliver(data, error) => delivered.push((data, error.ok())),
            Action::Dispatch(_) => dispatched += 1,
            Action::Report(_) => reported += 1,
            Action::Wait => {}
        }
    }
    assert!(matches!(framer, Framer::AwaitingLine));
    assert_eq!(delivered, vec![(b"a=1".to_vec(), true), (b"".to_vec(), false)]);
    assert_eq!(dispatched, 3);
    assert_eq!(reported, 1);
}

#[test]
fn error_classification() {
    let error = Error::decode(b"error id=0 msg=ok").unwrap();
    assert!(error.ok());
    assert_eq!(resolve(b"a=1".to_vec(), error).unwrap(), b"a=1");

    let error = Error::decode(b"error id=1538 msg=invalid\\sparameter").unwrap();
    assert!(!error.ok());
    match resolve(b"a=1".to_vec(), error) {
        Err(Error(ErrorKind::TS3 { id, msg })) => {
            assert_eq!(id, 1538);
            assert_eq!(msg, "invalid parameter");
        }
        other => panic!("{:?}", other),
    }
}

#[test]
fn a_failed_command_never_gives_a_value() {
    let reply = resolve(
        b"version=3 build=1 platform=Linux".to_vec(),
        protocol_error(256, "command not found"),
    );
    match finish::<Version>(reply) {
        Err(Error(ErrorKind::TS3 { id, msg })) => {
            assert_eq!(id, 256);
            assert_eq!(msg, "command not found");
        }
        other => panic!("{:?}", other),
    }
    let reply = resolve(Vec::new(), protocol_error(1, "x"));
    assert!(matches!(
        finish::<()>(reply),
        Err(Error(ErrorKind::TS3 { id: 1, .. }))
    ));
}

#[test]
fn a_command_that_succeeded_gives_what_its_data_stands_for() {
    let reply = resolve(
        b"version=3 build=1 platform=Linux".to_vec(),
        protocol_error(0, "ok"),
    );
    let version = finish::<Version>(reply).unwrap();
    assert_eq!(version.version, "3");
    assert_eq!(version.build, 1);
    assert_eq!(finish::<()>(resolve(Vec::new(), protocol_error(0, "ok"))).unwrap(), ());
}

#[test]
fn a_payload_that_cannot_be_read_is_no_protocol_error() {
    let reply = resolve(b"build=x".to_vec(), protocol_error(0, "ok"));
    assert!(matches!(
        finish::<Version>(reply),
        Err(Error(ErrorKind::ParseInt(IntErrorKind::InvalidDigit)))
    ));
    assert!(matches!(
        finish::<Version>(Err(Error(ErrorKind::SendError))),
        Err(Error(ErrorKind::SendError))
    ));
}

#[test]
fn correlator_writes_the_first_command_at_once() {
    let mut correlator = Correlator::new();
    let step = correlator.submit(command("version", 1));
    assert!(step.settle.is_none());
    assert_eq!(step.transmit.unwrap(), b"version\n");
}

#[test]
fn correlator_keeps_later_commands_until_the_one_before_is_settled() {
    let mut correlator = Correlator::new();
    assert_eq!(correlator.submit(command("a", 1)).transmit.unwrap(), b"a\n");
    nothing(correlator.submit(command("b", 2)));
    nothing(correlator.submit(command("c", 3)));
    nothing(correlator.written());
    let step = correlator.on_pair(b"ra".to_vec(), protocol_error(0, "ok"));
    assert_eq!(settled(&step), Some((1, Ok(b"ra".to_vec()))));
    assert_eq!(step.transmit.unwrap(), b"b\n");
    nothing(correlator.written());
    let step = correlator.on_pair(b"rb".to_vec(), protocol_error(0, "ok"));
    assert_eq!(settled(&step), Some((2, Ok(b"rb".to_vec()))));
    assert_eq!(step.transmit.unwrap(), b"c\n");
    nothing(correlator.written());
    let step = correlator.on_pair(b"rc".to_vec(), protocol_error(0, "ok"));
    assert_eq!(settled(&step), Some((3, Ok(b"rc".to_vec()))));
    assert!(step.transmit.is_none());
    assert_eq!(correlator.submit(command("d", 4)).transmit.unwrap(), b"d\n");
}

fn settled(step: &Step<u32>) -> Option<(u32, Result<Vec<u8>, u16>)> {
    match &step.settle {
        Some((slot, Ok(data))) => Some((*slot, Ok(data.clone()))),
        Some((slot, Err(Error(ErrorKind::TS3 { id, .. })))) => Some((*slot, Err(*id))),
        Some((slot, Err(_))) => Some((*slot, Err(u16::MAX))),
        None => None,
    }
}

#[test]
fn fifo_correlation() {
    let n = 50u32;
    let mut correlator = Correlator::new();
    let mut wire: Vec<Vec<u8>> = Vec::new();
    let mut outcomes: Vec<(u32, Result<Vec<u8>, u16>)> = Vec::new();
    let mut take = |step: Step<u32>, wire: &mut Vec<Vec<u8>>| {
        if let Some(outcome) = settled(&step) {
            outcomes.push(outcome);
        }
        if let Some(line) = step.transmit {
            wire.push(line);
        }
    };
    for i in 0..n {
        let step = correlator.submit(command(&format!("echo {}", i), i));
        take(step, &mut wire);
    }
    let mut answered = 0;
    while answered < wire.len() {
        let line = wire[answered].clone();
        answered += 1;
        let step = correlator.written();
        take(step, &mut wire);
        let payload = line[..line.len() - 1].to_vec();
        let id = if answered % 7 == 0 { 1 } else { 0 };
        let step = correlator.on_pair(payload, protocol_error(id, "x"));
        take(step, &mut wire);
    }
    assert_eq!(wire.len(), n as usize);
    assert_eq!(outcomes.len(), n as usize);
    for i in 0..n {
        assert_eq!(wire[i as usize], format!("echo {}\n", i).into_bytes());
        let expected = if (i + 1) % 7 == 0 {
            Err(1)
        } else {
            Ok(format!("echo {}", i).into_bytes())
        };
        assert_eq!(outcomes[i as usize], (i, expected));
    }
}

#[test]
fn correlator_settles_a_command_that_could_not_be_written() {
    let mut correlator = Correlator::new();
    correlator.submit(command("a", 1));
    nothing(correlator.submit(command("b", 2)));
    let step = correlator.write_failed(Error(ErrorKind::SendError));
    assert!(matches!(
        step.settle,
        Some((1, Err(Error(ErrorKind::SendError))))
    ));
    assert_eq!(step.transmit.unwrap(), b"b\n");
}

#[test]
fn correlator_keeps_a_response_that_nobody_awaits() {
    let mut correlator: Correlator<u32> = Correlator::new();
    nothing(correlator.on_pair(b"early".to_vec(), protocol_error(0, "ok")));
    let step = correlator.submit(command("a", 1));
    assert!(step.settle.is_none());
    assert_eq!(step.transmit.unwrap(), b"a\n");
    let step = correlator.written();
    assert_eq!(settled(&step), Some((1, Ok(b"early".to_vec()))));
    assert!(step.transmit.is_none());
}

#[test]
fn correlator_ignores_what_does_not_fit_the_phase() {
    let mut correlator: Correlator<u32> = Correlator::new();
    nothing(correlator.written());
    nothing(correlator.write_failed(Error(ErrorKind::SendError)));
    correlator.submit(command("a", 1));
    nothing(correlator.written());
    nothing(correlator.written());
    nothing(correlator.write_failed(Error(ErrorKind::SendError)));
    let step = correlator.on_pair(b"r".to_vec(), protocol_error(0, "ok"));
    assert_eq!(settled(&step), Some((1, Ok(b"r".to_vec()))));
}

#[test]
fn correlator_shutdown_fails_every_command_that_is_not_settled() {
    let mut correlator = Correlator::new();
    correlator.submit(command("a", 1));
    correlator.submit(command("b", 2));
    correlator.submit(command("c", 3));
    correlator.written();
    let failed = correlator.shutdown();
    assert_eq!(failed.len(), 3);
    for (i, (slot, reply)) in failed.into_iter().enumerate() {
        assert_eq!(slot, i as u32 + 1);
        assert!(matches!(reply, Err(Error(ErrorKind::SendError))));
    }
    assert!(correlator.is_idle());
    assert!(correlator.shutdown().is_empty());
    assert_eq!(correlator.submit(command("d", 4)).transmit.unwrap(), b"d\n");
    assert!(!correlator.is_idle());
    let step = correlator.written();
    nothing(step);
}

#[test]
fn correlator_shutdown_drops_the_responses_that_are_kept() {
    let mut correlator: Correlator<u32> = Correlator::new();
    correlator.on_pair(b"early".to_vec(), protocol_error(0, "ok"));
    assert!(correlator.shutdown().is_empty());
    correlator.submit(command("a", 1));
    nothing(correlator.written());
}
