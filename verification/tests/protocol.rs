use kerbo::protocol::{
    encode_laser, encode_motion, judge_response, timeout_for_motion, Action, Event, Exchange,
    Transition, LASER_TIMEOUT_MS,
};
use kerbo::{KerboError, ProtocolError, Side};

fn protocol_error(text: &str) -> KerboError {
    KerboError::Protocol(ProtocolError::new(text.to_string()))
}

fn next(t: Transition<Exchange, ()>) -> (Exchange, Action) {
    match t {
        Transition::Next(exchange, action) => (exchange, action),
        Transition::Done(r) => panic!("the exchange ended: {:?}", r),
    }
}

fn done(t: Transition<Exchange, ()>) -> Result<(), KerboError> {
    match t {
        Transition::Done(r) => r,
        Transition::Next(_, action) => panic!("the exchange goes on: {:?}", action),
    }
}

/// An exchange of `command` that has drained the port and written the command.
fn polling(command: &[u8], timeout_ms: u64) -> Exchange {
    let (exchange, first) = Exchange::start(command.to_vec(), timeout_ms);
    assert_eq!(first, Action::Drain);
    let (exchange, action) = next(exchange.handle(Event::Drained));
    assert_eq!(action, Action::Write(command.to_vec()));
    let (exchange, action) = next(exchange.handle(Event::Wrote(command.len())));
    assert_eq!(action, Action::Poll);
    exchange
}

#[test]
fn laser_commands_use_the_wiring_tags() {
    assert_eq!(encode_laser(Side::Left, true), b"rff\n".to_vec());
    assert_eq!(encode_laser(Side::Left, false), b"r00\n".to_vec());
    assert_eq!(encode_laser(Side::Right, true), b"lff\n".to_vec());
    assert_eq!(encode_laser(Side::Right, false), b"l00\n".to_vec());
}

#[test]
fn motion_commands_are_sign_prefixed_hex() {
    assert_eq!(encode_motion(64), b"+40\n".to_vec());
    assert_eq!(encode_motion(-64), b"-40\n".to_vec());
    assert_eq!(encode_motion(1), b"+1\n".to_vec());
    assert_eq!(encode_motion(-1), b"-1\n".to_vec());
    assert_eq!(encode_motion(0x18c0), b"+18c0\n".to_vec());
    assert_eq!(encode_motion(-0xffff), b"-ffff\n".to_vec());
    assert_eq!(encode_motion(0xabcdef), b"+abcdef\n".to_vec());
    assert_eq!(encode_motion(0), b"+0\n".to_vec());
    assert_eq!(encode_motion(i32::MAX), b"+7fffffff\n".to_vec());
    assert_eq!(encode_motion(i32::MIN), b"-80000000\n".to_vec());
}

#[test]
fn motion_timeout_grows_with_the_offset() {
    assert_eq!(timeout_for_motion(64), 650);
    assert_eq!(timeout_for_motion(-64), 650);
    assert_eq!(timeout_for_motion(1), 20);
    assert_eq!(timeout_for_motion(0), 10);
    assert_eq!(timeout_for_motion(0xffff), 655360);
    assert_eq!(timeout_for_motion(i32::MIN), 21474836490);
}

#[test]
fn the_acknowledgment_is_success() {
    assert_eq!(judge_response(b"OK\n".to_vec()), Some(Ok(())));
}

#[test]
fn an_unfinished_line_is_not_judged() {
    assert_eq!(judge_response(Vec::new()), None);
    assert_eq!(judge_response(b"OK".to_vec()), None);
    assert_eq!(judge_response(b"OK\nO".to_vec()), None);
}

#[test]
fn any_other_line_is_a_protocol_error_with_its_text() {
    assert_eq!(judge_response(b"ERR 5\n".to_vec()), Some(Err(protocol_error("ERR 5"))));
    assert_eq!(judge_response(b"\n".to_vec()), Some(Err(protocol_error(""))));
    assert_eq!(judge_response(b"ok\n".to_vec()), Some(Err(protocol_error("ok"))));
    assert_eq!(judge_response(b"OK \n".to_vec()), Some(Err(protocol_error("OK "))));
    assert_eq!(judge_response(b"OK\n\n".to_vec()), Some(Err(protocol_error("OK\n"))));
    assert_eq!(
        judge_response("gr\u{fc}n\n".as_bytes().to_vec()),
        Some(Err(protocol_error("gr\u{fc}n")))
    );
}

#[test]
fn a_line_that_is_no_utf8_gets_a_fixed_text() {
    assert_eq!(
        judge_response(vec![0xff, 0xfe, 0x0a]),
        Some(Err(protocol_error("Incomprehensible string")))
    );
}

#[test]
fn an_exchange_drains_writes_and_polls() {
    let exchange = polling(b"rff\n", LASER_TIMEOUT_MS);
    let (exchange, action) = next(exchange.handle(Event::Polled(Vec::new())));
    assert_eq!(action, Action::Poll);
    let (exchange, action) = next(exchange.handle(Event::Polled(b"O".to_vec())));
    assert_eq!(action, Action::Poll);
    assert_eq!(done(exchange.handle(Event::Polled(b"K\n".to_vec()))), Ok(()));
}

#[test]
fn a_partial_write_is_retried_with_the_rest() {
    let (exchange, _) = Exchange::start(b"+18c0\n".to_vec(), 100);
    let (exchange, action) = next(exchange.handle(Event::Drained));
    assert_eq!(action, Action::Write(b"+18c0\n".to_vec()));
    let (exchange, action) = next(exchange.handle(Event::Wrote(2)));
    assert_eq!(action, Action::Write(b"8c0\n".to_vec()));
    let (exchange, action) = next(exchange.handle(Event::Wrote(3)));
    assert_eq!(action, Action::Write(b"\n".to_vec()));
    let (_, action) = next(exchange.handle(Event::Wrote(1)));
    assert_eq!(action, Action::Poll);
}

#[test]
fn a_port_that_takes_nothing_is_an_error() {
    let (exchange, _) = Exchange::start(b"rff\n".to_vec(), 5);
    let (exchange, _) = next(exchange.handle(Event::Drained));
    assert_eq!(
        done(exchange.handle(Event::Wrote(0))),
        Err(KerboError::Io("failed to write whole buffer".to_string()))
    );
}

#[test]
fn a_rejection_carries_the_line() {
    let exchange = polling(b"+40\n", 650);
    let (exchange, _) = next(exchange.handle(Event::Polled(b"ERR".to_vec())));
    assert_eq!(
        done(exchange.handle(Event::Polled(b" jam\n".to_vec()))),
        Err(protocol_error("ERR jam"))
    );
}

#[test]
fn the_timeout_comes_after_as_many_polls_as_milliseconds() {
    let mut exchange = polling(b"rff\n", 5);
    for _ in 0..4 {
        let (e, action) = next(exchange.handle(Event::Polled(Vec::new())));
        assert_eq!(action, Action::Poll);
        exchange = e;
    }
    assert_eq!(done(exchange.handle(Event::Polled(Vec::new()))), Err(protocol_error("Timeout")));
}

#[test]
fn an_answer_in_the_last_poll_still_counts() {
    let mut exchange = polling(b"rff\n", 3);
    for _ in 0..2 {
        let (e, _) = next(exchange.handle(Event::Polled(Vec::new())));
        exchange = e;
    }
    assert_eq!(done(exchange.handle(Event::Polled(b"OK\n".to_vec()))), Ok(()));
}

#[test]
fn without_time_nothing_is_polled() {
    let (exchange, _) = Exchange::start(b"rff\n".to_vec(), 0);
    let (exchange, _) = next(exchange.handle(Event::Drained));
    assert_eq!(done(exchange.handle(Event::Wrote(4))), Err(protocol_error("Timeout")));
}

#[test]
fn a_closed_port_is_an_io_error() {
    let exchange = polling(b"rff\n", 5);
    assert_eq!(
        done(exchange.handle(Event::Closed)),
        Err(KerboError::Io("Port closed!".to_string()))
    );
    let (exchange, _) = Exchange::start(b"rff\n".to_vec(), 5);
    assert_eq!(
        done(exchange.handle(Event::Closed)),
        Err(KerboError::Io("Port closed!".to_string()))
    );
}

#[test]
fn a_failure_of_the_port_ends_the_exchange_with_it() {
    let failure = KerboError::Serial("no such device".to_string());
    let exchange = polling(b"rff\n", 5);
    assert_eq!(done(exchange.handle(Event::Failed(failure.clone()))), Err(failure.clone()));
    let (exchange, _) = Exchange::start(b"rff\n".to_vec(), 5);
    assert_eq!(done(exchange.handle(Event::Failed(failure.clone()))), Err(failure));
}

#[test]
fn an_event_that_answers_nothing_is_an_error() {
    let unexpected = KerboError::Io("unexpected event".to_string());
    let (exchange, _) = Exchange::start(b"rff\n".to_vec(), 5);
    assert_eq!(done(exchange.handle(Event::Wrote(4))), Err(unexpected.clone()));
    let (exchange, _) = Exchange::start(b"rff\n".to_vec(), 5);
    assert_eq!(done(exchange.handle(Event::Polled(b"OK\n".to_vec()))), Err(unexpected.clone()));
    let exchange = polling(b"rff\n", 5);
    assert_eq!(done(exchange.handle(Event::Drained)), Err(unexpected.clone()));
    let exchange = polling(b"rff\n", 5);
    assert_eq!(done(exchange.handle(Event::Slept)), Err(unexpected.clone()));
    let exchange = polling(b"rff\n", 5);
    assert_eq!(done(exchange.handle(Event::Captured(vec![1, 2]))), Err(unexpected.clone()));
    let exchange = polling(b"rff\n", 5);
    assert_eq!(done(exchange.handle(Event::Stored)), Err(unexpected));
}

#[test]
fn an_empty_command_goes_straight_to_polling() {
    let (exchange, _) = Exchange::start(Vec::new(), 5);
    let (_, action) = next(exchange.handle(Event::Drained));
    assert_eq!(action, Action::Poll);
}
