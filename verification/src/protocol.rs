//! The command and response protocol of the scanner's controller: ASCII
//! command lines, one acknowledgment line per command, and the exchange that
//! sends one command and waits for its acknowledgment under a timeout.
//!
//! Nothing here touches the serial port. An exchange is a state machine: it
//! names the next request to make of the port, and is told what came of it.

use vstd::prelude::*;
use vstd::utf8::*;
use crate::hex::{hex_digits, push_hex};
use crate::{ErrorView, KerboError, ProtocolError, Side};

verus! {

/// The byte that ends every command and every acknowledgment.
pub const NEWLINE: u8 = 0x0a;

/// The length of one polling read, in milliseconds.
pub const POLL_STEP_MS: u64 = 1;

/// How long a laser command may take, in milliseconds.
pub const LASER_TIMEOUT_MS: u64 = 5;

/// One request to the outside world.
#[derive(Clone, Debug, PartialEq, Eq)]
pub enum Action {
    /// Set the read timeout to zero and discard the input that is buffered.
    Drain,
    /// Write these bytes to the port, and report how many of them it took.
    Write(Vec<u8>),
    /// Read from the port for one polling step, and report what arrived.
    Poll,
    /// Wait for this many milliseconds.
    Sleep(u64),
    /// Capture one frame from the camera.
    Capture,
    /// Write the frame to the file at this path.
    Store { path: String, frame: Vec<u8> },
}

/// What came of a request.
#[derive(Clone, Debug, PartialEq, Eq)]
pub enum Event {
    /// The buffered input was discarded.
    Drained,
    /// The port took this many of the bytes offered.
    Wrote(usize),
    /// The polling step ended; these bytes arrived in it (often none).
    Polled(Vec<u8>),
    /// The port reported the end of the stream.
    Closed,
    /// The wait is over.
    Slept,
    /// The camera delivered this frame.
    Captured(Vec<u8>),
    /// The frame is on disk.
    Stored,
    /// The request failed.
    Failed(KerboError),
}

/// What a state machine does on an event: it goes on in state `M` with a new
/// request, or ends with a result.
#[derive(Debug)]
pub enum Transition<M, T> {
    Next(M, Action),
    Done(Result<T, KerboError>),
}

/// An [`Action`] with its bytes and text as sequences.
pub enum ActionView {
    Drain,
    Write(Seq<u8>),
    Poll,
    Sleep(u64),
    Capture,
    Store { path: Seq<char>, frame: Seq<u8> },
}

/// An [`Event`] with its bytes and text as sequences.
pub enum EventView {
    Drained,
    Wrote(usize),
    Polled(Seq<u8>),
    Closed,
    Slept,
    Captured(Seq<u8>),
    Stored,
    Failed(ErrorView),
}

/// A [`Transition`] over the views of the state and of the result.
pub enum Outcome<S, T> {
    Next(S, ActionView),
    Done(Result<T, ErrorView>),
}

impl View for Action {
    type V = ActionView;

    open spec fn view(&self) -> ActionView {
        match *self {
            Action::Drain => ActionView::Drain,
            Action::Write(bytes) => ActionView::Write(bytes@),
            Action::Poll => ActionView::Poll,
            Action::Sleep(ms) => ActionView::Sleep(ms),
            Action::Capture => ActionView::Capture,
            Action::Store { path, frame } => ActionView::Store { path: path@, frame: frame@ },
        }
    }
}

impl View for Event {
    type V = EventView;

    open spec fn view(&self) -> EventView {
        match *self {
            Event::Drained => EventView::Drained,
            Event::Wrote(n) => EventView::Wrote(n),
            Event::Polled(bytes) => EventView::Polled(bytes@),
            Event::Closed => EventView::Closed,
            Event::Slept => EventView::Slept,
            Event::Captured(frame) => EventView::Captured(frame@),
            Event::Stored => EventView::Stored,
            Event::Failed(e) => EventView::Failed(e@),
        }
    }
}

impl<M: View, T: View> View for Transition<M, T> {
    type V = Outcome<M::V, T::V>;

    open spec fn view(&self) -> Outcome<M::V, T::V> {
        match *self {
            Transition::Next(m, a) => Outcome::Next(m@, a@),
            Transition::Done(Ok(t)) => Outcome::Done(Ok(t@)),
            Transition::Done(Err(e)) => Outcome::Done(Err(e@)),
        }
    }
}

/// The tag that names a laser on the wire. The tags name the wiring
/// channels, not the sides: the left laser hangs on channel `r`.
pub open spec fn side_tag(side: Side) -> u8 {
    match side {
        Side::Left => 0x72,
        Side::Right => 0x6c,
    }
}

/// The command line that switches a laser: its tag, then `ff` for on or `00`
/// for off.
pub open spec fn laser_command(side: Side, on: bool) -> Seq<u8> {
    if on {
        seq![side_tag(side), 0x66, 0x66, NEWLINE]
    } else {
        seq![side_tag(side), 0x30, 0x30, NEWLINE]
    }
}

/// The size of an offset.
pub open spec fn magnitude(offset: int) -> nat {
    if offset < 0 {
        (-offset) as nat
    } else {
        offset as nat
    }
}

/// The command line that turns the table by `offset` units: a sign, then
/// the size of the offset in hexadecimal.
pub open spec fn motion_command(offset: int) -> Seq<u8> {
    seq![if offset < 0 { 0x2du8 } else { 0x2bu8 }] + hex_digits(magnitude(offset)) + seq![NEWLINE]
}

/// How long a move by `offset` units may take, in milliseconds: larger
/// moves are allowed proportionally more time.
pub open spec fn motion_timeout(offset: int) -> nat {
    magnitude(offset) * 10 + 10
}

/// The offset that a motion command line asks for, if `line` is one.
pub open spec fn parse_motion(line: Seq<u8>) -> Option<int> {
    if line.len() < 3 || line.last() != NEWLINE {
        None
    } else {
        match crate::hex::parse_hex(line.subrange(1, line.len() - 1)) {
            None => None,
            Some(size) => if line[0] == 0x2b {
                Some(size as int)
            } else if line[0] == 0x2d {
                Some(-(size as int))
            } else {
                None
            },
        }
    }
}

/// A motion command line reads back as the offset it was written for.
pub proof fn lemma_motion_command_reads_back(offset: int)
    ensures
        parse_motion(motion_command(offset)) == Some(offset),
{
    let digits = hex_digits(magnitude(offset));
    let line = motion_command(offset);
    crate::hex::lemma_parse_hex_digits(magnitude(offset));
    assert(line.subrange(1, line.len() - 1) =~= digits);
}

/// Writes the command line that switches a laser.
pub fn encode_laser(side: Side, on: bool) -> (line: Vec<u8>)
    ensures
        line@ == laser_command(side, on),
{
    let mut line: Vec<u8> = Vec::new();
    line.push(
        match side {
            Side::Left => 0x72,
            Side::Right => 0x6c,
        },
    );
    if on {
        line.push(0x66);
        line.push(0x66);
    } else {
        line.push(0x30);
        line.push(0x30);
    }
    line.push(NEWLINE);
    line
}

/// Writes the command line that turns the table by `offset` units.
pub fn encode_motion(offset: i32) -> (line: Vec<u8>)
    ensures
        line@ == motion_command(offset as int),
{
    let mut line: Vec<u8> = Vec::new();
    let size: u64 = if offset < 0 {
        line.push(0x2d);
        (-(offset as i64)) as u64
    } else {
        line.push(0x2b);
        offset as u64
    };
    push_hex(&mut line, size);
    line.push(NEWLINE);
    line
}

/// How long a move by `offset` units may take, in milliseconds.
pub fn timeout_for_motion(offset: i32) -> (ms: u64)
    ensures
        ms == motion_timeout(offset as int),
{
    let size: u64 = if offset < 0 {
        (-(offset as i64)) as u64
    } else {
        offset as u64
    };
    size * 10 + 10
}

/// The acknowledgment line of a command that succeeded: `OK`, then a newline.
pub open spec fn ok_token() -> Seq<u8> {
    seq![0x4f, 0x4b, NEWLINE]
}

/// Whether a response holds a whole line by now: it ends in a newline.
pub open spec fn is_complete(response: Seq<u8>) -> bool {
    response.len() > 0 && response.last() == NEWLINE
}

/// The message of a line that is not the acknowledgment: the line without
/// its newline, or a fixed text where the line is no UTF-8.
pub open spec fn rejection_text(response: Seq<u8>) -> Seq<char> {
    let content = response.drop_last();
    if valid_utf8(content) {
        decode_utf8(content)
    } else {
        "Incomprehensible string"@
    }
}

/// What a response means: nothing yet while its line is not complete, success
/// if it is the acknowledgment, else a protocol error that carries the line.
pub open spec fn verdict(response: Seq<u8>) -> Option<Result<(), ErrorView>> {
    if !is_complete(response) {
        None
    } else if response == ok_token() {
        Some(Ok(()))
    } else {
        Some(Err(ErrorView::Protocol(rejection_text(response))))
    }
}

/// `String::from_utf8` of std: the text that `bytes` encode, if they are
/// valid UTF-8, and nothing if they are not.
#[verifier::external_body]
fn string_from_utf8(bytes: Vec<u8>) -> (text: Option<String>)
    ensures
        text is Some <==> valid_utf8(bytes@),
        text matches Some(s) ==> s@ == decode_utf8(bytes@),
{
    match String::from_utf8(bytes) {
        Ok(s) => Some(s),
        Err(_) => None,
    }
}

/// Judges the response received so far.
pub fn judge_response(response: Vec<u8>) -> (r: Option<Result<(), KerboError>>)
    ensures
        match verdict(response@) {
            None => r is None,
            Some(Ok(())) => r == Some(Ok::<(), KerboError>(())),
            Some(Err(e)) => r matches Some(Err(x)) && x@ == e,
        },
{
    let n = response.len();
    if n == 0 || response[n - 1] != NEWLINE {
        return None;
    }
    if n == 3 && response[0] == 0x4f && response[1] == 0x4b {
        assert(response@ =~= ok_token());
        return Some(Ok(()));
    }
    let mut content = response;
    content.pop();
    assert(content@ == response@.drop_last());
    let text = match string_from_utf8(content) {
        Some(s) => s,
        None => String::from_str("Incomprehensible string"),
    };
    Some(Err(KerboError::Protocol(ProtocolError::new(text))))
}

/// The error of a command that was not acknowledged in time.
pub open spec fn timeout_error() -> ErrorView {
    ErrorView::Protocol("Timeout"@)
}

/// The error of a port that reported the end of its stream.
pub open spec fn closed_error() -> ErrorView {
    ErrorView::Io("Port closed!"@)
}

/// The error of a port that takes no more bytes.
pub open spec fn stalled_error() -> ErrorView {
    ErrorView::Io("failed to write whole buffer"@)
}

/// The error of an event that does not answer the request that was made.
pub open spec fn unexpected_error() -> ErrorView {
    ErrorView::Io("unexpected event"@)
}

/// Where an exchange stands.
#[derive(Copy, Clone, Debug, PartialEq, Eq, Structural)]
pub enum Phase {
    /// Stale input is being discarded.
    Draining,
    /// The command is being written.
    Writing,
    /// The acknowledgment is awaited.
    Polling,
}

/// One command on its way: it is sent whole, and then exactly one
/// acknowledgment line is awaited before anything else may be sent.
#[derive(Debug)]
pub struct Exchange {
    unsent: Vec<u8>,
    response: Vec<u8>,
    remaining_ms: u64,
    phase: Phase,
}

/// The state of an [`Exchange`].
pub struct ExchangeView {
    /// The part of the command that the port has not taken yet.
    pub unsent: Seq<u8>,
    /// The bytes received since the command was sent.
    pub response: Seq<u8>,
    /// The time that is left for the acknowledgment, in milliseconds.
    pub remaining_ms: u64,
    pub phase: Phase,
}

impl View for Exchange {
    type V = ExchangeView;

    closed spec fn view(&self) -> ExchangeView {
        ExchangeView {
            unsent: self.unsent@,
            response: self.response@,
            remaining_ms: self.remaining_ms,
            phase: self.phase,
        }
    }
}

impl ExchangeView {
    /// An exchange of `command` that has not begun.
    pub open spec fn start(command: Seq<u8>, timeout_ms: u64) -> ExchangeView {
        ExchangeView {
            unsent: command,
            response: Seq::empty(),
            remaining_ms: timeout_ms,
            phase: Phase::Draining,
        }
    }

    /// Polls once more if there is time for it, and gives up if not.
    pub open spec fn await_reply(self) -> Outcome<ExchangeView, ()> {
        if self.remaining_ms >= POLL_STEP_MS {
            Outcome::Next(ExchangeView { phase: Phase::Polling, ..self }, ActionView::Poll)
        } else {
            Outcome::Done(Err(timeout_error()))
        }
    }

    /// Offers the port what is still unsent; once all is sent, waits for the reply.
    pub open spec fn send(self) -> Outcome<ExchangeView, ()> {
        if self.unsent.len() > 0 {
            Outcome::Next(
                ExchangeView { phase: Phase::Writing, ..self },
                ActionView::Write(self.unsent),
            )
        } else {
            self.await_reply()
        }
    }

    /// The state after the port took `n` of the unsent bytes.
    pub open spec fn sent(self, n: usize) -> ExchangeView {
        ExchangeView {
            unsent: if n < self.unsent.len() {
                self.unsent.skip(n as int)
            } else {
                Seq::empty()
            },
            ..self
        }
    }

    /// The state after one polling step in which `bytes` arrived.
    pub open spec fn polled(self, bytes: Seq<u8>) -> ExchangeView {
        ExchangeView {
            response: self.response + bytes,
            remaining_ms: if self.remaining_ms >= POLL_STEP_MS {
                (self.remaining_ms - POLL_STEP_MS) as u64
            } else {
                0
            },
            ..self
        }
    }

    /// What the exchange does on an event.
    ///
    /// A failure of the port ends it with that failure, and the end of the
    /// stream with an error of its own. Once stale input is discarded the
    /// command is written, again and again until the port has taken all of it;
    /// a port that takes nothing is an error. Then the port is polled, one
    /// step at a time. As soon as the response ends in a newline it is
    /// judged, and the exchange ends with that verdict. When the time is
    /// used up it ends with a timeout.
    pub open spec fn step(self, event: EventView) -> Outcome<ExchangeView, ()> {
        match event {
            EventView::Failed(e) => Outcome::Done(Err(e)),
            EventView::Closed => Outcome::Done(Err(closed_error())),
            EventView::Drained => if self.phase == Phase::Draining {
                self.send()
            } else {
                Outcome::Done(Err(unexpected_error()))
            },
            EventView::Wrote(n) => if self.phase != Phase::Writing {
                Outcome::Done(Err(unexpected_error()))
            } else if n == 0 {
                Outcome::Done(Err(stalled_error()))
            } else {
                self.sent(n).send()
            },
            EventView::Polled(bytes) => if self.phase != Phase::Polling {
                Outcome::Done(Err(unexpected_error()))
            } else {
                match verdict(self.response + bytes) {
                    Some(v) => Outcome::Done(v),
                    None => self.polled(bytes).await_reply(),
                }
            },
            _ => Outcome::Done(Err(unexpected_error())),
        }
    }
}

/// The error of a command that was not acknowledged in time.
fn timeout() -> (e: KerboError)
    ensures
        e@ == timeout_error(),
{
    KerboError::Protocol(ProtocolError::new(String::from_str("Timeout")))
}

/// The error of an event that does not answer the request that was made.
pub(crate) fn unexpected() -> (e: KerboError)
    ensures
        e@ == unexpected_error(),
{
    KerboError::Io(String::from_str("unexpected event"))
}

impl Exchange {
    /// Begins the exchange of `command`, which may take `timeout_ms`
    /// milliseconds to be acknowledged once it is sent. The first request is
    /// to discard stale input.
    pub fn start(command: Vec<u8>, timeout_ms: u64) -> (r: (Exchange, Action))
        ensures
            r.0@ == ExchangeView::start(command@, timeout_ms),
            r.1@ == ActionView::Drain,
    {
        let exchange = Exchange {
            unsent: command,
            response: Vec::new(),
            remaining_ms: timeout_ms,
            phase: Phase::Draining,
        };
        (exchange, Action::Drain)
    }

    fn await_reply(self) -> (r: Transition<Exchange, ()>)
        ensures
            r@ == self@.await_reply(),
    {
        if self.remaining_ms >= POLL_STEP_MS {
            Transition::Next(
                Exchange {
                    unsent: self.unsent,
                    response: self.response,
                    remaining_ms: self.remaining_ms,
                    phase: Phase::Polling,
                },
                Action::Poll,
            )
        } else {
            Transition::Done(Err(timeout()))
        }
    }

    fn send(self) -> (r: Transition<Exchange, ()>)
        ensures
            r@ == self@.send(),
    {
        if self.unsent.len() > 0 {
            let bytes = self.unsent.clone();
            Transition::Next(
                Exchange {
                    unsent: self.unsent,
                    response: self.response,
                    remaining_ms: self.remaining_ms,
                    phase: Phase::Writing,
                },
                Action::Write(bytes),
            )
        } else {
            self.await_reply()
        }
    }

    /// Waits for an OK message (newline terminated), or error: takes what one
    /// polling step brought, and judges the response as soon as its line is whole.
    fn wait_for_ok(self, bytes: Vec<u8>) -> (r: Transition<Exchange, ()>)
        ensures
            r@ == (match verdict(self@.response + bytes@) {
                Some(v) => Outcome::Done(v),
                None => self@.polled(bytes@).await_reply(),
            }),
    {
        let mut response = self.response;
        let mut bytes = bytes;
        response.append(&mut bytes);
        match judge_response(response.clone()) {
            Some(Ok(())) => Transition::Done(Ok(())),
            Some(Err(e)) => Transition::Done(Err(e)),
            None => {
                let remaining_ms = if self.remaining_ms >= POLL_STEP_MS {
                    self.remaining_ms - POLL_STEP_MS
                } else {
                    0
                };
                let exchange = Exchange {
                    unsent: self.unsent,
                    response,
                    remaining_ms,
                    phase: self.phase,
                };
                exchange.await_reply()
            },
        }
    }

    /// Takes the event that answers the last request, and says how the
    /// exchange goes on.
    pub fn handle(self, event: Event) -> (r: Transition<Exchange, ()>)
        ensures
            r@ == self@.step(event@),
    {
        match event {
            Event::Failed(e) => Transition::Done(Err(e)),
            Event::Closed => Transition::Done(Err(KerboError::Io(String::from_str("Port closed!")))),
            Event::Drained => match self.phase {
                Phase::Draining => self.send(),
                _ => Transition::Done(Err(unexpected())),
            },
            Event::Wrote(n) => match self.phase {
                Phase::Writing => {
                    if n == 0 {
                        Transition::Done(
                            Err(KerboError::Io(String::from_str("failed to write whole buffer"))),
                        )
                    } else {
                        let mut taken = self.unsent;
                        let unsent = if n < taken.len() {
                            taken.split_off(n)
                        } else {
                            Vec::new()
                        };
                        let exchange = Exchange {
                            unsent,
                            response: self.response,
                            remaining_ms: self.remaining_ms,
                            phase: self.phase,
                        };
                        exchange.send()
                    }
                },
                _ => Transition::Done(Err(unexpected())),
            },
            Event::Polled(bytes) => match self.phase {
                Phase::Polling => self.wait_for_ok(bytes),
                _ => Transition::Done(Err(unexpected())),
            },
            _ => Transition::Done(Err(unexpected())),
        }
    }
}

/// A response is judged a success exactly when it is the acknowledgment
/// line. Any other line is judged a protocol error, and where the line is
/// UTF-8 the error carries it as it came, less the newline.
pub proof fn lemma_verdict(response: Seq<u8>)
    ensures
        verdict(response) == Some(Ok::<(), ErrorView>(())) <==> response == ok_token(),
        is_complete(response) && response != ok_token() ==> verdict(response) == Some(
            Err::<(), ErrorView>(ErrorView::Protocol(rejection_text(response))),
        ),
        valid_utf8(response.drop_last()) ==> rejection_text(response) == decode_utf8(
            response.drop_last(),
        ),
        valid_utf8(response.drop_last()) ==> encode_utf8(rejection_text(response))
            == response.drop_last(),
{
    assert(is_complete(ok_token()));
    if valid_utf8(response.drop_last()) {
        decode_utf8_encode_utf8(response.drop_last());
    }
}

/// An exchange ends in success exactly on the polling step that completes
/// the acknowledgment line: when what was received before, with what this
/// step brought, is that line and nothing else.
pub proof fn lemma_exchange_succeeds_iff_acknowledged(exchange: ExchangeView, event: EventView)
    ensures
        exchange.step(event) == Outcome::<ExchangeView, ()>::Done(Ok(())) <==> {
            &&& exchange.phase == Phase::Polling
            &&& event matches EventView::Polled(bytes)
            &&& exchange.response + bytes == ok_token()
        },
        exchange.phase == Phase::Polling ==> (event matches EventView::Polled(bytes) ==> {
            let response = exchange.response + bytes;
            is_complete(response) && response != ok_token() ==> exchange.step(event)
                == Outcome::<ExchangeView, ()>::Done(
                Err(ErrorView::Protocol(rejection_text(response))),
            )
        }),
{
    match event {
        EventView::Polled(bytes) => {
            lemma_verdict(exchange.response + bytes);
        },
        _ => {},
    }
}

/// Whatever is written is what is left of the command. After a write of
/// which the port took a part, the part taken and what is written next make
/// up what was offered.
pub proof fn lemma_writes_carry_the_rest(exchange: ExchangeView, event: EventView)
    ensures
        exchange.step(event) matches Outcome::Next(next, ActionView::Write(bytes)) ==> {
            &&& bytes == next.unsent
            &&& bytes.len() > 0
            &&& next.phase == Phase::Writing
            &&& next.response == exchange.response
            &&& (event matches EventView::Wrote(n) ==> n < exchange.unsent.len()
                && exchange.unsent.take(n as int) + bytes == exchange.unsent)
            &&& (event is Drained ==> bytes == exchange.unsent)
        },
{
    match event {
        EventView::Wrote(n) => {
            if n < exchange.unsent.len() {
                assert(exchange.unsent.take(n as int) + exchange.unsent.skip(n as int)
                    =~= exchange.unsent);
            }
        },
        _ => {},
    }
}

/// Once a command is sent, nothing more is written until its exchange has
/// ended: there is one command under way at a time.
pub proof fn lemma_nothing_is_written_while_polling(exchange: ExchangeView, event: EventView)
    requires
        exchange.phase == Phase::Polling,
    ensures
        exchange.step(event) matches Outcome::Next(next, action) ==> {
            &&& action == ActionView::Poll
            &&& next.phase == Phase::Polling
            &&& next.unsent == exchange.unsent
            &&& next.remaining_ms < exchange.remaining_ms
        },
{
}

/// Where an exchange stands after so many polling steps in a row that
/// brought nothing.
pub open spec fn after_silence(exchange: ExchangeView, polls: nat) -> Outcome<ExchangeView, ()>
    decreases polls,
{
    if polls == 0 {
        Outcome::Next(exchange, ActionView::Poll)
    } else {
        match after_silence(exchange, (polls - 1) as nat) {
            Outcome::Next(before, _) => before.step(EventView::Polled(Seq::empty())),
            Outcome::Done(r) => Outcome::Done(r),
        }
    }
}

/// A device that stays silent is polled once for each millisecond of the
/// timeout, and with the last of these polls the exchange ends in a
/// timeout: not before, and not after.
pub proof fn lemma_silence_times_out(exchange: ExchangeView, polls: nat)
    requires
        exchange.phase == Phase::Polling,
        !is_complete(exchange.response),
        polls <= exchange.remaining_ms,
    ensures
        polls < exchange.remaining_ms ==> after_silence(exchange, polls) == Outcome::<
            ExchangeView,
            (),
        >::Next(
            ExchangeView { remaining_ms: (exchange.remaining_ms - polls) as u64, ..exchange },
            ActionView::Poll,
        ),
        polls == exchange.remaining_ms && polls > 0 ==> after_silence(exchange, polls)
            == Outcome::<ExchangeView, ()>::Done(Err(timeout_error())),
    decreases polls,
{
    if polls > 0 {
        lemma_silence_times_out(exchange, (polls - 1) as nat);
        let before = ExchangeView {
            remaining_ms: (exchange.remaining_ms - (polls - 1)) as u64,
            ..exchange
        };
        assert(after_silence(exchange, (polls - 1) as nat) == Outcome::<ExchangeView, ()>::Next(
            before,
            ActionView::Poll,
        ));
        assert(before.response + Seq::<u8>::empty() =~= before.response);
    }
}

} // verus!
