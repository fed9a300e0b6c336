//! Control logic for the Kerbo structured-light scanner: the serial command
//! protocol, the scan sequencer, the index of captured frames and the pixel
//! transforms applied to them.

pub mod hex;
pub mod hw;
pub mod img;
pub mod img_proc;
pub mod preprocess;
pub mod protocol;

use vstd::prelude::*;

verus! {

/// Lasers are mounted on either side of the camera. "Left" and "Right"
/// here refer to the camera's point of view, not the user's!
#[derive(Copy, Clone, Debug, PartialEq, Eq, Structural)]
pub enum Side {
    Left,
    Right,
}

/// The raw scan captures four types of image: with the left laser on, with
/// the right laser on, with neither laser on, and (optionally) a raw image
/// with no filter.
#[derive(Copy, Clone, Debug, PartialEq, Eq, Structural)]
pub enum ImageType {
    /// Left laser on, filter on
    Left,
    /// Right laser on, filter on
    Right,
    /// Both lasers off, filter on: the ambient frame
    Ambient,
    /// Both lasers off, filter off
    Raw,
}

/// Indicates that a transaction with the Kerbo hardware has
/// failed due to a protocol-level error.
#[derive(Clone, Debug, PartialEq, Eq)]
pub struct ProtocolError {
    description: String,
}

impl View for ProtocolError {
    type V = Seq<char>;

    /// The text that describes the failure.
    closed spec fn view(&self) -> Seq<char> {
        self.description@
    }
}

impl ProtocolError {
    /// A protocol error described by `description`.
    pub fn new(description: String) -> (e: ProtocolError)
        ensures
            e@ == description@,
    {
        ProtocolError { description }
    }

    /// The text that describes the failure.
    pub fn description(&self) -> (d: &str)
        ensures
            d@ == self@,
    {
        self.description.as_str()
    }
}

/// A composite error enumeration which encompasses
/// the various ways in which a transaction with the
/// Kerbo hardware could fail: a serial connection error,
/// an IO error on the port or on a frame file, a protocol error that
/// could arise from the Kerbo being in a bad state, or the
/// device not responding as expected because it's
/// not the Kerbo at all.
#[derive(Clone, Debug, PartialEq, Eq)]
pub enum KerboError {
    /// The serial port could not be opened or configured.
    Serial(String),
    /// Reading, writing or storing failed, or the port was closed.
    Io(String),
    /// The device answered with something else than the acknowledgment, or not in time.
    Protocol(ProtocolError),
    /// The first exchange of the handshake failed at the protocol level.
    Identity(ProtocolError),
}

/// What a [`KerboError`] holds, as text.
pub enum ErrorView {
    Serial(Seq<char>),
    Io(Seq<char>),
    Protocol(Seq<char>),
    Identity(Seq<char>),
}

impl View for KerboError {
    type V = ErrorView;

    open spec fn view(&self) -> ErrorView {
        match *self {
            KerboError::Serial(s) => ErrorView::Serial(s@),
            KerboError::Io(s) => ErrorView::Io(s@),
            KerboError::Protocol(e) => ErrorView::Protocol(e@),
            KerboError::Identity(e) => ErrorView::Identity(e@),
        }
    }
}

impl ErrorView {
    /// The description of the underlying cause.
    pub open spec fn description(self) -> Seq<char> {
        match self {
            ErrorView::Serial(s) => s,
            ErrorView::Io(s) => s,
            ErrorView::Protocol(s) => s,
            ErrorView::Identity(s) => s,
        }
    }

    /// The words that introduce the description in a message.
    pub open spec fn prefix(self) -> Seq<char> {
        match self {
            ErrorView::Serial(_) => "Serial port error: "@,
            ErrorView::Io(_) => "I/O error: "@,
            ErrorView::Protocol(_) => "Protocol error: "@,
            ErrorView::Identity(_) => "Protocol error: "@,
        }
    }

    /// The message shown to the user.
    pub open spec fn message(self) -> Seq<char> {
        self.prefix() + self.description()
    }
}

impl KerboError {
    /// The description of the underlying cause.
    pub fn description(&self) -> (d: &str)
        ensures
            d@ == self@.description(),
    {
        match self {
            KerboError::Serial(s) => s.as_str(),
            KerboError::Io(s) => s.as_str(),
            KerboError::Protocol(e) => e.description(),
            KerboError::Identity(e) => e.description(),
        }
    }

    /// The message shown to the user: the kind of failure, then its description.
    pub fn message(&self) -> (m: String)
        ensures
            m@ == self@.message(),
    {
        let prefix = match self {
            KerboError::Serial(_) => "Serial port error: ",
            KerboError::Io(_) => "I/O error: ",
            KerboError::Protocol(_) => "Protocol error: ",
            KerboError::Identity(_) => "Protocol error: ",
        };
        String::from_str(prefix).concat(self.description())
    }
}

/// Strings are assumed to represent protocol errors.
impl From<String> for KerboError {
    fn from(err: String) -> (e: KerboError)
        ensures
            e@ == ErrorView::Protocol(err@),
    {
        KerboError::Protocol(ProtocolError { description: err })
    }
}

impl vstd::std_specs::convert::FromSpecImpl<String> for KerboError {
    open spec fn obeys_from_spec() -> bool {
        true
    }

    closed spec fn from_spec(err: String) -> KerboError {
        KerboError::Protocol(ProtocolError { description: err })
    }
}

} // verus!
