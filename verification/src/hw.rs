//! The scanner session: the turntable position it keeps, and the device
//! operations built on the protocol. Each operation is a state machine that
//! names the next request and takes what came of it, so that whoever owns the
//! port and the camera only carries requests out.

use vstd::prelude::*;
use crate::protocol::{
    encode_laser, encode_motion, laser_command, motion_command, motion_timeout,
    timeout_for_motion, unexpected, unexpected_error, closed_error, Action, ActionView, Event,
    EventView, Exchange, ExchangeView, Outcome, Transition, LASER_TIMEOUT_MS,
};
use crate::img::{letter_of_kind, scan_entry};
use crate::{ErrorView, ImageType, KerboError, ProtocolError, Side};

verus! {

/// The turntable units of one full revolution.
pub const REVOLUTION: u16 = 0x1900;

/// How long the laser and the camera are left to settle before a capture,
/// in milliseconds.
pub const SETTLE_MS: u64 = 50;

/// The width of a frame, in pixels.
pub const FRAME_WIDTH: u32 = 1280;

/// The height of a frame, in pixels.
pub const FRAME_HEIGHT: u32 = 1024;

/// The time from one frame to the next is 2/15 of a second, which makes
/// 7.5 frames in a second: this is the 2.
pub const FRAME_INTERVAL_NUMERATOR: u32 = 2;

/// The 15 of the 2/15 of a second from one frame to the next.
pub const FRAME_INTERVAL_DENOMINATOR: u32 = 15;

/// The Kerbo hardware state
#[derive(Debug)]
pub struct KerboHW {
    turntable_position: u16,
    camera_path: String,
}

/// The state of a [`KerboHW`].
pub struct KerboView {
    /// Where the turntable stands; 0 is home.
    pub position: u16,
    /// The camera that frames are captured from.
    pub camera_path: Seq<char>,
}

impl View for KerboHW {
    type V = KerboView;

    closed spec fn view(&self) -> KerboView {
        KerboView { position: self.turntable_position, camera_path: self.camera_path@ }
    }
}

/// A move of the turntable that is under way.
#[derive(Debug)]
pub struct Move {
    target: u16,
    exchange: Exchange,
}

/// The state of a [`Move`].
pub struct MoveView {
    /// The position that the table is sent to.
    pub target: u16,
    /// The exchange that carries the motion command.
    pub exchange: ExchangeView,
}

impl View for Move {
    type V = MoveView;

    closed spec fn view(&self) -> MoveView {
        MoveView { target: self.target, exchange: self.exchange@ }
    }
}

impl MoveView {
    /// The move from `position` to `target`: none where the table stands
    /// there already, else the exchange of the motion command for the
    /// offset, with a timeout that grows with the offset.
    pub open spec fn begin(position: u16, target: u16) -> Outcome<MoveView, u16> {
        let offset = target - position;
        if offset == 0 {
            Outcome::Done(Ok(target))
        } else {
            Outcome::Next(
                MoveView {
                    target,
                    exchange: ExchangeView::start(
                        motion_command(offset),
                        motion_timeout(offset) as u64,
                    ),
                },
                ActionView::Drain,
            )
        }
    }

    /// What the move does on an event: it follows its exchange, and ends
    /// with the target once the command is acknowledged.
    pub open spec fn step(self, event: EventView) -> Outcome<MoveView, u16> {
        match self.exchange.step(event) {
            Outcome::Next(exchange, action) => Outcome::Next(
                MoveView { exchange, ..self },
                action,
            ),
            Outcome::Done(Ok(_)) => Outcome::Done(Ok(self.target)),
            Outcome::Done(Err(e)) => Outcome::Done(Err(e)),
        }
    }

    /// Where the table stands after the step, if it stood at `position`
    /// before: at the target once the move has succeeded, and where it was
    /// as long as it has not.
    pub open spec fn position_after(self, position: u16, event: EventView) -> u16 {
        if self.step(event) is Done && self.step(event)->Done_0 is Ok {
            self.target
        } else {
            position
        }
    }
}

impl Move {
    /// Takes the event that answers the last request. The stored position
    /// changes when the move has succeeded, and only then.
    pub fn handle(self, hw: &mut KerboHW, event: Event) -> (r: Transition<Move, u16>)
        ensures
            r@ == self@.step(event@),
            final(hw)@ == (KerboView {
                position: self@.position_after(old(hw)@.position, event@),
                ..old(hw)@
            }),
    {
        match self.exchange.handle(event) {
            Transition::Next(exchange, action) => Transition::Next(
                Move { target: self.target, exchange },
                action,
            ),
            Transition::Done(Ok(_)) => {
                hw.turntable_position = self.target;
                Transition::Done(Ok(self.target))
            },
            Transition::Done(Err(e)) => Transition::Done(Err(e)),
        }
    }
}

impl KerboHW {
    /// A session with the table at home. No command is sent: see
    /// [`KerboHW::new_from_port`] for the handshake.
    pub fn new(cam_path: &str) -> (hw: KerboHW)
        ensures
            hw@ == (KerboView { position: 0, camera_path: cam_path@ }),
    {
        KerboHW { turntable_position: 0, camera_path: String::from_str(cam_path) }
    }

    /// Where the turntable stands.
    pub fn position(&self) -> (p: u16)
        ensures
            p == self@.position,
    {
        self.turntable_position
    }

    /// The camera that frames are captured from.
    pub fn camera_path(&self) -> (path: &str)
        ensures
            path@ == self@.camera_path,
    {
        self.camera_path.as_str()
    }

    /// Begins to switch a laser: the exchange of its command, which has
    /// five milliseconds to be acknowledged.
    pub fn laser(side: Side, on: bool) -> (r: (Exchange, Action))
        ensures
            r.0@ == ExchangeView::start(laser_command(side, on), LASER_TIMEOUT_MS),
            r.1@ == ActionView::Drain,
    {
        Exchange::start(encode_laser(side, on), LASER_TIMEOUT_MS)
    }

    /// Begins to turn the table to `position`. Where it stands there
    /// already, this is done at once and nothing is asked of the port.
    pub fn go_to_position(&self, position: u16) -> (r: Transition<Move, u16>)
        ensures
            r@ == MoveView::begin(self@.position, position),
    {
        let offset: i32 = position as i32 - self.turntable_position as i32;
        if offset == 0 {
            return Transition::Done(Ok(position));
        }
        let (exchange, action) = Exchange::start(
            encode_motion(offset),
            timeout_for_motion(offset),
        );
        Transition::Next(Move { target: position, exchange }, action)
    }
}

/// The letter that names the kind of a frame in its file name: `N` with no
/// laser on, `L` and `R` with the left and the right one.
pub open spec fn kind_letter(side: Option<Side>) -> char {
    match side {
        None => 'N',
        Some(Side::Left) => 'L',
        Some(Side::Right) => 'R',
    }
}

/// The file that a frame is stored in: the root, the position in four
/// hexadecimal digits, the letter of the kind, and the extension `.yuv`.
pub open spec fn frame_path(root: Seq<char>, position: u16, side: Option<Side>) -> Seq<char> {
    root + crate::hex::hex4(position) + seq![kind_letter(side)] + seq!['.', 'y', 'u', 'v']
}

/// Names the file that a frame is stored in.
pub fn name_frame(root: &str, position: u16, side: Option<Side>) -> (path: String)
    ensures
        path@ == frame_path(root@, position, side),
{
    proof {
        reveal_strlit("N");
        reveal_strlit("L");
        reveal_strlit("R");
        reveal_strlit(".yuv");
    }
    let letter = match side {
        None => "N",
        Some(Side::Left) => "L",
        Some(Side::Right) => "R",
    };
    assert(letter@ =~= seq![kind_letter(side)]);
    assert(".yuv"@ =~= seq!['.', 'y', 'u', 'v']);
    crate::hex::append_hex4(String::from_str(root), position).concat(letter).concat(".yuv")
}

/// Where the capture of one frame stands.
#[derive(Debug)]
pub enum ShotStage {
    /// The table is turning to the position.
    Moving(Move),
    /// The laser is being switched on.
    Lighting(Exchange),
    /// The laser and the camera are left to settle.
    Settling,
    /// The camera is taking the frame.
    Capturing,
    /// The laser is being switched off; the frame waits to be stored.
    Dimming(Exchange, Vec<u8>),
    /// The frame is being written to its file.
    Storing,
}

/// The capture of one frame at one position, under way.
#[derive(Debug)]
pub struct Shot {
    side: Option<Side>,
    path: String,
    stage: ShotStage,
}

/// The state of a [`ShotStage`].
pub enum ShotStageView {
    Moving(MoveView),
    Lighting(ExchangeView),
    Settling,
    Capturing,
    Dimming(ExchangeView, Seq<u8>),
    Storing,
}

/// The state of a [`Shot`].
pub struct ShotView {
    /// The laser that lights the frame, if any.
    pub side: Option<Side>,
    /// The file that the frame is stored in.
    pub path: Seq<char>,
    pub stage: ShotStageView,
}

impl View for ShotStage {
    type V = ShotStageView;

    open spec fn view(&self) -> ShotStageView {
        match *self {
            ShotStage::Moving(m) => ShotStageView::Moving(m@),
            ShotStage::Lighting(exchange) => ShotStageView::Lighting(exchange@),
            ShotStage::Settling => ShotStageView::Settling,
            ShotStage::Capturing => ShotStageView::Capturing,
            ShotStage::Dimming(exchange, frame) => ShotStageView::Dimming(exchange@, frame@),
            ShotStage::Storing => ShotStageView::Storing,
        }
    }
}

impl View for Shot {
    type V = ShotView;

    closed spec fn view(&self) -> ShotView {
        ShotView { side: self.side, path: self.path@, stage: self.stage@ }
    }
}

impl ShotView {
    /// The shot at `target` for a table that stands at `position`: the
    /// table is moved first, unless it stands there already.
    pub open spec fn begin(
        position: u16,
        target: u16,
        root: Seq<char>,
        side: Option<Side>,
    ) -> Outcome<ShotView, ()> {
        let shot = ShotView {
            side,
            path: frame_path(root, target, side),
            stage: ShotStageView::Settling,
        };
        match MoveView::begin(position, target) {
            Outcome::Next(m, action) => Outcome::Next(
                ShotView { stage: ShotStageView::Moving(m), ..shot },
                action,
            ),
            Outcome::Done(Ok(_)) => shot.light(),
            Outcome::Done(Err(e)) => Outcome::Done(Err(e)),
        }
    }

    /// With the table in place, the laser is switched on, if the shot has one.
    pub open spec fn light(self) -> Outcome<ShotView, ()> {
        match self.side {
            Some(side) => Outcome::Next(
                ShotView {
                    stage: ShotStageView::Lighting(
                        ExchangeView::start(laser_command(side, true), LASER_TIMEOUT_MS),
                    ),
                    ..self
                },
                ActionView::Drain,
            ),
            None => self.settle(),
        }
    }

    /// Before the capture, everything is left to settle for a fixed time.
    pub open spec fn settle(self) -> Outcome<ShotView, ()> {
        Outcome::Next(
            ShotView { stage: ShotStageView::Settling, ..self },
            ActionView::Sleep(SETTLE_MS),
        )
    }

    /// With the frame taken, the laser is switched off again, if one is on.
    pub open spec fn dim(self, frame: Seq<u8>) -> Outcome<ShotView, ()> {
        match self.side {
            Some(side) => Outcome::Next(
                ShotView {
                    stage: ShotStageView::Dimming(
                        ExchangeView::start(laser_command(side, false), LASER_TIMEOUT_MS),
                        frame,
                    ),
                    ..self
                },
                ActionView::Drain,
            ),
            None => self.store(frame),
        }
    }

    /// At last the frame goes to its file.
    pub open spec fn store(self, frame: Seq<u8>) -> Outcome<ShotView, ()> {
        Outcome::Next(
            ShotView { stage: ShotStageView::Storing, ..self },
            ActionView::Store { path: self.path, frame },
        )
    }

    /// What the shot does on an event. Its steps follow one another in a
    /// fixed order: move, laser on, settle, capture, laser off, store. The
    /// first failure ends it.
    pub open spec fn step(self, event: EventView) -> Outcome<ShotView, ()> {
        match self.stage {
            ShotStageView::Moving(m) => match m.step(event) {
                Outcome::Next(m, action) => Outcome::Next(
                    ShotView { stage: ShotStageView::Moving(m), ..self },
                    action,
                ),
                Outcome::Done(Ok(_)) => self.light(),
                Outcome::Done(Err(e)) => Outcome::Done(Err(e)),
            },
            ShotStageView::Lighting(exchange) => match exchange.step(event) {
                Outcome::Next(exchange, action) => Outcome::Next(
                    ShotView { stage: ShotStageView::Lighting(exchange), ..self },
                    action,
                ),
                Outcome::Done(Ok(_)) => self.settle(),
                Outcome::Done(Err(e)) => Outcome::Done(Err(e)),
            },
            ShotStageView::Settling => match event {
                EventView::Slept => Outcome::Next(
                    ShotView { stage: ShotStageView::Capturing, ..self },
                    ActionView::Capture,
                ),
                EventView::Failed(e) => Outcome::Done(Err(e)),
                _ => Outcome::Done(Err(unexpected_error())),
            },
            ShotStageView::Capturing => match event {
                EventView::Captured(frame) => self.dim(frame),
                EventView::Failed(e) => Outcome::Done(Err(e)),
                _ => Outcome::Done(Err(unexpected_error())),
            },
            ShotStageView::Dimming(exchange, frame) => match exchange.step(event) {
                Outcome::Next(exchange, action) => Outcome::Next(
                    ShotView { stage: ShotStageView::Dimming(exchange, frame), ..self },
                    action,
                ),
                Outcome::Done(Ok(_)) => self.store(frame),
                Outcome::Done(Err(e)) => Outcome::Done(Err(e)),
            },
            ShotStageView::Storing => match event {
                EventView::Stored => Outcome::Done(Ok(())),
                EventView::Failed(e) => Outcome::Done(Err(e)),
                _ => Outcome::Done(Err(unexpected_error())),
            },
        }
    }

    /// Where the table stands after the step, if it stood at `position` before.
    pub open spec fn position_after(self, position: u16, event: EventView) -> u16 {
        match self.stage {
            ShotStageView::Moving(m) => m.position_after(position, event),
            _ => position,
        }
    }
}

impl Shot {
    fn light(self) -> (r: Transition<Shot, ()>)
        ensures
            r@ == self@.light(),
    {
        match self.side {
            Some(side) => {
                let (exchange, action) = KerboHW::laser(side, true);
                Transition::Next(
                    Shot { side: self.side, path: self.path, stage: ShotStage::Lighting(exchange) },
                    action,
                )
            },
            None => self.settle(),
        }
    }

    fn settle(self) -> (r: Transition<Shot, ()>)
        ensures
            r@ == self@.settle(),
    {
        Transition::Next(
            Shot { side: self.side, path: self.path, stage: ShotStage::Settling },
            Action::Sleep(SETTLE_MS),
        )
    }

    fn dim(self, frame: Vec<u8>) -> (r: Transition<Shot, ()>)
        ensures
            r@ == self@.dim(frame@),
    {
        match self.side {
            Some(side) => {
                let (exchange, action) = KerboHW::laser(side, false);
                Transition::Next(
                    Shot {
                        side: self.side,
                        path: self.path,
                        stage: ShotStage::Dimming(exchange, frame),
                    },
                    action,
                )
            },
            None => self.store(frame),
        }
    }

    fn store(self, frame: Vec<u8>) -> (r: Transition<Shot, ()>)
        ensures
            r@ == self@.store(frame@),
    {
        let path = self.path.clone();
        Transition::Next(
            Shot { side: self.side, path: self.path, stage: ShotStage::Storing },
            Action::Store { path, frame },
        )
    }

    /// Takes the event that answers the last request, and says how the shot
    /// goes on. The stored position follows the move.
    pub fn handle(self, hw: &mut KerboHW, event: Event) -> (r: Transition<Shot, ()>)
        ensures
            r@ == self@.step(event@),
            final(hw)@ == (KerboView {
                position: self@.position_after(old(hw)@.position, event@),
                ..old(hw)@
            }),
    {
        let Shot { side, path, stage } = self;
        match stage {
            ShotStage::Moving(m) => match m.handle(hw, event) {
                Transition::Next(m, action) => Transition::Next(
                    Shot { side, path, stage: ShotStage::Moving(m) },
                    action,
                ),
                Transition::Done(Ok(_)) => (Shot { side, path, stage: ShotStage::Settling }).light(),
                Transition::Done(Err(e)) => Transition::Done(Err(e)),
            },
            ShotStage::Lighting(exchange) => match exchange.handle(event) {
                Transition::Next(exchange, action) => Transition::Next(
                    Shot { side, path, stage: ShotStage::Lighting(exchange) },
                    action,
                ),
                Transition::Done(Ok(_)) => (Shot { side, path, stage: ShotStage::Settling }).settle(),
                Transition::Done(Err(e)) => Transition::Done(Err(e)),
            },
            ShotStage::Settling => match event {
                Event::Slept => Transition::Next(
                    Shot { side, path, stage: ShotStage::Capturing },
                    Action::Capture,
                ),
                Event::Failed(e) => Transition::Done(Err(e)),
                _ => Transition::Done(Err(unexpected())),
            },
            ShotStage::Capturing => match event {
                Event::Captured(frame) => (Shot { side, path, stage: ShotStage::Capturing }).dim(
                    frame,
                ),
                Event::Failed(e) => Transition::Done(Err(e)),
                _ => Transition::Done(Err(unexpected())),
            },
            ShotStage::Dimming(exchange, frame) => match exchange.handle(event) {
                Transition::Next(exchange, action) => Transition::Next(
                    Shot { side, path, stage: ShotStage::Dimming(exchange, frame) },
                    action,
                ),
                Transition::Done(Ok(_)) => (Shot { side, path, stage: ShotStage::Storing }).store(
                    frame,
                ),
                Transition::Done(Err(e)) => Transition::Done(Err(e)),
            },
            ShotStage::Storing => match event {
                Event::Stored => Transition::Done(Ok(())),
                Event::Failed(e) => Transition::Done(Err(e)),
                _ => Transition::Done(Err(unexpected())),
            },
        }
    }
}

impl KerboHW {
    /// Begins the capture of one frame at `position`, lit by the laser of
    /// `side` if there is one, to be stored under `file_root`.
    pub fn scan_at(&self, position: u16, file_root: &str, side: Option<Side>) -> (r: Transition<
        Shot,
        (),
    >)
        ensures
            r@ == ShotView::begin(self@.position, position, file_root@, side),
    {
        let path = name_frame(file_root, position, side);
        match self.go_to_position(position) {
            Transition::Next(m, action) => Transition::Next(
                Shot { side, path, stage: ShotStage::Moving(m) },
                action,
            ),
            Transition::Done(Ok(_)) => (Shot { side, path, stage: ShotStage::Settling }).light(),
            Transition::Done(Err(e)) => Transition::Done(Err(e)),
        }
    }
}

/// The shot that follows the one of `side` at `position` in a sweep with
/// the given increment: first no laser, then the left, then the right one,
/// all at one position; then on by the increment, as long as that stays
/// below a full revolution.
pub open spec fn next_shot(position: u16, side: Option<Side>, increment: u16) -> Option<
    (u16, Option<Side>),
> {
    match side {
        None => Some((position, Some(Side::Left))),
        Some(Side::Left) => Some((position, Some(Side::Right))),
        Some(Side::Right) => if position + increment < REVOLUTION {
            Some(((position + increment) as u16, None))
        } else {
            None
        },
    }
}

/// Finds the shot that follows the one of `side` at `position`.
pub fn shot_after(position: u16, side: Option<Side>, increment: u16) -> (next: Option<
    (u16, Option<Side>),
>)
    ensures
        next == next_shot(position, side, increment),
{
    match side {
        None => Some((position, Some(Side::Left))),
        Some(Side::Left) => Some((position, Some(Side::Right))),
        Some(Side::Right) => {
            let further: u32 = position as u32 + increment as u32;
            if further < REVOLUTION as u32 {
                Some((further as u16, None))
            } else {
                None
            }
        },
    }
}

/// A sweep of the turntable, under way.
#[derive(Debug)]
pub struct Scan {
    file_root: String,
    increment: u16,
    position: u16,
    shot: Shot,
}

/// The state of a [`Scan`].
pub struct ScanView {
    /// What the names of the frame files begin with.
    pub file_root: Seq<char>,
    /// How far the table is turned between two positions.
    pub increment: u16,
    /// The position of the shot under way.
    pub position: u16,
    /// The shot under way.
    pub shot: ShotView,
}

impl View for Scan {
    type V = ScanView;

    closed spec fn view(&self) -> ScanView {
        ScanView {
            file_root: self.file_root@,
            increment: self.increment,
            position: self.position,
            shot: self.shot@,
        }
    }
}

impl ScanView {
    /// The sweep as it takes up the shot of `side` at `position`, with the
    /// table standing at `table`.
    pub open spec fn shoot(
        table: u16,
        file_root: Seq<char>,
        increment: u16,
        position: u16,
        side: Option<Side>,
    ) -> Outcome<ScanView, ()> {
        match ShotView::begin(table, position, file_root, side) {
            Outcome::Next(shot, action) => Outcome::Next(
                ScanView { file_root, increment, position, shot },
                action,
            ),
            Outcome::Done(r) => Outcome::Done(r),
        }
    }

    /// A sweep begins at home, with the frame that no laser lights.
    pub open spec fn begin(table: u16, file_root: Seq<char>, increment: u16) -> Outcome<
        ScanView,
        (),
    > {
        Self::shoot(table, file_root, increment, 0, None)
    }

    /// What the sweep does on an event, with the table standing at `table`:
    /// it follows the shot under way, takes up the next one when that is
    /// done, and ends after the last. The first failure ends the sweep.
    pub open spec fn step(self, table: u16, event: EventView) -> Outcome<ScanView, ()> {
        match self.shot.step(event) {
            Outcome::Next(shot, action) => Outcome::Next(ScanView { shot, ..self }, action),
            Outcome::Done(Err(e)) => Outcome::Done(Err(e)),
            Outcome::Done(Ok(_)) => match next_shot(self.position, self.shot.side, self.increment) {
                None => Outcome::Done(Ok(())),
                Some((position, side)) => Self::shoot(
                    self.shot.position_after(table, event),
                    self.file_root,
                    self.increment,
                    position,
                    side,
                ),
            },
        }
    }
}

impl Scan {
    fn shoot(hw: &KerboHW, file_root: String, increment: u16, position: u16, side: Option<Side>) -> (r:
        Transition<Scan, ()>)
        ensures
            r@ == ScanView::shoot(hw@.position, file_root@, increment, position, side),
    {
        match hw.scan_at(position, file_root.as_str(), side) {
            Transition::Next(shot, action) => Transition::Next(
                Scan { file_root, increment, position, shot },
                action,
            ),
            Transition::Done(r) => Transition::Done(r),
        }
    }

    /// Takes the event that answers the last request, and says how the
    /// sweep goes on. The stored position follows the moves.
    pub fn handle(self, hw: &mut KerboHW, event: Event) -> (r: Transition<Scan, ()>)
        ensures
            r@ == self@.step(old(hw)@.position, event@),
            final(hw)@ == (KerboView {
                position: self@.shot.position_after(old(hw)@.position, event@),
                ..old(hw)@
            }),
    {
        let Scan { file_root, increment, position, shot } = self;
        let side = shot.side;
        match shot.handle(hw, event) {
            Transition::Next(shot, action) => Transition::Next(
                Scan { file_root, increment, position, shot },
                action,
            ),
            Transition::Done(Err(e)) => Transition::Done(Err(e)),
            Transition::Done(Ok(_)) => match shot_after(position, side, increment) {
                None => Transition::Done(Ok(())),
                Some((position, side)) => Scan::shoot(hw, file_root, increment, position, side),
            },
        }
    }
}

impl KerboHW {
    /// Begins a sweep of one revolution in steps of `increment`, with the
    /// frames to be stored under `file_root`.
    pub fn scan(&self, file_root: &str, increment: u16) -> (r: Transition<Scan, ()>)
        ensures
            r@ == ScanView::begin(self@.position, file_root@, increment),
    {
        Scan::shoot(self, String::from_str(file_root), increment, 0, None)
    }
}

/// The error of a device that does not answer the first command as a
/// Kerbo would.
pub open spec fn identity_error() -> ErrorView {
    ErrorView::Identity("Device is not a Kerbo"@)
}

/// Where the handshake stands.
#[derive(Debug)]
pub enum HandshakeStage {
    /// Stale input is being discarded.
    Flushing,
    /// The left laser is being switched off: the test of the device.
    LeftOff(Exchange),
    /// The right laser is being switched off.
    RightOff(Exchange),
}

/// The handshake that opens a session, under way.
#[derive(Debug)]
pub struct Handshake {
    camera_path: String,
    stage: HandshakeStage,
}

/// The state of a [`HandshakeStage`].
pub enum HandshakeStageView {
    Flushing,
    LeftOff(ExchangeView),
    RightOff(ExchangeView),
}

/// The state of a [`Handshake`].
pub struct HandshakeView {
    /// The camera of the session to be.
    pub camera_path: Seq<char>,
    pub stage: HandshakeStageView,
}

impl View for HandshakeStage {
    type V = HandshakeStageView;

    open spec fn view(&self) -> HandshakeStageView {
        match *self {
            HandshakeStage::Flushing => HandshakeStageView::Flushing,
            HandshakeStage::LeftOff(exchange) => HandshakeStageView::LeftOff(exchange@),
            HandshakeStage::RightOff(exchange) => HandshakeStageView::RightOff(exchange@),
        }
    }
}

impl View for Handshake {
    type V = HandshakeView;

    closed spec fn view(&self) -> HandshakeView {
        HandshakeView { camera_path: self.camera_path@, stage: self.stage@ }
    }
}

impl HandshakeView {
    /// A handshake begins by discarding stale input.
    pub open spec fn begin(camera_path: Seq<char>) -> (HandshakeView, ActionView) {
        (HandshakeView { camera_path, stage: HandshakeStageView::Flushing }, ActionView::Drain)
    }

    /// What the handshake does on an event. Both lasers are switched off,
    /// the left one first. A device that answers the first command with
    /// anything but the acknowledgment, or not in time, is no Kerbo; any
    /// other failure ends the handshake as it is. When both commands are
    /// acknowledged the session stands, with the table at home.
    pub open spec fn step(self, event: EventView) -> Outcome<HandshakeView, KerboView> {
        match self.stage {
            HandshakeStageView::Flushing => match event {
                EventView::Drained => Outcome::Next(
                    HandshakeView {
                        stage: HandshakeStageView::LeftOff(
                            ExchangeView::start(
                                laser_command(Side::Left, false),
                                LASER_TIMEOUT_MS,
                            ),
                        ),
                        ..self
                    },
                    ActionView::Drain,
                ),
                EventView::Failed(e) => Outcome::Done(Err(e)),
                EventView::Closed => Outcome::Done(Err(closed_error())),
                _ => Outcome::Done(Err(unexpected_error())),
            },
            HandshakeStageView::LeftOff(exchange) => match exchange.step(event) {
                Outcome::Next(exchange, action) => Outcome::Next(
                    HandshakeView { stage: HandshakeStageView::LeftOff(exchange), ..self },
                    action,
                ),
                Outcome::Done(Ok(_)) => Outcome::Next(
                    HandshakeView {
                        stage: HandshakeStageView::RightOff(
                            ExchangeView::start(
                                laser_command(Side::Right, false),
                                LASER_TIMEOUT_MS,
                            ),
                        ),
                        ..self
                    },
                    ActionView::Drain,
                ),
                Outcome::Done(Err(ErrorView::Protocol(_))) => Outcome::Done(Err(identity_error())),
                Outcome::Done(Err(e)) => Outcome::Done(Err(e)),
            },
            HandshakeStageView::RightOff(exchange) => match exchange.step(event) {
                Outcome::Next(exchange, action) => Outcome::Next(
                    HandshakeView { stage: HandshakeStageView::RightOff(exchange), ..self },
                    action,
                ),
                Outcome::Done(Ok(_)) => Outcome::Done(
                    Ok(KerboView { position: 0, camera_path: self.camera_path }),
                ),
                Outcome::Done(Err(e)) => Outcome::Done(Err(e)),
            },
        }
    }
}

impl Handshake {
    /// Takes the event that answers the last request, and says how the
    /// handshake goes on.
    pub fn handle(self, event: Event) -> (r: Transition<Handshake, KerboHW>)
        ensures
            r@ == self@.step(event@),
    {
        let Handshake { camera_path, stage } = self;
        match stage {
            HandshakeStage::Flushing => match event {
                Event::Drained => {
                    let (exchange, action) = KerboHW::laser(Side::Left, false);
                    Transition::Next(
                        Handshake { camera_path, stage: HandshakeStage::LeftOff(exchange) },
                        action,
                    )
                },
                Event::Failed(e) => Transition::Done(Err(e)),
                Event::Closed => Transition::Done(
                    Err(KerboError::Io(String::from_str("Port closed!"))),
                ),
                _ => Transition::Done(Err(unexpected())),
            },
            HandshakeStage::LeftOff(exchange) => match exchange.handle(event) {
                Transition::Next(exchange, action) => Transition::Next(
                    Handshake { camera_path, stage: HandshakeStage::LeftOff(exchange) },
                    action,
                ),
                Transition::Done(Ok(_)) => {
                    let (exchange, action) = KerboHW::laser(Side::Right, false);
                    Transition::Next(
                        Handshake { camera_path, stage: HandshakeStage::RightOff(exchange) },
                        action,
                    )
                },
                Transition::Done(Err(KerboError::Protocol(_))) => Transition::Done(
                    Err(
                        KerboError::Identity(
                            ProtocolError::new(String::from_str("Device is not a Kerbo")),
                        ),
                    ),
                ),
                Transition::Done(Err(e)) => Transition::Done(Err(e)),
            },
            HandshakeStage::RightOff(exchange) => match exchange.handle(event) {
                Transition::Next(exchange, action) => Transition::Next(
                    Handshake { camera_path, stage: HandshakeStage::RightOff(exchange) },
                    action,
                ),
                Transition::Done(Ok(_)) => Transition::Done(
                    Ok(KerboHW { turntable_position: 0, camera_path }),
                ),
                Transition::Done(Err(e)) => Transition::Done(Err(e)),
            },
        }
    }
}

impl KerboHW {
    /// Begins the handshake that opens a session on a port: stale input is
    /// discarded, and the device is tested by switching the lasers off.
    pub fn new_from_port(cam_path: &str) -> (r: (Handshake, Action))
        ensures
            (r.0@, r.1@) == HandshakeView::begin(cam_path@),
    {
        (
            Handshake { camera_path: String::from_str(cam_path), stage: HandshakeStage::Flushing },
            Action::Drain,
        )
    }
}

/// A move to where the table stands already asks nothing of the port. Any
/// other move begins by discarding stale input, and the first thing it then
/// writes is the motion command for the offset: a line that reads back as
/// exactly that offset.
pub proof fn lemma_move_sends_offset(position: u16, target: u16)
    ensures
        target == position ==> MoveView::begin(position, target) == Outcome::<
            MoveView,
            u16,
        >::Done(Ok(target)),
        target != position ==> (MoveView::begin(position, target) matches Outcome::Next(
            m,
            action,
        ) && {
            &&& action == ActionView::Drain
            &&& m.target == target
            &&& m.exchange.step(EventView::Drained) matches Outcome::Next(
                _,
                ActionView::Write(line),
            ) && {
                &&& line == motion_command(target - position)
                &&& crate::protocol::parse_motion(line) == Some(target - position)
            }
        }),
{
    if target != position {
        crate::protocol::lemma_motion_command_reads_back(target - position);
        assert(motion_command(target - position).len() > 0);
    }
}

/// A move succeeds exactly when its command is acknowledged. The table then
/// stands at the target, and in every other case where it stood.
pub proof fn lemma_move_updates_position(m: MoveView, position: u16, event: EventView)
    ensures
        m.step(event) == Outcome::<MoveView, u16>::Done(Ok(m.target)) <==> m.exchange.step(event)
            == Outcome::<ExchangeView, ()>::Done(Ok(())),
        m.step(event) == Outcome::<MoveView, u16>::Done(Ok(m.target)) ==> m.position_after(
            position,
            event,
        ) == m.target,
        m.step(event) != Outcome::<MoveView, u16>::Done(Ok(m.target)) ==> m.position_after(
            position,
            event,
        ) == position,
{
}

/// The camera is asked for a frame at one point only: when the settle time
/// of the shot has passed.
pub proof fn lemma_capture_follows_settling(shot: ShotView, event: EventView)
    ensures
        shot.step(event) matches Outcome::Next(_, ActionView::Capture) ==> shot.stage
            is Settling && event is Slept,
        shot.step(event) matches Outcome::Next(_, ActionView::Sleep(ms)) ==> ms == SETTLE_MS,
{
}

/// A frame goes to its file only when no laser is on: straight from the
/// camera in a shot that has no laser, and else once the command that
/// switches the laser off is acknowledged.
pub proof fn lemma_store_follows_dimming(shot: ShotView, event: EventView)
    ensures
        shot.step(event) matches Outcome::Next(_, ActionView::Store { path, frame }) ==> {
            &&& path == shot.path
            &&& match shot.stage {
                ShotStageView::Capturing => shot.side is None && event == EventView::Captured(
                    frame,
                ),
                ShotStageView::Dimming(exchange, taken) => frame == taken && exchange.step(event)
                    == Outcome::<ExchangeView, ()>::Done(Ok(())),
                _ => false,
            }
        },
{
}

/// A shot that has no laser never comes to a stage that switches one.
pub proof fn lemma_ambient_shot_switches_no_laser(shot: ShotView, event: EventView)
    requires
        shot.side is None,
        !(shot.stage is Lighting),
        !(shot.stage is Dimming),
    ensures
        shot.step(event) matches Outcome::Next(next, _) ==> {
            &&& next.side is None
            &&& !(next.stage is Lighting)
            &&& !(next.stage is Dimming)
        },
{
}

/// A shot that has no laser begins in a stage that switches none.
pub proof fn lemma_ambient_shot_begins_without_laser(position: u16, target: u16, root: Seq<char>)
    ensures
        ShotView::begin(position, target, root, None) matches Outcome::Next(shot, _) && {
            &&& shot.side is None
            &&& !(shot.stage is Lighting)
            &&& !(shot.stage is Dimming)
        },
{
}

/// A sweep never leaves the first revolution, never turns back, and takes
/// the three frames of a position before it turns on.
pub proof fn lemma_sweep_stays_in_revolution(position: u16, side: Option<Side>, increment: u16)
    requires
        position < REVOLUTION,
    ensures
        next_shot(position, side, increment) matches Some((next, lit)) ==> {
            &&& position <= next < REVOLUTION
            &&& (side != Some(Side::Right) ==> next == position && lit is Some)
            &&& (side == Some(Side::Right) ==> next == position + increment && lit is None)
        },
        next_shot(position, side, increment) is None <==> side == Some(Side::Right) && position
            + increment >= REVOLUTION,
{
}

/// The kind of frame that a shot gives: the ambient one where no laser is
/// on, and else that of the laser's side.
pub open spec fn kind_of_shot(side: Option<Side>) -> ImageType {
    match side {
        None => ImageType::Ambient,
        Some(Side::Left) => ImageType::Left,
        Some(Side::Right) => ImageType::Right,
    }
}

/// The name of a frame file ends in digits and a letter that the index
/// reads back as the position and the kind of the frame.
pub proof fn lemma_frame_name_reads_back(root: Seq<char>, position: u16, side: Option<Side>)
    ensures
        kind_letter(side) == letter_of_kind(kind_of_shot(side)),
        frame_path(root, position, side) == root + crate::hex::hex4(position) + seq![
            letter_of_kind(kind_of_shot(side)),
        ] + seq!['.', 'y', 'u', 'v'],
        scan_entry(crate::hex::hex4(position), seq![kind_letter(side)]) == Some(
            (position, kind_of_shot(side)),
        ),
{
    crate::img::lemma_scan_entry_reads_back(position, kind_of_shot(side));
}

/// The position and the laser of the shot with the given number in a
/// sweep, counted from zero: three shots at each position, with no laser,
/// the left and the right one.
pub open spec fn shot_number(number: nat, increment: u16) -> (int, Option<Side>) {
    (
        (number / 3) * increment,
        if number % 3 == 0 {
            None
        } else if number % 3 == 1 {
            Some(Side::Left)
        } else {
            Some(Side::Right)
        },
    )
}

/// The shots of a sweep follow one another by their number, and the sweep
/// ends before the first shot that would lie at or beyond a full revolution.
pub proof fn lemma_sweep_follows_the_numbers(number: nat, increment: u16)
    requires
        shot_number(number, increment).0 < REVOLUTION,
    ensures
        shot_number(0, increment) == (0int, None::<Side>),
        next_shot(
            shot_number(number, increment).0 as u16,
            shot_number(number, increment).1,
            increment,
        ) == (if shot_number(number + 1, increment).0 < REVOLUTION {
            Some(
                (
                    shot_number(number + 1, increment).0 as u16,
                    shot_number(number + 1, increment).1,
                ),
            )
        } else {
            None
        }),
{
    let turns = number / 3;
    assert(0 * increment == 0);
    if number % 3 == 2 {
        assert((number + 1) / 3 == turns + 1);
        assert((turns + 1) * increment == turns * increment + increment) by (nonlinear_arith);
    } else {
        assert((number + 1) / 3 == turns);
    }
    assert(0 <= turns * increment) by (nonlinear_arith)
        requires
            0 <= turns,
            0 <= increment,
    ;
}

} // verus!
