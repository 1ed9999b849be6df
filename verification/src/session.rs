//! One call on a tape device, as a state machine.
//!
//! A call opens the device, issues a single control request on the handle,
//! releases the handle and reports. The machine decides each of these steps;
//! whoever drives it performs the step the session names with [`Session::action`]
//! and reports what came of it with [`Session::step`]. The machine never retries
//! and keeps nothing once the call is finished.
//!
//! The session is the one owner of the device handle: the descriptor lives in
//! its phase from the open to the release and nowhere else, a session cannot
//! be copied, and a finished session names no descriptor any more.

use vstd::prelude::*;
use crate::drive::{classification, classify, TapeType};
use crate::mtio::{Mtget, Mtop, Mtpos};

verus! {

/// Why a call on a tape device failed.
#[derive(Clone, Copy, Debug, PartialEq, Eq, Structural)]
pub enum TapeError {
    /// Opening the device gave no valid descriptor.
    DeviceOpenFailed,
    /// The driver rejected the status request.
    StatusReadFailed,
    /// The driver rejected the position request.
    PositionReadFailed,
    /// The driver rejected the positioning command.
    MovementFailed,
    /// The path names no existing file; found before any device is opened.
    InvalidDevicePath,
}

/// The control request a call makes once the device is open.
#[derive(Clone, Copy, Debug, PartialEq, Eq)]
pub enum Request {
    /// Carry a positioning command to the driver.
    Control(Mtop),
    /// Read the status record.
    ReadStatus,
    /// Read the position record.
    ReadPosition,
}

/// What the driver answered to a control request: the request's return code
/// and, for the two reads, the record as the driver left it. A negative code
/// means that the driver rejected the request.
#[derive(Clone, Copy, Debug, PartialEq, Eq)]
pub enum Reply {
    Control(i32),
    Status(i32, Mtget),
    Position(i32, Mtpos),
}

/// What a call that succeeded hands back.
#[derive(Clone, Copy, Debug, PartialEq, Eq)]
pub enum Completed {
    /// The positioning command was carried out; the driver's return code.
    Moved(i32),
    /// The status record and the class of the drive it speaks of.
    Status(Mtget, TapeType),
    /// The position record.
    Position(Mtpos),
}

/// How a call ended.
pub type Outcome = Result<Completed, TapeError>;

/// Something the outside world did for the session.
#[derive(Clone, Copy, Debug, PartialEq, Eq)]
pub enum Event {
    /// The device was opened read-only; the descriptor, negative when opening failed.
    Opened(i32),
    /// The driver answered the control request.
    Replied(Reply),
    /// The handle was released.
    Closed,
}

/// The step a session waits for.
#[derive(Clone, Copy, Debug, PartialEq, Eq)]
pub enum Action {
    /// Open the session's device read-only.
    Open,
    /// Issue `request` on the open handle `fd`.
    Issue { fd: i32, request: Request },
    /// Release the handle `fd`.
    Close { fd: i32 },
    /// Nothing is left to do: the call ended with this outcome.
    Finish(Outcome),
}

/// Where a session stands.
#[derive(Clone, Copy, Debug, PartialEq, Eq)]
pub enum Phase {
    /// The device is not open yet.
    Opening,
    /// The handle `fd` is open and the control request is due.
    Operating { fd: i32 },
    /// The request was answered and the handle `fd` is still to be released.
    Closing { fd: i32, outcome: Outcome },
    /// The call is over and holds no handle.
    Finished { outcome: Outcome },
}

/// Whether `reply` is an answer to a request of the kind of `request`.
pub open spec fn answers(request: Request, reply: Reply) -> bool {
    match (request, reply) {
        (Request::Control(_), Reply::Control(_)) => true,
        (Request::ReadStatus, Reply::Status(_, _)) => true,
        (Request::ReadPosition, Reply::Position(_, _)) => true,
        _ => false,
    }
}

/// The outcome that a reply amounts to. Success and failure follow the
/// driver's return code alone; a status record is classified, never judged.
pub open spec fn decoded(reply: Reply) -> Outcome {
    match reply {
        Reply::Control(rc) => if rc < 0 {
            Err(TapeError::MovementFailed)
        } else {
            Ok(Completed::Moved(rc))
        },
        Reply::Status(rc, raw) => if rc < 0 {
            Err(TapeError::StatusReadFailed)
        } else {
            Ok(Completed::Status(raw, classification(raw.mt_type)))
        },
        Reply::Position(rc, raw) => if rc < 0 {
            Err(TapeError::PositionReadFailed)
        } else {
            Ok(Completed::Position(raw))
        },
    }
}

/// Whether `outcome` is one that some answer to `request` amounts to.
pub open spec fn fits(request: Request, outcome: Outcome) -> bool {
    match request {
        Request::Control(_) => match outcome {
            Ok(Completed::Moved(rc)) => rc >= 0,
            Err(e) => e == TapeError::MovementFailed,
            _ => false,
        },
        Request::ReadStatus => match outcome {
            Ok(Completed::Status(raw, t)) => t == classification(raw.mt_type),
            Err(e) => e == TapeError::StatusReadFailed,
            _ => false,
        },
        Request::ReadPosition => match outcome {
            Ok(Completed::Position(_)) => true,
            Err(e) => e == TapeError::PositionReadFailed,
            _ => false,
        },
    }
}

/// Whether a session for `request` in `phase` waits for `event`.
pub open spec fn accepts(request: Request, phase: Phase, event: Event) -> bool {
    match (phase, event) {
        (Phase::Opening, Event::Opened(_)) => true,
        (Phase::Operating { .. }, Event::Replied(reply)) => answers(request, reply),
        (Phase::Closing { .. }, Event::Closed) => true,
        _ => false,
    }
}

/// The phase that follows `phase` on `event`. An event that the session does
/// not wait for leaves it where it is.
pub open spec fn next_phase(request: Request, phase: Phase, event: Event) -> Phase {
    match (phase, event) {
        (Phase::Opening, Event::Opened(fd)) => if fd < 0 {
            Phase::Finished { outcome: Err(TapeError::DeviceOpenFailed) }
        } else {
            Phase::Operating { fd }
        },
        (Phase::Operating { fd }, Event::Replied(reply)) => if answers(request, reply) {
            Phase::Closing { fd, outcome: decoded(reply) }
        } else {
            phase
        },
        (Phase::Closing { fd, outcome }, Event::Closed) => Phase::Finished { outcome },
        _ => phase,
    }
}

/// The step that a session for `request` in `phase` waits for.
pub open spec fn pending(request: Request, phase: Phase) -> Action {
    match phase {
        Phase::Opening => Action::Open,
        Phase::Operating { fd } => Action::Issue { fd, request },
        Phase::Closing { fd, .. } => Action::Close { fd },
        Phase::Finished { outcome } => Action::Finish(outcome),
    }
}

/// What every session holds to: a handle it speaks of is a valid descriptor,
/// and an outcome it carries is one that its own request can end with, or the
/// failure to open.
pub open spec fn well_formed(request: Request, phase: Phase) -> bool {
    match phase {
        Phase::Opening => true,
        Phase::Operating { fd } => fd >= 0,
        Phase::Closing { fd, outcome } => fd >= 0 && fits(request, outcome),
        Phase::Finished { outcome } => outcome == Err::<Completed, TapeError>(
            TapeError::DeviceOpenFailed,
        ) || fits(request, outcome),
    }
}

/// The result of a positioning command, from the request's return code
/// alone: residual counts are left to a later status read, and nothing is
/// tried again.
pub fn movement_outcome(rc: i32) -> (outcome: Outcome)
    ensures
        outcome == decoded(Reply::Control(rc)),
{
    if rc < 0 {
        Err(TapeError::MovementFailed)
    } else {
        Ok(Completed::Moved(rc))
    }
}

/// The result of a status read: the record with the class of its drive, or
/// `StatusReadFailed` where the driver rejected the request.
pub fn status_outcome(rc: i32, raw: Mtget) -> (outcome: Outcome)
    ensures
        outcome == decoded(Reply::Status(rc, raw)),
{
    if rc < 0 {
        Err(TapeError::StatusReadFailed)
    } else {
        Ok(Completed::Status(raw, classify(raw.mt_type)))
    }
}

/// The result of a position read: the record, or `PositionReadFailed` where
/// the driver rejected the request.
pub fn position_outcome(rc: i32, raw: Mtpos) -> (outcome: Outcome)
    ensures
        outcome == decoded(Reply::Position(rc, raw)),
{
    if rc < 0 {
        Err(TapeError::PositionReadFailed)
    } else {
        Ok(Completed::Position(raw))
    }
}

/// Turns the driver's answer into the outcome of the call.
pub fn decode(reply: Reply) -> (outcome: Outcome)
    ensures
        outcome == decoded(reply),
{
    match reply {
        Reply::Control(rc) => movement_outcome(rc),
        Reply::Status(rc, raw) => status_outcome(rc, raw),
        Reply::Position(rc, raw) => position_outcome(rc, raw),
    }
}

/// Tells whether `reply` answers a request of the kind of `request`.
pub fn is_answer(request: Request, reply: Reply) -> (b: bool)
    ensures
        b == answers(request, reply),
{
    match request {
        Request::Control(_) => match reply {
            Reply::Control(_) => true,
            _ => false,
        },
        Request::ReadStatus => match reply {
            Reply::Status(_, _) => true,
            _ => false,
        },
        Request::ReadPosition => match reply {
            Reply::Position(_, _) => true,
            _ => false,
        },
    }
}

/// The phase after `event`, and whether the session waited for the event.
pub fn advance(request: Request, phase: Phase, event: Event) -> (r: (Phase, bool))
    ensures
        r.0 == next_phase(request, phase, event),
        r.1 == accepts(request, phase, event),
{
    match phase {
        Phase::Opening => match event {
            Event::Opened(fd) => if fd < 0 {
                (Phase::Finished { outcome: Err(TapeError::DeviceOpenFailed) }, true)
            } else {
                (Phase::Operating { fd }, true)
            },
            _ => (phase, false),
        },
        Phase::Operating { fd } => match event {
            Event::Replied(reply) => if is_answer(request, reply) {
                (Phase::Closing { fd, outcome: decode(reply) }, true)
            } else {
                (phase, false)
            },
            _ => (phase, false),
        },
        Phase::Closing { fd, outcome } => match event {
            Event::Closed => (Phase::Finished { outcome }, true),
            _ => (phase, false),
        },
        Phase::Finished { .. } => (phase, false),
    }
}

/// The step that is due in `phase`.
pub fn due(request: Request, phase: Phase) -> (a: Action)
    ensures
        a == pending(request, phase),
{
    match phase {
        Phase::Opening => Action::Open,
        Phase::Operating { fd } => Action::Issue { fd, request },
        Phase::Closing { fd, .. } => Action::Close { fd },
        Phase::Finished { outcome } => Action::Finish(outcome),
    }
}

/// A step preserves what a session holds to.
pub proof fn lemma_step_keeps_well_formed(request: Request, phase: Phase, event: Event)
    requires
        well_formed(request, phase),
    ensures
        well_formed(request, next_phase(request, phase, event)),
{
}

/// One call on one device: the device's path, the request to make once the
/// device is open, and how far the call has come.
pub struct Session {
    device: String,
    request: Request,
    phase: Phase,
}

/// A session as contracts see it.
pub ghost struct SessionView {
    pub device: Seq<char>,
    pub request: Request,
    pub phase: Phase,
}

impl View for Session {
    type V = SessionView;

    closed spec fn view(&self) -> SessionView {
        SessionView { device: self.device@, request: self.request, phase: self.phase }
    }
}

/// The session that `begin` makes: nothing has been done yet.
pub open spec fn begun(device: Seq<char>, request: Request) -> SessionView {
    SessionView { device, request, phase: Phase::Opening }
}

impl Session {
    #[verifier::type_invariant]
    spec fn inv(self) -> bool {
        well_formed(self.request, self.phase)
    }

    /// Starts a call that will make `request` on the device at `device`.
    pub fn begin(device: &str, request: Request) -> (s: Session)
        ensures
            s@ == begun(device@, request),
    {
        Session { device: device.to_owned(), request, phase: Phase::Opening }
    }

    /// The path of the device this call is about.
    pub fn device(&self) -> (d: &str)
        ensures
            d@ == self@.device,
    {
        self.device.as_str()
    }

    /// The request this call makes once the device is open.
    pub fn request(&self) -> (r: Request)
        ensures
            r == self@.request,
    {
        self.request
    }

    /// How far the call has come.
    pub fn phase(&self) -> (p: Phase)
        ensures
            p == self@.phase,
            well_formed(self@.request, p),
    {
        proof {
            use_type_invariant(self);
        }
        self.phase
    }

    /// The step to perform next. Once the call is over this is `Finish`, and
    /// stays so.
    pub fn action(&self) -> (a: Action)
        ensures
            a == pending(self@.request, self@.phase),
            well_formed(self@.request, self@.phase),
    {
        proof {
            use_type_invariant(self);
        }
        due(self.request, self.phase)
    }

    /// Whether the session waits for `event`.
    pub fn awaits(&self, event: Event) -> (b: bool)
        ensures
            b == accepts(self@.request, self@.phase, event),
    {
        advance(self.request, self.phase, event).1
    }

    /// Takes in what came of the step. An event the session did not wait for
    /// changes nothing.
    pub fn step(self, event: Event) -> (s: Session)
        ensures
            s@.device == self@.device,
            s@.request == self@.request,
            s@.phase == next_phase(self@.request, self@.phase, event),
    {
        proof {
            use_type_invariant(&self);
            lemma_step_keeps_well_formed(self.request, self.phase, event);
        }
        let (phase, _) = advance(self.request, self.phase, event);
        Session { device: self.device, request: self.request, phase }
    }

    /// The outcome of the call, once it is over.
    pub fn outcome(&self) -> (o: Option<Outcome>)
        ensures
            o == match self@.phase {
                Phase::Finished { outcome } => Some(outcome),
                _ => None::<Outcome>,
            },
    {
        match self.phase {
            Phase::Finished { outcome } => Some(outcome),
            _ => None,
        }
    }
}

} // verus!
