//! Whole runs of a session: what is performed, in which order, whatever the
//! outside world reports.
//!
//! A run is the list of events handed to a session, one after the other, from
//! its start. Each event that the session waited for stands for one step
//! performed: the step that was due when the event came.

use vstd::prelude::*;
use crate::session::{
    accepts, answers, decoded, fits, next_phase, pending, well_formed, Action, Completed, Event,
    Outcome, Phase, Reply, Request, Session, TapeError,
};

verus! {

/// The steps performed while `events` come in, starting in `phase`.
pub open spec fn performed(request: Request, phase: Phase, events: Seq<Event>) -> Seq<Action>
    decreases events.len(),
{
    if events.len() == 0 {
        Seq::empty()
    } else if accepts(request, phase, events[0]) {
        seq![pending(request, phase)] + performed(
            request,
            next_phase(request, phase, events[0]),
            events.drop_first(),
        )
    } else {
        performed(request, phase, events.drop_first())
    }
}

/// The phase reached once `events` have come in, starting in `phase`.
pub open spec fn reached(request: Request, phase: Phase, events: Seq<Event>) -> Phase
    decreases events.len(),
{
    if events.len() == 0 {
        phase
    } else {
        reached(request, next_phase(request, phase, events[0]), events.drop_first())
    }
}

/// The descriptor that the first report of an open in `events` carries.
pub open spec fn first_open(events: Seq<Event>) -> Option<i32>
    decreases events.len(),
{
    if events.len() == 0 {
        None
    } else {
        match events[0] {
            Event::Opened(fd) => Some(fd),
            _ => first_open(events.drop_first()),
        }
    }
}

/// What follows the first report of an open in `events`.
pub open spec fn after_first_open(events: Seq<Event>) -> Seq<Event>
    decreases events.len(),
{
    if events.len() == 0 {
        events
    } else {
        match events[0] {
            Event::Opened(_) => events.drop_first(),
            _ => after_first_open(events.drop_first()),
        }
    }
}

/// The first reply in `events` that answers `request`.
pub open spec fn first_answer(request: Request, events: Seq<Event>) -> Option<Reply>
    decreases events.len(),
{
    if events.len() == 0 {
        None
    } else {
        match events[0] {
            Event::Replied(reply) => if answers(request, reply) {
                Some(reply)
            } else {
                first_answer(request, events.drop_first())
            },
            _ => first_answer(request, events.drop_first()),
        }
    }
}

/// The phase of a call whose open failed.
pub open spec fn open_failed() -> Phase {
    Phase::Finished { outcome: Err(TapeError::DeviceOpenFailed) }
}

/// Whether `outcome` is what the first answer to `request` in `events`
/// amounts to.
pub open spec fn answered_with(request: Request, events: Seq<Event>, outcome: Outcome) -> bool {
    match first_answer(request, events) {
        Some(reply) => answers(request, reply) && outcome == decoded(reply),
        None => false,
    }
}

/// The outcome of an answer is one that its request can end with.
pub proof fn lemma_decoded_fits(request: Request, reply: Reply)
    requires
        answers(request, reply),
    ensures
        fits(request, decoded(reply)),
{
}

/// A finished call performs nothing more and stays finished.
pub proof fn lemma_finished_is_final(request: Request, phase: Phase, events: Seq<Event>)
    requires
        phase is Finished,
    ensures
        reached(request, phase, events) == phase,
        performed(request, phase, events) =~= Seq::<Action>::empty(),
    decreases events.len(),
{
    if events.len() > 0 {
        lemma_finished_is_final(request, phase, events.drop_first());
    }
}

/// From the moment the request is answered, the only step left is the release
/// of the handle, and it is performed at most once. The outcome is settled:
/// nothing that comes later changes it.
pub proof fn lemma_closing_runs(request: Request, phase: Phase, events: Seq<Event>)
    requires
        phase is Closing,
    ensures
        ({
            let t = performed(request, phase, events);
            let p = reached(request, phase, events);
            ||| (p == phase && t =~= Seq::<Action>::empty())
            ||| (p == (Phase::Finished { outcome: phase->Closing_outcome }) && t =~= seq![
                Action::Close { fd: phase->Closing_fd },
            ])
        }),
    decreases events.len(),
{
    if events.len() > 0 {
        let next = next_phase(request, phase, events[0]);
        if accepts(request, phase, events[0]) {
            lemma_finished_is_final(request, next, events.drop_first());
        } else {
            lemma_closing_runs(request, phase, events.drop_first());
        }
    }
}

/// On an open handle the request is issued at most once, on that handle; the
/// outcome is what the first answer to it amounts to; and the release follows
/// the answer, on that handle too.
pub proof fn lemma_operating_runs(request: Request, fd: i32, events: Seq<Event>)
    ensures
        ({
            let t = performed(request, Phase::Operating { fd }, events);
            let issue = Action::Issue { fd, request };
            match reached(request, Phase::Operating { fd }, events) {
                Phase::Opening => false,
                Phase::Operating { fd: f } => f == fd && first_answer(request, events) is None
                    && t =~= Seq::<Action>::empty(),
                Phase::Closing { fd: f, outcome } => f == fd && answered_with(
                    request,
                    events,
                    outcome,
                ) && t =~= seq![issue],
                Phase::Finished { outcome } => answered_with(request, events, outcome) && t
                    =~= seq![issue, Action::Close { fd }],
            }
        }),
    decreases events.len(),
{
    let phase = Phase::Operating { fd };
    if events.len() > 0 {
        let next = next_phase(request, phase, events[0]);
        if accepts(request, phase, events[0]) {
            lemma_closing_runs(request, next, events.drop_first());
        } else {
            lemma_operating_runs(request, fd, events.drop_first());
        }
    }
}

/// Every run of a call, finished or not, whatever is reported and in whatever
/// order: the device is opened first and once. If the open gave no valid
/// descriptor, the call is over with `DeviceOpenFailed` and nothing else was
/// performed. Otherwise the request is issued at most once, on the descriptor
/// that the open gave; the outcome is what the driver's first answer to the
/// request amounts to, and nothing else; the handle is released only after
/// that answer, once, whether the driver accepted the request or not; and the
/// call is over only when the handle has been released.
pub proof fn lemma_session_runs(request: Request, events: Seq<Event>)
    ensures
        ({
            let t = performed(request, Phase::Opening, events);
            let rest = after_first_open(events);
            let open = Action::Open;
            match reached(request, Phase::Opening, events) {
                Phase::Opening => first_open(events) is None && t =~= Seq::<Action>::empty(),
                Phase::Operating { fd } => first_open(events) == Some(fd) && fd >= 0
                    && first_answer(request, rest) is None && t =~= seq![open],
                Phase::Closing { fd, outcome } => first_open(events) == Some(fd) && fd >= 0
                    && answered_with(request, rest, outcome) && t =~= seq![
                    open,
                    Action::Issue { fd, request },
                ],
                Phase::Finished { outcome } => match first_open(events) {
                    None => false,
                    Some(fd) => if fd < 0 {
                        outcome == Err::<Completed, TapeError>(TapeError::DeviceOpenFailed) && t
                            =~= seq![open]
                    } else {
                        answered_with(request, rest, outcome) && t =~= seq![
                            open,
                            Action::Issue { fd, request },
                            Action::Close { fd },
                        ]
                    },
                },
            }
        }),
    decreases events.len(),
{
    let phase = Phase::Opening;
    if events.len() > 0 {
        let next = next_phase(request, phase, events[0]);
        match events[0] {
            Event::Opened(fd) => {
                if fd < 0 {
                    lemma_finished_is_final(request, next, events.drop_first());
                } else {
                    lemma_operating_runs(request, fd, events.drop_first());
                }
            },
            _ => {
                lemma_session_runs(request, events.drop_first());
            },
        }
    }
}

/// When the device cannot be opened, the call ends with `DeviceOpenFailed`
/// whatever its request is, and no request and no release is ever performed:
/// there is no handle to perform them on.
pub proof fn lemma_failed_open_issues_nothing(request: Request, events: Seq<Event>, fd: i32)
    requires
        first_open(events) == Some(fd),
        fd < 0,
    ensures
        reached(request, Phase::Opening, events) == open_failed(),
        performed(request, Phase::Opening, events) == seq![Action::Open],
{
    lemma_session_runs(request, events);
}

/// A call that opened its device and came to its end has released the handle
/// exactly once, after the one request it issued on it, and this does not
/// depend on whether the driver accepted the request.
pub proof fn lemma_handle_released_once(request: Request, events: Seq<Event>, fd: i32)
    requires
        first_open(events) == Some(fd),
        fd >= 0,
        reached(request, Phase::Opening, events) is Finished,
    ensures
        performed(request, Phase::Opening, events) == seq![
            Action::Open,
            Action::Issue { fd, request },
            Action::Close { fd },
        ],
        reached(request, Phase::Opening, events) != open_failed(),
{
    lemma_session_runs(request, events);
}

/// The outcome of a call. `fd` is what the open gave and `reply` what the
/// driver answered to the request, had it been issued.
pub open spec fn call_outcome(fd: i32, reply: Reply) -> Outcome {
    if fd < 0 {
        Err(TapeError::DeviceOpenFailed)
    } else {
        decoded(reply)
    }
}

/// The events of a call in which every step is performed and reported as it
/// comes due.
pub open spec fn plain_run(fd: i32, reply: Reply) -> Seq<Event> {
    if fd < 0 {
        seq![Event::Opened(fd)]
    } else {
        seq![Event::Opened(fd), Event::Replied(reply), Event::Closed]
    }
}

/// A call in which every step is performed as it comes due ends with the
/// outcome that the open and the driver's answer decide, after an open, and,
/// where the open succeeded, one request and one release.
pub proof fn lemma_plain_run(request: Request, fd: i32, reply: Reply)
    requires
        answers(request, reply),
    ensures
        reached(request, Phase::Opening, plain_run(fd, reply)) == (Phase::Finished {
            outcome: call_outcome(fd, reply),
        }),
        fd < 0 ==> performed(request, Phase::Opening, plain_run(fd, reply)) == seq![Action::Open],
        fd >= 0 ==> performed(request, Phase::Opening, plain_run(fd, reply)) == seq![
            Action::Open,
            Action::Issue { fd, request },
            Action::Close { fd },
        ],
{
    let events = plain_run(fd, reply);
    lemma_session_runs(request, events);
    reveal_with_fuel(reached, 4);
    reveal_with_fuel(first_open, 2);
    if fd >= 0 {
        assert(events.drop_first() =~= seq![Event::Replied(reply), Event::Closed]);
        assert(events.drop_first().drop_first() =~= seq![Event::Closed]);
        assert(events.drop_first().drop_first().drop_first() =~= Seq::<Event>::empty());
    } else {
        assert(events.drop_first() =~= Seq::<Event>::empty());
    }
}

/// A run that is one event longer: the phase moves on by that event, and the
/// step then due is performed if the session waited for the event.
pub proof fn lemma_run_extended(request: Request, phase: Phase, events: Seq<Event>, last: Event)
    ensures
        reached(request, phase, events.push(last)) == next_phase(
            request,
            reached(request, phase, events),
            last,
        ),
        performed(request, phase, events.push(last)) =~= performed(request, phase, events) + (
        if accepts(request, reached(request, phase, events), last) {
            seq![pending(request, reached(request, phase, events))]
        } else {
            Seq::<Action>::empty()
        }),
    decreases events.len(),
{
    let longer = events.push(last);
    if events.len() == 0 {
        assert(longer.drop_first() =~= Seq::<Event>::empty());
        assert(longer[0] == last);
        reveal_with_fuel(reached, 2);
        reveal_with_fuel(performed, 2);
    } else {
        assert(longer.drop_first() =~= events.drop_first().push(last));
        assert(longer[0] == events[0]);
        lemma_run_extended(
            request,
            next_phase(request, phase, events[0]),
            events.drop_first(),
            last,
        );
    }
}

/// Hands `events` to `session` one after the other, as a driver that answers
/// from a script would, and lists the steps that were performed on the way.
pub fn replay(session: Session, events: &Vec<Event>) -> (r: (Session, Vec<Action>))
    ensures
        r.0@.device == session@.device,
        r.0@.request == session@.request,
        r.0@.phase == reached(session@.request, session@.phase, events@),
        r.1@ == performed(session@.request, session@.phase, events@),
{
    let ghost request = session@.request;
    let ghost start = session@.phase;
    let mut current = session;
    let mut steps: Vec<Action> = Vec::new();
    let mut i: usize = 0;
    while i < events.len()
        invariant
            i <= events.len(),
            current@.device == session@.device,
            current@.request == request,
            current@.phase == reached(request, start, events@.take(i as int)),
            steps@ =~= performed(request, start, events@.take(i as int)),
        decreases events.len() - i,
    {
        let event = events[i];
        proof {
            lemma_run_extended(request, start, events@.take(i as int), event);
            assert(events@.take(i as int).push(event) =~= events@.take(i + 1));
        }
        if current.awaits(event) {
            steps.push(current.action());
        }
        current = current.step(event);
        i = i + 1;
    }
    assert(events@.take(i as int) =~= events@);
    (current, steps)
}

/// Every phase that a run reaches is well formed.
pub proof fn lemma_runs_stay_well_formed(request: Request, events: Seq<Event>)
    ensures
        well_formed(request, reached(request, Phase::Opening, events)),
{
    lemma_session_runs(request, events);
    match reached(request, Phase::Opening, events) {
        Phase::Closing { outcome, .. } => {
            lemma_decoded_fits(request, first_answer(request, after_first_open(events))->Some_0);
        },
        Phase::Finished { outcome } => {
            if first_open(events)->Some_0 >= 0 {
                lemma_decoded_fits(
                    request,
                    first_answer(request, after_first_open(events))->Some_0,
                );
            }
        },
        _ => {},
    }
}

} // verus!
