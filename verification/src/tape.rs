//! The calls a user of the tape layer makes. Each starts a session for one
//! device and one control request; none touches the device itself.

use vstd::prelude::*;
use crate::mtio::{
    space_code, space_op, MovementDescriptor, MovementDirection, MovementType, Mtop, MTFSF, MTFSR,
    MTRESET, MTREW, MTWEOF,
};
use crate::run::{lemma_plain_run, performed, plain_run};
use crate::session::{
    begun, next_phase, pending, Action, Event, Phase, Reply, Request, Session,
};

verus! {

/// The request that rewinds the tape to beginning-of-medium.
pub open spec fn rewind_request() -> Request {
    Request::Control(Mtop { mt_op: MTREW, mt_count: 1 })
}

/// The request that re-initialises the drive. The driver ignores the count,
/// which is 1 by convention.
pub open spec fn reset_request() -> Request {
    Request::Control(Mtop { mt_op: MTRESET, mt_count: 1 })
}

/// The request that writes `count` filemarks. With a count of zero it is the
/// request to flush: it goes to the driver like any other, and the driver then
/// forces buffered data to the medium without writing a filemark.
pub open spec fn write_eof_request(count: i32) -> Request {
    Request::Control(Mtop { mt_op: MTWEOF, mt_count: count })
}

/// The request that spaces over `count` records or filemarks. The direction
/// picks the operation code; the count goes to the driver as it is.
pub open spec fn space_request(
    kind: MovementType,
    direction: MovementDirection,
    count: i32,
) -> Request {
    Request::Control(Mtop { mt_op: space_op(kind, direction), mt_count: count })
}

/// Starts a rewind of the tape in `dev`.
pub fn rewind(dev: &str) -> (s: Session)
    ensures
        s@ == begun(dev@, rewind_request()),
{
    Session::begin(dev, Request::Control(Mtop { mt_op: MTREW, mt_count: 1 }))
}

/// Starts a reset of the drive `dev`.
pub fn reset(dev: &str) -> (s: Session)
    ensures
        s@ == begun(dev@, reset_request()),
{
    Session::begin(dev, Request::Control(Mtop { mt_op: MTRESET, mt_count: 1 }))
}

/// Starts a flush of buffered data to the tape in `dev`: a write of zero
/// filemarks.
pub fn flush(dev: &str) -> (s: Session)
    ensures
        s@ == begun(dev@, write_eof_request(0)),
{
    write_eof(dev, 0)
}

/// Starts a write of `count` filemarks to the tape in `dev`. A count of zero
/// asks the driver to flush and is passed on like any other count.
pub fn write_eof(dev: &str, count: i32) -> (s: Session)
    ensures
        s@ == begun(dev@, write_eof_request(count)),
{
    Session::begin(dev, Request::Control(Mtop { mt_op: MTWEOF, mt_count: count }))
}

/// Starts a spacing of the tape in `dev` over `count` records or filemarks,
/// forward or backward.
pub fn move_space(
    dev: &str,
    kind: MovementType,
    direction: MovementDirection,
    count: i32,
) -> (s: Session)
    requires
        count >= 0,
    ensures
        s@ == begun(dev@, space_request(kind, direction, count)),
{
    let op = space_code(kind, direction);
    Session::begin(dev, Request::Control(Mtop { mt_op: op, mt_count: count }))
}

/// Starts the spacing that `movement` describes on the tape in `dev`.
pub fn space(dev: &str, movement: MovementDescriptor) -> (s: Session)
    ensures
        s@ == begun(
            dev@,
            space_request(movement.spec_kind(), movement.spec_direction(), movement.spec_count()),
        ),
        movement.spec_count() >= 0,
{
    Session::begin(dev, Request::Control(movement.command()))
}

/// Starts a spacing forward over `count` filemarks.
pub fn fastforward_filemark(dev: &str, count: i32) -> (s: Session)
    requires
        count >= 0,
    ensures
        s@ == begun(
            dev@,
            space_request(MovementType::FileMark, MovementDirection::Forward, count),
        ),
        s@.request == Request::Control(Mtop { mt_op: MTFSF, mt_count: count }),
{
    move_space(dev, MovementType::FileMark, MovementDirection::Forward, count)
}

/// Starts a spacing forward over `count` records.
pub fn fastforward_record(dev: &str, count: i32) -> (s: Session)
    requires
        count >= 0,
    ensures
        s@ == begun(dev@, space_request(MovementType::Record, MovementDirection::Forward, count)),
        s@.request == Request::Control(Mtop { mt_op: MTFSR, mt_count: count }),
{
    move_space(dev, MovementType::Record, MovementDirection::Forward, count)
}

/// Starts a read of the status of the drive `dev`.
pub fn status(dev: &str) -> (s: Session)
    ensures
        s@ == begun(dev@, Request::ReadStatus),
{
    Session::begin(dev, Request::ReadStatus)
}

/// Starts a read of the position of the tape in `dev`.
pub fn get_position(dev: &str) -> (s: Session)
    ensures
        s@ == begun(dev@, Request::ReadPosition),
{
    Session::begin(dev, Request::ReadPosition)
}

/// A flush is a write of zero filemarks and nothing else: the two calls start
/// the same session on the same device.
pub proof fn lemma_flush_is_write_eof_zero(dev: Seq<char>)
    ensures
        begun(dev, write_eof_request(0)) == begun(
            dev,
            Request::Control(Mtop { mt_op: MTWEOF, mt_count: 0 }),
        ),
        write_eof_request(0) != rewind_request(),
        write_eof_request(0) != reset_request(),
{
}

/// A write of filemarks reaches the driver with its count, whatever the count
/// is: once the device is open, the step due is the request with the
/// write-filemark code and that count. A count of zero makes no exception, so
/// a flush is never answered without asking the driver.
pub proof fn lemma_write_eof_reaches_driver(count: i32, fd: i32)
    requires
        fd >= 0,
    ensures
        pending(
            write_eof_request(count),
            next_phase(write_eof_request(count), Phase::Opening, Event::Opened(fd)),
        ) == (Action::Issue {
            fd,
            request: Request::Control(Mtop { mt_op: MTWEOF, mt_count: count }),
        }),
{
}

/// A spacing call whose device opens emits one control request, and that
/// request carries the operation code of the unit and direction asked for and
/// the count asked for, whatever the driver then answers.
pub proof fn lemma_move_space_emits(
    kind: MovementType,
    direction: MovementDirection,
    count: i32,
    fd: i32,
    rc: i32,
)
    requires
        count >= 0,
        fd >= 0,
    ensures
        performed(
            space_request(kind, direction, count),
            Phase::Opening,
            plain_run(fd, Reply::Control(rc)),
        ) == seq![
            Action::Open,
            Action::Issue {
                fd,
                request: Request::Control(
                    Mtop { mt_op: space_op(kind, direction), mt_count: count },
                ),
            },
            Action::Close { fd },
        ],
{
    lemma_plain_run(space_request(kind, direction, count), fd, Reply::Control(rc));
}

/// Requests that differ in what they ask for differ as values: two spacing
/// requests are equal only if unit, direction and count agree.
pub proof fn lemma_space_requests_distinct(
    k1: MovementType,
    d1: MovementDirection,
    c1: i32,
    k2: MovementType,
    d2: MovementDirection,
    c2: i32,
)
    ensures
        space_request(k1, d1, c1) == space_request(k2, d2, c2) <==> (k1 == k2 && d1 == d2 && c1
            == c2),
{
    crate::mtio::lemma_space_ops_distinct(k1, d1, k2, d2);
}

} // verus!
