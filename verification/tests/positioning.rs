use must::mtio::{
    space_code, MovementDescriptor, MovementDirection, MovementType, Mtop, MTBSF, MTBSR, MTFSF,
    MTFSR, MTIOCGET_NR, MTIOCPOS_NR, MTIOCTOP_NR, MTIOC_MAGIC, MTRESET, MTREW, MTWEOF,
};
use must::run::replay;
use must::session::{Action, Completed, Event, Phase, Reply, Request, Session, TapeError};
use must::tape::{
    fastforward_filemark, fastforward_record, flush, move_space, reset, rewind, space, write_eof,
};

/// Runs a session against a driver that opens descriptor `fd` and answers the
/// positioning command with `rc`.
fn run_with(session: Session, fd: i32, rc: i32) -> (Session, Vec<Action>) {
    let script = vec![Event::Opened(fd), Event::Replied(Reply::Control(rc)), Event::Closed];
    replay(session, &script)
}

fn issued(steps: &[Action]) -> Vec<Mtop> {
    let mut out = Vec::new();
    for step in steps {
        if let Action::Issue { request: Request::Control(op), .. } = step {
            out.push(*op);
        }
    }
    out
}

#[test]
fn operation_codes_match_the_driver() {
    assert_eq!(MTRESET, 0);
    assert_eq!(MTFSF, 1);
    assert_eq!(MTBSF, 2);
    assert_eq!(MTFSR, 3);
    assert_eq!(MTBSR, 4);
    assert_eq!(MTWEOF, 5);
    assert_eq!(MTREW, 6);
}

#[test]
fn request_numbers_match_the_driver() {
    assert_eq!(MTIOC_MAGIC, b'm');
    assert_eq!(MTIOCTOP_NR, 1);
    assert_eq!(MTIOCGET_NR, 2);
    assert_eq!(MTIOCPOS_NR, 3);
}

#[test]
fn space_code_of_each_combination() {
    assert_eq!(space_code(MovementType::FileMark, MovementDirection::Forward), 1);
    assert_eq!(space_code(MovementType::FileMark, MovementDirection::Backward), 2);
    assert_eq!(space_code(MovementType::Record, MovementDirection::Forward), 3);
    assert_eq!(space_code(MovementType::Record, MovementDirection::Backward), 4);
}

#[test]
fn space_codes_are_pairwise_distinct() {
    let kinds = [MovementType::Record, MovementType::FileMark];
    let directions = [MovementDirection::Forward, MovementDirection::Backward];
    let mut codes = Vec::new();
    for k in kinds {
        for d in directions {
            codes.push(space_code(k, d));
        }
    }
    for i in 0..codes.len() {
        for j in 0..codes.len() {
            if i != j {
                assert_ne!(codes[i], codes[j]);
            }
        }
        assert_ne!(codes[i], MTRESET);
        assert_ne!(codes[i], MTWEOF);
        assert_ne!(codes[i], MTREW);
    }
}

#[test]
fn move_space_emits_the_code_and_count_for_each_combination() {
    let cases = [
        (MovementType::Record, MovementDirection::Forward, 3i16),
        (MovementType::Record, MovementDirection::Backward, 4),
        (MovementType::FileMark, MovementDirection::Forward, 1),
        (MovementType::FileMark, MovementDirection::Backward, 2),
    ];
    for (kind, direction, code) in cases {
        let (end, steps) = run_with(move_space("/dev/faketape", kind, direction, 7), 3, 0);
        assert_eq!(issued(&steps), vec![Mtop { mt_op: code, mt_count: 7 }]);
        assert_eq!(end.outcome(), Some(Ok(Completed::Moved(0))));
    }
}

#[test]
fn move_space_record_forward_five_end_to_end() {
    let session = move_space("/dev/faketape", MovementType::Record, MovementDirection::Forward, 5);
    assert_eq!(session.device(), "/dev/faketape");
    let (end, steps) = run_with(session, 9, 0);
    assert_eq!(
        steps,
        vec![
            Action::Open,
            Action::Issue { fd: 9, request: Request::Control(Mtop { mt_op: MTFSR, mt_count: 5 }) },
            Action::Close { fd: 9 },
        ]
    );
    assert_eq!(end.action(), Action::Finish(Ok(Completed::Moved(0))));
}

#[test]
fn move_space_by_zero_still_asks_the_driver() {
    let (_, steps) = run_with(
        move_space("/dev/faketape", MovementType::FileMark, MovementDirection::Backward, 0),
        3,
        0,
    );
    assert_eq!(issued(&steps), vec![Mtop { mt_op: MTBSF, mt_count: 0 }]);
}

#[test]
fn move_space_with_largest_count() {
    let (_, steps) = run_with(
        move_space("/dev/faketape", MovementType::Record, MovementDirection::Backward, i32::MAX),
        3,
        0,
    );
    assert_eq!(issued(&steps), vec![Mtop { mt_op: MTBSR, mt_count: i32::MAX }]);
}

#[test]
fn fastforward_filemark_is_forward_filemark_spacing() {
    let a = fastforward_filemark("/dev/faketape", 2);
    let b = move_space("/dev/faketape", MovementType::FileMark, MovementDirection::Forward, 2);
    assert_eq!(a.request(), Request::Control(Mtop { mt_op: MTFSF, mt_count: 2 }));
    assert_eq!(a.request(), b.request());
    assert_eq!(a.device(), b.device());
    assert_eq!(a.phase(), Phase::Opening);
}

#[test]
fn fastforward_record_is_forward_record_spacing() {
    let a = fastforward_record("/dev/faketape", 11);
    let b = move_space("/dev/faketape", MovementType::Record, MovementDirection::Forward, 11);
    assert_eq!(a.request(), Request::Control(Mtop { mt_op: MTFSR, mt_count: 11 }));
    assert_eq!(a.request(), b.request());
}

#[test]
fn rewind_emits_rewind_with_count_one() {
    let (end, steps) = run_with(rewind("/dev/faketape"), 5, 0);
    assert_eq!(issued(&steps), vec![Mtop { mt_op: MTREW, mt_count: 1 }]);
    assert_eq!(end.outcome(), Some(Ok(Completed::Moved(0))));
}

#[test]
fn reset_emits_reset_with_count_one() {
    let (_, steps) = run_with(reset("/dev/faketape"), 5, 0);
    assert_eq!(issued(&steps), vec![Mtop { mt_op: MTRESET, mt_count: 1 }]);
}

#[test]
fn flush_emits_write_filemark_with_count_zero() {
    let (_, steps) = run_with(flush("/dev/faketape"), 4, 0);
    assert_eq!(issued(&steps), vec![Mtop { mt_op: MTWEOF, mt_count: 0 }]);
    assert_eq!(issued(&steps), vec![Mtop { mt_op: 5, mt_count: 0 }]);
}

#[test]
fn flush_is_write_eof_zero() {
    let a = flush("/dev/faketape");
    let b = write_eof("/dev/faketape", 0);
    assert_eq!(a.request(), b.request());
    assert_eq!(a.device(), b.device());
    assert_eq!(a.phase(), b.phase());
    let (end_a, steps_a) = run_with(a, 4, 0);
    let (end_b, steps_b) = run_with(b, 4, 0);
    assert_eq!(steps_a, steps_b);
    assert_eq!(end_a.outcome(), end_b.outcome());
}

#[test]
fn write_eof_zero_is_not_a_no_op() {
    let (end, steps) = run_with(write_eof("/dev/faketape", 0), 4, 0);
    assert_eq!(steps.len(), 3);
    assert_eq!(
        steps[1],
        Action::Issue { fd: 4, request: Request::Control(Mtop { mt_op: MTWEOF, mt_count: 0 }) }
    );
    assert_eq!(end.outcome(), Some(Ok(Completed::Moved(0))));
}

#[test]
fn write_eof_passes_its_count() {
    let (_, steps) = run_with(write_eof("/dev/faketape", 3), 4, 0);
    assert_eq!(issued(&steps), vec![Mtop { mt_op: MTWEOF, mt_count: 3 }]);
    assert_ne!(write_eof("/dev/faketape", 3).request(), flush("/dev/faketape").request());
}

#[test]
fn rejected_movement_is_movement_failed() {
    let (end, steps) = run_with(rewind("/dev/faketape"), 5, -1);
    assert_eq!(end.outcome(), Some(Err(TapeError::MovementFailed)));
    assert_eq!(steps.len(), 3);
    assert_eq!(steps[2], Action::Close { fd: 5 });
}

#[test]
fn movement_success_keeps_the_driver_code() {
    let (end, _) = run_with(rewind("/dev/faketape"), 5, 2);
    assert_eq!(end.outcome(), Some(Ok(Completed::Moved(2))));
}

#[test]
fn descriptor_refuses_negative_count() {
    assert!(MovementDescriptor::new(MovementType::Record, MovementDirection::Forward, -1).is_none());
    assert!(
        MovementDescriptor::new(MovementType::FileMark, MovementDirection::Backward, i32::MIN)
            .is_none()
    );
}

#[test]
fn descriptor_keeps_its_parts() {
    let d = MovementDescriptor::new(MovementType::FileMark, MovementDirection::Backward, 4)
        .unwrap();
    assert_eq!(d.kind(), MovementType::FileMark);
    assert_eq!(d.direction(), MovementDirection::Backward);
    assert_eq!(d.count(), 4);
    assert_eq!(d.command(), Mtop { mt_op: MTBSF, mt_count: 4 });
    let z = MovementDescriptor::new(MovementType::Record, MovementDirection::Forward, 0).unwrap();
    assert_eq!(z.command(), Mtop { mt_op: MTFSR, mt_count: 0 });
}

#[test]
fn space_starts_what_the_descriptor_says() {
    let d = MovementDescriptor::new(MovementType::Record, MovementDirection::Backward, 12)
        .unwrap();
    let a = space("/dev/faketape", d);
    let b = move_space("/dev/faketape", MovementType::Record, MovementDirection::Backward, 12);
    assert_eq!(a.request(), Request::Control(Mtop { mt_op: MTBSR, mt_count: 12 }));
    assert_eq!(a.request(), b.request());
    assert_eq!(a.device(), "/dev/faketape");
    assert_eq!(a.phase(), Phase::Opening);
}

#[test]
fn default_command_is_zeroed() {
    assert_eq!(Mtop::default(), Mtop { mt_op: 0, mt_count: 0 });
}
