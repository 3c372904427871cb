use trayasen::codec::{MotionCommand, PositionSpeed};
use trayasen::controller::{
    decide_move, Seek, SeekAction, SeekDecision, SeekEvent, POLL_INTERVAL_MS, SEEK_TOLERANCE,
};
use trayasen::error::BtError;

/// A desk that moves by a fixed step on each drive command.
struct SteppingDesk {
    position: i64,
    step: i64,
    polls: usize,
    writes: Vec<MotionCommand>,
}

impl SteppingDesk {
    fn at(position: i64, step: i64) -> SteppingDesk {
        SteppingDesk { position, step, polls: 0, writes: Vec::new() }
    }

    fn drives(&self) -> usize {
        self.writes.iter().filter(|cmd| **cmd != MotionCommand::Stop).count()
    }

    fn stops(&self) -> usize {
        self.writes.iter().filter(|cmd| **cmd == MotionCommand::Stop).count()
    }
}

/// Runs a seek for `target` against `desk`, for `rounds` exchanges at most.
fn run(desk: &mut SteppingDesk, target: u16, rounds: usize) -> Option<Result<(), BtError>> {
    let mut seek = Seek::start(target);
    for _ in 0..rounds {
        match seek.action() {
            SeekAction::Halt => break,
            SeekAction::Poll { after_ms } => {
                assert_eq!(after_ms, 200);
                desk.polls += 1;
                let reading = PositionSpeed { position: desk.position as u16, speed: 0 };
                seek = seek.handle(SeekEvent::PositionRead(Ok(reading)));
            }
            SeekAction::Send(cmd) => {
                desk.writes.push(cmd);
                match cmd {
                    MotionCommand::Up => desk.position += desk.step,
                    MotionCommand::Down => desk.position -= desk.step,
                    MotionCommand::Stop => {}
                }
                seek = seek.handle(SeekEvent::CommandSent(Ok(())));
            }
        }
    }
    seek.finish()
}

fn reading(position: u16) -> SeekEvent {
    SeekEvent::PositionRead(Ok(PositionSpeed { position, speed: 0 }))
}

#[test]
fn tolerance_is_one_centimetre_and_polling_a_fifth_of_a_second() {
    assert_eq!(SEEK_TOLERANCE, 100);
    assert_eq!(POLL_INTERVAL_MS, 200);
}

#[test]
fn a_desk_at_the_target_has_arrived() {
    assert_eq!(decide_move(7000, 7000), SeekDecision::Arrived);
}

#[test]
fn a_desk_within_tolerance_is_settled() {
    assert_eq!(decide_move(7000, 6999), SeekDecision::Settle);
    assert_eq!(decide_move(7000, 7001), SeekDecision::Settle);
    assert_eq!(decide_move(7000, 6900), SeekDecision::Settle);
    assert_eq!(decide_move(7000, 7100), SeekDecision::Settle);
}

#[test]
fn a_desk_beyond_tolerance_is_driven_towards_the_target() {
    assert_eq!(decide_move(7000, 6899), SeekDecision::Drive(MotionCommand::Up));
    assert_eq!(decide_move(7000, 7101), SeekDecision::Drive(MotionCommand::Down));
    assert_eq!(decide_move(12700, 6200), SeekDecision::Drive(MotionCommand::Up));
    assert_eq!(decide_move(6200, 12700), SeekDecision::Drive(MotionCommand::Down));
}

#[test]
fn a_reading_far_beyond_the_signed_range_is_still_above_the_target() {
    assert_eq!(decide_move(7000, 40000), SeekDecision::Drive(MotionCommand::Down));
    assert_eq!(decide_move(12700, 65535), SeekDecision::Drive(MotionCommand::Down));
    assert_eq!(decide_move(6200, 0), SeekDecision::Drive(MotionCommand::Up));
}

#[test]
fn a_target_below_the_range_is_refused_without_a_write() {
    for target in [0u16, 1, 6199] {
        let seek = Seek::start(target);
        assert_eq!(seek.action(), SeekAction::Halt);
        assert!(seek.is_finished());
        assert!(!seek.is_reached());
        assert_eq!(seek.finish(), Some(Err(BtError::PositionNotInRange)));
    }
}

#[test]
fn a_target_above_the_range_is_refused_without_a_write() {
    for target in [12701u16, 20000, u16::MAX] {
        let mut desk = SteppingDesk::at(7000, 10);
        assert_eq!(run(&mut desk, target, 50), Some(Err(BtError::PositionNotInRange)));
        assert_eq!(desk.polls, 0);
        assert!(desk.writes.is_empty());
        assert_eq!(desk.position, 7000);
    }
}

#[test]
fn a_refused_seek_stays_refused_whatever_is_reported() {
    let seek = Seek::start(100);
    let seek = seek.handle(reading(100));
    assert_eq!(seek.action(), SeekAction::Halt);
    let seek = seek.handle(SeekEvent::CommandSent(Ok(())));
    assert_eq!(seek.action(), SeekAction::Halt);
    assert_eq!(seek.finish(), Some(Err(BtError::PositionNotInRange)));
}

#[test]
fn the_limits_of_the_range_are_accepted() {
    assert_eq!(Seek::start(6200).action(), SeekAction::Poll { after_ms: 200 });
    assert_eq!(Seek::start(12700).action(), SeekAction::Poll { after_ms: 200 });
    assert_eq!(Seek::start(6200).target(), 6200);
    assert!(!Seek::start(12700).is_finished());
    assert_eq!(Seek::start(9000).finish(), None);
}

#[test]
fn a_desk_already_at_the_target_is_left_alone() {
    let mut desk = SteppingDesk::at(8000, 25);
    assert_eq!(run(&mut desk, 8000, 50), Some(Ok(())));
    assert_eq!(desk.polls, 1);
    assert!(desk.writes.is_empty());
}

#[test]
fn an_exact_match_ends_the_seek_on_the_first_reading() {
    let seek = Seek::start(8000);
    let seek = seek.handle(reading(8000));
    assert_eq!(seek.action(), SeekAction::Halt);
    assert!(seek.is_reached());
    assert_eq!(seek.finish(), Some(Ok(())));
}

#[test]
fn a_desk_within_tolerance_is_stopped_and_counts_as_reached() {
    let seek = Seek::start(8000);
    let seek = seek.handle(reading(8100));
    assert_eq!(seek.action(), SeekAction::Send(MotionCommand::Stop));
    assert!(!seek.is_finished());
    let seek = seek.handle(SeekEvent::CommandSent(Ok(())));
    assert_eq!(seek.action(), SeekAction::Halt);
    assert_eq!(seek.finish(), Some(Ok(())));
}

#[test]
fn a_desk_below_the_target_is_driven_up_and_read_again() {
    let seek = Seek::start(8000);
    let seek = seek.handle(reading(7899));
    assert_eq!(seek.action(), SeekAction::Send(MotionCommand::Up));
    let seek = seek.handle(SeekEvent::CommandSent(Ok(())));
    assert_eq!(seek.action(), SeekAction::Poll { after_ms: 200 });
    assert_eq!(seek.finish(), None);
}

#[test]
fn a_desk_above_the_target_is_driven_down_and_read_again() {
    let seek = Seek::start(8000);
    let seek = seek.handle(reading(8101));
    assert_eq!(seek.action(), SeekAction::Send(MotionCommand::Down));
    let seek = seek.handle(SeekEvent::CommandSent(Ok(())));
    assert_eq!(seek.action(), SeekAction::Poll { after_ms: 200 });
}

#[test]
fn a_failed_read_ends_the_seek_with_its_error() {
    let failure = BtError::TransportError("link lost".to_string());
    let seek = Seek::start(8000).handle(SeekEvent::PositionRead(Err(failure.clone())));
    assert_eq!(seek.action(), SeekAction::Halt);
    assert!(seek.is_finished());
    assert!(!seek.is_reached());
    assert_eq!(seek.finish(), Some(Err(failure)));
}

#[test]
fn a_malformed_report_ends_the_seek() {
    let seek = Seek::start(8000).handle(SeekEvent::PositionRead(Err(BtError::MalformedSample)));
    assert_eq!(seek.finish(), Some(Err(BtError::MalformedSample)));
}

#[test]
fn a_failed_drive_write_ends_the_seek_with_its_error() {
    let failure = BtError::TransportError("write refused".to_string());
    let seek = Seek::start(8000).handle(reading(7000));
    assert_eq!(seek.action(), SeekAction::Send(MotionCommand::Up));
    let seek = seek.handle(SeekEvent::CommandSent(Err(failure.clone())));
    assert_eq!(seek.action(), SeekAction::Halt);
    assert_eq!(seek.finish(), Some(Err(failure)));
}

#[test]
fn a_failed_stop_write_ends_the_seek_with_its_error() {
    let failure = BtError::TransportError("write refused".to_string());
    let seek = Seek::start(8000).handle(reading(7950));
    assert_eq!(seek.action(), SeekAction::Send(MotionCommand::Stop));
    let seek = seek.handle(SeekEvent::CommandSent(Err(failure.clone())));
    assert_eq!(seek.finish(), Some(Err(failure)));
}

#[test]
fn a_failed_seek_is_not_taken_up_again() {
    let failure = BtError::TransportError("link lost".to_string());
    let seek = Seek::start(8000).handle(SeekEvent::PositionRead(Err(failure.clone())));
    let seek = seek.handle(reading(8000));
    assert_eq!(seek.action(), SeekAction::Halt);
    assert_eq!(seek.finish(), Some(Err(failure)));
}

#[test]
fn an_event_that_answers_nothing_is_passed_over() {
    let seek = Seek::start(8000).handle(SeekEvent::CommandSent(Ok(())));
    assert_eq!(seek.action(), SeekAction::Poll { after_ms: 200 });
    let seek = seek.handle(reading(7000)).handle(reading(8000));
    assert_eq!(seek.action(), SeekAction::Send(MotionCommand::Up));
}

#[test]
fn a_stepping_desk_is_brought_up_to_the_target() {
    let mut desk = SteppingDesk::at(6200, 50);
    assert_eq!(run(&mut desk, 7000, 1000), Some(Ok(())));
    assert_eq!(desk.position, 6900);
    assert_eq!(desk.drives(), 14);
    assert_eq!(desk.polls, 15);
    assert_eq!(desk.stops(), 1);
    assert!(desk.writes[..14].iter().all(|cmd| *cmd == MotionCommand::Up));
    assert_eq!(desk.writes[14], MotionCommand::Stop);
}

#[test]
fn a_stepping_desk_is_brought_down_to_the_target() {
    let mut desk = SteppingDesk::at(12700, 130);
    assert_eq!(run(&mut desk, 6200, 1000), Some(Ok(())));
    assert_eq!(desk.position, 6200);
    assert_eq!(desk.drives(), 50);
    assert_eq!(desk.polls, 51);
    assert_eq!(desk.stops(), 0);
    assert!(desk.writes.iter().all(|cmd| *cmd == MotionCommand::Down));
}

#[test]
fn a_seek_ends_within_the_steps_that_fit_the_distance() {
    for (initial, target, step) in [
        (6200i64, 12700u16, 1i64),
        (6200, 12700, 7),
        (12700, 6200, 33),
        (7000, 7101, 201),
        (9000, 6500, 200),
        (6500, 9000, 199),
        (8000, 8000, 5),
        (8060, 8000, 5),
        (0, 6200, 100),
        (65535, 12700, 150),
    ] {
        let distance = (initial - target as i64).abs();
        let bound = ((distance + step - 1) / step) as usize;
        let mut desk = SteppingDesk::at(initial, step);
        assert_eq!(run(&mut desk, target, 2 * bound + 2), Some(Ok(())));
        assert!((desk.position - target as i64).abs() <= 100);
        assert!(desk.drives() <= bound);
        assert_eq!(desk.polls, desk.drives() + 1);
        assert_eq!(desk.stops(), if desk.position == target as i64 { 0 } else { 1 });
    }
}

#[test]
fn a_step_that_jumps_the_band_keeps_the_seek_swinging() {
    let mut desk = SteppingDesk::at(6800, 500);
    assert_eq!(run(&mut desk, 7000, 1000), None);
    assert_eq!(desk.stops(), 0);
    assert_eq!(desk.drives(), 500);
}
