//! What holds of every seek: which commands it can ask for, and that it
//! arrives when the desk answers its commands by moving.

use crate::codec::{height_in_range, MotionCommand, PositionSpeed, MIN_HEIGHT};
use crate::controller::{
    next_poll, seek_after, seek_after_all, seek_consistent, seek_outcome, seek_start, SeekAction,
    SeekEvent, SeekModel, SeekState, SEEK_TOLERANCE,
};
use crate::error::BtError;
use vstd::prelude::*;

verus! {

/// The commands that were written in the course of `events`: one for each
/// `CommandSent` that answers a pending `Send`, in order.
pub open spec fn seek_writes(m: SeekModel, events: Seq<SeekEvent>) -> Seq<MotionCommand>
    decreases events.len(),
{
    if events.len() == 0 {
        Seq::empty()
    } else {
        let rest = seek_writes(seek_after(m, events[0]), events.drop_first());
        match (m.pending, events[0]) {
            (SeekAction::Send(cmd), SeekEvent::CommandSent(_)) => seq![cmd] + rest,
            _ => rest,
        }
    }
}

/// In every state that a seek can come to, something is asked of the caller
/// exactly while the seek is under way: a seek begins so, and no event
/// changes it.
pub proof fn lemma_seek_stays_consistent(target: int, events: Seq<SeekEvent>)
    ensures
        seek_consistent(seek_after_all(seek_start(target), events)),
{
    lemma_consistency_is_kept(seek_start(target), events);
}

proof fn lemma_consistency_is_kept(m: SeekModel, events: Seq<SeekEvent>)
    requires
        seek_consistent(m),
    ensures
        seek_consistent(seek_after_all(m, events)),
    decreases events.len(),
{
    if events.len() > 0 {
        lemma_consistency_is_kept(seek_after(m, events[0]), events.drop_first());
    }
}

/// A seek that is over stays as it is, and nothing more is written.
pub proof fn lemma_finished_seek_is_final(m: SeekModel, events: Seq<SeekEvent>)
    requires
        m.pending is Halt,
    ensures
        seek_after_all(m, events) == m,
        seek_writes(m, events) == Seq::<MotionCommand>::empty(),
    decreases events.len(),
{
    if events.len() > 0 {
        lemma_finished_seek_is_final(m, events.drop_first());
    }
}

/// A seek for a height outside the desk's range ends with
/// `PositionNotInRange` before anything is asked of the caller, and no
/// command is written for it, whatever is reported afterwards.
pub proof fn lemma_target_out_of_range_writes_nothing(target: int, events: Seq<SeekEvent>)
    requires
        !height_in_range(target),
    ensures
        seek_outcome(seek_start(target)) == Some(
            Err::<(), BtError>(BtError::PositionNotInRange),
        ),
        seek_start(target).pending == SeekAction::Halt,
        seek_after_all(seek_start(target), events) == seek_start(target),
        seek_writes(seek_start(target), events) == Seq::<MotionCommand>::empty(),
{
    lemma_finished_seek_is_final(seek_start(target), events);
}

/// A seek whose first reading shows the desk exactly at the target ends in
/// success on that reading, and no command is written for it: not `Up`, not
/// `Down`, and not `Stop` either.
pub proof fn lemma_exact_match_writes_nothing(
    target: int,
    sample: PositionSpeed,
    later: Seq<SeekEvent>,
)
    requires
        height_in_range(target),
        sample.position == target,
    ensures
        ({
            let events = seq![SeekEvent::PositionRead(Ok(sample))] + later;
            &&& seek_outcome(seek_after_all(seek_start(target), events)) == Some(
                Ok::<(), BtError>(()),
            )
            &&& seek_writes(seek_start(target), events) == Seq::<MotionCommand>::empty()
        }),
{
    let first = SeekEvent::PositionRead(Ok(sample));
    let events = seq![first] + later;
    let reached = seek_after(seek_start(target), first);
    assert(events[0] == first);
    assert(events.drop_first() =~= later);
    lemma_finished_seek_is_final(reached, later);
}

/// The distance between two heights.
pub open spec fn height_distance(a: int, b: int) -> int {
    if a >= b {
        a - b
    } else {
        b - a
    }
}

/// `a / b`, rounded up.
pub open spec fn ceil_div(a: int, b: int) -> int
    recommends
        b > 0,
{
    (a + b - 1) / b
}

/// Where the simulated desk stands after a command was written to it: it
/// moves by `step` on `Up` and `Down`, and stays on `Stop`.
pub open spec fn simulated_move(position: int, cmd: MotionCommand, step: int) -> int {
    match cmd {
        MotionCommand::Up => position + step,
        MotionCommand::Down => position - step,
        MotionCommand::Stop => position,
    }
}

/// How a seek went against the simulated desk.
pub ghost struct SimulatedRun {
    /// The seek at the end.
    pub seek: SeekModel,
    /// Where the desk stands at the end.
    pub position: int,
    /// How many times the position was read.
    pub polls: nat,
    /// How many `Up` and `Down` commands were written.
    pub drives: nat,
    /// How many `Stop` commands were written.
    pub stops: nat,
}

/// Runs a seek against a simulated desk for at most `rounds` exchanges. The
/// desk stands at `position`, moves by `step` per drive command, and no read
/// or write on it fails.
pub open spec fn simulate(m: SeekModel, position: int, step: int, rounds: nat) -> SimulatedRun
    decreases rounds,
{
    if rounds == 0 {
        SimulatedRun { seek: m, position, polls: 0, drives: 0, stops: 0 }
    } else {
        match m.pending {
            SeekAction::Halt => SimulatedRun { seek: m, position, polls: 0, drives: 0, stops: 0 },
            SeekAction::Poll { .. } => {
                let reading = PositionSpeed { position: position as u16, speed: 0 };
                let rest = simulate(
                    seek_after(m, SeekEvent::PositionRead(Ok(reading))),
                    position,
                    step,
                    (rounds - 1) as nat,
                );
                SimulatedRun { polls: rest.polls + 1, ..rest }
            },
            SeekAction::Send(cmd) => {
                let rest = simulate(
                    seek_after(m, SeekEvent::CommandSent(Ok(()))),
                    simulated_move(position, cmd, step),
                    step,
                    (rounds - 1) as nat,
                );
                if cmd == MotionCommand::Stop {
                    SimulatedRun { stops: rest.stops + 1, ..rest }
                } else {
                    SimulatedRun { drives: rest.drives + 1, ..rest }
                }
            },
        }
    }
}

/// Whether a desk that is `distance` away and has taken `taken` steps of
/// `step` towards the target stands within tolerance of it.
pub open spec fn in_band_after(distance: int, step: int, taken: nat) -> bool {
    -SEEK_TOLERANCE <= distance - taken * step <= SEEK_TOLERANCE
}

/// Whether a desk that starts `distance` away from the target and moves by
/// `step` ever comes to stand within tolerance of it. Where it does not, it
/// steps over the whole band and the seek swings around the target for ever.
pub open spec fn lands_in_band(distance: int, step: int) -> bool {
    exists|taken: nat| in_band_after(distance, step, taken)
}

/// How many drive commands bring a desk that is `distance` away within
/// tolerance, `step` at a time.
pub open spec fn drives_needed(distance: int, step: int) -> nat
    decreases distance,
{
    if distance <= SEEK_TOLERANCE || step < 1 {
        0
    } else if distance - step <= SEEK_TOLERANCE {
        1
    } else {
        1 + drives_needed(distance - step, step)
    }
}

/// A step no longer than the tolerance band is wide cannot jump over it:
/// from any distance the desk comes to stand within tolerance.
pub proof fn lemma_short_step_lands_in_band(distance: int, step: int)
    requires
        distance >= 0,
        1 <= step <= 2 * SEEK_TOLERANCE + 1,
    ensures
        lands_in_band(distance, step),
    decreases distance,
{
    if distance <= SEEK_TOLERANCE {
        assert(in_band_after(distance, step, 0));
    } else if distance - step <= SEEK_TOLERANCE {
        assert(in_band_after(distance, step, 1));
    } else {
        let nearer = distance - step;
        lemma_short_step_lands_in_band(nearer, step);
        let taken = choose|taken: nat| in_band_after(nearer, step, taken);
        assert((taken + 1) * step == taken * step + step) by (nonlinear_arith);
        assert(in_band_after(distance, step, (taken + 1) as nat));
    }
}

/// No more drive commands are needed than steps fit into the distance.
pub proof fn lemma_drives_needed_bound(distance: int, step: int)
    requires
        distance >= 0,
        step >= 1,
    ensures
        drives_needed(distance, step) <= ceil_div(distance, step),
    decreases distance,
{
    if distance <= SEEK_TOLERANCE {
        assert(0 <= (distance + step - 1) / step) by (nonlinear_arith)
            requires
                distance >= 0,
                step >= 1,
        ;
    } else if distance - step <= SEEK_TOLERANCE {
        assert(1 <= (distance + step - 1) / step) by (nonlinear_arith)
            requires
                distance >= 1,
                step >= 1,
        ;
    } else {
        lemma_drives_needed_bound(distance - step, step);
        assert((distance + step - 1) / step == (distance - step + step - 1) / step + 1)
            by (nonlinear_arith)
            requires
                step >= 1,
        ;
    }
}

proof fn lemma_simulated_seek(target: int, position: int, step: int, rounds: nat)
    requires
        height_in_range(target),
        0 <= position <= u16::MAX,
        step >= 1,
        lands_in_band(height_distance(target, position), step),
        rounds >= 2 * drives_needed(height_distance(target, position), step) + 2,
    ensures
        ({
            let polling = SeekModel { target, state: SeekState::Seeking, pending: next_poll() };
            let run = simulate(polling, position, step, rounds);
            &&& run.seek.state is Reached
            &&& run.seek.pending is Halt
            &&& height_distance(run.position, target) <= SEEK_TOLERANCE
            &&& run.drives == drives_needed(height_distance(target, position), step)
            &&& run.polls == run.drives + 1
            &&& run.stops == if run.position == target { 0nat } else { 1nat }
        }),
    decreases height_distance(target, position),
{
    let distance = height_distance(target, position);
    let polling = SeekModel { target, state: SeekState::Seeking, pending: next_poll() };
    let reading = PositionSpeed { position: position as u16, speed: 0 };
    let polled = seek_after(polling, SeekEvent::PositionRead(Ok(reading)));
    let after_poll = simulate(polled, position, step, (rounds - 1) as nat);
    assert(simulate(polling, position, step, rounds) == SimulatedRun {
        polls: after_poll.polls + 1,
        ..after_poll
    });
    if distance == 0 {
        assert(polled.pending is Halt);
    } else if distance <= SEEK_TOLERANCE {
        assert(polled.pending == SeekAction::Send(MotionCommand::Stop));
        let stopped = seek_after(polled, SeekEvent::CommandSent(Ok(())));
        let after_stop = simulate(stopped, position, step, (rounds - 2) as nat);
        assert(after_poll == SimulatedRun { stops: after_stop.stops + 1, ..after_stop });
        assert(stopped.pending is Halt);
    } else {
        let cmd = if target > position {
            MotionCommand::Up
        } else {
            MotionCommand::Down
        };
        assert(polled.pending == SeekAction::Send(cmd));
        let moved = simulated_move(position, cmd, step);
        let driven = seek_after(polled, SeekEvent::CommandSent(Ok(())));
        assert(driven == polling);
        let after_drive = simulate(polling, moved, step, (rounds - 2) as nat);
        assert(after_poll == SimulatedRun { drives: after_drive.drives + 1, ..after_drive });
        let taken = choose|taken: nat| in_band_after(distance, step, taken);
        assert(taken >= 1) by {
            if taken == 0 {
                assert(taken * step == 0) by (nonlinear_arith)
                    requires
                        taken == 0,
                ;
            }
        }
        assert(distance - step >= distance - taken * step) by (nonlinear_arith)
            requires
                taken >= 1,
                step >= 1,
        ;
        if distance - step >= 0 {
            assert(height_distance(target, moved) == distance - step);
            assert((taken - 1) * step == taken * step - step) by (nonlinear_arith);
            assert(in_band_after(distance - step, step, (taken - 1) as nat));
        } else {
            assert(height_distance(target, moved) == step - distance);
            assert(in_band_after(step - distance, step, 0));
        }
        lemma_simulated_seek(target, moved, step, (rounds - 2) as nat);
    }
}

/// What it is for a seek to arrive: run against the simulated desk for
/// twice as many exchanges as steps fit into the distance, and two more, the
/// seek has ended as reached; the desk stands within tolerance of the target;
/// no more drive commands were written than steps fit into the distance from
/// `initial` to `target`, rounded up; the position was read once before each
/// of them and once more at the end; and `Stop` was written once, unless the
/// desk came to stand exactly at the target.
pub open spec fn seek_arrives(target: int, initial: int, step: int) -> bool {
    let bound = ceil_div(height_distance(target, initial), step);
    let run = simulate(seek_start(target), initial, step, (2 * bound + 2) as nat);
    &&& seek_outcome(run.seek) == Some(Ok::<(), BtError>(()))
    &&& run.seek.pending is Halt
    &&& height_distance(run.position, target) <= SEEK_TOLERANCE
    &&& run.drives <= bound
    &&& run.polls == run.drives + 1
    &&& run.stops == if run.position == target {
        0nat
    } else {
        1nat
    }
}

/// A seek arrives when the desk answers its commands by moving.
///
/// Take a desk that stands at `initial`, moves by `step` on every `Up` and
/// `Down`, and on which no read or write fails. If its steps do not jump over
/// the tolerance band, a seek for `target` arrives.
pub proof fn lemma_seek_converges(target: int, initial: int, step: int)
    requires
        height_in_range(target),
        0 <= initial <= u16::MAX,
        step >= 1,
        lands_in_band(height_distance(target, initial), step),
    ensures
        seek_arrives(target, initial, step),
{
    let distance = height_distance(target, initial);
    lemma_drives_needed_bound(distance, step);
    lemma_simulated_seek(target, initial, step, (2 * ceil_div(distance, step) + 2) as nat);
}

/// Against a desk whose step is no longer than the tolerance band is wide,
/// every seek arrives, from wherever the desk stands.
pub proof fn lemma_seek_converges_by_short_steps(target: int, initial: int, step: int)
    requires
        height_in_range(target),
        0 <= initial <= u16::MAX,
        1 <= step <= 2 * SEEK_TOLERANCE + 1,
    ensures
        seek_arrives(target, initial, step),
{
    lemma_short_step_lands_in_band(height_distance(target, initial), step);
    lemma_seek_converges(target, initial, step);
}

proof fn lemma_simulated_swing(target: int, position: int, step: int, rounds: nat)
    requires
        height_in_range(target),
        0 <= position <= u16::MAX,
        1 <= step <= MIN_HEIGHT,
        !lands_in_band(height_distance(target, position), step),
    ensures
        ({
            let polling = SeekModel { target, state: SeekState::Seeking, pending: next_poll() };
            let run = simulate(polling, position, step, rounds);
            &&& run.seek.state is Seeking
            &&& run.stops == 0
            &&& run.polls == (rounds + 1) / 2
            &&& run.drives == rounds / 2
        }),
    decreases rounds,
{
    let distance = height_distance(target, position);
    let polling = SeekModel { target, state: SeekState::Seeking, pending: next_poll() };
    if rounds > 0 {
        assert(distance > SEEK_TOLERANCE) by {
            assert(!in_band_after(distance, step, 0));
            assert(0 * step == 0);
        }
        let reading = PositionSpeed { position: position as u16, speed: 0 };
        let polled = seek_after(polling, SeekEvent::PositionRead(Ok(reading)));
        let after_poll = simulate(polled, position, step, (rounds - 1) as nat);
        assert(simulate(polling, position, step, rounds) == SimulatedRun {
            polls: after_poll.polls + 1,
            ..after_poll
        });
        let cmd = if target > position {
            MotionCommand::Up
        } else {
            MotionCommand::Down
        };
        assert(polled.pending == SeekAction::Send(cmd));
        if rounds > 1 {
            let moved = simulated_move(position, cmd, step);
            let driven = seek_after(polled, SeekEvent::CommandSent(Ok(())));
            assert(driven == polling);
            let after_drive = simulate(polling, moved, step, (rounds - 2) as nat);
            assert(after_poll == SimulatedRun { drives: after_drive.drives + 1, ..after_drive });
            let nearer = height_distance(target, moved);
            assert(!lands_in_band(nearer, step)) by {
                if lands_in_band(nearer, step) {
                    let taken = choose|taken: nat| in_band_after(nearer, step, taken);
                    if distance - step >= 0 {
                        assert((taken + 1) * step == taken * step + step) by (nonlinear_arith);
                        assert(in_band_after(distance, step, (taken + 1) as nat));
                    } else {
                        assert(taken * step >= 0) by (nonlinear_arith)
                            requires
                                taken >= 0,
                                step >= 1,
                        ;
                        if taken == 0 {
                            assert(1 * step == step);
                            assert(in_band_after(distance, step, 1));
                        } else {
                            assert(taken * step >= step) by (nonlinear_arith)
                                requires
                                    taken >= 1,
                                    step >= 1,
                            ;
                        }
                    }
                }
            }
            lemma_simulated_swing(target, moved, step, (rounds - 2) as nat);
        }
    }
}

/// A seek does not end when the desk's steps jump over the tolerance band.
///
/// Take the simulated desk again, with a step of at most `MIN_HEIGHT`, so
/// that it stays on the scale. If its steps jump over the band, then after
/// any number of exchanges the seek for `target` is still under way: it has
/// read the position and written a drive command in turn, and has never
/// written `Stop`.
pub proof fn lemma_seek_swings_when_band_is_jumped(
    target: int,
    initial: int,
    step: int,
    rounds: nat,
)
    requires
        height_in_range(target),
        0 <= initial <= u16::MAX,
        1 <= step <= MIN_HEIGHT,
        !lands_in_band(height_distance(target, initial), step),
    ensures
        ({
            let run = simulate(seek_start(target), initial, step, rounds);
            &&& seek_outcome(run.seek) is None
            &&& run.stops == 0
            &&& run.polls == (rounds + 1) / 2
            &&& run.drives == rounds / 2
        }),
{
    lemma_simulated_swing(target, initial, step, rounds);
}

} // verus!
