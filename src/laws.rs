//! Laws of the state machine, stated over single frames and over runs of
//! frames, and proved from the spec functions that the executable code meets.
use vstd::prelude::*;
use crate::config::{AimDelta, Config};
use crate::simulation::{
    action_of, after_frame, ends_now, next_phase, phase_before, release_edge, run, Frame,
    FrameInput, Phase,
};

verus! {

/// Running one more frame after a run is the same as running the longer run.
proof fn lemma_run_push(phase: Phase, frames: Seq<Frame>, f: Frame)
    ensures
        run(phase, frames.push(f)) == after_frame(run(phase, frames), f),
    decreases frames.len(),
{
    if frames.len() > 0 {
        let rest = frames.drop_first();
        assert(frames.push(f).drop_first() =~= rest.push(f));
        assert(frames.push(f)[0] == frames[0]);
        lemma_run_push(after_frame(phase, frames[0]), rest, f);
    } else {
        assert(frames.push(f).drop_first() =~= Seq::<Frame>::empty());
        assert(run(after_frame(phase, f), Seq::<Frame>::empty()) == after_frame(phase, f));
    }
}

/// The phase before frame `i + 1` follows from the phase before frame `i`.
proof fn lemma_phase_before_next(phase: Phase, frames: Seq<Frame>, i: int)
    requires
        0 <= i < frames.len(),
    ensures
        phase_before(phase, frames, i + 1) == after_frame(phase_before(phase, frames, i), frames[i]),
{
    assert(frames.take(i + 1) =~= frames.take(i).push(frames[i]));
    lemma_run_push(phase, frames.take(i), frames[i]);
}

/// Once released, the arrow stays released for the rest of a run.
proof fn lemma_released_stays(phase: Phase, frames: Seq<Frame>, i: int, j: int)
    requires
        0 <= i <= j <= frames.len(),
        phase_before(phase, frames, i).released(),
    ensures
        phase_before(phase, frames, j).released(),
    decreases j - i,
{
    if i < j {
        lemma_phase_before_next(phase, frames, i);
        lemma_released_stays(phase, frames, i + 1, j);
    }
}

/// Before frame `i` of a run that starts before the end, the session has
/// ended exactly when some earlier frame saw the arrow below the launch line.
proof fn lemma_ended_iff_below_before(phase: Phase, frames: Seq<Frame>, i: int)
    requires
        !phase.ended(),
        0 <= i <= frames.len(),
    ensures
        phase_before(phase, frames, i).ended() <==> exists|j: int|
            0 <= j < i && #[trigger] frames[j].below_launch,
    decreases i,
{
    if i == 0 {
        assert(frames.take(0) =~= Seq::<Frame>::empty());
    } else {
        lemma_ended_iff_below_before(phase, frames, i - 1);
        lemma_phase_before_next(phase, frames, i - 1);
        if frames[i - 1].below_launch {
            assert(phase_before(phase, frames, i).ended());
        } else if phase_before(phase, frames, i).ended() {
            let j = choose|j: int| 0 <= j < i - 1 && #[trigger] frames[j].below_launch;
            assert(0 <= j < i && frames[j].below_launch);
        } else {
            assert forall|j: int| 0 <= j < i implies !#[trigger] frames[j].below_launch by {}
        }
    }
}

/// While aiming, not paused, with the button held and the pointer left of the
/// launch point, the arrow is turned to `atan2(launch.y - pointer.y,
/// launch.x - pointer.x)`: the frame's aim is exactly that offset.
pub proof fn lemma_aim_tracks_pointer(config: Config, phase: Phase, input: FrameInput)
    requires
        !phase.released(),
        !input.pause_down,
        input.button_down,
        input.pointer.x < config.launch.x,
    ensures
        action_of(config, phase, input).aim == Some(
            AimDelta {
                dx: (config.launch.x - input.pointer.x) as i64,
                dy: (config.launch.y - input.pointer.y) as i64,
            },
        ),
        action_of(config, phase, input).aim.unwrap().dx == config.launch.x - input.pointer.x,
        action_of(config, phase, input).aim.unwrap().dy == config.launch.y - input.pointer.y,
{
}

/// A pointer outside the aiming region leaves the angle as it was.
pub proof fn lemma_aim_kept_outside_region(config: Config, phase: Phase, input: FrameInput)
    requires
        input.pointer.x >= config.launch.x,
    ensures
        action_of(config, phase, input).aim is None,
{
}

/// The velocity is set on the release edge and only there: the launch comes
/// exactly on the frame where the held button is let go while aiming, that
/// frame does not re-aim (so the velocity takes the angle of the frame
/// before), and it makes the arrow released. Before release the arrow is
/// never integrated, so its velocity stays zero; after release it stays
/// released and is never launched again.
pub proof fn lemma_launch_on_release_edge(config: Config, phase: Phase, input: FrameInput)
    ensures
        action_of(config, phase, input).launch == release_edge(phase, input),
        release_edge(phase, input) <==> (phase == (Phase::Aiming { button_was_down: true })
            && !input.button_down),
        action_of(config, phase, input).launch ==> action_of(config, phase, input).aim is None,
        next_phase(phase, input).released() <==> (phase.released() || release_edge(phase, input)),
        !phase.released() ==> !action_of(config, phase, input).integrate,
        phase.released() ==> !action_of(config, phase, input).launch,
{
}

/// Over any run of frames the arrow is launched at most once.
pub proof fn lemma_single_launch(config: Config, phase: Phase, frames: Seq<Frame>, i: int, j: int)
    requires
        0 <= i < j < frames.len(),
    ensures
        !(action_of(config, phase_before(phase, frames, i), frames[i].input).launch
            && action_of(config, phase_before(phase, frames, j), frames[j].input).launch),
{
    if action_of(config, phase_before(phase, frames, i), frames[i].input).launch {
        lemma_phase_before_next(phase, frames, i);
        lemma_released_stays(phase, frames, i + 1, j);
    }
}

/// Holding pause through a stretch of flight freezes the arrow: on every
/// frame of the stretch it is neither integrated, launched nor re-aimed, so
/// its position and velocity stay as they were.
pub proof fn lemma_pause_freezes_flight(config: Config, phase: Phase, frames: Seq<Frame>)
    requires
        phase.released(),
        forall|k: int| 0 <= k < frames.len() ==> (#[trigger] frames[k]).input.pause_down,
    ensures
        forall|k: int|
            0 <= k < frames.len() ==> {
                let a = #[trigger] action_of(config, phase_before(phase, frames, k), frames[k].input);
                !a.integrate && !a.launch && a.aim is None
            },
{
    assert forall|k: int| 0 <= k < frames.len() implies {
        let a = #[trigger] action_of(config, phase_before(phase, frames, k), frames[k].input);
        !a.integrate && !a.launch && a.aim is None
    } by {
        assert(frames.take(0) =~= Seq::<Frame>::empty());
        lemma_released_stays(phase, frames, 0, k);
    }
}

/// The session ends exactly once: on the first frame whose ground test finds
/// the arrow below the launch line, paused or not, and on no other frame.
pub proof fn lemma_ends_once(phase: Phase, frames: Seq<Frame>)
    requires
        !phase.ended(),
    ensures
        forall|i: int|
            0 <= i < frames.len() ==> (ends_now(
                #[trigger] next_phase(phase_before(phase, frames, i), frames[i].input),
                frames[i].below_launch,
            ) <==> (frames[i].below_launch && forall|j: int|
                0 <= j < i ==> !#[trigger] frames[j].below_launch)),
{
    assert forall|i: int| 0 <= i < frames.len() implies (ends_now(
        #[trigger] next_phase(phase_before(phase, frames, i), frames[i].input),
        frames[i].below_launch,
    ) <==> (frames[i].below_launch && forall|j: int|
        0 <= j < i ==> !#[trigger] frames[j].below_launch)) by {
        lemma_ended_iff_below_before(phase, frames, i);
    }
}

} // verus!
