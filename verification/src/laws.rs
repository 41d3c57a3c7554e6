//! What holds of the animation over any run of frames.
use vstd::prelude::*;
use crate::fixed::ONE;
use crate::instances::is_spawn;
use crate::model::{
    drift_step, spin_step, Frame, RotationPolicy, SpecStars, SpecTransformation, Waves,
    DRIFT_DIVISOR, SPIN_RATE,
};
use crate::particle::{
    axis_of, channel_of, spawned, SpecParticle, ALPHA, BLUE, FULL_TURN, GREEN_LEVEL, MAGNITUDE,
    RED_LEVEL,
};
use crate::sampler::is_sample;
use crate::vector::{Color, SpecVec3};

verus! {

/// The time that goes by in `frames`.
pub open spec fn total_elapsed(frames: Seq<Frame>) -> nat
    decreases frames.len(),
{
    if frames.len() == 0 {
        0
    } else {
        total_elapsed(frames.drop_last()) + frames.last().elapsed as nat
    }
}

/// The sum of the drift steps of `frames`.
pub open spec fn total_drift(frames: Seq<Frame>) -> int
    decreases frames.len(),
{
    if frames.len() == 0 {
        0
    } else {
        total_drift(frames.drop_last()) + drift_step(frames.last().waves.drift as int)
    }
}

/// The sum of the angles by which the incremental policy turns a particle in
/// `frames`, when the clock shows `start` before the first of them: for each
/// frame the step at the time that the clock shows in it.
pub open spec fn total_spin(start: nat, frames: Seq<Frame>) -> int
    decreases frames.len(),
{
    if frames.len() == 0 {
        0
    } else {
        total_spin(start, frames.drop_last()) + spin_step(start + total_elapsed(frames))
    }
}

/// Whether the waves of every frame of `frames` lie between -1 and 1.
pub open spec fn waves_wf(frames: Seq<Frame>) -> bool {
    forall|k: int| 0 <= k < frames.len() ==> (#[trigger] frames[k]).waves.wf()
}

/// A particle made from samples lies within the cube of half-width 100, at a
/// position that is 100 times a sample; it is as large along each axis, by a
/// number in [0, 1); its rotation is less than a full turn; its blue and
/// alpha channels are the fixed ones, its red and green ones below their
/// levels; and its axis is not the zero vector.
pub proof fn lemma_spawn_bounds(p: SpecParticle, signed_rotations: bool)
    requires
        is_spawn(p, signed_rotations),
    ensures
        exists|sample: SpecVec3|
            is_sample(sample, true) && p.position == #[trigger] sample.times(MAGNITUDE as int),
        p.position.within(MAGNITUDE * ONE),
        p.scale.x == p.scale.y == p.scale.z,
        0 <= p.scale.x < ONE,
        -FULL_TURN * ONE < p.rotation < FULL_TURN * ONE,
        !signed_rotations ==> 0 <= p.rotation,
        p.rotation % FULL_TURN as int == 0,
        p.color.r < RED_LEVEL,
        p.color.g < GREEN_LEVEL,
        p.color.b == BLUE,
        p.color.a == ALPHA,
        !axis_of(p.position).is_zero(),
        !p.position.is_zero() ==> axis_of(p.position) == p.position,
{
    let (a, b, c, d) = choose|a: SpecVec3, b: SpecVec3, c: SpecVec3, d: SpecVec3|
        {
            &&& is_sample(a, true)
            &&& is_sample(b, false)
            &&& is_sample(c, signed_rotations)
            &&& is_sample(d, false)
            &&& p == #[trigger] spawned(a, b, c, d)
        };
    assert(p.position == a.times(MAGNITUDE as int));
    lemma_channel_below_level(RED_LEVEL as int, b.x);
    lemma_channel_below_level(GREEN_LEVEL as int, b.y);
}

proof fn lemma_channel_below_level(level: int, basis: int)
    requires
        0 < level <= 255,
        0 <= basis < ONE,
    ensures
        0 <= channel_of(level, basis) < level,
{
    assert(0 <= level * basis < level * ONE) by (nonlinear_arith)
        requires
            0 < level,
            0 <= basis < ONE,
    ;
    assert((level * basis) / (ONE as int) < level) by (nonlinear_arith)
        requires
            0 <= level * basis < level * ONE,
    ;
}

/// The scale of a particle follows the sign of the drift wave: in an update
/// the particle does not shrink while the wave is positive and does not grow
/// while it is negative, along any axis, and it does change as soon as the
/// wave is at least 333 fixed-point units from zero. It never changes by
/// more than 1/333.
pub proof fn lemma_drift_follows_wave(s: SpecStars, waves: Waves, i: int)
    requires
        waves.wf(),
        0 <= i < s.particles.len(),
    ensures
        ({
            let before = s.particles[i].scale;
            let after = s.updated(waves).particles[i].scale;
            let step = drift_step(waves.drift as int);
            &&& after == before.shifted(step)
            &&& waves.drift >= 0 ==> step >= 0
            &&& waves.drift <= 0 ==> step <= 0
            &&& waves.drift >= DRIFT_DIVISOR ==> step > 0
            &&& waves.drift <= -DRIFT_DIVISOR ==> step < 0
            &&& -50382 <= step <= 50382
        }),
{
}

/// One run of frames after another is the run of all of them in their order.
pub proof fn lemma_frames_compose(s: SpecStars, first: Seq<Frame>, second: Seq<Frame>)
    ensures
        s.after_frames(first + second) == s.after_frames(first).after_frames(second),
        total_elapsed(first + second) == total_elapsed(first) + total_elapsed(second),
        total_drift(first + second) == total_drift(first) + total_drift(second),
    decreases second.len(),
{
    if second.len() == 0 {
        assert(first + second =~= first);
    } else {
        assert((first + second).drop_last() =~= first + second.drop_last());
        assert((first + second).last() == second.last());
        lemma_frames_compose(s, first, second.drop_last());
    }
}

/// What a run of frames makes of the state. The clock moves by the time that
/// went by. The particles stay as many and in their order; the position and
/// the colour of each stay. Each axis of each scale has moved by the sum of
/// the drift steps. Under the incremental policy each rotation has moved by
/// the sum of the steps of the frames; under the absolute policy it is, after
/// at least one frame, the spin rate times the time that the clock shows.
pub proof fn lemma_after_frames(s: SpecStars, frames: Seq<Frame>)
    ensures
        s.after_frames(frames).time == s.time + total_elapsed(frames),
        s.after_frames(frames).policy == s.policy,
        s.after_frames(frames).particles.len() == s.particles.len(),
        forall|i: int|
            #![trigger s.after_frames(frames).particles[i]]
            0 <= i < s.particles.len() ==> {
                let p = s.particles[i];
                let q = s.after_frames(frames).particles[i];
                &&& q.position == p.position
                &&& q.color == p.color
                &&& q.scale == p.scale.shifted(total_drift(frames))
                &&& s.policy == RotationPolicy::Incremental ==> q.rotation == p.rotation
                    + total_spin(s.time, frames)
                &&& s.policy == RotationPolicy::Absolute && frames.len() > 0 ==> q.rotation
                    == SPIN_RATE * (s.time + total_elapsed(frames))
            },
    decreases frames.len(),
{
    if frames.len() == 0 {
    } else {
        let front = frames.drop_last();
        lemma_after_frames(s, front);
        let mid = s.after_frames(front);
        let end = s.after_frames(frames);
        assert(end == mid.after_frame(frames.last()));
        assert forall|i: int| 0 <= i < s.particles.len() implies {
            let p = s.particles[i];
            let q = #[trigger] end.particles[i];
            &&& q.position == p.position
            &&& q.color == p.color
            &&& q.scale == p.scale.shifted(total_drift(frames))
            &&& s.policy == RotationPolicy::Incremental ==> q.rotation == p.rotation + total_spin(
                s.time,
                frames,
            )
            &&& s.policy == RotationPolicy::Absolute && frames.len() > 0 ==> q.rotation == SPIN_RATE
                * (s.time + total_elapsed(frames))
        } by {
            let m = mid.particles[i];
            assert(m.position == s.particles[i].position);
        }
    }
}

/// A particle keeps its place, its position, its colour and with them its
/// axis through every run of frames.
pub proof fn lemma_particle_is_fixed(s: SpecStars, frames: Seq<Frame>, i: int)
    requires
        0 <= i < s.particles.len(),
    ensures
        s.after_frames(frames).particles.len() == s.particles.len(),
        s.after_frames(frames).particles[i].position == s.particles[i].position,
        s.after_frames(frames).particles[i].color == s.particles[i].color,
        axis_of(s.after_frames(frames).particles[i].position) == axis_of(s.particles[i].position),
{
    lemma_after_frames(s, frames);
}

/// The scale of a particle after a run of frames is its scale before, plus
/// the sum of the drift steps of the frames, along each axis.
pub proof fn lemma_scale_accumulates(s: SpecStars, frames: Seq<Frame>, i: int)
    requires
        0 <= i < s.particles.len(),
    ensures
        s.after_frames(frames).particles[i].scale == s.particles[i].scale.shifted(
            total_drift(frames),
        ),
{
    lemma_after_frames(s, frames);
}

/// After every update the whole field is scaled by a factor between 1 and 3.
pub proof fn lemma_field_scale_bounded(s: SpecStars, waves: Waves)
    requires
        waves.wf(),
    ensures
        ONE <= s.updated(waves).transformation.scale <= 3 * ONE,
{
}

/// After a run of at least one frame the whole field is scaled by a factor
/// between 1 and 3.
pub proof fn lemma_field_scale_bounded_after_frames(s: SpecStars, frames: Seq<Frame>)
    requires
        frames.len() > 0,
        waves_wf(frames),
    ensures
        ONE <= s.after_frames(frames).transformation.scale <= 3 * ONE,
{
    assert(frames.last() == frames[frames.len() - 1]);
}

/// Under the incremental policy the rotation of a particle after a run of
/// frames is its rotation before, turned further by the step of each frame in
/// turn.
pub proof fn lemma_incremental_rotation(s: SpecStars, frames: Seq<Frame>, i: int)
    requires
        s.policy == RotationPolicy::Incremental,
        0 <= i < s.particles.len(),
    ensures
        s.after_frames(frames).particles[i].rotation == s.particles[i].rotation + total_spin(
            s.time,
            frames,
        ),
{
    lemma_after_frames(s, frames);
}

/// The sum of the incremental steps of frames in which the same time goes by:
/// the `k`-th of them turns by the step at the time `start + k * elapsed`.
pub open spec fn even_spin(start: nat, elapsed: nat, count: nat) -> int
    decreases count,
{
    if count == 0 {
        0
    } else {
        even_spin(start, elapsed, (count - 1) as nat) + spin_step(start + count * elapsed)
    }
}

/// Whether the same time `elapsed` goes by in every frame of `frames`.
pub open spec fn evenly_spaced(frames: Seq<Frame>, elapsed: nat) -> bool {
    forall|k: int| 0 <= k < frames.len() ==> (#[trigger] frames[k]).elapsed == elapsed
}

/// Under the incremental policy, after frames in each of which the time
/// `elapsed` goes by, the rotation of a particle is its rotation before,
/// turned further once for each frame, by the step at that frame's time.
pub proof fn lemma_incremental_even_frames(
    s: SpecStars,
    frames: Seq<Frame>,
    elapsed: nat,
    i: int,
)
    requires
        s.policy == RotationPolicy::Incremental,
        0 <= i < s.particles.len(),
        evenly_spaced(frames, elapsed),
    ensures
        total_elapsed(frames) == frames.len() * elapsed,
        s.after_frames(frames).particles[i].rotation == s.particles[i].rotation + even_spin(
            s.time,
            elapsed,
            frames.len(),
        ),
    decreases frames.len(),
{
    lemma_after_frames(s, frames);
    lemma_even_spin(s.time, frames, elapsed);
}

proof fn lemma_even_spin(start: nat, frames: Seq<Frame>, elapsed: nat)
    requires
        evenly_spaced(frames, elapsed),
    ensures
        total_elapsed(frames) == frames.len() * elapsed,
        total_spin(start, frames) == even_spin(start, elapsed, frames.len()),
    decreases frames.len(),
{
    if frames.len() > 0 {
        let front = frames.drop_last();
        assert(evenly_spaced(front, elapsed)) by {
            assert forall|k: int| 0 <= k < front.len() implies (#[trigger] front[k]).elapsed
                == elapsed by {
                assert(front[k] == frames[k]);
            }
        }
        lemma_even_spin(start, front, elapsed);
        assert(frames.last() == frames[frames.len() - 1]);
        assert(frames.len() * elapsed == front.len() * elapsed + elapsed) by (nonlinear_arith)
            requires
                frames.len() == front.len() + 1,
        ;
    }
}

/// Under the incremental policy, frames in which the clock stands still turn
/// a particle by the same step each: after `frames.len()` of them its
/// rotation has moved by that many times the step.
pub proof fn lemma_incremental_identical_steps(s: SpecStars, frames: Seq<Frame>, i: int)
    requires
        s.policy == RotationPolicy::Incremental,
        0 <= i < s.particles.len(),
        evenly_spaced(frames, 0),
    ensures
        s.after_frames(frames).particles[i].rotation == s.particles[i].rotation + frames.len()
            * spin_step(s.time),
{
    lemma_incremental_even_frames(s, frames, 0, i);
    lemma_still_spin(s.time, frames.len());
}

proof fn lemma_still_spin(start: nat, count: nat)
    ensures
        even_spin(start, 0, count) == count * spin_step(start),
    decreases count,
{
    let step = spin_step(start);
    if count > 0 {
        lemma_still_spin(start, (count - 1) as nat);
        assert(start + count * 0nat == start) by (nonlinear_arith);
        assert(count * step == (count - 1) * step + step) by (nonlinear_arith);
    } else {
        assert(count * step == 0) by (nonlinear_arith)
            requires
                count == 0,
        ;
    }
}

/// Under the absolute policy the rotation of a particle after a run of at
/// least one frame is the spin rate times the time that the clock shows,
/// whatever the rotation was before.
pub proof fn lemma_absolute_rotation(s: SpecStars, frames: Seq<Frame>, i: int)
    requires
        s.policy == RotationPolicy::Absolute,
        frames.len() > 0,
        0 <= i < s.particles.len(),
    ensures
        s.after_frames(frames).particles[i].rotation == SPIN_RATE * (s.time + total_elapsed(
            frames,
        )),
{
    lemma_after_frames(s, frames);
}

/// Under the absolute policy the rotation does not depend on the frame rate:
/// two runs of frames in which the same time goes by leave every particle
/// with the same rotation, from whatever states with equal clocks they start.
pub proof fn lemma_absolute_ignores_frame_rate(
    s: SpecStars,
    t: SpecStars,
    coarse: Seq<Frame>,
    fine: Seq<Frame>,
    i: int,
)
    requires
        s.policy == RotationPolicy::Absolute,
        t.policy == RotationPolicy::Absolute,
        s.time == t.time,
        coarse.len() > 0,
        fine.len() > 0,
        total_elapsed(coarse) == total_elapsed(fine),
        0 <= i < s.particles.len(),
        0 <= i < t.particles.len(),
    ensures
        s.after_frames(coarse).particles[i].rotation == t.after_frames(fine).particles[i].rotation,
{
    lemma_after_frames(s, coarse);
    lemma_after_frames(t, fine);
}

/// Under the incremental policy the rotation does depend on the frame rate:
/// there are a state and two runs of frames in which the same time goes by
/// that leave a particle with different rotations.
pub proof fn lemma_incremental_depends_on_frame_rate()
    ensures
        exists|s: SpecStars, coarse: Seq<Frame>, fine: Seq<Frame>|
            {
                &&& s.policy == RotationPolicy::Incremental
                &&& s.particles.len() == 1
                &&& total_elapsed(coarse) == total_elapsed(fine)
                &&& #[trigger] s.after_frames(coarse).particles[0].rotation
                    != #[trigger] s.after_frames(fine).particles[0].rotation
            },
{
    let still = Waves { drift: 0, pulse: 0 };
    let p = SpecParticle {
        position: SpecVec3 { x: 0, y: 0, z: 0 },
        rotation: 0,
        scale: SpecVec3 { x: 0, y: 0, z: 0 },
        color: Color { r: 0, g: 0, b: 0, a: 0 },
    };
    let s = SpecStars {
        time: 0,
        policy: RotationPolicy::Incremental,
        particles: seq![p],
        transformation: SpecTransformation::identity(),
    };
    let whole = Frame { elapsed: 4, waves: still };
    let half = Frame { elapsed: 2, waves: still };
    let coarse = seq![whole];
    let fine = seq![half, half];
    lemma_after_frames(s, coarse);
    lemma_after_frames(s, fine);
    reveal_with_fuel(total_elapsed, 3);
    reveal_with_fuel(total_spin, 3);
    assert(coarse.drop_last() =~= Seq::<Frame>::empty());
    assert(fine.drop_last() =~= seq![half]);
    assert(fine.drop_last().drop_last() =~= Seq::<Frame>::empty());
    assert(total_elapsed(coarse) == 4);
    assert(total_elapsed(fine.drop_last()) == 2);
    assert(total_elapsed(fine) == 4);
    assert(total_spin(0, coarse) == 2);
    assert(total_spin(0, fine) == 3);
    assert(s.after_frames(coarse).particles[0].rotation == 2);
    assert(s.after_frames(fine).particles[0].rotation == 3);
}

/// The clock never runs backwards.
pub proof fn lemma_clock_monotonic(s: SpecStars, frames: Seq<Frame>)
    ensures
        s.after_frames(frames).time >= s.time,
        s.after_frames(frames).time == s.time + total_elapsed(frames),
{
    lemma_after_frames(s, frames);
}

} // verus!
