//! The animation as mathematics: what each step makes of the state.
use vstd::prelude::*;
use crate::fixed::{trunc_div, ONE};
use crate::particle::SpecParticle;

verus! {

/// The degrees per second by which a particle turns under the absolute
/// policy.
pub const SPIN_RATE: i64 = 100;

/// Under the incremental policy a particle turns each frame by the elapsed
/// seconds divided by this, in degrees.
pub const SPIN_DIVISOR: i64 = 2;

/// Each frame a particle grows by the drift wave divided by this.
pub const DRIFT_DIVISOR: i64 = 333;

/// The radians per second of the drift wave's phase.
pub const DRIFT_RATE: i64 = 2;

/// The pulse wave's phase is the elapsed seconds divided by this, in radians.
pub const PULSE_DIVISOR: i64 = 5;

/// What is added to the pulse wave to give the scale of the whole field: 2.
pub const PULSE_OFFSET: i64 = 33_554_432;

/// The degrees per second by which the whole field turns about the vertical.
pub const YAW_RATE: i64 = 3;

/// The largest time that the clock can show: 2^32 seconds.
pub const TIME_LIMIT: u64 = 72_057_594_037_927_936;

/// How a particle's rotation follows the clock.
#[derive(Clone, Copy, Debug, PartialEq, Eq, Structural)]
pub enum RotationPolicy {
    /// Each frame the rotation is made anew from the elapsed time alone.
    Absolute,
    /// Each frame the rotation of the frame before is turned a little
    /// further, so that it depends on every frame there has been.
    Incremental,
}

/// The values at one frame of the two cosine waves that drive the animation,
/// in fixed point: of the drift wave, by which the particles grow and shrink,
/// and of the pulse wave, by which the whole field does.
#[derive(Clone, Copy, Debug, PartialEq, Eq, Structural)]
pub struct Waves {
    pub drift: i64,
    pub pulse: i64,
}

impl Waves {
    /// Whether both values lie between -1 and 1, as those of a cosine do.
    pub open spec fn wf(self) -> bool {
        &&& -ONE <= self.drift <= ONE
        &&& -ONE <= self.pulse <= ONE
    }

    /// The waves at the given values, if both lie between -1 and 1.
    pub fn new(drift: i64, pulse: i64) -> (waves: Option<Waves>)
        ensures
            waves is Some <==> (Waves { drift, pulse }).wf(),
            waves matches Some(w) ==> w == (Waves { drift, pulse }),
    {
        if -ONE <= drift && drift <= ONE && -ONE <= pulse && pulse <= ONE {
            Some(Waves { drift, pulse })
        } else {
            None
        }
    }
}

/// One frame: the time that went by since the frame before, and the values of
/// the waves at the new time.
#[derive(Clone, Copy, Debug, PartialEq, Eq, Structural)]
pub struct Frame {
    pub elapsed: u64,
    pub waves: Waves,
}

/// What a transformation of the whole field stands for.
pub struct SpecTransformation {
    /// The factor by which the field is scaled.
    pub scale: int,
    /// The angle, in degrees, by which the field is turned about the vertical.
    pub yaw: int,
}

/// What the state of the animation stands for.
pub struct SpecStars {
    /// The elapsed time in seconds.
    pub time: nat,
    /// How the rotations follow the clock.
    pub policy: RotationPolicy,
    /// The particles, in their order.
    pub particles: Seq<SpecParticle>,
    /// The transformation of the whole field.
    pub transformation: SpecTransformation,
}

/// By how much each axis of a particle's scale changes in a frame whose drift
/// wave is at `drift`.
pub open spec fn drift_step(drift: int) -> int {
    trunc_div(drift, DRIFT_DIVISOR as int)
}

/// The angle by which a particle is turned further, under the incremental
/// policy, in a frame at time `time`.
pub open spec fn spin_step(time: nat) -> int {
    time as int / SPIN_DIVISOR as int
}

impl SpecParticle {
    /// Whether the rotation and the scale can be held in `i64`s.
    pub open spec fn fits(self) -> bool {
        &&& i64::MIN <= self.rotation <= i64::MAX
        &&& self.scale.fits()
    }

    /// The particle after a frame at time `time` with the drift wave at
    /// `drift`: position and colour stay, the rotation follows `policy`, and
    /// each axis of the scale changes by the drift step.
    pub open spec fn updated(self, policy: RotationPolicy, time: nat, drift: int) -> SpecParticle {
        SpecParticle {
            position: self.position,
            rotation: match policy {
                RotationPolicy::Absolute => SPIN_RATE * time,
                RotationPolicy::Incremental => self.rotation + spin_step(time),
            },
            scale: self.scale.shifted(drift_step(drift)),
            color: self.color,
        }
    }
}

impl SpecTransformation {
    /// The transformation that leaves the field as it is.
    pub open spec fn identity() -> SpecTransformation {
        SpecTransformation { scale: ONE as int, yaw: 0 }
    }

    /// The transformation at time `time` with the pulse wave at `pulse`.
    pub open spec fn at(time: nat, pulse: int) -> SpecTransformation {
        SpecTransformation { scale: pulse + PULSE_OFFSET, yaw: YAW_RATE * time }
    }
}

impl SpecStars {
    /// Whether every particle can be held in the machine's integers.
    pub open spec fn fits(self) -> bool {
        forall|i: int| 0 <= i < self.particles.len() ==> (#[trigger] self.particles[i]).fits()
    }

    /// The state after `elapsed` more time: only the clock moves.
    pub open spec fn advanced(self, elapsed: nat) -> SpecStars {
        SpecStars { time: self.time + elapsed, ..self }
    }

    /// The state after the update of one frame, with the waves at `waves`:
    /// the clock stays, every particle is updated, and the transformation of
    /// the field is that of the present time.
    pub open spec fn updated(self, waves: Waves) -> SpecStars {
        SpecStars {
            time: self.time,
            policy: self.policy,
            particles: self.particles.map_values(
                |p: SpecParticle| p.updated(self.policy, self.time, waves.drift as int),
            ),
            transformation: SpecTransformation::at(self.time, waves.pulse as int),
        }
    }

    /// The state after one frame: the clock is advanced, then the update is
    /// made.
    pub open spec fn after_frame(self, frame: Frame) -> SpecStars {
        self.advanced(frame.elapsed as nat).updated(frame.waves)
    }

    /// The state after the frames of `frames`, in their order.
    pub open spec fn after_frames(self, frames: Seq<Frame>) -> SpecStars
        decreases frames.len(),
    {
        if frames.len() == 0 {
            self
        } else {
            self.after_frames(frames.drop_last()).after_frame(frames.last())
        }
    }
}

} // verus!
