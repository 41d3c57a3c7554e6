//! The state of the animation and its steps.
use vstd::prelude::*;
use crate::fixed::{div_toward_zero, ONE};
use crate::instances::{particles_of, Instances};
use crate::model::{
    drift_step, spin_step, RotationPolicy, SpecStars, SpecTransformation, Waves, DRIFT_DIVISOR,
    DRIFT_RATE, PULSE_DIVISOR, PULSE_OFFSET, SPIN_DIVISOR, SPIN_RATE, TIME_LIMIT, YAW_RATE,
};
use crate::particle::{axis_of, rotation_axis};
use crate::vector::{Color, Vec3};

verus! {

/// A transformation of the whole field: a uniform scaling, then a turn about
/// the vertical axis.
#[derive(Clone, Copy, Debug, PartialEq, Eq, Structural)]
pub struct Transformation {
    /// The factor by which the field is scaled, in fixed point.
    pub scale: i64,
    /// The angle by which the field is turned, in fixed-point degrees.
    pub yaw: i64,
}

impl View for Transformation {
    type V = SpecTransformation;

    open spec fn view(&self) -> SpecTransformation {
        SpecTransformation { scale: self.scale as int, yaw: self.yaw as int }
    }
}

/// The star field: its clock, its particles and the transformation that
/// applies to all of them.
#[derive(Clone, Debug)]
pub struct StarsParticle {
    /// The elapsed time, in fixed-point seconds.
    pub time: u64,
    /// How the rotations of the particles follow the clock.
    pub policy: RotationPolicy,
    /// The particles.
    pub instances: Instances,
    /// The transformation of the whole field, as the last update left it.
    pub transformation: Transformation,
}

impl View for StarsParticle {
    type V = SpecStars;

    open spec fn view(&self) -> SpecStars {
        SpecStars {
            time: self.time as nat,
            policy: self.policy,
            particles: self.instances@,
            transformation: self.transformation@,
        }
    }
}

impl StarsParticle {
    /// Whether the state is valid: the attributes of the particles are
    /// equally many, the clock is within its limit, and the field is scaled
    /// by a factor between 1 and 3.
    pub open spec fn wf(&self) -> bool {
        &&& self.instances.wf()
        &&& self.time <= TIME_LIMIT
        &&& ONE <= self.transformation.scale <= 3 * ONE
    }

    /// Tells whether the state is valid.
    pub fn is_valid(&self) -> (ok: bool)
        ensures
            ok == self.wf(),
    {
        self.instances.is_valid() && self.time <= TIME_LIMIT && ONE <= self.transformation.scale
            && self.transformation.scale <= 3 * ONE
    }

    /// The field of the given particles at time 0, not yet transformed.
    pub fn new(
        start_positions: Vec<Vec3>,
        start_rotations: Vec<i64>,
        start_scales: Vec<Vec3>,
        colors: Vec<Color>,
        policy: RotationPolicy,
    ) -> (stars: StarsParticle)
        requires
            start_rotations@.len() == start_positions@.len(),
            start_scales@.len() == start_positions@.len(),
            colors@.len() == start_positions@.len(),
        ensures
            stars.wf(),
            stars@ == (SpecStars {
                time: 0,
                policy,
                particles: particles_of(
                    start_positions@,
                    start_rotations@,
                    start_scales@,
                    colors@,
                ),
                transformation: SpecTransformation::identity(),
            }),
    {
        let instances = Instances {
            translations: start_positions,
            rotations: start_rotations,
            scales: start_scales,
            colors,
        };
        StarsParticle {
            time: 0,
            policy,
            instances,
            transformation: Transformation { scale: ONE, yaw: 0 },
        }
    }

    /// Whether the clock can be advanced by `elapsed` without passing its
    /// limit.
    pub fn can_advance(&self, elapsed: u64) -> (ok: bool)
        ensures
            ok == (self.time + elapsed <= TIME_LIMIT),
    {
        self.time <= TIME_LIMIT && elapsed <= TIME_LIMIT - self.time
    }

    /// Advances the clock by `elapsed`. Nothing else changes.
    pub fn advance(&mut self, elapsed: u64)
        requires
            old(self).wf(),
            old(self).time + elapsed <= TIME_LIMIT,
        ensures
            final(self).wf(),
            final(self)@ == old(self)@.advanced(elapsed as nat),
    {
        self.time = self.time + elapsed;
    }

    /// The phase of the drift wave at the present time, in fixed-point
    /// radians: twice the elapsed seconds.
    pub fn drift_phase(&self) -> (phase: i64)
        requires
            self.wf(),
        ensures
            phase == DRIFT_RATE * self.time,
    {
        DRIFT_RATE * (self.time as i64)
    }

    /// The phase of the pulse wave at the present time, in fixed-point
    /// radians: a fifth of the elapsed seconds, rounded down.
    pub fn pulse_phase(&self) -> (phase: i64)
        requires
            self.wf(),
        ensures
            phase == self.time as int / PULSE_DIVISOR as int,
    {
        (self.time as i64) / PULSE_DIVISOR
    }

    /// The direction of the axis about which particle `i` turns.
    pub fn axis(&self, i: usize) -> (axis: Vec3)
        requires
            self.wf(),
            i < self@.particles.len(),
        ensures
            axis@ == axis_of(self@.particles[i as int].position),
            !axis@.is_zero(),
    {
        rotation_axis(self.instances.translations[i])
    }

    /// Whether the update of a frame with the waves at `waves` keeps every
    /// rotation and scale within what an `i64` can hold.
    pub fn can_update(&self, waves: Waves) -> (ok: bool)
        requires
            self.wf(),
            waves.wf(),
        ensures
            ok == self@.updated(waves).fits(),
    {
        let n: usize = self.instances.translations.len();
        let step: i64 = div_toward_zero(waves.drift, DRIFT_DIVISOR);
        let ghost after = self@.updated(waves);
        let mut i: usize = 0;
        while i < n
            invariant
                i <= n,
                n == self@.particles.len(),
                self.wf(),
                after == self@.updated(waves),
                step == drift_step(waves.drift as int),
                forall|j: int| 0 <= j < i ==> (#[trigger] after.particles[j]).fits(),
            decreases n - i,
        {
            let scale = self.instances.scales[i];
            let turned: bool = match self.policy {
                RotationPolicy::Absolute => true,
                RotationPolicy::Incremental => {
                    let turn: i64 = (self.time as i64) / SPIN_DIVISOR;
                    self.instances.rotations[i] <= i64::MAX - turn
                },
            };
            let grown: bool = if step >= 0 {
                let most: i64 = i64::MAX - step;
                scale.x <= most && scale.y <= most && scale.z <= most
            } else {
                let least: i64 = i64::MIN - step;
                scale.x >= least && scale.y >= least && scale.z >= least
            };
            if !(turned && grown) {
                assert(!after.particles[i as int].fits());
                return false;
            }
            assert(after.particles[i as int].fits());
            i += 1;
        }
        true
    }

    /// Makes the update of one frame: turns every particle as the policy
    /// says, lets every particle grow by the drift step, and sets the
    /// transformation of the field to that of the present time.
    pub fn update(&mut self, waves: Waves)
        requires
            old(self).wf(),
            waves.wf(),
            old(self)@.updated(waves).fits(),
        ensures
            final(self).wf(),
            final(self)@ == old(self)@.updated(waves),
    {
        let n: usize = self.instances.translations.len();
        let time: i64 = self.time as i64;
        let policy = self.policy;
        let step: i64 = div_toward_zero(waves.drift, DRIFT_DIVISOR);
        let turn: i64 = match policy {
            RotationPolicy::Absolute => SPIN_RATE * time,
            RotationPolicy::Incremental => time / SPIN_DIVISOR,
        };
        let ghost before = self@;
        let ghost after = self@.updated(waves);
        let mut i: usize = 0;
        while i < n
            invariant
                i <= n,
                n == before.particles.len(),
                self.instances.wf(),
                self.instances@.len() == n,
                self.time == old(self).time,
                self.policy == policy,
                self.transformation == old(self).transformation,
                before == old(self)@,
                after == before.updated(waves),
                after.fits(),
                step == drift_step(waves.drift as int),
                policy == before.policy,
                time == before.time,
                turn == match policy {
                    RotationPolicy::Absolute => SPIN_RATE * time,
                    RotationPolicy::Incremental => spin_step(before.time),
                },
                forall|j: int| 0 <= j < i ==> self.instances@[j] == after.particles[j],
                forall|j: int| i <= j < n ==> self.instances@[j] == before.particles[j],
            decreases n - i,
        {
            assert(after.particles[i as int].fits());
            assert(self.instances@[i as int] == before.particles[i as int]);
            let rotation: i64 = match policy {
                RotationPolicy::Absolute => turn,
                RotationPolicy::Incremental => self.instances.rotations[i] + turn,
            };
            let scale = self.instances.scales[i];
            let grown = Vec3 { x: scale.x + step, y: scale.y + step, z: scale.z + step };
            self.instances.rotations.set(i, rotation);
            self.instances.scales.set(i, grown);
            i += 1;
        }
        self.transformation = Transformation {
            scale: waves.pulse + PULSE_OFFSET,
            yaw: YAW_RATE * time,
        };
        assert(self@.particles =~= after.particles);
    }
}

} // verus!
