//! One particle, and how it is made from random samples.
use vstd::prelude::*;
use crate::fixed::{div_toward_zero, trunc_div, ONE};
use crate::vector::{Color, SpecVec3, Vec3};

verus! {

/// The factor by which a position sample is stretched.
pub const MAGNITUDE: i64 = 100;

/// The red channel of a particle whose colour basis is 1.
pub const RED_LEVEL: i64 = 255;

/// The green channel of a particle whose colour basis is 1.
pub const GREEN_LEVEL: i64 = 100;

/// The blue channel of every particle.
pub const BLUE: u8 = 80;

/// The alpha channel of every particle.
pub const ALPHA: u8 = 255;

/// The degrees of a full turn.
pub const FULL_TURN: i64 = 360;

/// What a [`Particle`] stands for.
pub struct SpecParticle {
    /// Where the particle is.
    pub position: SpecVec3,
    /// The angle, in degrees, by which the particle is turned about its axis.
    pub rotation: int,
    /// The particle's size along each axis.
    pub scale: SpecVec3,
    /// The particle's colour.
    pub color: Color,
}

/// One particle of the field. Its rotation is the angle in fixed-point
/// degrees by which it is turned about its own axis, the direction from the
/// origin to its position (see [`rotation_axis`]).
#[derive(Clone, Copy, Debug, PartialEq, Eq, Structural)]
pub struct Particle {
    pub position: Vec3,
    pub rotation: i64,
    pub scale: Vec3,
    pub color: Color,
}

impl View for Particle {
    type V = SpecParticle;

    open spec fn view(&self) -> SpecParticle {
        SpecParticle {
            position: self.position@,
            rotation: self.rotation as int,
            scale: self.scale@,
            color: self.color,
        }
    }
}

/// The vertical direction, about which a particle at the origin turns.
pub open spec fn default_axis() -> SpecVec3 {
    SpecVec3 { x: 0, y: ONE as int, z: 0 }
}

/// The direction of the axis about which a particle at `position` turns: from
/// the origin to the position or, for a particle at the origin, vertical.
pub open spec fn axis_of(position: SpecVec3) -> SpecVec3 {
    if position.is_zero() {
        default_axis()
    } else {
        position
    }
}

/// A colour channel: `level` times `basis`, rounded toward zero and held
/// within 0 and 255.
pub open spec fn channel_of(level: int, basis: int) -> int {
    let raw = trunc_div(level * basis, ONE as int);
    if raw < 0 {
        0
    } else if raw > 255 {
        255
    } else {
        raw
    }
}

/// The colour of a particle with colour basis `basis`: red and green follow
/// the basis, blue and alpha are fixed.
pub open spec fn color_of(basis: SpecVec3) -> Color {
    Color {
        r: channel_of(RED_LEVEL as int, basis.x) as u8,
        g: channel_of(GREEN_LEVEL as int, basis.y) as u8,
        b: BLUE,
        a: ALPHA,
    }
}

/// The particle made from four samples: a position sample stretched by
/// [`MAGNITUDE`], the colour of `color_basis`, the share of a full turn that
/// `rotation_basis.x` gives, and `scale_basis.x` as the size along each axis.
pub open spec fn spawned(
    position_sample: SpecVec3,
    color_basis: SpecVec3,
    rotation_basis: SpecVec3,
    scale_basis: SpecVec3,
) -> SpecParticle {
    SpecParticle {
        position: position_sample.times(MAGNITUDE as int),
        rotation: rotation_basis.x * FULL_TURN,
        scale: SpecVec3 { x: scale_basis.x, y: scale_basis.x, z: scale_basis.x },
        color: color_of(color_basis),
    }
}

/// The direction of the axis about which a particle at `position` turns. It
/// is never the zero vector.
pub fn rotation_axis(position: Vec3) -> (axis: Vec3)
    ensures
        axis@ == axis_of(position@),
        !axis@.is_zero(),
{
    if position.x == 0 && position.y == 0 && position.z == 0 {
        Vec3 { x: 0, y: ONE, z: 0 }
    } else {
        position
    }
}

/// A colour channel for a basis strictly between -1 and 1 and a level of at
/// most 255.
pub fn channel(level: i64, basis: i64) -> (value: u8)
    requires
        0 <= level <= 255,
        -ONE < basis < ONE,
    ensures
        value == channel_of(level as int, basis as int),
{
    assert(-255 * ONE <= level * basis <= 255 * ONE) by (nonlinear_arith)
        requires
            0 <= level <= 255,
            -ONE < basis < ONE,
    ;
    let raw: i64 = div_toward_zero(level * basis, ONE);
    if raw < 0 {
        0
    } else if raw > 255 {
        255
    } else {
        raw as u8
    }
}

impl Particle {
    /// Makes a particle from four samples, each with components strictly
    /// between -1 and 1.
    pub fn from_samples(
        position_sample: Vec3,
        color_basis: Vec3,
        rotation_basis: Vec3,
        scale_basis: Vec3,
    ) -> (particle: Particle)
        requires
            position_sample@.within(ONE as int),
            color_basis@.within(ONE as int),
            rotation_basis@.within(ONE as int),
            scale_basis@.within(ONE as int),
        ensures
            particle@ == spawned(position_sample@, color_basis@, rotation_basis@, scale_basis@),
    {
        Particle {
            position: Vec3 {
                x: MAGNITUDE * position_sample.x,
                y: MAGNITUDE * position_sample.y,
                z: MAGNITUDE * position_sample.z,
            },
            rotation: rotation_basis.x * FULL_TURN,
            scale: Vec3 { x: scale_basis.x, y: scale_basis.x, z: scale_basis.x },
            color: Color {
                r: channel(RED_LEVEL, color_basis.x),
                g: channel(GREEN_LEVEL, color_basis.y),
                b: BLUE,
                a: ALPHA,
            },
        }
    }
}

} // verus!
