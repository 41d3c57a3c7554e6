//! The animation core of an instanced star field.
//!
//! A field is a fixed number of particles, each with a position, a rotation
//! about the axis through the origin and its position, a scale and a colour.
//! Once per frame the clock is advanced and the field is updated: every
//! particle is turned and grows or shrinks a little, and the field as a whole
//! is scaled and turned about the vertical axis.
//!
//! Every real quantity is a fixed-point number with 24 fractional bits, held
//! in an integer: seconds, degrees, radians and plain factors alike. That
//! makes the animation exact, so that what it does can be stated and proved
//! over the integers. Two cosine waves drive the animation. The library says
//! at which phases they are wanted; their values are handed to it.
//!
//! - [`fixed`]: the fixed-point format.
//! - [`vector`]: vectors and colours.
//! - [`sampler`]: random vectors.
//! - [`particle`]: one particle and how it is made from random samples.
//! - [`instances`]: the particles of a field, random or from given words.
//! - [`model`]: the animation as mathematics.
//! - [`stars`]: the state of the animation and its steps.
//! - [`laws`]: what holds over any run of frames.
//! - [`material`]: how the particles are drawn.
pub mod fixed;
pub mod vector;
pub mod sampler;
pub mod particle;
pub mod instances;
pub mod model;
pub mod stars;
pub mod laws;
pub mod material;
