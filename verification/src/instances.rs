//! The particles of the field, as parallel sequences.
use vstd::prelude::*;
use crate::particle::{spawned, Particle, SpecParticle};
use crate::sampler::{
    get_rng_vec3, is_sample, signed_sample, signed_vec3, unsigned_sample, unsigned_vec3,
};
use crate::vector::{Color, SpecVec3, Vec3};

verus! {

/// The number of particles of the dense field.
pub const TOTAL_STARS: usize = 1111;

/// The number of particles of the sparse field.
pub const SPARSE_STARS: usize = 432;

/// The particles that four parallel sequences describe: particle `i` has the
/// `i`-th entry of each. There are as many as there are translations.
pub open spec fn particles_of(
    translations: Seq<Vec3>,
    rotations: Seq<i64>,
    scales: Seq<Vec3>,
    colors: Seq<Color>,
) -> Seq<SpecParticle> {
    Seq::new(
        translations.len(),
        |i: int|
            SpecParticle {
                position: translations[i]@,
                rotation: rotations[i] as int,
                scale: scales[i]@,
                color: colors[i],
            },
    )
}

/// Whether `p` can come out of [`random_instances`]: whether it is made from
/// a signed position sample, an unsigned colour basis, a rotation basis that
/// is signed or not as `signed_rotations` says, and an unsigned scale basis.
pub open spec fn is_spawn(p: SpecParticle, signed_rotations: bool) -> bool {
    exists|position: SpecVec3, color: SpecVec3, rotation: SpecVec3, scale: SpecVec3|
        {
            &&& is_sample(position, true)
            &&& is_sample(color, false)
            &&& is_sample(rotation, signed_rotations)
            &&& is_sample(scale, false)
            &&& p == #[trigger] spawned(position, color, rotation, scale)
        }
}

/// The number of random words that one particle takes: six for its position,
/// three for its colour, three for its rotation, or six if rotations are
/// signed, and three for its scale.
pub open spec fn words_per_particle(signed_rotations: bool) -> nat {
    if signed_rotations {
        18
    } else {
        15
    }
}

/// The sample that the words from place `at` on stand for: a signed one
/// takes six words, an unsigned one three.
pub open spec fn sample_at(words: Seq<u32>, at: int, is_signed: bool) -> SpecVec3 {
    if is_signed {
        signed_sample(
            words[at],
            words[at + 1],
            words[at + 2],
            words[at + 3],
            words[at + 4],
            words[at + 5],
        )
    } else {
        unsigned_sample(words[at], words[at + 1], words[at + 2])
    }
}

/// The particle that the words from place `at` on stand for: its samples
/// follow each other in the order position, colour, rotation, scale.
pub open spec fn spawn_at(words: Seq<u32>, at: int, signed_rotations: bool) -> SpecParticle {
    spawned(
        sample_at(words, at, true),
        sample_at(words, at + 6, false),
        sample_at(words, at + 9, signed_rotations),
        sample_at(words, at + words_per_particle(signed_rotations) - 3, false),
    )
}

/// The attributes of the particles, one sequence per attribute, in the order
/// of the particles. The place of a particle in them never changes.
#[derive(Clone, Debug)]
pub struct Instances {
    /// Where each particle is.
    pub translations: Vec<Vec3>,
    /// The angle in fixed-point degrees by which each particle is turned
    /// about its own axis.
    pub rotations: Vec<i64>,
    /// The size of each particle along each axis.
    pub scales: Vec<Vec3>,
    /// The colour of each particle.
    pub colors: Vec<Color>,
}

impl View for Instances {
    type V = Seq<SpecParticle>;

    open spec fn view(&self) -> Seq<SpecParticle> {
        particles_of(self.translations@, self.rotations@, self.scales@, self.colors@)
    }
}

impl Instances {
    /// Whether the four sequences are equally long.
    pub open spec fn wf(&self) -> bool {
        &&& self.rotations@.len() == self.translations@.len()
        &&& self.scales@.len() == self.translations@.len()
        &&& self.colors@.len() == self.translations@.len()
    }

    /// Tells whether the four sequences are equally long.
    pub fn is_valid(&self) -> (ok: bool)
        ensures
            ok == self.wf(),
    {
        let n: usize = self.translations.len();
        self.rotations.len() == n && self.scales.len() == n && self.colors.len() == n
    }

    /// No particles.
    pub fn new() -> (instances: Instances)
        ensures
            instances.wf(),
            instances@ == Seq::<SpecParticle>::empty(),
    {
        let instances = Instances {
            translations: Vec::new(),
            rotations: Vec::new(),
            scales: Vec::new(),
            colors: Vec::new(),
        };
        assert(instances@ =~= Seq::<SpecParticle>::empty());
        instances
    }

    /// The number of particles.
    pub fn count(&self) -> (n: usize)
        requires
            self.wf(),
        ensures
            n == self@.len(),
    {
        self.translations.len()
    }

    /// The particle at place `i`.
    pub fn particle(&self, i: usize) -> (p: Particle)
        requires
            self.wf(),
            i < self@.len(),
        ensures
            p@ == self@[i as int],
    {
        Particle {
            position: self.translations[i],
            rotation: self.rotations[i],
            scale: self.scales[i],
            color: self.colors[i],
        }
    }

    /// Adds `p` behind the particles that are there.
    pub fn push(&mut self, p: Particle)
        requires
            old(self).wf(),
        ensures
            final(self).wf(),
            final(self)@ == old(self)@.push(p@),
    {
        self.translations.push(p.position);
        self.rotations.push(p.rotation);
        self.scales.push(p.scale);
        self.colors.push(p.color);
        assert(self@ =~= old(self)@.push(p@));
    }
}

/// Makes `count` particles from random samples: for each in turn a signed
/// position sample, an unsigned colour basis, a rotation basis (signed if
/// `signed_rotations`) and an unsigned scale basis.
///
/// Which particles come back is left to chance; whatever was drawn, there are
/// `count` of them and each is made from its samples as [`spawned`] says.
pub fn random_instances(count: usize, signed_rotations: bool) -> (instances: Instances)
    ensures
        instances.wf(),
        instances@.len() == count,
        forall|i: int| 0 <= i < count ==> is_spawn(#[trigger] instances@[i], signed_rotations),
{
    let mut instances = Instances::new();
    let mut i: usize = 0;
    while i < count
        invariant
            i <= count,
            instances.wf(),
            instances@.len() == i,
            forall|j: int| 0 <= j < i ==> is_spawn(#[trigger] instances@[j], signed_rotations),
        decreases count - i,
    {
        let start_position = get_rng_vec3(true);
        let colors = get_rng_vec3(false);
        let rotations = get_rng_vec3(signed_rotations);
        let scale = get_rng_vec3(false);
        let p = Particle::from_samples(start_position, colors, rotations, scale);
        assert(is_spawn(p@, signed_rotations)) by {
            assert(p@ == spawned(start_position@, colors@, rotations@, scale@));
        }
        instances.push(p);
        i += 1;
    }
    instances
}

/// The sample that the words from place `at` on stand for.
fn read_sample(words: &Vec<u32>, at: usize, is_signed: bool) -> (v: Vec3)
    requires
        at + (if is_signed {
            6int
        } else {
            3int
        }) <= words@.len() <= usize::MAX,
    ensures
        v@ == sample_at(words@, at as int, is_signed),
        is_sample(v@, is_signed),
{
    if is_signed {
        signed_vec3(
            words[at],
            words[at + 1],
            words[at + 2],
            words[at + 3],
            words[at + 4],
            words[at + 5],
        )
    } else {
        unsigned_vec3(words[at], words[at + 1], words[at + 2])
    }
}

/// Makes `count` particles from given random words, each particle from the
/// words that follow those of the particle before it. There must be words
/// enough for all of them; words beyond those are not looked at.
pub fn instances_from_words(words: &Vec<u32>, count: usize, signed_rotations: bool) -> (made:
    Option<Instances>)
    ensures
        made is Some <==> count * words_per_particle(signed_rotations) <= words@.len(),
        made matches Some(instances) ==> {
            &&& instances.wf()
            &&& instances@.len() == count
            &&& forall|i: int|
                0 <= i < count ==> #[trigger] instances@[i] == spawn_at(
                    words@,
                    i * words_per_particle(signed_rotations),
                    signed_rotations,
                )
        },
{
    let per: usize = if signed_rotations {
        18
    } else {
        15
    };
    if count > words.len() / per {
        assert(count * per > words@.len()) by (nonlinear_arith)
            requires
                count > words@.len() / (per as nat),
                per > 0,
        ;
        return None;
    }
    assert(count * per <= words@.len()) by (nonlinear_arith)
        requires
            count <= words@.len() / (per as nat),
            per > 0,
    ;
    let mut instances = Instances::new();
    let mut i: usize = 0;
    while i < count
        invariant
            i <= count,
            per == words_per_particle(signed_rotations),
            count * per <= words@.len() <= usize::MAX,
            instances.wf(),
            instances@.len() == i,
            forall|j: int|
                0 <= j < i ==> #[trigger] instances@[j] == spawn_at(
                    words@,
                    j * words_per_particle(signed_rotations),
                    signed_rotations,
                ),
        decreases count - i,
    {
        assert(i * per + per <= count * per) by (nonlinear_arith)
            requires
                i < count,
        ;
        let at: usize = i * per;
        let start_position = read_sample(words, at, true);
        let colors = read_sample(words, at + 6, false);
        let rotations = read_sample(words, at + 9, signed_rotations);
        let scale = read_sample(words, at + per - 3, false);
        let p = Particle::from_samples(start_position, colors, rotations, scale);
        instances.push(p);
        i += 1;
    }
    Some(instances)
}

/// Every particle made from random words can come out of
/// [`random_instances`].
pub proof fn lemma_words_spawn(words: Seq<u32>, at: int, signed_rotations: bool)
    ensures
        is_spawn(spawn_at(words, at, signed_rotations), signed_rotations),
{
    lemma_sample_at(words, at, true);
    lemma_sample_at(words, at + 6, false);
    lemma_sample_at(words, at + 9, signed_rotations);
    lemma_sample_at(words, at + words_per_particle(signed_rotations) - 3, false);
}

proof fn lemma_sample_at(words: Seq<u32>, at: int, is_signed: bool)
    ensures
        is_sample(sample_at(words, at, is_signed), is_signed),
{
}

} // verus!
