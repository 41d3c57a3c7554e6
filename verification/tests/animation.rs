use rand::rngs::StdRng;
use rand::{Rng, SeedableRng};
use starfield::fixed::{HALF, ONE};
use starfield::instances::{instances_from_words, Instances, SPARSE_STARS};
use starfield::model::{
    RotationPolicy, Waves, DRIFT_DIVISOR, DRIFT_RATE, PULSE_DIVISOR, PULSE_OFFSET, SPIN_DIVISOR,
    SPIN_RATE, TIME_LIMIT, YAW_RATE,
};
use starfield::stars::{StarsParticle, Transformation};
use starfield::vector::{Color, Vec3};

const WHITE: Color = Color { r: 255, g: 255, b: 255, a: 255 };

fn uniform(s: i64) -> Vec3 {
    Vec3 { x: s, y: s, z: s }
}

fn lone_star(policy: RotationPolicy, rotation: i64, scale: i64) -> StarsParticle {
    StarsParticle::new(
        vec![Vec3 { x: 100, y: 200, z: -300 }],
        vec![rotation],
        vec![uniform(scale)],
        vec![WHITE],
        policy,
    )
}

fn seconds(s: f64) -> u64 {
    (s * ONE as f64) as u64
}

fn cosine(phase: i64) -> i64 {
    ((phase as f64 / ONE as f64).cos() * ONE as f64).round() as i64
}

fn waves_now(stars: &StarsParticle) -> Waves {
    Waves { drift: cosine(stars.drift_phase()), pulse: cosine(stars.pulse_phase()) }
}

fn frame(stars: &mut StarsParticle, elapsed: u64) {
    assert!(stars.can_advance(elapsed));
    stars.advance(elapsed);
    let waves = waves_now(stars);
    assert!(stars.can_update(waves));
    stars.update(waves);
}

fn as_real(fixed: i64) -> f64 {
    fixed as f64 / ONE as f64
}

#[test]
fn animation_constants() {
    assert_eq!(SPIN_RATE, 100);
    assert_eq!(SPIN_DIVISOR, 2);
    assert_eq!(DRIFT_DIVISOR, 333);
    assert_eq!(DRIFT_RATE, 2);
    assert_eq!(PULSE_DIVISOR, 5);
    assert_eq!(PULSE_OFFSET, 2 * ONE);
    assert_eq!(YAW_RATE, 3);
    assert_eq!(TIME_LIMIT, 1 << 56);
}

#[test]
fn new_field_starts_at_time_zero() {
    let stars = StarsParticle::new(
        vec![Vec3 { x: 1, y: 2, z: 3 }, Vec3 { x: 4, y: 5, z: 6 }],
        vec![7, 8],
        vec![uniform(9), uniform(10)],
        vec![WHITE, Color { r: 1, g: 2, b: 3, a: 4 }],
        RotationPolicy::Incremental,
    );
    assert_eq!(stars.time, 0);
    assert_eq!(stars.policy, RotationPolicy::Incremental);
    assert_eq!(stars.transformation, Transformation { scale: ONE, yaw: 0 });
    assert_eq!(stars.instances.count(), 2);
    assert_eq!(stars.instances.translations, vec![Vec3 { x: 1, y: 2, z: 3 }, Vec3 { x: 4, y: 5, z: 6 }]);
    assert_eq!(stars.instances.rotations, vec![7, 8]);
    assert_eq!(stars.instances.scales, vec![uniform(9), uniform(10)]);
    assert_eq!(stars.instances.colors, vec![WHITE, Color { r: 1, g: 2, b: 3, a: 4 }]);
}

#[test]
fn clock_advances_by_the_elapsed_time() {
    let mut stars = lone_star(RotationPolicy::Absolute, 5, 6);
    stars.advance(1000);
    assert_eq!(stars.time, 1000);
    stars.advance(0);
    assert_eq!(stars.time, 1000);
    stars.advance(234);
    assert_eq!(stars.time, 1234);
    assert_eq!(stars.instances.rotations, vec![5]);
    assert_eq!(stars.instances.scales, vec![uniform(6)]);
    assert_eq!(stars.transformation, Transformation { scale: ONE, yaw: 0 });
}

#[test]
fn clock_stops_at_its_limit() {
    let mut stars = lone_star(RotationPolicy::Absolute, 0, 0);
    assert!(stars.can_advance(TIME_LIMIT));
    assert!(!stars.can_advance(TIME_LIMIT + 1));
    stars.advance(TIME_LIMIT - 1);
    assert!(stars.can_advance(1));
    assert!(!stars.can_advance(2));
    assert!(!stars.can_advance(u64::MAX));
    stars.advance(1);
    assert_eq!(stars.time, TIME_LIMIT);
    let waves = Waves { drift: ONE, pulse: ONE };
    assert!(stars.can_update(waves));
    stars.update(waves);
    assert_eq!(stars.instances.rotations, vec![100 * (TIME_LIMIT as i64)]);
    assert_eq!(stars.transformation.yaw, 3 * (TIME_LIMIT as i64));
}

#[test]
fn phases_follow_the_clock() {
    let mut stars = lone_star(RotationPolicy::Absolute, 0, 0);
    assert_eq!(stars.drift_phase(), 0);
    assert_eq!(stars.pulse_phase(), 0);
    stars.advance(1004);
    assert_eq!(stars.drift_phase(), 2008);
    assert_eq!(stars.pulse_phase(), 200);
}

#[test]
fn axis_of_each_particle() {
    let stars = StarsParticle::new(
        vec![Vec3 { x: 1, y: 2, z: 3 }, Vec3 { x: 0, y: 0, z: 0 }],
        vec![0, 0],
        vec![uniform(0), uniform(0)],
        vec![WHITE, WHITE],
        RotationPolicy::Absolute,
    );
    assert_eq!(stars.axis(0), Vec3 { x: 1, y: 2, z: 3 });
    assert_eq!(stars.axis(1), Vec3 { x: 0, y: ONE, z: 0 });
}

#[test]
fn absolute_update() {
    let mut stars = lone_star(RotationPolicy::Absolute, 5, 7);
    stars.advance(1000);
    stars.update(Waves { drift: 666, pulse: -ONE });
    assert_eq!(stars.time, 1000);
    assert_eq!(stars.instances.translations, vec![Vec3 { x: 100, y: 200, z: -300 }]);
    assert_eq!(stars.instances.colors, vec![WHITE]);
    assert_eq!(stars.instances.rotations, vec![100_000]);
    assert_eq!(stars.instances.scales, vec![uniform(9)]);
    assert_eq!(stars.transformation, Transformation { scale: ONE, yaw: 3000 });
}

#[test]
fn incremental_update() {
    let mut stars = lone_star(RotationPolicy::Incremental, 5, 7);
    stars.advance(1001);
    stars.update(Waves { drift: -667, pulse: ONE });
    assert_eq!(stars.instances.rotations, vec![505]);
    assert_eq!(stars.instances.scales, vec![uniform(5)]);
    assert_eq!(stars.transformation, Transformation { scale: 3 * ONE, yaw: 3003 });
    stars.update(Waves { drift: 332, pulse: 0 });
    assert_eq!(stars.instances.rotations, vec![1005]);
    assert_eq!(stars.instances.scales, vec![uniform(5)]);
    assert_eq!(stars.transformation, Transformation { scale: 2 * ONE, yaw: 3003 });
}

#[test]
fn update_reaches_every_particle() {
    let mut stars = StarsParticle::new(
        vec![Vec3 { x: 1, y: 0, z: 0 }, Vec3 { x: 0, y: 1, z: 0 }, Vec3 { x: 0, y: 0, z: 1 }],
        vec![10, 20, 30],
        vec![Vec3 { x: 1, y: 2, z: 3 }, uniform(0), uniform(-5)],
        vec![WHITE, WHITE, WHITE],
        RotationPolicy::Incremental,
    );
    stars.advance(8);
    stars.update(Waves { drift: 3330, pulse: 0 });
    assert_eq!(stars.instances.rotations, vec![14, 24, 34]);
    assert_eq!(stars.instances.scales, vec![Vec3 { x: 11, y: 12, z: 13 }, uniform(10), uniform(5)]);
    assert_eq!(stars.instances.count(), 3);
}

#[test]
fn update_of_an_empty_field() {
    let mut stars = StarsParticle::new(vec![], vec![], vec![], vec![], RotationPolicy::Absolute);
    stars.advance(ONE as u64);
    let waves = Waves { drift: ONE, pulse: HALF };
    assert!(stars.can_update(waves));
    stars.update(waves);
    assert_eq!(stars.instances.count(), 0);
    assert_eq!(stars.transformation, Transformation { scale: 2 * ONE + HALF, yaw: 3 * ONE });
}

#[test]
fn update_that_does_not_fit_is_told() {
    let mut full = lone_star(RotationPolicy::Absolute, 0, i64::MAX - 1);
    assert!(full.can_update(Waves { drift: 333, pulse: 0 }));
    assert!(!full.can_update(Waves { drift: 666, pulse: 0 }));
    assert!(full.can_update(Waves { drift: -ONE, pulse: 0 }));
    full.update(Waves { drift: 333, pulse: 0 });
    assert_eq!(full.instances.scales, vec![uniform(i64::MAX)]);

    let empty = lone_star(RotationPolicy::Absolute, 0, i64::MIN);
    assert!(empty.can_update(Waves { drift: 0, pulse: 0 }));
    assert!(empty.can_update(Waves { drift: -332, pulse: 0 }));
    assert!(!empty.can_update(Waves { drift: -333, pulse: 0 }));

    let mut turned = lone_star(RotationPolicy::Incremental, i64::MAX - 3, 0);
    turned.advance(6);
    assert!(turned.can_update(Waves { drift: 0, pulse: 0 }));
    turned.advance(2);
    assert!(!turned.can_update(Waves { drift: 0, pulse: 0 }));
    turned.policy = RotationPolicy::Absolute;
    assert!(turned.can_update(Waves { drift: 0, pulse: 0 }));
}

#[test]
fn scale_follows_the_sign_of_the_wave() {
    let mut stars = lone_star(RotationPolicy::Absolute, 0, HALF);
    let mut last = HALF;
    for step in 0..100 {
        let drift = cosine(step * ONE / 10);
        stars.update(Waves { drift, pulse: 0 });
        let now = stars.instances.scales[0].x;
        if drift > 0 {
            assert!(now >= last);
        }
        if drift < 0 {
            assert!(now <= last);
        }
        if drift >= DRIFT_DIVISOR {
            assert!(now > last);
        }
        if drift <= -DRIFT_DIVISOR {
            assert!(now < last);
        }
        assert_eq!(stars.instances.scales[0], uniform(now));
        last = now;
    }
}

#[test]
fn scale_is_the_running_sum_of_the_wave() {
    let mut stars = lone_star(RotationPolicy::Absolute, 0, HALF);
    let mut sum_fixed: i64 = HALF;
    let mut sum_real: f64 = 0.5;
    for k in 1..=10 {
        frame(&mut stars, seconds(0.1));
        sum_fixed += cosine(2 * k * (seconds(0.1) as i64)) / 333;
        sum_real += (2.0 * 0.1 * k as f64).cos() / 333.0;
        assert_eq!(stars.instances.scales[0], uniform(sum_fixed));
        assert!((as_real(stars.instances.scales[0].x) - sum_real).abs() < 1e-5);
    }
    // 0.5 + (cos 0.2 + cos 0.4 + ... + cos 2.0) / 333
    assert!((as_real(stars.instances.scales[0].x) - 0.511_481_227).abs() < 1e-5);
}

#[test]
fn scale_returns_over_a_full_period() {
    let mut stars = lone_star(RotationPolicy::Absolute, 0, HALF);
    // 1000 frames that together span one period of the drift wave: pi seconds.
    let mut sum_real: f64 = 0.5;
    for k in 1..=1000 {
        let t = std::f64::consts::PI * k as f64 / 1000.0;
        let elapsed = seconds(t) - stars.time;
        frame(&mut stars, elapsed);
        sum_real += (2.0 * t).cos() / 333.0;
    }
    assert!((as_real(stars.instances.scales[0].x) - sum_real).abs() < 1e-4);
    assert!((as_real(stars.instances.scales[0].x) - 0.5).abs() < 1e-4);
}

#[test]
fn field_scale_stays_between_one_and_three() {
    let mut stars = lone_star(RotationPolicy::Absolute, 0, HALF);
    let mut low = i64::MAX;
    let mut high = i64::MIN;
    for _ in 0..2000 {
        frame(&mut stars, seconds(0.05));
        let scale = stars.transformation.scale;
        assert!(ONE <= scale && scale <= 3 * ONE);
        let expected = (as_real(stars.time as i64) / 5.0).cos() + 2.0;
        assert!((as_real(scale) - expected).abs() < 1e-5);
        low = low.min(scale);
        high = high.max(scale);
    }
    assert!(as_real(low) < 1.01);
    assert!(as_real(high) > 2.99);
    let mut edge = lone_star(RotationPolicy::Absolute, 0, HALF);
    edge.update(Waves { drift: 0, pulse: -ONE });
    assert_eq!(edge.transformation.scale, ONE);
    edge.update(Waves { drift: 0, pulse: ONE });
    assert_eq!(edge.transformation.scale, 3 * ONE);
}

#[test]
fn field_turns_three_degrees_a_second() {
    let mut stars = lone_star(RotationPolicy::Absolute, 0, HALF);
    frame(&mut stars, 10 * ONE as u64);
    assert_eq!(stars.transformation.yaw, 30 * ONE);
}

#[test]
fn incremental_rotation_is_the_sum_of_its_steps() {
    let elapsed = seconds(0.016);
    let mut stars = lone_star(RotationPolicy::Incremental, 90 * ONE, HALF);
    let mut expected: i64 = 90 * ONE;
    for k in 1..=25 {
        frame(&mut stars, elapsed);
        expected += (k * elapsed as i64) / 2;
        assert_eq!(stars.instances.rotations, vec![expected]);
    }
    // 90 + 0.016 * (1 + 2 + ... + 25) / 2 degrees
    assert!((as_real(stars.instances.rotations[0]) - 92.6).abs() < 1e-4);
}

#[test]
fn incremental_steps_at_a_standing_clock_are_identical() {
    let mut stars = lone_star(RotationPolicy::Incremental, 7, HALF);
    stars.advance(1000);
    for k in 1..=12 {
        stars.update(Waves { drift: 0, pulse: 0 });
        assert_eq!(stars.instances.rotations, vec![7 + k * 500]);
    }
}

#[test]
fn incremental_frames_compose_in_order() {
    let elapsed = [5u64, 300, 17, 17, 90_000, 1];
    let mut whole = lone_star(RotationPolicy::Incremental, 0, 0);
    for e in elapsed {
        frame(&mut whole, e);
    }
    let mut first = lone_star(RotationPolicy::Incremental, 0, 0);
    for e in &elapsed[..2] {
        frame(&mut first, *e);
    }
    let mut second = StarsParticle::new(
        first.instances.translations.clone(),
        first.instances.rotations.clone(),
        first.instances.scales.clone(),
        first.instances.colors.clone(),
        RotationPolicy::Incremental,
    );
    second.advance(first.time);
    for e in &elapsed[2..] {
        frame(&mut second, *e);
    }
    assert_eq!(second.instances.rotations, whole.instances.rotations);
    assert_eq!(second.instances.scales, whole.instances.scales);
    assert_eq!(second.time, whole.time);
    assert_eq!(second.transformation, whole.transformation);
}

#[test]
fn absolute_rotation_ignores_the_frame_rate() {
    let mut coarse = lone_star(RotationPolicy::Absolute, 1, HALF);
    frame(&mut coarse, 960_000);
    let mut fine = lone_star(RotationPolicy::Absolute, 2, HALF);
    for _ in 0..60 {
        frame(&mut fine, 16_000);
    }
    assert_eq!(coarse.time, fine.time);
    assert_eq!(coarse.instances.rotations, vec![96_000_000]);
    assert_eq!(fine.instances.rotations, vec![96_000_000]);
    assert_eq!(coarse.transformation.yaw, fine.transformation.yaw);
}

#[test]
fn incremental_rotation_depends_on_the_frame_rate() {
    let mut coarse = lone_star(RotationPolicy::Incremental, 0, HALF);
    frame(&mut coarse, 4);
    let mut fine = lone_star(RotationPolicy::Incremental, 0, HALF);
    frame(&mut fine, 2);
    frame(&mut fine, 2);
    assert_eq!(coarse.time, fine.time);
    assert_eq!(coarse.instances.rotations, vec![2]);
    assert_eq!(fine.instances.rotations, vec![3]);
}

fn seeded_field(seed: u64) -> StarsParticle {
    let mut rng = StdRng::seed_from_u64(seed);
    let mut words = Vec::new();
    for _ in 0..15 * SPARSE_STARS {
        words.push(rng.gen::<u32>());
    }
    let made: Instances = instances_from_words(&words, SPARSE_STARS, false).unwrap();
    StarsParticle::new(
        made.translations,
        made.rotations,
        made.scales,
        made.colors,
        RotationPolicy::Absolute,
    )
}

#[test]
fn one_second_at_sixty_frames() {
    let mut stars = seeded_field(2024);
    let again = seeded_field(2024);
    assert_eq!(stars.instances.count(), SPARSE_STARS);
    assert_eq!(stars.instances.scales, again.instances.scales);
    let start = stars.instances.scales[0];
    let positions = stars.instances.translations.clone();
    let colors = stars.instances.colors.clone();
    let elapsed = seconds(0.016);
    assert_eq!(elapsed, 268_435);
    let mut drift: i64 = 0;
    let mut drift_real: f64 = 0.0;
    for k in 1..=60 {
        frame(&mut stars, elapsed);
        drift += cosine(2 * k * elapsed as i64) / 333;
        drift_real += (2.0 * 0.016 * k as f64).cos() / 333.0;
    }
    let end = stars.instances.scales[0];
    assert_eq!(end, Vec3 { x: start.x + drift, y: start.y + drift, z: start.z + drift });
    // (cos 0.032 + cos 0.064 + ... + cos 1.92) / 333
    assert!((as_real(drift) - drift_real).abs() < 1e-5);
    assert!((as_real(end.x - start.x) - 0.086_157_18).abs() < 1e-5);
    for i in 0..SPARSE_STARS {
        let before = again.instances.scales[i];
        let after = stars.instances.scales[i];
        assert_eq!(after, Vec3 { x: before.x + drift, y: before.y + drift, z: before.z + drift });
        assert_eq!(stars.instances.rotations[i], 100 * 60 * elapsed as i64);
    }
    assert_eq!(stars.instances.translations, positions);
    assert_eq!(stars.instances.colors, colors);
    assert_eq!(stars.time, 60 * elapsed);

    let mut rerun = seeded_field(2024);
    for _ in 0..60 {
        frame(&mut rerun, elapsed);
    }
    assert_eq!(rerun.instances.scales, stars.instances.scales);
    assert_eq!(rerun.instances.rotations, stars.instances.rotations);
    assert_eq!(rerun.transformation, stars.transformation);
}

#[test]
fn waves_lie_between_minus_one_and_one() {
    assert_eq!(Waves::new(0, 0), Some(Waves { drift: 0, pulse: 0 }));
    assert_eq!(Waves::new(ONE, -ONE), Some(Waves { drift: ONE, pulse: -ONE }));
    assert_eq!(Waves::new(-ONE, ONE), Some(Waves { drift: -ONE, pulse: ONE }));
    assert_eq!(Waves::new(ONE + 1, 0), None);
    assert_eq!(Waves::new(0, ONE + 1), None);
    assert_eq!(Waves::new(-ONE - 1, 0), None);
    assert_eq!(Waves::new(0, -ONE - 1), None);
    assert_eq!(Waves::new(i64::MIN, i64::MAX), None);
}

#[test]
fn validity_is_told() {
    let mut stars = lone_star(RotationPolicy::Absolute, 0, 0);
    assert!(stars.is_valid());
    assert!(stars.instances.is_valid());
    stars.time = TIME_LIMIT;
    assert!(stars.is_valid());
    stars.time = TIME_LIMIT + 1;
    assert!(!stars.is_valid());
    stars.time = 0;
    stars.transformation.scale = ONE - 1;
    assert!(!stars.is_valid());
    stars.transformation.scale = 3 * ONE;
    assert!(stars.is_valid());
    stars.transformation.scale = 3 * ONE + 1;
    assert!(!stars.is_valid());
    stars.transformation.scale = ONE;
    stars.instances.rotations.push(0);
    assert!(!stars.instances.is_valid());
    assert!(!stars.is_valid());
    stars.instances.rotations.pop();
    stars.instances.colors.pop();
    assert!(!stars.is_valid());
}
