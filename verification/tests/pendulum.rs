use std::f64::consts::PI;

use dynsim::integrator::Integrator;
use dynsim::pendulum::{
    AnglePosition, FullTurn, PendulumState, StepFraction, INNER_STAGE_WEIGHT, OUTER_STAGE_WEIGHT,
    STAGE_WEIGHT_SUM,
};

const G: f64 = 9.81;

/// Masses and lengths of a double pendulum.
#[derive(Clone, Copy)]
struct Arms {
    m1: f64,
    m2: f64,
    l1: f64,
    l2: f64,
}

const UNIT_ARMS: Arms = Arms {
    m1: 10.0,
    m2: 10.0,
    l1: 1.0,
    l2: 1.0,
};

fn state(theta1: f64, omega1: f64, theta2: f64, omega2: f64) -> PendulumState<f64> {
    PendulumState {
        arm1_angular_position: theta1,
        arm1_angular_velocity: omega1,
        arm2_angular_position: theta2,
        arm2_angular_velocity: omega2,
    }
}

fn quantities(state: &PendulumState<f64>) -> [f64; 4] {
    [
        state.arm1_angular_position,
        state.arm1_angular_velocity,
        state.arm2_angular_position,
        state.arm2_angular_velocity,
    ]
}

/// The angular accelerations of both arms, from the equations of motion.
fn accelerations(arms: Arms, state: &PendulumState<f64>) -> (f64, f64) {
    let Arms { m1, m2, l1, l2 } = arms;
    let (t1, w1) = (state.arm1_angular_position, state.arm1_angular_velocity);
    let (t2, w2) = (state.arm2_angular_position, state.arm2_angular_velocity);
    let common = 2.0 * m1 + m2 - m2 * (2.0 * t1 - 2.0 * t2).cos();
    let acc1 = (-G * (2.0 * m1 + m2) * t1.sin()
        - m2 * G * (t1 - 2.0 * t2).sin()
        - 2.0 * (t1 - t2).sin() * m2 * (w2.powi(2) * l2 + w1.powi(2) * l1 * (t1 - t2).cos()))
        / (l1 * common);
    let acc2 = (2.0
        * (t1 - t2).sin()
        * (w1.powi(2) * l1 * (m1 + m2)
            + G * (m1 + m2) * t1.cos()
            + w2.powi(2) * l2 * m2 * (t1 - t2).cos()))
        / (l2 * common);
    (acc1, acc2)
}

fn total_energy(arms: Arms, state: &PendulumState<f64>) -> f64 {
    let Arms { m1, m2, l1, l2 } = arms;
    let (t1, w1) = (state.arm1_angular_position, state.arm1_angular_velocity);
    let (t2, w2) = (state.arm2_angular_position, state.arm2_angular_velocity);
    let (v1, v2) = (l1 * w1, l2 * w2);
    let kinetic =
        0.5 * m1 * v1 * v1 + 0.5 * m2 * (v1 * v1 + v2 * v2 + 2.0 * v1 * v2 * (t1 - t2).cos());
    let y1 = -l1 * t1.cos();
    let y2 = y1 - l2 * t2.cos();
    let potential = G * (m1 * (l1 + l2 + y1) + m2 * (l1 + l2 + y2));
    kinetic + potential
}

fn advance(h: f64) -> impl Fn(f64, f64, StepFraction) -> f64 {
    move |from, rate, fraction| match fraction {
        StepFraction::Half => from + (0.5 * h) * rate,
        StepFraction::Whole => from + h * rate,
    }
}

type Weighted = (u8, f64);

fn blend(h: f64) -> impl Fn(f64, Weighted, Weighted, Weighted, Weighted, u8) -> f64 {
    move |from, k1, k2, k3, k4, weight_sum| {
        let weighted = |(weight, rate): Weighted| f64::from(weight) * rate;
        from + (h / f64::from(weight_sum))
            * (weighted(k1) + weighted(k2) + weighted(k3) + weighted(k4))
    }
}

fn locate(angle: f64) -> AnglePosition {
    if angle > 2.0 * PI {
        AnglePosition::Above
    } else if angle < -2.0 * PI {
        AnglePosition::Below
    } else {
        AnglePosition::Within
    }
}

fn turn(angle: f64, by: FullTurn) -> f64 {
    match by {
        FullTurn::Backward => angle - 2.0 * PI,
        FullTurn::Forward => angle + 2.0 * PI,
    }
}

fn wrap(angle: f64) -> f64 {
    if angle > 2.0 * PI {
        angle - 2.0 * PI
    } else if angle < -2.0 * PI {
        angle + 2.0 * PI
    } else {
        angle
    }
}

/// One step of `integrator` on a pendulum with the arms given.
fn step(integrator: Integrator, arms: Arms, from: &PendulumState<f64>, h: f64) -> PendulumState<f64> {
    let mut next = *from;
    next.step(
        integrator,
        |state| accelerations(arms, state),
        advance(h),
        blend(h),
        locate,
        turn,
    );
    next
}

fn run(
    integrator: Integrator,
    arms: Arms,
    from: &PendulumState<f64>,
    h: f64,
    steps: usize,
) -> PendulumState<f64> {
    let mut current = *from;
    for _ in 0..steps {
        current = step(integrator, arms, &current, h);
    }
    current
}

fn distance(a: &PendulumState<f64>, b: &PendulumState<f64>) -> f64 {
    quantities(a)
        .iter()
        .zip(quantities(b).iter())
        .map(|(x, y)| (x - y) * (x - y))
        .sum::<f64>()
        .sqrt()
}

#[test]
fn euler_advances_the_angles_by_the_old_velocities() {
    let h = 0.01;
    let from = state(1.0, 0.5, -0.7, -0.3);
    let (acc1, acc2) = accelerations(UNIT_ARMS, &from);

    let mut next = from;
    next.update_euler(|s| accelerations(UNIT_ARMS, s), advance(h), locate, turn);

    assert_eq!(next.arm1_angular_velocity, 0.5 + h * acc1);
    assert_eq!(next.arm2_angular_velocity, -0.3 + h * acc2);
    assert_eq!(next.arm1_angular_position, 1.0 + h * 0.5);
    assert_eq!(next.arm2_angular_position, -0.7 + h * -0.3);
}

#[test]
fn semi_implicit_euler_advances_the_angles_by_the_new_velocities() {
    let h = 0.01;
    let from = state(1.0, 0.5, -0.7, -0.3);
    let (acc1, acc2) = accelerations(UNIT_ARMS, &from);

    let mut next = from;
    next.update_semi_implicit_euler(|s| accelerations(UNIT_ARMS, s), advance(h), locate, turn);

    let omega1 = 0.5 + h * acc1;
    let omega2 = -0.3 + h * acc2;
    assert_eq!(next.arm1_angular_velocity, omega1);
    assert_eq!(next.arm2_angular_velocity, omega2);
    assert_eq!(next.arm1_angular_position, 1.0 + h * omega1);
    assert_eq!(next.arm2_angular_position, -0.7 + h * omega2);
    assert_ne!(next.arm1_angular_position, 1.0 + h * 0.5);
    assert_ne!(next.arm2_angular_position, -0.7 + h * -0.3);
}

#[test]
fn the_two_euler_schemes_agree_on_the_velocities() {
    let h = 0.02;
    let from = state(0.4, -1.5, 2.0, 0.25);
    let explicit = step(Integrator::Euler, UNIT_ARMS, &from, h);
    let symplectic = step(Integrator::SemiImplicitEuler, UNIT_ARMS, &from, h);
    assert_eq!(explicit.arm1_angular_velocity, symplectic.arm1_angular_velocity);
    assert_eq!(explicit.arm2_angular_velocity, symplectic.arm2_angular_velocity);
    assert_ne!(explicit.arm1_angular_position, symplectic.arm1_angular_position);
    assert_ne!(explicit.arm2_angular_position, symplectic.arm2_angular_position);
}

#[test]
fn rk4_rhs_pairs_angles_with_velocities_and_velocities_with_accelerations() {
    let at = state(1.0, 0.5, -0.7, -0.3);
    let (acc1, acc2) = accelerations(UNIT_ARMS, &at);
    let rates = at.rk4_rhs(|s| accelerations(UNIT_ARMS, s));
    assert_eq!(quantities(&rates), [0.5, acc1, -0.3, acc2]);
}

#[test]
fn rk4_rhs_carries_a_known_acceleration() {
    // A state close to both arms pointing straight up, with long arms.
    let arms = Arms {
        m1: 10.0,
        m2: 10.0,
        l1: 100.0,
        l2: 100.0,
    };
    let at = state(
        3.1424357386212893,
        0.00047841035932873357,
        3.140478722190667,
        -0.0006580958030288573,
    );
    let rates = at.rk4_rhs(|s| accelerations(arms, s));
    assert!((rates.arm2_angular_velocity - -0.00038396302819984884).abs() < 1.0e-13);
    assert_eq!(rates.arm1_angular_position, 0.00047841035932873357);
    assert_eq!(rates.arm2_angular_position, -0.0006580958030288573);
}

#[test]
fn rk4_rhs_evaluates_the_accelerations_at_the_state_given() {
    let at: PendulumState<i64> = PendulumState {
        arm1_angular_position: 1,
        arm1_angular_velocity: 2,
        arm2_angular_position: 3,
        arm2_angular_velocity: 4,
    };
    let rates = at.rk4_rhs(|s| {
        (
            1000 * s.arm1_angular_position + 100 * s.arm1_angular_velocity,
            10 * s.arm2_angular_position + s.arm2_angular_velocity,
        )
    });
    assert_eq!(rates.arm1_angular_position, 2);
    assert_eq!(rates.arm1_angular_velocity, 1200);
    assert_eq!(rates.arm2_angular_position, 4);
    assert_eq!(rates.arm2_angular_velocity, 34);
}

/// A Runge-Kutta step written out on arrays, stage by stage.
fn rk4_on_arrays(arms: Arms, from: [f64; 4], h: f64) -> [f64; 4] {
    let rates = |q: [f64; 4]| {
        let (acc1, acc2) = accelerations(arms, &state(q[0], q[1], q[2], q[3]));
        [q[1], acc1, q[3], acc2]
    };
    let shifted = |k: [f64; 4], by: f64| {
        [
            from[0] + k[0] * by,
            from[1] + k[1] * by,
            from[2] + k[2] * by,
            from[3] + k[3] * by,
        ]
    };
    let k1 = rates(from);
    let k2 = rates(shifted(k1, 0.5 * h));
    let k3 = rates(shifted(k2, 0.5 * h));
    let k4 = rates(shifted(k3, h));
    let mut next = [0.0; 4];
    for i in 0..4 {
        next[i] = from[i] + (h / 6.0) * (k1[i] + 2.0 * k2[i] + 2.0 * k3[i] + k4[i]);
    }
    next[0] = wrap(next[0]);
    next[2] = wrap(next[2]);
    next
}

#[test]
fn rk4_blends_the_rates_at_its_four_stages() {
    let h = 0.05;
    let from = state(1.0, 0.5, -0.7, -0.3);
    let mut next = from;
    next.update_rk4(|s| accelerations(UNIT_ARMS, s), advance(h), blend(h), locate, turn);
    assert_eq!(
        quantities(&next),
        rk4_on_arrays(UNIT_ARMS, quantities(&from), h)
    );
    assert_ne!(quantities(&next), quantities(&from));
}

#[test]
fn rk4_follows_the_array_form_over_many_steps() {
    let h = 0.01;
    let arms = Arms {
        m1: 1.0,
        m2: 2.0,
        l1: 1.5,
        l2: 0.5,
    };
    let mut by_library = state(2.5, 0.0, -1.0, 0.0);
    let mut by_hand = quantities(&by_library);
    for _ in 0..500 {
        by_library = step(Integrator::Rk4, arms, &by_library, h);
        by_hand = rk4_on_arrays(arms, by_hand, h);
    }
    assert_eq!(quantities(&by_library), by_hand);
}

#[test]
fn rk4_hands_each_stage_the_state_moved_along_the_stage_before() {
    // Whole numbers with rules that keep their arguments apart: a wrong stage
    // or a wrong fraction changes the result.
    let from: PendulumState<i64> = PendulumState {
        arm1_angular_position: 1,
        arm1_angular_velocity: 2,
        arm2_angular_position: 3,
        arm2_angular_velocity: 4,
    };
    let acceleration = |s: &PendulumState<i64>| {
        (
            s.arm1_angular_position + 2 * s.arm2_angular_position,
            3 * s.arm1_angular_velocity - s.arm2_angular_velocity,
        )
    };
    let advance = |q: i64, rate: i64, fraction: StepFraction| match fraction {
        StepFraction::Half => q + 10 * rate,
        StepFraction::Whole => q + 20 * rate,
    };
    // The four places of the rates count differently here, so that two rates
    // that changed places would show; the weights are checked on their own.
    let blend = |q: i64,
                 k1: (u8, i64),
                 k2: (u8, i64),
                 k3: (u8, i64),
                 k4: (u8, i64),
                 weight_sum: u8| {
        assert_eq!((k1.0, k2.0, k3.0, k4.0, weight_sum), (1, 2, 2, 1, 6));
        q + k1.1 + 3 * k2.1 + 5 * k3.1 + 7 * k4.1
    };

    let rates = |q: [i64; 4]| [q[1], q[0] + 2 * q[2], q[3], 3 * q[1] - q[3]];
    let start = [1i64, 2, 3, 4];
    let shifted = |k: [i64; 4], by: i64| {
        [
            start[0] + by * k[0],
            start[1] + by * k[1],
            start[2] + by * k[2],
            start[3] + by * k[3],
        ]
    };
    let k1 = rates(start);
    let k2 = rates(shifted(k1, 10));
    let k3 = rates(shifted(k2, 10));
    let k4 = rates(shifted(k3, 20));
    let mut expected = [0i64; 4];
    for i in 0..4 {
        expected[i] = start[i] + k1[i] + 3 * k2[i] + 5 * k3[i] + 7 * k4[i];
    }
    // Every angle is reported above the range, and a turn backward marks it.
    expected[0] = expected[0] - 1_000_000_007;
    expected[2] = expected[2] - 1_000_000_007;

    let mut next = from;
    next.update_rk4(
        acceleration,
        advance,
        blend,
        |_angle| AnglePosition::Above,
        |angle, by| match by {
            FullTurn::Backward => angle - 1_000_000_007,
            FullTurn::Forward => angle + 1_000_000_007,
        },
    );
    assert_eq!(
        [
            next.arm1_angular_position,
            next.arm1_angular_velocity,
            next.arm2_angular_position,
            next.arm2_angular_velocity,
        ],
        expected
    );
}

#[test]
fn the_stage_weights_are_one_two_two_one_in_six() {
    assert_eq!(OUTER_STAGE_WEIGHT, 1);
    assert_eq!(INNER_STAGE_WEIGHT, 2);
    assert_eq!(STAGE_WEIGHT_SUM, 6);
    assert_eq!(
        2 * OUTER_STAGE_WEIGHT + 2 * INNER_STAGE_WEIGHT,
        STAGE_WEIGHT_SUM
    );
}

#[test]
fn clean_angles_brings_an_angle_back_by_one_turn() {
    let mut above = state(2.0 * PI + 0.25, 3.0, -2.0 * PI - 0.5, -4.0);
    above.clean_angles(locate, turn);
    assert_eq!(above.arm1_angular_position, 2.0 * PI + 0.25 - 2.0 * PI);
    assert_eq!(above.arm2_angular_position, -2.0 * PI - 0.5 + 2.0 * PI);
    assert_eq!(above.arm1_angular_velocity, 3.0);
    assert_eq!(above.arm2_angular_velocity, -4.0);
}

#[test]
fn clean_angles_leaves_angles_in_range_alone() {
    for angle in [0.0, 1.0, -1.0, PI, -PI, 2.0 * PI, -2.0 * PI] {
        let mut inside = state(angle, 100.0, -angle, -100.0);
        inside.clean_angles(locate, turn);
        assert_eq!(quantities(&inside), [angle, 100.0, -angle, -100.0]);
    }
}

#[test]
fn clean_angles_corrects_once_and_not_to_the_full() {
    let mut far = state(5.0 * PI, 0.0, -7.0 * PI, 0.0);
    far.clean_angles(locate, turn);
    assert_eq!(far.arm1_angular_position, 5.0 * PI - 2.0 * PI);
    assert_eq!(far.arm2_angular_position, -7.0 * PI + 2.0 * PI);
    assert!(far.arm1_angular_position > 2.0 * PI);
    assert!(far.arm2_angular_position < -2.0 * PI);
}

#[test]
fn clean_angles_turns_against_the_side_the_angle_left_on() {
    let marks = |angle: i64, by: FullTurn| match by {
        FullTurn::Backward => angle - 1,
        FullTurn::Forward => angle + 1,
    };
    let sides = |angle: i64| {
        if angle > 100 {
            AnglePosition::Above
        } else if angle < -100 {
            AnglePosition::Below
        } else {
            AnglePosition::Within
        }
    };
    let mut both: PendulumState<i64> = PendulumState {
        arm1_angular_position: 500,
        arm1_angular_velocity: 500,
        arm2_angular_position: -500,
        arm2_angular_velocity: -500,
    };
    both.clean_angles(sides, marks);
    assert_eq!(both.arm1_angular_position, 499);
    assert_eq!(both.arm2_angular_position, -499);
    assert_eq!(both.arm1_angular_velocity, 500);
    assert_eq!(both.arm2_angular_velocity, -500);

    let mut inside: PendulumState<i64> = PendulumState {
        arm1_angular_position: 100,
        arm1_angular_velocity: 0,
        arm2_angular_position: -100,
        arm2_angular_velocity: 0,
    };
    inside.clean_angles(sides, marks);
    assert_eq!(inside.arm1_angular_position, 100);
    assert_eq!(inside.arm2_angular_position, -100);
}

#[test]
fn clean_angles_agrees_with_the_rule_written_out() {
    for angle in [
        0.0,
        6.0,
        -6.0,
        2.0 * PI,
        -2.0 * PI,
        6.3,
        -6.3,
        7.0,
        -7.0,
        13.0,
        -13.0,
        100.0,
        -100.0,
    ] {
        let mut cleaned = state(angle, 1.0, -angle, -1.0);
        cleaned.clean_angles(locate, turn);
        assert_eq!(cleaned.arm1_angular_position, wrap(angle));
        assert_eq!(cleaned.arm2_angular_position, wrap(-angle));
    }
}

#[test]
fn clean_angles_leaves_an_angle_that_is_no_number() {
    let mut undefined = state(0.0 / 0.0, 1.0, 1.0, 1.0);
    undefined.clean_angles(locate, turn);
    assert!(undefined.arm1_angular_position.is_nan());
    assert_eq!(undefined.arm2_angular_position, 1.0);
}

#[test]
fn clean_angles_never_wraps_a_velocity() {
    let mut fast = state(0.0, 50.0 * PI, 0.0, -50.0 * PI);
    fast.clean_angles(locate, turn);
    assert_eq!(quantities(&fast), [0.0, 50.0 * PI, 0.0, -50.0 * PI]);
}

#[test]
fn every_scheme_cleans_the_angles_after_the_step() {
    let h = 0.1;
    // The first arm turns fast enough to pass two pi within the step.
    let from = state(2.0 * PI - 0.01, 3.0, 0.0, 0.0);
    for integrator in [
        Integrator::Euler,
        Integrator::SemiImplicitEuler,
        Integrator::Rk4,
    ] {
        let next = step(integrator, UNIT_ARMS, &from, h);
        assert!(next.arm1_angular_position < 1.0);
        assert!(next.arm1_angular_position > 0.0);
    }
}

#[test]
fn step_takes_the_scheme_it_is_given() {
    let h = 0.01;
    let from = state(1.0, 0.5, -0.7, -0.3);

    let mut euler = from;
    euler.update_euler(|s| accelerations(UNIT_ARMS, s), advance(h), locate, turn);
    assert_eq!(
        quantities(&step(Integrator::Euler, UNIT_ARMS, &from, h)),
        quantities(&euler)
    );

    let mut symplectic = from;
    symplectic.update_semi_implicit_euler(|s| accelerations(UNIT_ARMS, s), advance(h), locate, turn);
    assert_eq!(
        quantities(&step(Integrator::SemiImplicitEuler, UNIT_ARMS, &from, h)),
        quantities(&symplectic)
    );

    let mut runge_kutta = from;
    runge_kutta.update_rk4(|s| accelerations(UNIT_ARMS, s), advance(h), blend(h), locate, turn);
    assert_eq!(
        quantities(&step(Integrator::Rk4, UNIT_ARMS, &from, h)),
        quantities(&runge_kutta)
    );

    assert_ne!(quantities(&euler), quantities(&symplectic));
    assert_ne!(quantities(&euler), quantities(&runge_kutta));
    assert_ne!(quantities(&symplectic), quantities(&runge_kutta));
}

#[test]
fn a_scheme_selected_by_name_steps_like_the_scheme() {
    let h = 0.01;
    let from = state(1.0, 0.5, -0.7, -0.3);
    for (name, integrator) in [
        ("euler", Integrator::Euler),
        ("semi_implicit_euler", Integrator::SemiImplicitEuler),
        ("rk4", Integrator::Rk4),
    ] {
        let selected = Integrator::from_name(name).expect("a known scheme");
        assert_eq!(
            quantities(&step(selected, UNIT_ARMS, &from, h)),
            quantities(&step(integrator, UNIT_ARMS, &from, h))
        );
    }
}

#[test]
fn a_pendulum_hanging_at_rest_stays_at_rest() {
    let hanging = state(0.0, 0.0, 0.0, 0.0);
    assert_eq!(accelerations(UNIT_ARMS, &hanging), (0.0, 0.0));
    for integrator in [
        Integrator::Euler,
        Integrator::SemiImplicitEuler,
        Integrator::Rk4,
    ] {
        let later = run(integrator, UNIT_ARMS, &hanging, 0.01, 100);
        assert_eq!(quantities(&later), [0.0, 0.0, 0.0, 0.0]);
    }
}

#[test]
fn rk4_with_two_steps_is_closer_than_with_one_of_twice_the_length() {
    let h = 0.05;
    let from = state(1.0, 0.5, -0.7, -0.3);
    let reference = run(Integrator::Rk4, UNIT_ARMS, &from, h / 256.0, 512);
    let once = run(Integrator::Rk4, UNIT_ARMS, &from, 2.0 * h, 1);
    let twice = run(Integrator::Rk4, UNIT_ARMS, &from, h, 2);
    assert!(distance(&twice, &reference) < distance(&once, &reference));
    assert!(distance(&twice, &reference) < 1.0e-5);
}

#[test]
fn energy_drifts_most_with_euler_and_least_with_rk4() {
    let h = 0.01;
    let steps = 1000;
    let from = state(0.3, 0.0, 0.2, 0.0);
    let released_with = total_energy(UNIT_ARMS, &from);

    let worst_drift = |integrator: Integrator| {
        let mut current = from;
        let mut worst: f64 = 0.0;
        for _ in 0..steps {
            current = step(integrator, UNIT_ARMS, &current, h);
            worst = worst.max((total_energy(UNIT_ARMS, &current) - released_with).abs());
        }
        worst
    };
    let euler = worst_drift(Integrator::Euler);
    let symplectic = worst_drift(Integrator::SemiImplicitEuler);
    let runge_kutta = worst_drift(Integrator::Rk4);

    assert!(euler > symplectic);
    assert!(symplectic > runge_kutta);
    // Explicit Euler gains energy without bound; the other two stay close.
    assert!(euler > 10.0);
    assert!(symplectic < 1.0);
    assert!(runge_kutta < 1.0e-4);
}

#[test]
fn the_energy_error_of_euler_keeps_growing() {
    let h = 0.01;
    let from = state(0.3, 0.0, 0.2, 0.0);
    let released_with = total_energy(UNIT_ARMS, &from);
    let mut current = from;
    let mut errors = Vec::new();
    for _ in 0..5 {
        current = run(Integrator::Euler, UNIT_ARMS, &current, h, 200);
        errors.push((total_energy(UNIT_ARMS, &current) - released_with).abs());
    }
    for pair in errors.windows(2) {
        assert!(pair[0] < pair[1]);
    }
}

#[test]
fn repeated_pendulum_runs_are_identical() {
    let from = state(0.5 * PI, 0.0, 0.500000001 * PI, 0.0);
    let arms = Arms {
        m1: 10.0,
        m2: 10.0,
        l1: 100.0,
        l2: 100.0,
    };
    for integrator in [
        Integrator::Euler,
        Integrator::SemiImplicitEuler,
        Integrator::Rk4,
    ] {
        let first = run(integrator, arms, &from, 0.001, 2000);
        let second = run(integrator, arms, &from, 0.001, 2000);
        assert_eq!(quantities(&first), quantities(&second));
        assert_ne!(quantities(&first), quantities(&from));
    }
}

#[test]
fn a_vanishing_denominator_is_not_guarded() {
    // With no mass on the first arm and both arms aligned the denominator of
    // the accelerations is zero: what comes out is not finite, and the step
    // carries it on.
    let arms = Arms {
        m1: 0.0,
        m2: 1.0,
        l1: 1.0,
        l2: 1.0,
    };
    let from = state(0.5, 0.0, 0.5, 0.0);
    let next = step(Integrator::Euler, arms, &from, 0.01);
    assert!(!next.arm1_angular_velocity.is_finite());
}
