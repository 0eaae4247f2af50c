//! One step of a double pendulum under each time-stepping scheme.
//!
//! The functions here fix which quantity is advanced along which rate of
//! change, at which state the accelerations are evaluated, and in what order
//! the stages of a scheme feed each other. The arithmetic on the quantities
//! themselves is the caller's: it comes in as five rules.
//!
//! * `acceleration` gives the angular accelerations of the two arms in a state.
//! * `advance` moves one quantity along a rate of change by a fraction of the
//!   time step.
//! * `blend` moves one quantity by a whole time step along the weighted mean
//!   of the rates of change at the four Runge-Kutta stages. It is handed each
//!   rate with its weight, and the sum of the weights.
//! * `locate` says where an angle lies with respect to the range in which
//!   angles are kept.
//! * `turn` moves an angle by one full turn.

use crate::integrator::Integrator;
use vstd::prelude::*;

verus! {

/// The four dynamic quantities of a double pendulum: the angle and the angular
/// velocity of each arm. The same shape holds their rates of change, with the
/// rate of an angle in the place of the angle and the rate of a velocity in
/// the place of the velocity.
#[derive(Debug)]
pub struct PendulumState<T> {
    pub arm1_angular_position: T,
    pub arm1_angular_velocity: T,
    pub arm2_angular_position: T,
    pub arm2_angular_velocity: T,
}

impl<T: Copy> Clone for PendulumState<T> {
    fn clone(&self) -> (copy: Self)
        ensures
            copy == *self,
    {
        *self
    }
}

impl<T: Copy> Copy for PendulumState<T> {

}

/// The weight, in the Runge-Kutta mean of the rates of change, of the rate at
/// the first stage and of the rate at the last.
pub const OUTER_STAGE_WEIGHT: u8 = 1;

/// The weight, in the Runge-Kutta mean of the rates of change, of the rate at
/// each of the two stages in the middle of the step.
pub const INNER_STAGE_WEIGHT: u8 = 2;

/// What the weights of the four stages add up to: a rate of weight `w` counts
/// for `w` parts in this many.
pub const STAGE_WEIGHT_SUM: u8 = 6;

/// The weights of the four stages make up a whole: a rate of change that is
/// the same at every stage is its own mean.
pub proof fn lemma_stage_weights_make_a_whole()
    ensures
        OUTER_STAGE_WEIGHT + INNER_STAGE_WEIGHT + INNER_STAGE_WEIGHT + OUTER_STAGE_WEIGHT
            == STAGE_WEIGHT_SUM,
{
}

/// How much of a time step a quantity is advanced by.
#[derive(Clone, Copy, Debug, PartialEq, Eq, Structural)]
pub enum StepFraction {
    Half,
    Whole,
}

/// Where an angle lies with respect to the range in which angles are kept.
#[derive(Clone, Copy, Debug, PartialEq, Eq, Structural)]
pub enum AnglePosition {
    Below,
    Within,
    Above,
}

/// The direction of one full turn.
#[derive(Clone, Copy, Debug, PartialEq, Eq, Structural)]
pub enum FullTurn {
    Backward,
    Forward,
}

/// Whether `cleaned` is `angle` brought back towards the range: one full turn
/// backward where it lies above, one full turn forward where it lies below,
/// and the angle itself where it lies within. One turn is all: an angle that
/// is still out of range after it stays so.
pub open spec fn angle_cleans_to<T, L: Fn(T) -> AnglePosition, U: Fn(T, FullTurn) -> T>(
    locate: L,
    turn: U,
    angle: T,
    cleaned: T,
) -> bool {
    ||| locate.ensures((angle,), AnglePosition::Above) && turn.ensures(
        (angle, FullTurn::Backward),
        cleaned,
    )
    ||| locate.ensures((angle,), AnglePosition::Below) && turn.ensures(
        (angle, FullTurn::Forward),
        cleaned,
    )
    ||| locate.ensures((angle,), AnglePosition::Within) && cleaned == angle
}

/// Brings `angle` back towards the range in which angles are kept, by one
/// full turn at most.
fn clean_angle<T: Copy, L: Fn(T) -> AnglePosition, U: Fn(T, FullTurn) -> T>(
    angle: T,
    locate: &L,
    turn: &U,
) -> (cleaned: T)
    requires
        forall|angle: T| locate.requires((angle,)),
        forall|angle: T, by: FullTurn| turn.requires((angle, by)),
    ensures
        angle_cleans_to(*locate, *turn, angle, cleaned),
{
    match locate(angle) {
        AnglePosition::Above => turn(angle, FullTurn::Backward),
        AnglePosition::Below => turn(angle, FullTurn::Forward),
        AnglePosition::Within => angle,
    }
}

impl<T: Copy> PendulumState<T> {
    /// Whether `rates` holds the rates of change of this state: each angle
    /// changes at the velocity of its arm, and the velocities change at the
    /// accelerations that `acceleration` gives for this state.
    pub open spec fn has_rates<A: Fn(&PendulumState<T>) -> (T, T)>(
        &self,
        acceleration: A,
        rates: PendulumState<T>,
    ) -> bool {
        &&& rates.arm1_angular_position == self.arm1_angular_velocity
        &&& rates.arm2_angular_position == self.arm2_angular_velocity
        &&& acceleration.ensures(
            (self,),
            (rates.arm1_angular_velocity, rates.arm2_angular_velocity),
        )
    }

    /// Whether `moved` is this state with every quantity advanced by
    /// `fraction` of a time step along its own rate in `rates`.
    pub open spec fn moves_to<S: Fn(T, T, StepFraction) -> T>(
        &self,
        advance: S,
        rates: PendulumState<T>,
        fraction: StepFraction,
        moved: PendulumState<T>,
    ) -> bool {
        &&& advance.ensures(
            (self.arm1_angular_position, rates.arm1_angular_position, fraction),
            moved.arm1_angular_position,
        )
        &&& advance.ensures(
            (self.arm1_angular_velocity, rates.arm1_angular_velocity, fraction),
            moved.arm1_angular_velocity,
        )
        &&& advance.ensures(
            (self.arm2_angular_position, rates.arm2_angular_position, fraction),
            moved.arm2_angular_position,
        )
        &&& advance.ensures(
            (self.arm2_angular_velocity, rates.arm2_angular_velocity, fraction),
            moved.arm2_angular_velocity,
        )
    }

    /// Whether `moved` is this state with the velocities advanced first, by a
    /// whole time step along their rates in `rates`, and each angle advanced
    /// then, by a whole time step along the velocity that its arm has in
    /// `moved`. The rates that `rates` holds for the angles are not used.
    pub open spec fn moves_velocities_first_to<S: Fn(T, T, StepFraction) -> T>(
        &self,
        advance: S,
        rates: PendulumState<T>,
        moved: PendulumState<T>,
    ) -> bool {
        &&& advance.ensures(
            (self.arm1_angular_velocity, rates.arm1_angular_velocity, StepFraction::Whole),
            moved.arm1_angular_velocity,
        )
        &&& advance.ensures(
            (self.arm2_angular_velocity, rates.arm2_angular_velocity, StepFraction::Whole),
            moved.arm2_angular_velocity,
        )
        &&& advance.ensures(
            (self.arm1_angular_position, moved.arm1_angular_velocity, StepFraction::Whole),
            moved.arm1_angular_position,
        )
        &&& advance.ensures(
            (self.arm2_angular_position, moved.arm2_angular_velocity, StepFraction::Whole),
            moved.arm2_angular_position,
        )
    }

    /// Whether `blended` is this state with every quantity moved by `blend`
    /// along its own rates at the four stages, taken in the order of the
    /// stages: the first and the last with the outer weight, the two between
    /// with the inner weight.
    pub open spec fn blends_to<B: Fn(T, (u8, T), (u8, T), (u8, T), (u8, T), u8) -> T>(
        &self,
        blend: B,
        k1: PendulumState<T>,
        k2: PendulumState<T>,
        k3: PendulumState<T>,
        k4: PendulumState<T>,
        blended: PendulumState<T>,
    ) -> bool {
        &&& blend.ensures(
            (
                self.arm1_angular_position,
                (OUTER_STAGE_WEIGHT, k1.arm1_angular_position),
                (INNER_STAGE_WEIGHT, k2.arm1_angular_position),
                (INNER_STAGE_WEIGHT, k3.arm1_angular_position),
                (OUTER_STAGE_WEIGHT, k4.arm1_angular_position),
                STAGE_WEIGHT_SUM,
            ),
            blended.arm1_angular_position,
        )
        &&& blend.ensures(
            (
                self.arm1_angular_velocity,
                (OUTER_STAGE_WEIGHT, k1.arm1_angular_velocity),
                (INNER_STAGE_WEIGHT, k2.arm1_angular_velocity),
                (INNER_STAGE_WEIGHT, k3.arm1_angular_velocity),
                (OUTER_STAGE_WEIGHT, k4.arm1_angular_velocity),
                STAGE_WEIGHT_SUM,
            ),
            blended.arm1_angular_velocity,
        )
        &&& blend.ensures(
            (
                self.arm2_angular_position,
                (OUTER_STAGE_WEIGHT, k1.arm2_angular_position),
                (INNER_STAGE_WEIGHT, k2.arm2_angular_position),
                (INNER_STAGE_WEIGHT, k3.arm2_angular_position),
                (OUTER_STAGE_WEIGHT, k4.arm2_angular_position),
                STAGE_WEIGHT_SUM,
            ),
            blended.arm2_angular_position,
        )
        &&& blend.ensures(
            (
                self.arm2_angular_velocity,
                (OUTER_STAGE_WEIGHT, k1.arm2_angular_velocity),
                (INNER_STAGE_WEIGHT, k2.arm2_angular_velocity),
                (INNER_STAGE_WEIGHT, k3.arm2_angular_velocity),
                (OUTER_STAGE_WEIGHT, k4.arm2_angular_velocity),
                STAGE_WEIGHT_SUM,
            ),
            blended.arm2_angular_velocity,
        )
    }

    /// Whether `cleaned` is this state with both angles brought back towards
    /// the range, by one full turn each at most, and both velocities as they
    /// are.
    pub open spec fn cleans_to<L: Fn(T) -> AnglePosition, U: Fn(T, FullTurn) -> T>(
        &self,
        locate: L,
        turn: U,
        cleaned: PendulumState<T>,
    ) -> bool {
        &&& angle_cleans_to(
            locate,
            turn,
            self.arm1_angular_position,
            cleaned.arm1_angular_position,
        )
        &&& angle_cleans_to(
            locate,
            turn,
            self.arm2_angular_position,
            cleaned.arm2_angular_position,
        )
        &&& cleaned.arm1_angular_velocity == self.arm1_angular_velocity
        &&& cleaned.arm2_angular_velocity == self.arm2_angular_velocity
    }

    /// Whether `next` is this state after one step of explicit Euler: every
    /// quantity advances by a whole step along its rate in this state, so the
    /// angles advance by the velocities the step began with; then the angles
    /// are brought back into range.
    pub open spec fn euler_to<
        A: Fn(&PendulumState<T>) -> (T, T),
        S: Fn(T, T, StepFraction) -> T,
        L: Fn(T) -> AnglePosition,
        U: Fn(T, FullTurn) -> T,
    >(&self, acceleration: A, advance: S, locate: L, turn: U, next: PendulumState<T>) -> bool {
        exists|rates: PendulumState<T>, moved: PendulumState<T>|
            {
                &&& #[trigger] self.has_rates(acceleration, rates)
                &&& #[trigger] self.moves_to(advance, rates, StepFraction::Whole, moved)
                &&& moved.cleans_to(locate, turn, next)
            }
    }

    /// Whether `next` is this state after one step of semi-implicit Euler: the
    /// velocities advance by a whole step along the accelerations in this
    /// state, the angles advance by a whole step along the velocities just
    /// computed; then the angles are brought back into range.
    pub open spec fn semi_implicit_euler_to<
        A: Fn(&PendulumState<T>) -> (T, T),
        S: Fn(T, T, StepFraction) -> T,
        L: Fn(T) -> AnglePosition,
        U: Fn(T, FullTurn) -> T,
    >(&self, acceleration: A, advance: S, locate: L, turn: U, next: PendulumState<T>) -> bool {
        exists|rates: PendulumState<T>, moved: PendulumState<T>|
            {
                &&& #[trigger] self.has_rates(acceleration, rates)
                &&& #[trigger] self.moves_velocities_first_to(advance, rates, moved)
                &&& moved.cleans_to(locate, turn, next)
            }
    }

    /// Whether `k1` to `k4` are the rates of change at the four stages of a
    /// Runge-Kutta step from this state: at this state; at this state advanced
    /// by half a step along `k1`; at this state advanced by half a step along
    /// `k2`; and at this state advanced by a whole step along `k3`.
    pub open spec fn has_stages<
        A: Fn(&PendulumState<T>) -> (T, T),
        S: Fn(T, T, StepFraction) -> T,
    >(
        &self,
        acceleration: A,
        advance: S,
        k1: PendulumState<T>,
        k2: PendulumState<T>,
        k3: PendulumState<T>,
        k4: PendulumState<T>,
    ) -> bool {
        exists|second: PendulumState<T>, third: PendulumState<T>, fourth: PendulumState<T>|
            {
                &&& self.has_rates(acceleration, k1)
                &&& #[trigger] self.moves_to(advance, k1, StepFraction::Half, second)
                &&& second.has_rates(acceleration, k2)
                &&& #[trigger] self.moves_to(advance, k2, StepFraction::Half, third)
                &&& third.has_rates(acceleration, k3)
                &&& #[trigger] self.moves_to(advance, k3, StepFraction::Whole, fourth)
                &&& fourth.has_rates(acceleration, k4)
            }
    }

    /// Whether `next` is this state after one step of the classical
    /// fourth-order Runge-Kutta scheme: the rates of change at the four stages
    /// are blended into one move from this state; then the angles are brought
    /// back into range.
    pub open spec fn rk4_to<
        A: Fn(&PendulumState<T>) -> (T, T),
        S: Fn(T, T, StepFraction) -> T,
        B: Fn(T, (u8, T), (u8, T), (u8, T), (u8, T), u8) -> T,
        L: Fn(T) -> AnglePosition,
        U: Fn(T, FullTurn) -> T,
    >(&self, acceleration: A, advance: S, blend: B, locate: L, turn: U, next: PendulumState<T>) -> bool {
        exists|
            k1: PendulumState<T>,
            k2: PendulumState<T>,
            k3: PendulumState<T>,
            k4: PendulumState<T>,
            blended: PendulumState<T>,
        |
            {
                &&& self.has_stages(acceleration, advance, k1, k2, k3, k4)
                &&& #[trigger] self.blends_to(blend, k1, k2, k3, k4, blended)
                &&& blended.cleans_to(locate, turn, next)
            }
    }

    /// Whether `next` is this state after one step of the scheme given.
    pub open spec fn steps_to<
        A: Fn(&PendulumState<T>) -> (T, T),
        S: Fn(T, T, StepFraction) -> T,
        B: Fn(T, (u8, T), (u8, T), (u8, T), (u8, T), u8) -> T,
        L: Fn(T) -> AnglePosition,
        U: Fn(T, FullTurn) -> T,
    >(
        &self,
        integrator: Integrator,
        acceleration: A,
        advance: S,
        blend: B,
        locate: L, turn: U,
        next: PendulumState<T>,
    ) -> bool {
        match integrator {
            Integrator::Euler => self.euler_to(acceleration, advance, locate, turn, next),
            Integrator::SemiImplicitEuler => self.semi_implicit_euler_to(
                acceleration,
                advance,
                locate,
                turn,
                next,
            ),
            Integrator::Rk4 => self.rk4_to(acceleration, advance, blend, locate, turn, next),
        }
    }

    /// Brings both angles back towards the range in which angles are kept, by
    /// one full turn each at most. The velocities stay.
    pub fn clean_angles<L: Fn(T) -> AnglePosition, U: Fn(T, FullTurn) -> T>(
        &mut self,
        locate: L,
        turn: U,
    )
        requires
            forall|angle: T| locate.requires((angle,)),
            forall|angle: T, by: FullTurn| turn.requires((angle, by)),
        ensures
            old(self).cleans_to(locate, turn, *final(self)),
    {
        self.arm1_angular_position = clean_angle(self.arm1_angular_position, &locate, &turn);
        self.arm2_angular_position = clean_angle(self.arm2_angular_position, &locate, &turn);
    }

    /// The rates of change of the four quantities in this state: the
    /// velocities for the angles, the accelerations for the velocities.
    pub fn rk4_rhs<A: Fn(&PendulumState<T>) -> (T, T)>(&self, acceleration: A) -> (rates:
        PendulumState<T>)
        requires
            forall|state: &PendulumState<T>| acceleration.requires((state,)),
        ensures
            self.has_rates(acceleration, rates),
    {
        let (arm1, arm2) = acceleration(self);
        PendulumState {
            arm1_angular_position: self.arm1_angular_velocity,
            arm1_angular_velocity: arm1,
            arm2_angular_position: self.arm2_angular_velocity,
            arm2_angular_velocity: arm2,
        }
    }

    /// This state with every quantity advanced by `fraction` of a time step
    /// along its own rate in `rates`.
    fn moved<S: Fn(T, T, StepFraction) -> T>(
        &self,
        advance: &S,
        rates: &PendulumState<T>,
        fraction: StepFraction,
    ) -> (moved: PendulumState<T>)
        requires
            forall|from: T, rate: T, part: StepFraction| advance.requires((from, rate, part)),
        ensures
            self.moves_to(*advance, *rates, fraction, moved),
    {
        PendulumState {
            arm1_angular_position: advance(
                self.arm1_angular_position,
                rates.arm1_angular_position,
                fraction,
            ),
            arm1_angular_velocity: advance(
                self.arm1_angular_velocity,
                rates.arm1_angular_velocity,
                fraction,
            ),
            arm2_angular_position: advance(
                self.arm2_angular_position,
                rates.arm2_angular_position,
                fraction,
            ),
            arm2_angular_velocity: advance(
                self.arm2_angular_velocity,
                rates.arm2_angular_velocity,
                fraction,
            ),
        }
    }

    /// Advances this state by one step of explicit Euler.
    pub fn update_euler<
        A: Fn(&PendulumState<T>) -> (T, T),
        S: Fn(T, T, StepFraction) -> T,
        L: Fn(T) -> AnglePosition,
        U: Fn(T, FullTurn) -> T,
    >(&mut self, acceleration: A, advance: S, locate: L, turn: U)
        requires
            forall|state: &PendulumState<T>| acceleration.requires((state,)),
            forall|from: T, rate: T, part: StepFraction| advance.requires((from, rate, part)),
            forall|angle: T| locate.requires((angle,)),
            forall|angle: T, by: FullTurn| turn.requires((angle, by)),
        ensures
            old(self).euler_to(acceleration, advance, locate, turn, *final(self)),
    {
        let rates = self.rk4_rhs(acceleration);
        let moved = self.moved(&advance, &rates, StepFraction::Whole);
        let mut next = moved;
        next.clean_angles(locate, turn);
        *self = next;
    }

    /// Advances this state by one step of semi-implicit Euler.
    pub fn update_semi_implicit_euler<
        A: Fn(&PendulumState<T>) -> (T, T),
        S: Fn(T, T, StepFraction) -> T,
        L: Fn(T) -> AnglePosition,
        U: Fn(T, FullTurn) -> T,
    >(&mut self, acceleration: A, advance: S, locate: L, turn: U)
        requires
            forall|state: &PendulumState<T>| acceleration.requires((state,)),
            forall|from: T, rate: T, part: StepFraction| advance.requires((from, rate, part)),
            forall|angle: T| locate.requires((angle,)),
            forall|angle: T, by: FullTurn| turn.requires((angle, by)),
        ensures
            old(self).semi_implicit_euler_to(acceleration, advance, locate, turn, *final(self)),
    {
        let rates = self.rk4_rhs(acceleration);
        let arm1_angular_velocity = advance(
            self.arm1_angular_velocity,
            rates.arm1_angular_velocity,
            StepFraction::Whole,
        );
        let arm2_angular_velocity = advance(
            self.arm2_angular_velocity,
            rates.arm2_angular_velocity,
            StepFraction::Whole,
        );
        let arm1_angular_position = advance(
            self.arm1_angular_position,
            arm1_angular_velocity,
            StepFraction::Whole,
        );
        let arm2_angular_position = advance(
            self.arm2_angular_position,
            arm2_angular_velocity,
            StepFraction::Whole,
        );
        let moved = PendulumState {
            arm1_angular_position,
            arm1_angular_velocity,
            arm2_angular_position,
            arm2_angular_velocity,
        };
        let mut next = moved;
        next.clean_angles(locate, turn);
        assert(old(self).moves_velocities_first_to(advance, rates, moved));
        *self = next;
    }

    /// Advances this state by one step of the classical fourth-order
    /// Runge-Kutta scheme.
    pub fn update_rk4<
        A: Fn(&PendulumState<T>) -> (T, T),
        S: Fn(T, T, StepFraction) -> T,
        B: Fn(T, (u8, T), (u8, T), (u8, T), (u8, T), u8) -> T,
        L: Fn(T) -> AnglePosition,
        U: Fn(T, FullTurn) -> T,
    >(&mut self, acceleration: A, advance: S, blend: B, locate: L, turn: U)
        requires
            forall|state: &PendulumState<T>| acceleration.requires((state,)),
            forall|from: T, rate: T, part: StepFraction| advance.requires((from, rate, part)),
            forall|from: T, k1: (u8, T), k2: (u8, T), k3: (u8, T), k4: (u8, T), sum: u8|
                blend.requires((from, k1, k2, k3, k4, sum)),
            forall|angle: T| locate.requires((angle,)),
            forall|angle: T, by: FullTurn| turn.requires((angle, by)),
        ensures
            old(self).rk4_to(acceleration, advance, blend, locate, turn, *final(self)),
    {
        let k1 = self.rk4_rhs(&acceleration);
        let second = self.moved(&advance, &k1, StepFraction::Half);
        let k2 = second.rk4_rhs(&acceleration);
        let third = self.moved(&advance, &k2, StepFraction::Half);
        let k3 = third.rk4_rhs(&acceleration);
        let fourth = self.moved(&advance, &k3, StepFraction::Whole);
        let k4 = fourth.rk4_rhs(&acceleration);

        let blended = PendulumState {
            arm1_angular_position: blend(
                self.arm1_angular_position,
                (OUTER_STAGE_WEIGHT, k1.arm1_angular_position),
                (INNER_STAGE_WEIGHT, k2.arm1_angular_position),
                (INNER_STAGE_WEIGHT, k3.arm1_angular_position),
                (OUTER_STAGE_WEIGHT, k4.arm1_angular_position),
                STAGE_WEIGHT_SUM,
            ),
            arm1_angular_velocity: blend(
                self.arm1_angular_velocity,
                (OUTER_STAGE_WEIGHT, k1.arm1_angular_velocity),
                (INNER_STAGE_WEIGHT, k2.arm1_angular_velocity),
                (INNER_STAGE_WEIGHT, k3.arm1_angular_velocity),
                (OUTER_STAGE_WEIGHT, k4.arm1_angular_velocity),
                STAGE_WEIGHT_SUM,
            ),
            arm2_angular_position: blend(
                self.arm2_angular_position,
                (OUTER_STAGE_WEIGHT, k1.arm2_angular_position),
                (INNER_STAGE_WEIGHT, k2.arm2_angular_position),
                (INNER_STAGE_WEIGHT, k3.arm2_angular_position),
                (OUTER_STAGE_WEIGHT, k4.arm2_angular_position),
                STAGE_WEIGHT_SUM,
            ),
            arm2_angular_velocity: blend(
                self.arm2_angular_velocity,
                (OUTER_STAGE_WEIGHT, k1.arm2_angular_velocity),
                (INNER_STAGE_WEIGHT, k2.arm2_angular_velocity),
                (INNER_STAGE_WEIGHT, k3.arm2_angular_velocity),
                (OUTER_STAGE_WEIGHT, k4.arm2_angular_velocity),
                STAGE_WEIGHT_SUM,
            ),
        };
        let mut next = blended;
        next.clean_angles(locate, turn);
        assert(old(self).has_stages(acceleration, advance, k1, k2, k3, k4));
        assert(old(self).blends_to(blend, k1, k2, k3, k4, blended));
        *self = next;
    }

    /// Advances this state by one step of the scheme given. The scheme is
    /// chosen anew with every call; the state keeps no record of it.
    pub fn step<
        A: Fn(&PendulumState<T>) -> (T, T),
        S: Fn(T, T, StepFraction) -> T,
        B: Fn(T, (u8, T), (u8, T), (u8, T), (u8, T), u8) -> T,
        L: Fn(T) -> AnglePosition,
        U: Fn(T, FullTurn) -> T,
    >(&mut self, integrator: Integrator, acceleration: A, advance: S, blend: B, locate: L, turn: U)
        requires
            forall|state: &PendulumState<T>| acceleration.requires((state,)),
            forall|from: T, rate: T, part: StepFraction| advance.requires((from, rate, part)),
            forall|from: T, k1: (u8, T), k2: (u8, T), k3: (u8, T), k4: (u8, T), sum: u8|
                blend.requires((from, k1, k2, k3, k4, sum)),
            forall|angle: T| locate.requires((angle,)),
            forall|angle: T, by: FullTurn| turn.requires((angle, by)),
        ensures
            old(self).steps_to(integrator, acceleration, advance, blend, locate, turn, *final(self)),
    {
        match integrator {
            Integrator::Euler => self.update_euler(acceleration, advance, locate, turn),
            Integrator::SemiImplicitEuler => self.update_semi_implicit_euler(
                acceleration,
                advance,
                locate,
                turn,
            ),
            Integrator::Rk4 => self.update_rk4(acceleration, advance, blend, locate, turn),
        }
    }
}

/// Whether `acceleration` gives one result for each state.
pub open spec fn acceleration_is_single_valued<T, A: Fn(&PendulumState<T>) -> (T, T)>(
    acceleration: A,
) -> bool {
    forall|state: &PendulumState<T>, one: (T, T), other: (T, T)|
        #[trigger] acceleration.ensures((state,), one) && #[trigger] acceleration.ensures(
            (state,),
            other,
        ) ==> one == other
}

/// Whether `advance` gives one result for each quantity, rate and fraction.
pub open spec fn advance_is_single_valued<T, S: Fn(T, T, StepFraction) -> T>(advance: S) -> bool {
    forall|from: T, rate: T, fraction: StepFraction, one: T, other: T|
        #[trigger] advance.ensures((from, rate, fraction), one) && #[trigger] advance.ensures(
            (from, rate, fraction),
            other,
        ) ==> one == other
}

/// Whether `blend` gives one result for each quantity, four weighted rates
/// and sum of weights.
pub open spec fn blend_is_single_valued<
    T,
    B: Fn(T, (u8, T), (u8, T), (u8, T), (u8, T), u8) -> T,
>(blend: B) -> bool {
    forall|
        from: T,
        k1: (u8, T),
        k2: (u8, T),
        k3: (u8, T),
        k4: (u8, T),
        sum: u8,
        one: T,
        other: T,
    |
        #[trigger] blend.ensures((from, k1, k2, k3, k4, sum), one) && #[trigger] blend.ensures(
            (from, k1, k2, k3, k4, sum),
            other,
        ) ==> one == other
}

/// Whether `locate` gives one result for each angle.
pub open spec fn locate_is_single_valued<T, L: Fn(T) -> AnglePosition>(locate: L) -> bool {
    forall|angle: T, one: AnglePosition, other: AnglePosition|
        #[trigger] locate.ensures((angle,), one) && #[trigger] locate.ensures((angle,), other)
            ==> one == other
}

/// Whether `turn` gives one result for each angle and direction.
pub open spec fn turn_is_single_valued<T, U: Fn(T, FullTurn) -> T>(turn: U) -> bool {
    forall|angle: T, by: FullTurn, one: T, other: T|
        #[trigger] turn.ensures((angle, by), one) && #[trigger] turn.ensures((angle, by), other)
            ==> one == other
}

/// A step adds nothing of its own to the rules it is given: where each rule
/// gives one result for each input, a state has one successor under each
/// scheme. Equal states, rules and schemes give equal trajectories.
pub proof fn lemma_step_is_determined<
    T: Copy,
    A: Fn(&PendulumState<T>) -> (T, T),
    S: Fn(T, T, StepFraction) -> T,
    B: Fn(T, (u8, T), (u8, T), (u8, T), (u8, T), u8) -> T,
    L: Fn(T) -> AnglePosition,
    U: Fn(T, FullTurn) -> T,
>(
    from: PendulumState<T>,
    integrator: Integrator,
    acceleration: A,
    advance: S,
    blend: B,
    locate: L, turn: U,
    one: PendulumState<T>,
    other: PendulumState<T>,
)
    requires
        acceleration_is_single_valued(acceleration),
        advance_is_single_valued(advance),
        blend_is_single_valued(blend),
        locate_is_single_valued(locate),
        turn_is_single_valued(turn),
        from.steps_to(integrator, acceleration, advance, blend, locate, turn, one),
        from.steps_to(integrator, acceleration, advance, blend, locate, turn, other),
    ensures
        one == other,
{
    match integrator {
        Integrator::Euler => {
            let (rates1, moved1) = choose|rates: PendulumState<T>, moved: PendulumState<T>|
                {
                    &&& #[trigger] from.has_rates(acceleration, rates)
                    &&& #[trigger] from.moves_to(advance, rates, StepFraction::Whole, moved)
                    &&& moved.cleans_to(locate, turn, one)
                };
            let (rates2, moved2) = choose|rates: PendulumState<T>, moved: PendulumState<T>|
                {
                    &&& #[trigger] from.has_rates(acceleration, rates)
                    &&& #[trigger] from.moves_to(advance, rates, StepFraction::Whole, moved)
                    &&& moved.cleans_to(locate, turn, other)
                };
            lemma_rates_are_determined(from, acceleration, rates1, rates2);
            assert(moved1 == moved2);
        },
        Integrator::SemiImplicitEuler => {
            let (rates1, moved1) = choose|rates: PendulumState<T>, moved: PendulumState<T>|
                {
                    &&& #[trigger] from.has_rates(acceleration, rates)
                    &&& #[trigger] from.moves_velocities_first_to(advance, rates, moved)
                    &&& moved.cleans_to(locate, turn, one)
                };
            let (rates2, moved2) = choose|rates: PendulumState<T>, moved: PendulumState<T>|
                {
                    &&& #[trigger] from.has_rates(acceleration, rates)
                    &&& #[trigger] from.moves_velocities_first_to(advance, rates, moved)
                    &&& moved.cleans_to(locate, turn, other)
                };
            lemma_rates_are_determined(from, acceleration, rates1, rates2);
            assert(moved1.arm1_angular_velocity == moved2.arm1_angular_velocity);
            assert(moved1.arm2_angular_velocity == moved2.arm2_angular_velocity);
            assert(moved1 == moved2);
        },
        Integrator::Rk4 => {
            let (a1, a2, a3, a4, blended1) = choose|
                k1: PendulumState<T>,
                k2: PendulumState<T>,
                k3: PendulumState<T>,
                k4: PendulumState<T>,
                blended: PendulumState<T>,
            |
                {
                    &&& from.has_stages(acceleration, advance, k1, k2, k3, k4)
                    &&& #[trigger] from.blends_to(blend, k1, k2, k3, k4, blended)
                    &&& blended.cleans_to(locate, turn, one)
                };
            let (b1, b2, b3, b4, blended2) = choose|
                k1: PendulumState<T>,
                k2: PendulumState<T>,
                k3: PendulumState<T>,
                k4: PendulumState<T>,
                blended: PendulumState<T>,
            |
                {
                    &&& from.has_stages(acceleration, advance, k1, k2, k3, k4)
                    &&& #[trigger] from.blends_to(blend, k1, k2, k3, k4, blended)
                    &&& blended.cleans_to(locate, turn, other)
                };
            lemma_stages_are_determined(from, acceleration, advance, a1, a2, a3, a4, b1, b2, b3, b4);
            assert(blended1 == blended2);
        },
    }
}

/// Under a single-valued `acceleration` a state has one set of rates.
proof fn lemma_rates_are_determined<T: Copy, A: Fn(&PendulumState<T>) -> (T, T)>(
    at: PendulumState<T>,
    acceleration: A,
    one: PendulumState<T>,
    other: PendulumState<T>,
)
    requires
        acceleration_is_single_valued(acceleration),
        at.has_rates(acceleration, one),
        at.has_rates(acceleration, other),
    ensures
        one == other,
{
    let pair1 = (one.arm1_angular_velocity, one.arm2_angular_velocity);
    let pair2 = (other.arm1_angular_velocity, other.arm2_angular_velocity);
    assert(acceleration.ensures((&at,), pair1));
    assert(acceleration.ensures((&at,), pair2));
    assert(pair1 == pair2);
}

/// Under single-valued rules a state has one set of Runge-Kutta stages.
proof fn lemma_stages_are_determined<
    T: Copy,
    A: Fn(&PendulumState<T>) -> (T, T),
    S: Fn(T, T, StepFraction) -> T,
>(
    from: PendulumState<T>,
    acceleration: A,
    advance: S,
    a1: PendulumState<T>,
    a2: PendulumState<T>,
    a3: PendulumState<T>,
    a4: PendulumState<T>,
    b1: PendulumState<T>,
    b2: PendulumState<T>,
    b3: PendulumState<T>,
    b4: PendulumState<T>,
)
    requires
        acceleration_is_single_valued(acceleration),
        advance_is_single_valued(advance),
        from.has_stages(acceleration, advance, a1, a2, a3, a4),
        from.has_stages(acceleration, advance, b1, b2, b3, b4),
    ensures
        a1 == b1,
        a2 == b2,
        a3 == b3,
        a4 == b4,
{
    let (s2, s3, s4) = choose|
        second: PendulumState<T>,
        third: PendulumState<T>,
        fourth: PendulumState<T>,
    |
        {
            &&& from.has_rates(acceleration, a1)
            &&& #[trigger] from.moves_to(advance, a1, StepFraction::Half, second)
            &&& second.has_rates(acceleration, a2)
            &&& #[trigger] from.moves_to(advance, a2, StepFraction::Half, third)
            &&& third.has_rates(acceleration, a3)
            &&& #[trigger] from.moves_to(advance, a3, StepFraction::Whole, fourth)
            &&& fourth.has_rates(acceleration, a4)
        };
    let (t2, t3, t4) = choose|
        second: PendulumState<T>,
        third: PendulumState<T>,
        fourth: PendulumState<T>,
    |
        {
            &&& from.has_rates(acceleration, b1)
            &&& #[trigger] from.moves_to(advance, b1, StepFraction::Half, second)
            &&& second.has_rates(acceleration, b2)
            &&& #[trigger] from.moves_to(advance, b2, StepFraction::Half, third)
            &&& third.has_rates(acceleration, b3)
            &&& #[trigger] from.moves_to(advance, b3, StepFraction::Whole, fourth)
            &&& fourth.has_rates(acceleration, b4)
        };
    lemma_rates_are_determined(from, acceleration, a1, b1);
    assert(s2 == t2);
    lemma_rates_are_determined(s2, acceleration, a2, b2);
    assert(s3 == t3);
    lemma_rates_are_determined(s3, acceleration, a3, b3);
    assert(s4 == t4);
    lemma_rates_are_determined(s4, acceleration, a4, b4);
}

} // verus!
