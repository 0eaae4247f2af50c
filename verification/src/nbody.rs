//! A gravitational N-body system: its particles, which of them act on which,
//! and one time step of the whole system.
//!
//! The functions here fix which entries are read and written and in what
//! order. The arithmetic is the caller's and comes in as two rules.
//!
//! * `accumulate` adds to a running sum the pull of one particle on another,
//!   from the mass of the one and the positions of both.
//! * `advance` moves one component along a rate of change for one time step.

use crate::particles::VectorArray;
use vstd::prelude::*;

verus! {

/// The particles that act on particle `i` in a system of `count` particles:
/// every index below `count` other than `i`, in ascending order.
pub open spec fn spec_partners(count: nat, i: nat) -> Seq<usize> {
    Seq::new(
        if i < count {
            (count - 1) as nat
        } else {
            count
        },
        |k: int|
            if k < i {
                k as usize
            } else {
                (k + 1) as usize
            },
    )
}

/// Lists the particles whose attraction particle `i` feels, in the order in
/// which their contributions are summed. A particle does not act on itself.
pub fn partners(count: usize, i: usize) -> (others: Vec<usize>)
    ensures
        others@ == spec_partners(count as nat, i as nat),
{
    let mut others: Vec<usize> = Vec::new();
    let mut j: usize = 0;
    while j < count
        invariant
            j <= count,
            others@ == spec_partners(j as nat, i as nat),
        decreases count - j,
    {
        if j != i {
            others.push(j);
        }
        j += 1;
        assert(others@ =~= spec_partners(j as nat, i as nat));
    }
    others
}

/// `spec_partners(count, i)` holds exactly the indices below `count` other
/// than `i`, each once and in ascending order.
pub proof fn lemma_partners_are_the_others(count: nat, i: nat)
    requires
        count <= usize::MAX,
    ensures
        forall|j: usize| #[trigger]
            spec_partners(count, i).contains(j) <==> j < count && j != i,
        forall|a: int, b: int|
            0 <= a < b < spec_partners(count, i).len() ==> spec_partners(count, i)[a]
                < spec_partners(count, i)[b],
{
    let others = spec_partners(count, i);
    assert forall|j: usize| j < count && j != i implies #[trigger] others.contains(j) by {
        let k: int = if j < i {
            j as int
        } else {
            j - 1
        };
        assert(others[k] == j);
    }
}

/// Interaction is mutual: within a system, `j` acts on `i` exactly if `i`
/// acts on `j`.
pub proof fn lemma_partners_are_mutual(count: nat, i: usize, j: usize)
    requires
        count <= usize::MAX,
        i < count,
        j < count,
    ensures
        spec_partners(count, i as nat).contains(j) <==> spec_partners(count, j as nat).contains(i),
{
    lemma_partners_are_the_others(count, i as nat);
    lemma_partners_are_the_others(count, j as nat);
}

/// The particles of an N-body system: a mass, a position and a velocity for
/// each, held in index-aligned sequences. Particle `i` owns entry `i` of every
/// sequence, and all sequences have the same length at all times. Masses are
/// fixed once the system is built; positions and velocities change only as
/// the system is advanced, all of them within the same step.
pub struct NBodySystem<T> {
    masses: Vec<T>,
    positions: VectorArray<T>,
    velocities: VectorArray<T>,
}

impl<T> NBodySystem<T> {
    #[verifier::type_invariant]
    spec fn aligned(self) -> bool {
        &&& self.masses@.len() == self.positions@.len()
        &&& self.masses@.len() == self.velocities@.len()
    }

    /// The masses, particle by particle.
    pub closed spec fn spec_masses(&self) -> Seq<T> {
        self.masses@
    }

    /// The positions, particle by particle.
    pub closed spec fn spec_positions(&self) -> Seq<(T, T)> {
        self.positions@
    }

    /// The velocities, particle by particle.
    pub closed spec fn spec_velocities(&self) -> Seq<(T, T)> {
        self.velocities@
    }

    /// The number of particles.
    pub open spec fn spec_len(&self) -> nat {
        self.spec_masses().len()
    }

    /// Builds a system from the masses and the initial positions and
    /// velocities of its particles. The three must describe the same number of
    /// particles; otherwise there is no system to build.
    pub fn new(masses: Vec<T>, positions: VectorArray<T>, velocities: VectorArray<T>) -> (built:
        Option<Self>)
        ensures
            built is Some <==> masses@.len() == positions@.len() && masses@.len()
                == velocities@.len(),
            built matches Some(system) ==> {
                &&& system.spec_masses() == masses@
                &&& system.spec_positions() == positions@
                &&& system.spec_velocities() == velocities@
            },
    {
        if masses.len() == positions.len() && masses.len() == velocities.len() {
            Some(NBodySystem { masses, positions, velocities })
        } else {
            None
        }
    }

    /// The number of particles, which is the length of every sequence of the
    /// system.
    pub fn len(&self) -> (n: usize)
        ensures
            n == self.spec_len(),
            n == self.spec_positions().len(),
            n == self.spec_velocities().len(),
    {
        proof {
            use_type_invariant(self);
        }
        self.masses.len()
    }

    /// The masses, particle by particle.
    pub fn masses(&self) -> (all: &Vec<T>)
        ensures
            all@ == self.spec_masses(),
    {
        &self.masses
    }

    /// The current positions, particle by particle.
    pub fn positions(&self) -> (all: &VectorArray<T>)
        ensures
            all@ == self.spec_positions(),
    {
        &self.positions
    }

    /// The current velocities, particle by particle.
    pub fn velocities(&self) -> (all: &VectorArray<T>)
        ensures
            all@ == self.spec_velocities(),
    {
        &self.velocities
    }

    /// Gives particle `i` the velocity `(vx, vy)`. Nothing else changes.
    fn set_velocity(&mut self, i: usize, vx: T, vy: T)
        requires
            i < old(self).spec_len(),
        ensures
            final(self).spec_velocities() == old(self).spec_velocities().update(i as int, (vx, vy)),
            final(self).spec_positions() == old(self).spec_positions(),
            final(self).spec_masses() == old(self).spec_masses(),
    {
        proof {
            use_type_invariant(&*self);
        }
        let mut taken = NBodySystem {
            masses: Vec::new(),
            positions: VectorArray::new(),
            velocities: VectorArray::new(),
        };
        std::mem::swap(self, &mut taken);
        let NBodySystem { masses, positions, mut velocities } = taken;
        velocities.set(i, vx, vy);
        *self = NBodySystem { masses, positions, velocities };
    }

    /// Moves particle `i` to the position `(x, y)`. Nothing else changes.
    fn set_position(&mut self, i: usize, x: T, y: T)
        requires
            i < old(self).spec_len(),
        ensures
            final(self).spec_positions() == old(self).spec_positions().update(i as int, (x, y)),
            final(self).spec_velocities() == old(self).spec_velocities(),
            final(self).spec_masses() == old(self).spec_masses(),
    {
        proof {
            use_type_invariant(&*self);
        }
        let mut taken = NBodySystem {
            masses: Vec::new(),
            positions: VectorArray::new(),
            velocities: VectorArray::new(),
        };
        std::mem::swap(self, &mut taken);
        let NBodySystem { masses, mut positions, velocities } = taken;
        positions.set(i, x, y);
        *self = NBodySystem { masses, positions, velocities };
    }
}

impl<T: Copy> NBodySystem<T> {
    /// Whether `total` is what `accumulate` makes of `start` after taking in,
    /// one after the other, the first `taken` of the particles that act on
    /// particle `i`. Each is taken in with its mass, the position of particle
    /// `i` and its own position, in that order.
    pub open spec fn accumulated<F: Fn((T, T), T, (T, T), (T, T)) -> (T, T)>(
        &self,
        accumulate: F,
        i: int,
        taken: nat,
        start: (T, T),
        total: (T, T),
    ) -> bool
        decreases taken,
    {
        if taken == 0 {
            total == start
        } else {
            let j = spec_partners(self.spec_len(), i as nat)[taken - 1] as int;
            exists|before: (T, T)|
                {
                    &&& self.accumulated(accumulate, i, (taken - 1) as nat, start, before)
                    &&& #[trigger] accumulate.ensures(
                        (before, self.spec_masses()[j], self.spec_positions()[i], self.spec_positions()[j]),
                        total,
                    )
                }
        }
    }

    /// Whether `all` is a full pass over the system: one entry per particle,
    /// entry `i` being what `accumulate` makes of `start` after taking in every
    /// particle that acts on particle `i`.
    pub open spec fn force_pass<F: Fn((T, T), T, (T, T), (T, T)) -> (T, T)>(
        &self,
        start: (T, T),
        accumulate: F,
        all: Seq<(T, T)>,
    ) -> bool {
        &&& all.len() == self.spec_len()
        &&& forall|i: int|
            0 <= i < self.spec_len() ==> self.accumulated(
                accumulate,
                i,
                spec_partners(self.spec_len(), i as nat).len(),
                start,
                #[trigger] all[i],
            )
    }

    /// Whether `next` is this system after one step under the accelerations
    /// given: the masses are the same, each component of each velocity is the
    /// old component advanced along the acceleration's, and each component of
    /// each position is the old component advanced along the velocity just
    /// computed.
    pub open spec fn advanced<A: Fn(T, T) -> T>(
        &self,
        accelerations: Seq<(T, T)>,
        advance: A,
        next: &Self,
    ) -> bool {
        &&& next.spec_masses() == self.spec_masses()
        &&& next.spec_velocities().len() == self.spec_len()
        &&& next.spec_positions().len() == self.spec_len()
        &&& forall|i: int|
            0 <= i < self.spec_len() ==> {
                &&& advance.ensures(
                    (self.spec_velocities()[i].0, accelerations[i].0),
                    (#[trigger] next.spec_velocities()[i]).0,
                )
                &&& advance.ensures(
                    (self.spec_velocities()[i].1, accelerations[i].1),
                    next.spec_velocities()[i].1,
                )
            }
        &&& forall|i: int|
            0 <= i < self.spec_len() ==> {
                &&& advance.ensures(
                    (self.spec_positions()[i].0, next.spec_velocities()[i].0),
                    (#[trigger] next.spec_positions()[i]).0,
                )
                &&& advance.ensures(
                    (self.spec_positions()[i].1, next.spec_velocities()[i].1),
                    next.spec_positions()[i].1,
                )
            }
    }

    /// Whether `next` is this system after one whole step: some full pass over
    /// this system gave the accelerations under which it was advanced.
    pub open spec fn stepped<F: Fn((T, T), T, (T, T), (T, T)) -> (T, T), A: Fn(T, T) -> T>(
        &self,
        start: (T, T),
        accumulate: F,
        advance: A,
        next: &Self,
    ) -> bool {
        exists|accelerations: Seq<(T, T)>|
            {
                &&& #[trigger] self.force_pass(start, accumulate, accelerations)
                &&& self.advanced(accelerations, advance, next)
            }
    }

    /// Computes the acceleration of every particle. For particle `i` the sum
    /// starts at `start` and takes in every other particle once, in ascending
    /// order of index, through `accumulate`. Nothing is kept from an earlier
    /// pass.
    pub fn accelerations<F: Fn((T, T), T, (T, T), (T, T)) -> (T, T)>(
        &self,
        start: (T, T),
        accumulate: F,
    ) -> (all: VectorArray<T>)
        requires
            forall|sum: (T, T), mass: T, at: (T, T), from: (T, T)|
                accumulate.requires((sum, mass, at, from)),
        ensures
            self.force_pass(start, accumulate, all@),
    {
        let n = self.len();
        let mut all: VectorArray<T> = VectorArray::new();
        let mut i: usize = 0;
        while i < n
            invariant
                n == self.spec_len(),
                n == self.spec_positions().len(),
                i <= n,
                all@.len() == i,
                forall|sum: (T, T), mass: T, at: (T, T), from: (T, T)|
                    accumulate.requires((sum, mass, at, from)),
                forall|k: int|
                    0 <= k < i ==> self.accumulated(
                        accumulate,
                        k,
                        spec_partners(n as nat, k as nat).len(),
                        start,
                        #[trigger] all@[k],
                    ),
            decreases n - i,
        {
            let others = partners(n, i);
            let at = (*self.positions.x(i), *self.positions.y(i));
            let mut total = start;
            let mut taken: usize = 0;
            while taken < others.len()
                invariant
                    n == self.spec_len(),
                    n == self.spec_positions().len(),
                    i < n,
                    others@ == spec_partners(n as nat, i as nat),
                    at == self.spec_positions()[i as int],
                    taken <= others.len(),
                    forall|sum: (T, T), mass: T, at: (T, T), from: (T, T)|
                        accumulate.requires((sum, mass, at, from)),
                    self.accumulated(accumulate, i as int, taken as nat, start, total),
                decreases others.len() - taken,
            {
                let j = others[taken];
                proof {
                    lemma_partners_are_the_others(n as nat, i as nat);
                    assert(others@.contains(j));
                }
                let from = (*self.positions.x(j), *self.positions.y(j));
                let before = total;
                total = accumulate(before, self.masses[j], at, from);
                taken += 1;
            }
            all.push(total.0, total.1);
            i += 1;
        }
        all
    }

    /// Advances every particle by one step under the accelerations given,
    /// particle by particle and in lockstep: first the velocity, from the old
    /// velocity along the acceleration; then the position, from the old
    /// position along the new velocity. `advance` moves one component along a
    /// rate of change for one time step. Accelerations beyond the last
    /// particle are not read.
    pub fn update_euler<A: Fn(T, T) -> T>(&mut self, accelerations: &VectorArray<T>, advance: A)
        requires
            accelerations@.len() >= old(self).spec_len(),
            forall|from: T, rate: T| advance.requires((from, rate)),
        ensures
            old(self).advanced(accelerations@, advance, final(self)),
    {
        let n = self.len();
        let mut i: usize = 0;
        while i < n
            invariant
                n == old(self).spec_len(),
                n <= accelerations@.len(),
                i <= n,
                forall|from: T, rate: T| advance.requires((from, rate)),
                self.spec_masses() == old(self).spec_masses(),
                self.spec_velocities().len() == n,
                self.spec_positions().len() == n,
                forall|k: int|
                    i <= k < n ==> self.spec_velocities()[k] == old(self).spec_velocities()[k],
                forall|k: int|
                    i <= k < n ==> self.spec_positions()[k] == old(self).spec_positions()[k],
                forall|k: int|
                    0 <= k < i ==> {
                        &&& advance.ensures(
                            (old(self).spec_velocities()[k].0, accelerations@[k].0),
                            (#[trigger] self.spec_velocities()[k]).0,
                        )
                        &&& advance.ensures(
                            (old(self).spec_velocities()[k].1, accelerations@[k].1),
                            self.spec_velocities()[k].1,
                        )
                    },
                forall|k: int|
                    0 <= k < i ==> {
                        &&& advance.ensures(
                            (old(self).spec_positions()[k].0, self.spec_velocities()[k].0),
                            (#[trigger] self.spec_positions()[k]).0,
                        )
                        &&& advance.ensures(
                            (old(self).spec_positions()[k].1, self.spec_velocities()[k].1),
                            self.spec_positions()[k].1,
                        )
                    },
            decreases n - i,
        {
            let vx = advance(*self.velocities.x(i), *accelerations.x(i));
            let vy = advance(*self.velocities.y(i), *accelerations.y(i));
            let x = advance(*self.positions.x(i), vx);
            let y = advance(*self.positions.y(i), vy);
            self.set_velocity(i, vx, vy);
            self.set_position(i, x, y);
            i += 1;
        }
    }

    /// Advances the system by one step: a full pass for the accelerations at
    /// the current positions, then every particle moved under them.
    pub fn step<F: Fn((T, T), T, (T, T), (T, T)) -> (T, T), A: Fn(T, T) -> T>(
        &mut self,
        start: (T, T),
        accumulate: F,
        advance: A,
    )
        requires
            forall|sum: (T, T), mass: T, at: (T, T), from: (T, T)|
                accumulate.requires((sum, mass, at, from)),
            forall|from: T, rate: T| advance.requires((from, rate)),
        ensures
            old(self).stepped(start, accumulate, advance, final(self)),
    {
        let accelerations = self.accelerations(start, accumulate);
        self.update_euler(&accelerations, advance);
    }
}

/// Whether `accumulate` gives one result for each sum, mass and pair of
/// positions.
pub open spec fn accumulate_is_single_valued<T, F: Fn((T, T), T, (T, T), (T, T)) -> (T, T)>(
    accumulate: F,
) -> bool {
    forall|sum: (T, T), mass: T, at: (T, T), from: (T, T), one: (T, T), other: (T, T)|
        #[trigger] accumulate.ensures((sum, mass, at, from), one) && #[trigger] accumulate.ensures(
            (sum, mass, at, from),
            other,
        ) ==> one == other
}

/// Whether `advance` gives one result for each component and rate.
pub open spec fn advance_is_single_valued<T, A: Fn(T, T) -> T>(advance: A) -> bool {
    forall|from: T, rate: T, one: T, other: T|
        #[trigger] advance.ensures((from, rate), one) && #[trigger] advance.ensures(
            (from, rate),
            other,
        ) ==> one == other
}

impl<T: Copy> NBodySystem<T> {
    /// Under a single-valued `accumulate` a sum has one value at every point.
    proof fn lemma_accumulated_is_determined<F: Fn((T, T), T, (T, T), (T, T)) -> (T, T)>(
        &self,
        accumulate: F,
        i: int,
        taken: nat,
        start: (T, T),
        one: (T, T),
        other: (T, T),
    )
        requires
            accumulate_is_single_valued(accumulate),
            self.accumulated(accumulate, i, taken, start, one),
            self.accumulated(accumulate, i, taken, start, other),
        ensures
            one == other,
        decreases taken,
    {
        if taken > 0 {
            let j = spec_partners(self.spec_len(), i as nat)[taken - 1] as int;
            let before1 = choose|before: (T, T)|
                {
                    &&& self.accumulated(accumulate, i, (taken - 1) as nat, start, before)
                    &&& #[trigger] accumulate.ensures(
                        (before, self.spec_masses()[j], self.spec_positions()[i], self.spec_positions()[j]),
                        one,
                    )
                };
            let before2 = choose|before: (T, T)|
                {
                    &&& self.accumulated(accumulate, i, (taken - 1) as nat, start, before)
                    &&& #[trigger] accumulate.ensures(
                        (before, self.spec_masses()[j], self.spec_positions()[i], self.spec_positions()[j]),
                        other,
                    )
                };
            self.lemma_accumulated_is_determined(
                accumulate,
                i,
                (taken - 1) as nat,
                start,
                before1,
                before2,
            );
        }
    }

    /// A full pass adds nothing of its own to the rule it is given: where
    /// `accumulate` gives one result for each input, a system has one set of
    /// accelerations.
    pub proof fn lemma_force_pass_is_determined<F: Fn((T, T), T, (T, T), (T, T)) -> (T, T)>(
        &self,
        start: (T, T),
        accumulate: F,
        one: Seq<(T, T)>,
        other: Seq<(T, T)>,
    )
        requires
            accumulate_is_single_valued(accumulate),
            self.force_pass(start, accumulate, one),
            self.force_pass(start, accumulate, other),
        ensures
            one == other,
    {
        assert forall|i: int| 0 <= i < one.len() implies one[i] == other[i] by {
            self.lemma_accumulated_is_determined(
                accumulate,
                i,
                spec_partners(self.spec_len(), i as nat).len(),
                start,
                one[i],
                other[i],
            );
        }
        assert(one =~= other);
    }

    /// A step adds nothing of its own to the rules it is given: where each
    /// rule gives one result for each input, a system has one successor. Equal
    /// systems and rules give equal trajectories.
    pub proof fn lemma_step_is_determined<
        F: Fn((T, T), T, (T, T), (T, T)) -> (T, T),
        A: Fn(T, T) -> T,
    >(&self, start: (T, T), accumulate: F, advance: A, one: &Self, other: &Self)
        requires
            accumulate_is_single_valued(accumulate),
            advance_is_single_valued(advance),
            self.stepped(start, accumulate, advance, one),
            self.stepped(start, accumulate, advance, other),
        ensures
            one.spec_masses() == other.spec_masses(),
            one.spec_positions() == other.spec_positions(),
            one.spec_velocities() == other.spec_velocities(),
    {
        let pass1 = choose|accelerations: Seq<(T, T)>|
            {
                &&& #[trigger] self.force_pass(start, accumulate, accelerations)
                &&& self.advanced(accelerations, advance, one)
            };
        let pass2 = choose|accelerations: Seq<(T, T)>|
            {
                &&& #[trigger] self.force_pass(start, accumulate, accelerations)
                &&& self.advanced(accelerations, advance, other)
            };
        self.lemma_force_pass_is_determined(start, accumulate, pass1, pass2);
        assert forall|i: int| 0 <= i < self.spec_len() implies one.spec_velocities()[i]
            == other.spec_velocities()[i] by {
            let mine = one.spec_velocities()[i];
            let theirs = other.spec_velocities()[i];
            assert(mine.0 == theirs.0);
            assert(mine.1 == theirs.1);
        }
        assert(one.spec_velocities() =~= other.spec_velocities());
        assert forall|i: int| 0 <= i < self.spec_len() implies one.spec_positions()[i]
            == other.spec_positions()[i] by {
            let mine = one.spec_positions()[i];
            let theirs = other.spec_positions()[i];
            assert(mine.0 == theirs.0);
            assert(mine.1 == theirs.1);
        }
        assert(one.spec_positions() =~= other.spec_positions());
    }
}

} // verus!
