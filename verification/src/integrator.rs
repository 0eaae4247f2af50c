//! The time-stepping schemes a simulation can be advanced with, and the
//! identifiers by which a caller selects one.

use vstd::prelude::*;

verus! {

/// A time-stepping scheme.
///
/// * `Euler` advances the velocity by the acceleration and the position by the
///   velocity the step started with.
/// * `SemiImplicitEuler` advances the velocity first and the position by the
///   velocity just computed.
/// * `Rk4` is the classical four-stage Runge-Kutta scheme.
#[derive(Clone, Copy, Debug, PartialEq, Eq, Structural)]
pub enum Integrator {
    Euler,
    SemiImplicitEuler,
    Rk4,
}

impl Integrator {
    /// The identifier of a scheme, as a sequence of characters.
    pub open spec fn spec_name(self) -> Seq<char> {
        match self {
            Integrator::Euler => "euler"@,
            Integrator::SemiImplicitEuler => "semi_implicit_euler"@,
            Integrator::Rk4 => "rk4"@,
        }
    }

    /// The scheme that an identifier selects, if it selects one. Identifiers
    /// are matched exactly: case and surrounding blanks count.
    pub open spec fn named(name: Seq<char>) -> Option<Integrator> {
        if name == Integrator::Euler.spec_name() {
            Some(Integrator::Euler)
        } else if name == Integrator::SemiImplicitEuler.spec_name() {
            Some(Integrator::SemiImplicitEuler)
        } else if name == Integrator::Rk4.spec_name() {
            Some(Integrator::Rk4)
        } else {
            None
        }
    }

    /// The identifier of this scheme.
    pub fn name(self) -> (text: &'static str)
        ensures
            text@ == self.spec_name(),
    {
        match self {
            Integrator::Euler => "euler",
            Integrator::SemiImplicitEuler => "semi_implicit_euler",
            Integrator::Rk4 => "rk4",
        }
    }

    /// Looks a scheme up by its identifier. Any other text selects nothing:
    /// there is no default scheme.
    pub fn from_name(name: &str) -> (found: Option<Integrator>)
        ensures
            found == Integrator::named(name@),
    {
        if same_text(name, "euler") {
            Some(Integrator::Euler)
        } else if same_text(name, "semi_implicit_euler") {
            Some(Integrator::SemiImplicitEuler)
        } else if same_text(name, "rk4") {
            Some(Integrator::Rk4)
        } else {
            None
        }
    }

    /// No two schemes share an identifier, so looking up the identifier of a
    /// scheme gives that scheme back.
    pub proof fn lemma_name_selects_itself(self)
        ensures
            Integrator::named(self.spec_name()) == Some(self),
    {
        lemma_identifier_lengths();
    }

    /// An identifier selects a scheme only if it is that scheme's identifier.
    pub proof fn lemma_named_is_exact(name: Seq<char>, scheme: Integrator)
        ensures
            Integrator::named(name) == Some(scheme) <==> name == scheme.spec_name(),
    {
        lemma_identifier_lengths();
    }
}

/// The three identifiers differ already in their lengths.
proof fn lemma_identifier_lengths()
    ensures
        Integrator::Euler.spec_name().len() == 5,
        Integrator::SemiImplicitEuler.spec_name().len() == 19,
        Integrator::Rk4.spec_name().len() == 3,
{
    reveal_strlit("euler");
    reveal_strlit("semi_implicit_euler");
    reveal_strlit("rk4");
}

/// Whether two strings hold the same characters.
fn same_text(left: &str, right: &str) -> (same: bool)
    ensures
        same == (left@ == right@),
{
    let n = left.unicode_len();
    if n != right.unicode_len() {
        return false;
    }
    let mut i: usize = 0;
    while i < n
        invariant
            n == left@.len(),
            n == right@.len(),
            i <= n,
            forall|k: int| 0 <= k < i ==> left@[k] == right@[k],
        decreases n - i,
    {
        if left.get_char(i) != right.get_char(i) {
            return false;
        }
        i += 1;
    }
    assert(left@ =~= right@);
    true
}

} // verus!
