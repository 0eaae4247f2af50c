//! The bookkeeping of two small simulations: a double pendulum advanced by a
//! selectable time-stepping scheme, and a system of particles under their own
//! gravity.
//!
//! The library is generic in the type of a physical quantity. It fixes which
//! entries, components and stages are read and written and in what order, and
//! proves that of every function; the arithmetic on the quantities themselves
//! is handed in by the caller as rules.

pub mod controls;
pub mod integrator;
pub mod nbody;
pub mod particles;
pub mod pendulum;
