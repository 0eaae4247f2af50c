//! Planar quantities stored component-wise, one entry per particle.

use vstd::prelude::*;

verus! {

/// A sequence of planar vectors kept as two parallel sequences, one of the
/// first and one of the second components. Entry `i` of both belongs to
/// particle `i`, so the two always have the same length.
pub struct VectorArray<T> {
    x: Vec<T>,
    y: Vec<T>,
}

impl<T> View for VectorArray<T> {
    type V = Seq<(T, T)>;

    /// The vectors in order, each as its pair of components.
    closed spec fn view(&self) -> Seq<(T, T)> {
        Seq::new(self.x@.len(), |i: int| (self.x@[i], self.y@[i]))
    }
}

impl<T> VectorArray<T> {
    #[verifier::type_invariant]
    spec fn aligned(self) -> bool {
        self.x@.len() == self.y@.len()
    }

    /// An array without entries.
    pub fn new() -> (empty: Self)
        ensures
            empty@ == Seq::<(T, T)>::empty(),
    {
        let empty = VectorArray { x: Vec::new(), y: Vec::new() };
        assert(empty@ =~= Seq::<(T, T)>::empty());
        empty
    }

    /// The number of vectors held.
    pub fn len(&self) -> (n: usize)
        ensures
            n == self@.len(),
    {
        self.x.len()
    }

    /// Appends the vector `(x, y)` as the entry of one more particle.
    pub fn push(&mut self, x: T, y: T)
        ensures
            final(self)@ == old(self)@.push((x, y)),
    {
        proof {
            use_type_invariant(&*self);
        }
        let mut taken = VectorArray::new();
        std::mem::swap(self, &mut taken);
        let VectorArray { x: mut xs, y: mut ys } = taken;
        xs.push(x);
        ys.push(y);
        *self = VectorArray { x: xs, y: ys };
        assert(self@ =~= old(self)@.push((x, y)));
    }

    /// The first component of entry `i`.
    pub fn x(&self, i: usize) -> (component: &T)
        requires
            i < self@.len(),
        ensures
            *component == self@[i as int].0,
    {
        &self.x[i]
    }

    /// The second component of entry `i`.
    pub fn y(&self, i: usize) -> (component: &T)
        requires
            i < self@.len(),
        ensures
            *component == self@[i as int].1,
    {
        proof {
            use_type_invariant(self);
        }
        &self.y[i]
    }

    /// Replaces entry `i` by the vector `(x, y)`; no other entry changes.
    pub fn set(&mut self, i: usize, x: T, y: T)
        requires
            i < old(self)@.len(),
        ensures
            final(self)@ == old(self)@.update(i as int, (x, y)),
    {
        proof {
            use_type_invariant(&*self);
        }
        let mut taken = VectorArray::new();
        std::mem::swap(self, &mut taken);
        let VectorArray { x: mut xs, y: mut ys } = taken;
        xs[i] = x;
        ys[i] = y;
        *self = VectorArray { x: xs, y: ys };
        assert(self@ =~= old(self)@.update(i as int, (x, y)));
    }
}

} // verus!
