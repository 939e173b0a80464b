//! Length-bounded vectors, the shape in which the chain accepts names,
//! symbols, references and participant lists.
use vstd::prelude::*;

verus! {

/// A vector that never holds more than `S` items.
#[derive(Debug, PartialEq, Eq)]
pub struct BoundedVec<T, const S: usize> {
    inner: Vec<T>,
}

impl<T, const S: usize> View for BoundedVec<T, S> {
    type V = Seq<T>;

    closed spec fn view(&self) -> Seq<T> {
        self.inner@
    }
}

impl<T, const S: usize> BoundedVec<T, S> {
    #[verifier::type_invariant]
    spec fn bound_holds(&self) -> bool {
        self.inner@.len() <= S
    }

    /// An empty vector.
    pub fn new() -> (r: Self)
        ensures
            r@ == Seq::<T>::empty(),
    {
        BoundedVec { inner: Vec::new() }
    }

    /// Accepts `v` when it has at most `S` items and hands it back otherwise.
    pub fn try_from(v: Vec<T>) -> (r: Result<Self, Vec<T>>)
        ensures
            v@.len() <= S <==> r is Ok,
            r matches Ok(b) ==> b@ == v@,
            r matches Err(w) ==> w@ == v@,
    {
        if v.len() <= S {
            Ok(BoundedVec { inner: v })
        } else {
            Err(v)
        }
    }

    /// The number of items.
    pub fn len(&self) -> (n: usize)
        ensures
            n == self@.len(),
            n <= S,
    {
        proof {
            use_type_invariant(self);
        }
        self.inner.len()
    }
}

impl<T: Copy, const S: usize> BoundedVec<T, S> {
    /// An item-by-item copy.
    pub fn duplicate(&self) -> (r: Self)
        ensures
            r@ == self@,
    {
        proof {
            use_type_invariant(self);
        }
        let mut out: Vec<T> = Vec::new();
        let n = self.inner.len();
        for i in 0..n
            invariant
                n == self.inner@.len(),
                n <= S,
                out@ == self.inner@.take(i as int),
        {
            out.push(self.inner[i]);
            assert(out@ =~= self.inner@.take(i + 1));
        }
        assert(out@ =~= self.inner@);
        BoundedVec { inner: out }
    }
}

impl<T: Copy, const S: usize> Clone for BoundedVec<T, S> {
    fn clone(&self) -> (r: Self)
        ensures
            r@ == self@,
    {
        self.duplicate()
    }
}

impl<T: Copy, const S: usize> BoundedVec<T, S> {
    /// The item at `i`.
    pub fn get(&self, i: usize) -> (r: T)
        requires
            i < self@.len(),
        ensures
            r == self@[i as int],
    {
        self.inner[i]
    }

    /// Appends `x` when there is room and hands it back otherwise.
    pub fn try_push(&mut self, x: T) -> (r: Result<(), T>)
        ensures
            old(self)@.len() < S <==> r is Ok,
            r is Ok ==> final(self)@ == old(self)@.push(x),
            r matches Err(y) ==> y == x && final(self)@ == old(self)@,
    {
        proof {
            use_type_invariant(&*self);
        }
        if self.inner.len() < S {
            let mut items: Vec<T> = Vec::new();
            std::mem::swap(&mut items, &mut self.inner);
            items.push(x);
            std::mem::swap(&mut items, &mut self.inner);
            Ok(())
        } else {
            Err(x)
        }
    }
}

impl<const S: usize> BoundedVec<u32, S> {
    /// Whether `x` is among the items.
    pub fn contains(&self, x: &u32) -> (r: bool)
        ensures
            r == self@.contains(*x),
    {
        let n = self.inner.len();
        for i in 0..n
            invariant
                n == self.inner@.len(),
                forall|j: int| 0 <= j < i ==> self.inner@[j] != *x,
        {
            if self.inner[i] == *x {
                assert(self.inner@[i as int] == *x);
                return true;
            }
        }
        false
    }
}

} // verus!
