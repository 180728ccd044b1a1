use vstd::prelude::*;

verus! {

/// A value wrapped so that it can be handed over as one unit.
pub struct UnsafeSend<T>(T);

impl<T> UnsafeSend<T> {
    /// The wrapped value.
    pub closed spec fn inner(&self) -> T {
        self.0
    }

    /// Wraps a value.
    pub fn new(t: T) -> (r: Self)
        ensures
            r.inner() == t,
    {
        Self(t)
    }

    /// The wrapped value.
    pub fn unwrap(self) -> (r: T)
        ensures
            r == self.inner(),
    {
        self.0
    }
}

} // verus!
