//! A holder for a drawing routine built over a compiled shader program.  The
//! routine itself closes over the GL handles; this wrapper only owns it and
//! passes arguments through.

use vstd::prelude::*;

verus! {

/// Owns a drawing routine.
pub struct Foop<F> {
    func: F,
}

impl<F> Foop<F> {
    /// The routine held.
    pub closed spec fn func(&self) -> F {
        self.func
    }

    /// Wrap a drawing routine.
    pub fn new(func: F) -> (s: Foop<F>)
        ensures
            s.func() == func,
    {
        Foop { func }
    }

    /// Draw once: call the held routine on `args` and hand its result back
    /// unchanged.
    pub fn draw<A, R>(&mut self, args: A) -> (r: R) where F: Fn(A) -> R
        requires
            call_requires(old(self).func(), (args,)),
        ensures
            final(self).func() == old(self).func(),
            call_ensures(old(self).func(), (args,), r),
    {
        (self.func)(args)
    }
}

} // verus!
