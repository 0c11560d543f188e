//! The contract of a value that is destroyed by a call with arguments.
use vstd::prelude::*;

verus! {

/// A value that is destroyed by an explicit call.
///
/// `Args` is what the destructor takes. A destructor of several arguments
/// takes them as a tuple, one of none takes `()`.
///
/// An implementation says in `destroy_requires` on which values and arguments
/// its destructor may be called, and in `destroy_ensures` what holds once the
/// destructor has returned. Both are `true` unless the implementation says
/// otherwise.
pub trait Destroy<Args>: Sized {
    /// Whether `self` may be destroyed with `args`.
    open spec fn destroy_requires(self, args: Args) -> bool {
        true
    }

    /// What holds of `self` and `args` after `destroy` has returned.
    open spec fn destroy_ensures(self, args: Args) -> bool {
        true
    }

    /// Destroys `self`, which is gone afterwards.
    fn destroy(self, args: Args)
        requires
            self.destroy_requires(args),
        ensures
            self.destroy_ensures(args),
    ;
}

} // verus!
