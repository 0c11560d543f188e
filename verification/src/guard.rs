//! The guard itself.
use crate::destroy::Destroy;
use vstd::prelude::*;

verus! {

/// Holds a value that is to be destroyed by a call of [`Destroy::destroy`]
/// on the guard, and not by letting the guard go.
///
/// A guard always holds its value: `destroy` and `into_inner` consume the
/// guard together with it.
pub struct MustDestroy<T> {
    wrapped: T,
}

impl<T> MustDestroy<T> {
    /// The value that the guard holds.
    pub closed spec fn view(self) -> T {
        self.wrapped
    }

    /// The guard that holds `item`.
    pub closed spec fn spec_new(item: T) -> Self {
        MustDestroy { wrapped: item }
    }

    /// Creates a guard that holds `item`.
    #[verifier::when_used_as_spec(spec_new)]
    pub fn new(item: T) -> (guard: Self)
        ensures
            guard == Self::spec_new(item),
            guard@ == item,
    {
        MustDestroy { wrapped: item }
    }

    /// Takes the value out of the guard. Whoever holds the value now owes its
    /// destruction.
    #[verifier::when_used_as_spec(view)]
    pub fn into_inner(self) -> (item: T)
        ensures
            item == self@,
    {
        self.wrapped
    }
}

impl<T> MustDestroy<T> {
    /// A guard is known by the value it holds: `new(item)` holds `item`, and
    /// every guard is the one that `new` makes of what it holds.
    pub proof fn lemma_new_view(guard: Self, item: T)
        ensures
            Self::new(item)@ == item,
            Self::new(guard@) == guard,
    {
    }
}

impl<Args, T: Destroy<Args>> Destroy<Args> for MustDestroy<T> {
    /// A guard may be destroyed exactly when the value it holds may be.
    open spec fn destroy_requires(self, args: Args) -> bool {
        self@.destroy_requires(args)
    }

    /// Destroying a guard does what destroying the value it holds does.
    open spec fn destroy_ensures(self, args: Args) -> bool {
        self@.destroy_ensures(args)
    }

    /// Destroys the value that the guard holds, with `args`.
    fn destroy(self, args: Args) {
        self.into_inner().destroy(args);
    }
}

impl<T: Destroy<()>> MustDestroy<T> {
    /// Destroys a value whose destructor takes no arguments: `destroy(())`.
    pub fn destroy(self)
        requires
            Destroy::destroy_requires(self, ()),
        ensures
            Destroy::destroy_ensures(self, ()),
    {
        Destroy::destroy(self, ())
    }
}

impl<T> MustDestroy<T> {
    /// Destroys a value whose destructor takes one argument: `destroy((a,))`.
    pub fn destroy1<A>(self, a: A) where T: Destroy<(A,)>
        requires
            self.destroy_requires((a,)),
        ensures
            self.destroy_ensures((a,)),
    {
        Destroy::destroy(self, (a,))
    }

    /// Destroys a value whose destructor takes two arguments:
    /// `destroy((a, b))`.
    pub fn destroy2<A, B>(self, a: A, b: B) where T: Destroy<(A, B)>
        requires
            self.destroy_requires((a, b)),
        ensures
            self.destroy_ensures((a, b)),
    {
        Destroy::destroy(self, (a, b))
    }

    /// Destroys a value whose destructor takes three arguments:
    /// `destroy((a, b, c))`.
    pub fn destroy3<A, B, C>(self, a: A, b: B, c: C) where T: Destroy<(A, B, C)>
        requires
            self.destroy_requires((a, b, c)),
        ensures
            self.destroy_ensures((a, b, c)),
    {
        Destroy::destroy(self, (a, b, c))
    }

    /// Destroys a value whose destructor takes four arguments:
    /// `destroy((a, b, c, d))`.
    pub fn destroy4<A, B, C, D>(self, a: A, b: B, c: C, d: D) where T: Destroy<(A, B, C, D)>
        requires
            self.destroy_requires((a, b, c, d)),
        ensures
            self.destroy_ensures((a, b, c, d)),
    {
        Destroy::destroy(self, (a, b, c, d))
    }
}

impl<T> core::ops::Deref for MustDestroy<T> {
    type Target = T;

    /// Reads the value that the guard holds.
    fn deref(&self) -> (item: &T)
        ensures
            *item == self@,
    {
        &self.wrapped
    }
}

impl<T> core::ops::DerefMut for MustDestroy<T> {
    /// Lends the value that the guard holds: what is written through the
    /// borrow is what the guard holds afterwards.
    fn deref_mut(&mut self) -> (item: &mut T)
        ensures
            *item == old(self)@,
            final(self)@ == *final(item),
    {
        &mut self.wrapped
    }
}

} // verus!
