//! What holds of every guard, whatever it holds.
use crate::destroy::Destroy;
use crate::guard::MustDestroy;
use vstd::prelude::*;

verus! {

/// To put a value under guard and destroy the guard is to destroy the value:
/// the call is allowed on the same arguments, and the same holds after it.
pub proof fn lemma_guarded_destroy_is_destroy<Args, T: Destroy<Args>>(item: T, args: Args)
    ensures
        MustDestroy::new(item).destroy_requires(args) == item.destroy_requires(args),
        MustDestroy::new(item).destroy_ensures(args) == item.destroy_ensures(args),
{
    MustDestroy::lemma_new_view(MustDestroy::new(item), item);
}

/// To take the value out of a guard and destroy it is to destroy the guard:
/// the call is allowed on the same arguments, and the same holds after it.
pub proof fn lemma_into_inner_then_destroy<Args, T: Destroy<Args>>(
    guard: MustDestroy<T>,
    args: Args,
)
    ensures
        guard.into_inner().destroy_requires(args) == guard.destroy_requires(args),
        guard.into_inner().destroy_ensures(args) == guard.destroy_ensures(args),
{
}

/// A value that was put under guard comes out of the guard unchanged.
pub proof fn lemma_new_then_into_inner<T>(item: T)
    ensures
        MustDestroy::new(item).into_inner() == item,
{
    MustDestroy::lemma_new_view(MustDestroy::new(item), item);
}

} // verus!
