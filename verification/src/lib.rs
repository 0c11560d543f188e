//! # must_destroy
//!
//! A guard for values that must be destroyed by an explicit call.
//!
//! [`MustDestroy<T>`] owns one value of a type that implements [`Destroy`].
//! The guard passes every read and write through to the value it holds, and
//! it leaves again in one of two ways only: [`Destroy::destroy`] hands the
//! value and the arguments to the value's own destructor, and
//! [`MustDestroy::into_inner`] gives the value back to the caller.
//!
//! What the guard does is stated in contracts: a guard may be destroyed
//! exactly when the value it holds may be, and destroying it establishes what
//! destroying the value establishes. The module [`laws`] states what follows
//! for every guard. The guard has no destructor of its own; the module
//! [`disposal`] holds the rule by which a program fails when a live guard is
//! let go.
pub mod destroy;
pub mod disposal;
pub mod guard;
pub mod laws;

pub use destroy::Destroy;
pub use guard::MustDestroy;
