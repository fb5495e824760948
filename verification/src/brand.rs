use core::marker::PhantomData;
use vstd::prelude::*;

verus! {

/// A zero-size marker that is invariant in `'id`.
///
/// A mutable reference is invariant in what it points to, so a type that holds
/// this marker can be used neither where a longer brand is expected nor where
/// a shorter one is. Two brands therefore unify only if they are the same
/// brand.
pub type InvariantLifetime<'id> = PhantomData<&'id mut &'id ()>;

} // verus!
