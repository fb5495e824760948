use crate::brand::InvariantLifetime;
use crate::cell::GhostCell;
use core::marker::PhantomData;
use vstd::prelude::*;

verus! {

/// The capability for every cell of the brand `'id`.
///
/// A token holds no data. It is made by [`GhostToken::with`] and by nothing
/// else, once per call, and it cannot leave that call.
pub struct GhostToken<'id> {
    _brand: InvariantLifetime<'id>,
}

impl GhostToken<'_> {
    /// Calls `f` once with a token of a brand that no other token or cell has,
    /// and returns what `f` returns.
    ///
    /// `f` must accept a token of every brand, so the caller cannot choose the
    /// brand, and the result type `R` cannot name it: neither the token nor a
    /// cell made under it can be part of the result.
    ///
    /// A token of one call does not open a cell of another:
    ///
    /// ```compile_fail
    /// use ghostcell::GhostToken;
    /// GhostToken::with(|outer| {
    ///     let cell = outer.cell(0);
    ///     GhostToken::with(|inner| {
    ///         let _ = cell.ro(&inner);
    ///     });
    /// });
    /// ```
    #[inline(always)]
    pub fn with<R>(f: impl for<'new> FnOnce(GhostToken<'new>) -> R) -> (result: R)
        requires
            call_requires(f, (GhostToken::minted(),)),
        ensures
            call_ensures(f, (GhostToken::minted(),), result),
    {
        f(GhostToken { _brand: PhantomData })
    }
}

impl<'id> GhostToken<'id> {
    /// The token: it holds no data, so there is one value of it.
    pub closed spec fn minted() -> Self {
        GhostToken { _brand: PhantomData }
    }

    /// Wraps `value` in a cell of this token's brand.
    #[inline(always)]
    pub fn cell<T>(&self, value: T) -> (cell: GhostCell<'id, T>)
        ensures
            cell@ == value,
    {
        GhostCell::new(value)
    }

    /// Shared access to the payload of `cell`.
    #[inline(always)]
    pub fn ro<'a, T>(&'a self, cell: &'a GhostCell<'id, T>) -> (payload: &'a T)
        ensures
            *payload == cell@,
    {
        cell.ro(self)
    }

    /// Exclusive access to the payload of `cell`: what is written through the
    /// returned reference is what the cell holds afterwards.
    #[inline(always)]
    pub fn rw<'a, T>(&'a mut self, cell: &'a mut GhostCell<'id, T>) -> (payload: &'a mut T)
        ensures
            *payload == old(cell)@,
            final(cell)@ == *final(payload),
            *final(self) == *old(self),
    {
        cell.rw(self)
    }

    /// A token holds nothing, so every token is the same value.
    pub proof fn lemma_token_holds_nothing(self)
        ensures
            self == Self::minted(),
    {
    }
}

} // verus!
