use crate::brand::InvariantLifetime;
use crate::token::GhostToken;
use core::marker::PhantomData;
use vstd::prelude::*;
use vstd::std_specs::convert::FromSpecImpl;

verus! {

/// One payload of type `T`, tagged with the brand `'id`.
///
/// The cell owns its payload. Whoever owns the cell, or holds it exclusively,
/// reaches the payload without a token; everybody else presents a token of the
/// same brand.
pub struct GhostCell<'id, T> {
    _brand: InvariantLifetime<'id>,
    inner: T,
}

impl<'id, T> GhostCell<'id, T> {
    /// The payload.
    pub closed spec fn view(&self) -> T {
        self.inner
    }

    /// Wraps `value`. No token is needed: a new cell has no other reference to
    /// it.
    #[inline(always)]
    pub fn new(value: T) -> (cell: Self)
        ensures
            cell@ == value,
    {
        GhostCell { _brand: PhantomData, inner: value }
    }

    /// Gives up the cell and hands out its payload.
    #[inline(always)]
    pub fn into_inner(self) -> (payload: T)
        ensures
            payload == self@,
    {
        self.inner
    }

    /// Exclusive access to the payload for whoever holds the cell exclusively.
    /// What is written through the returned reference is what the cell holds
    /// afterwards.
    #[inline(always)]
    pub fn get_mut(&mut self) -> (payload: &mut T)
        ensures
            *payload == old(self)@,
            final(self)@ == *final(payload),
    {
        &mut self.inner
    }

    /// Shared access to the payload, for as long as both the cell and the
    /// token are borrowed.
    #[inline(always)]
    pub fn ro<'a>(&'a self, _token: &'a GhostToken<'id>) -> (payload: &'a T)
        ensures
            *payload == self@,
    {
        &self.inner
    }

    /// Exclusive access to the payload, for as long as both the cell and the
    /// token are borrowed. What is written through the returned reference is
    /// what the cell holds afterwards; the token is left as it was.
    ///
    /// While the returned reference lives, the token gives no other access:
    ///
    /// ```compile_fail
    /// use ghostcell::{GhostCell, GhostToken};
    /// GhostToken::with(|mut token| {
    ///     let mut first = GhostCell::new(0);
    ///     let second = GhostCell::new(0);
    ///     let writer = first.rw(&mut token);
    ///     let reader = second.ro(&token);
    ///     *writer += *reader;
    /// });
    /// ```
    #[inline(always)]
    pub fn rw<'a>(&'a mut self, _token: &'a mut GhostToken<'id>) -> (payload: &'a mut T)
        ensures
            *payload == old(self)@,
            final(self)@ == *final(payload),
            *final(_token) == *old(_token),
    {
        &mut self.inner
    }

    /// Puts `value` into the cell and hands out what the cell held.
    #[inline]
    pub fn replace(&mut self, value: T, token: &mut GhostToken<'id>) -> (previous: T)
        ensures
            previous == old(self)@,
            final(self)@ == value,
            *final(token) == *old(token),
    {
        let mut held = value;
        core::mem::swap(self.rw(token), &mut held);
        held
    }

    /// Exchanges the payload with `*value`.
    #[inline]
    pub fn swap(&mut self, value: &mut T, token: &mut GhostToken<'id>)
        ensures
            final(self)@ == *old(value),
            *final(value) == old(self)@,
            *final(token) == *old(token),
    {
        core::mem::swap(self.rw(token), value)
    }
}

impl<'id, T: Default> GhostCell<'id, T> {
    /// Hands out what the cell held and leaves a value that `T::default`
    /// returns in its place.
    #[inline]
    pub fn take(&mut self, token: &mut GhostToken<'id>) -> (previous: T)
        ensures
            previous == old(self)@,
            call_ensures(T::default, (), final(self)@),
            *final(token) == *old(token),
    {
        let mut held = T::default();
        core::mem::swap(self.rw(token), &mut held);
        held
    }
}

impl<'id, T> AsMut<T> for GhostCell<'id, T> {
    #[inline(always)]
    fn as_mut(&mut self) -> (payload: &mut T)
        ensures
            *payload == old(self)@,
            final(self)@ == *final(payload),
    {
        self.get_mut()
    }
}

impl<'id, T> FromSpecImpl<T> for GhostCell<'id, T> {
    open spec fn obeys_from_spec() -> bool {
        true
    }

    closed spec fn from_spec(value: T) -> Self {
        GhostCell { _brand: PhantomData, inner: value }
    }
}

impl<'id, T> From<T> for GhostCell<'id, T> {
    #[inline(always)]
    fn from(value: T) -> (cell: Self)
        ensures
            cell@ == value,
    {
        Self::new(value)
    }
}

} // verus!
