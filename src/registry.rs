//! Checkout slots: at most one live owner of each hardware block.

use vstd::prelude::*;

verus! {

/// Why a checkout was refused.
#[derive(Clone, Copy, Debug, PartialEq, Eq, Structural)]
pub enum CheckoutError {
    /// The token is held by someone else and has not been released.
    AlreadyTaken,
}

/// The slot after a `take`, and what the `take` returned.
pub open spec fn take_spec<T>(before: Option<T>) -> (Option<T>, Result<T, CheckoutError>) {
    match before {
        Some(token) => (None, Ok(token)),
        None => (None, Err(CheckoutError::AlreadyTaken)),
    }
}

/// The slot after a `release` of `token`.
pub open spec fn release_spec<T>(before: Option<T>, token: T) -> Option<T> {
    Some(token)
}

/// One hardware block's place in the registry: it holds the block's token
/// while the block is available, and nothing while it is checked out.
pub struct Slot<T> {
    token: Option<T>,
}

impl<T> View for Slot<T> {
    type V = Option<T>;

    closed spec fn view(&self) -> Option<T> {
        self.token
    }
}

impl<T> Slot<T> {
    /// An available slot holding `token`.
    pub(crate) fn new(token: T) -> (r: Slot<T>)
        ensures
            r@ == Some(token),
    {
        Slot { token: Some(token) }
    }

    /// Whether the token is in the slot, ready to be taken.
    pub fn is_available(&self) -> (r: bool)
        ensures
            r == self@ is Some,
    {
        self.token.is_some()
    }

    /// Checks the token out: hands it over and leaves the slot empty, or
    /// reports that it is already taken and changes nothing.
    pub fn take(&mut self) -> (r: Result<T, CheckoutError>)
        ensures
            (final(self)@, r) == take_spec(old(self)@),
    {
        match self.token.take() {
            Some(token) => Ok(token),
            None => Err(CheckoutError::AlreadyTaken),
        }
    }

    /// Puts a checked-out token back, making the block available again.
    ///
    /// Only a checked-out slot can be released into: whoever holds the token
    /// took it from this slot.
    pub fn release(&mut self, token: T)
        requires
            old(self)@ is None,
        ensures
            final(self)@ == release_spec(old(self)@, token),
    {
        self.token = Some(token);
    }
}

/// After a successful `take`, another `take` of the same slot fails with
/// `AlreadyTaken` and leaves the slot checked out; once the token is
/// released, a `take` succeeds again and hands that token back.
pub proof fn lemma_checkout_exclusive<T>(slot: Option<T>, returned: T)
    requires
        take_spec(slot).1 is Ok,
    ensures
        take_spec(take_spec(slot).0) == (None::<T>, Err::<T, CheckoutError>(
            CheckoutError::AlreadyTaken,
        )),
        take_spec(release_spec(take_spec(slot).0, returned)) == (None::<T>, Ok::<
            T,
            CheckoutError,
        >(returned)),
{
}

} // verus!
