//! A slot of the broker: one physical resource that is either available or
//! checked out.

use crate::critical::with_interrupts_masked;
use crate::hardware::Error;
use vstd::prelude::*;

verus! {

/// What checking out of a slot gives: the slot afterwards and the result.
/// `Some` stands for a slot whose resource is available.
pub open spec fn checkout_outcome<T>(slot: Option<T>) -> (Option<T>, Result<T, Error>) {
    match slot {
        Some(resource) => (None, Ok(resource)),
        None => (None, Err(Error::AlreadyCheckedOut)),
    }
}

/// What checking `resource` in to a slot gives: the slot afterwards and the
/// result.
pub open spec fn checkin_outcome<T>(slot: Option<T>, resource: T) -> (Option<T>, Result<(), Error>) {
    match slot {
        Some(_) => (slot, Err(Error::AlreadyPresent)),
        None => (Some(resource), Ok(())),
    }
}

/// Holds one resource for the broker.
#[derive(Debug)]
pub struct ResourceSlot<T> {
    resource: Option<T>,
}

impl<T> ResourceSlot<T> {
    /// The resource, while it is available.
    pub closed spec fn view(&self) -> Option<T> {
        self.resource
    }

    /// A slot whose resource is available.
    pub fn new(resource: T) -> (slot: ResourceSlot<T>)
        ensures
            slot@ == Some(resource),
    {
        ResourceSlot { resource: Some(resource) }
    }

    /// Whether the resource is available.
    pub fn is_available(&self) -> (available: bool)
        ensures
            available == self@.is_some(),
    {
        self.resource.is_some()
    }

    /// Hands the resource out.
    ///
    /// Fails with `AlreadyCheckedOut` while the resource is out.
    pub fn checkout(&mut self) -> (r: Result<T, Error>)
        ensures
            (final(self)@, r) == checkout_outcome(old(self)@),
    {
        with_interrupts_masked(self, (), Self::checkout_masked)
    }

    fn checkout_masked(&mut self, _nothing: ()) -> (r: Result<T, Error>)
        ensures
            (final(self)@, r) == checkout_outcome(old(self)@),
    {
        match self.resource.take() {
            Some(resource) => Ok(resource),
            None => Err(Error::AlreadyCheckedOut),
        }
    }

    /// Takes the resource back.
    ///
    /// Fails with `AlreadyPresent` while the slot still holds its resource;
    /// the slot keeps the one it holds.
    pub fn checkin(&mut self, resource: T) -> (r: Result<(), Error>)
        ensures
            (final(self)@, r) == checkin_outcome(old(self)@, resource),
    {
        with_interrupts_masked(self, resource, Self::checkin_masked)
    }

    fn checkin_masked(&mut self, resource: T) -> (r: Result<(), Error>)
        ensures
            (final(self)@, r) == checkin_outcome(old(self)@, resource),
    {
        if already_owned(self) {
            return Err(Error::AlreadyPresent);
        }
        self.resource = Some(resource);
        Ok(())
    }

    /// The resource in place, while it is available.
    pub fn get_mut(&mut self) -> (resource: Option<&mut T>)
        ensures
            match old(self)@ {
                Some(before) => resource matches Some(inside) && *inside == before && final(self)@
                    == Some(*final(inside)),
                None => resource is None && final(self)@ is None,
            },
    {
        self.resource.as_mut()
    }
}

/// Whether `slot` still holds its resource.
pub fn already_owned<T>(slot: &ResourceSlot<T>) -> (owned: bool)
    ensures
        owned == slot@.is_some(),
{
    slot.is_available()
}

/// A resource is checked out at most once at a time.
///
/// After a checkout that succeeded, checking out again fails with
/// `AlreadyCheckedOut`. Once `resource` has been checked in, the next
/// checkout succeeds and hands out `resource`.
pub proof fn lemma_checkout_is_exclusive<T>(slot: Option<T>, resource: T)
    requires
        checkout_outcome(slot).1 is Ok,
    ensures
        checkout_outcome(checkout_outcome(slot).0) == (
            None::<T>,
            Err::<T, Error>(Error::AlreadyCheckedOut),
        ),
        checkin_outcome(checkout_outcome(slot).0, resource).1 is Ok,
        checkout_outcome(checkin_outcome(checkout_outcome(slot).0, resource).0).1 == Ok::<T, Error>(
            resource,
        ),
{
}

/// A resource that is present cannot be checked in.
///
/// Checking in fails with `AlreadyPresent`, and leaves the slot as it is,
/// both where the resource was never checked out and where it has been
/// checked in since.
pub proof fn lemma_checkin_needs_checkout<T>(slot: Option<T>, resource: T, again: T)
    ensures
        slot is Some ==> checkin_outcome(slot, resource) == (
            slot,
            Err::<(), Error>(Error::AlreadyPresent),
        ),
        checkin_outcome(slot, resource).1 is Ok ==> checkin_outcome(
            checkin_outcome(slot, resource).0,
            again,
        ) == (Some(resource), Err::<(), Error>(Error::AlreadyPresent)),
{
}

} // verus!
