//! Static storage for singletons.
//!
//! An [`Arena`] hosts one value for the life of the system. It is sized by the
//! type it hosts, so a placement can never overrun its storage, and it is
//! filled at most once.

use vstd::prelude::*;

verus! {

/// Storage for one singleton of type `T`.
///
/// The field is public so that a static arena can be written as the literal
/// `Arena { slot: None }`; nothing else should assign it.
pub struct Arena<T> {
    pub slot: Option<T>,
}

impl<T> Arena<T> {
    /// What the arena hosts: `None` while it is vacant, the singleton once
    /// it has been placed.
    pub open spec fn view(&self) -> Option<T> {
        self.slot
    }

    /// A vacant arena.
    pub fn new() -> (arena: Self)
        ensures
            arena@ is None,
    {
        Arena { slot: None }
    }

    /// Whether nothing has been placed yet.
    pub fn is_vacant(&self) -> (vacant: bool)
        ensures
            vacant == (self@ is None),
    {
        self.slot.is_none()
    }

    /// Moves `value` into the vacant arena and hands out the exclusive handle
    /// to it. Whatever is later written through the handle is what the arena
    /// holds.
    pub fn init(&mut self, value: T) -> (handle: &mut T)
        requires
            old(self)@ is None,
        ensures
            *handle == value,
            final(self)@ == Some(*final(handle)),
    {
        self.slot.insert(value)
    }

    /// As [`Arena::init`], for a caller that cannot rule out a second
    /// placement: an occupied arena is left as it is and `value` comes back.
    pub fn try_init(&mut self, value: T) -> (placed: Result<&mut T, T>)
        ensures
            old(self)@ is None ==> placed is Ok && *placed->Ok_0 == value && final(self)@ == Some(
                *final(placed->Ok_0),
            ),
            old(self)@ is Some ==> placed == Err::<&mut T, T>(value) && final(self)@ == old(self)@,
    {
        if self.slot.is_none() {
            Ok(self.slot.insert(value))
        } else {
            Err(value)
        }
    }

    /// Shared access to the singleton, if one has been placed.
    pub fn get(&self) -> (found: Option<&T>)
        ensures
            found == match self@ {
                Some(value) => Some(&value),
                None => None,
            },
    {
        self.slot.as_ref()
    }

    /// Exclusive access to the singleton, if one has been placed. The arena
    /// stays occupied, with whatever is written through the handle.
    pub fn get_mut(&mut self) -> (found: Option<&mut T>)
        ensures
            match old(self)@ {
                Some(value) => found is Some && *found->0 == value && final(self)@ == Some(
                    *final(found->0),
                ),
                None => found is None && final(self)@ is None,
            },
    {
        self.slot.as_mut()
    }
}

} // verus!
