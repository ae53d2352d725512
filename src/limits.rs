//! The memory budget of one decode request.
use vstd::prelude::*;
use crate::error::{ImageError, LimitErrorKind};

verus! {

/// A shrink-only budget for the bytes that a decode may allocate. `max_alloc` is `None` where
/// the budget is unbounded.
#[derive(Clone, Copy, Debug, PartialEq, Eq, Structural)]
pub struct Limits {
    pub max_alloc: Option<u64>,
}

impl Limits {
    /// The budget left once `amount` bytes are taken from `self`, or `None` where a bounded
    /// budget cannot cover them. An unbounded budget covers any amount and stays unbounded.
    pub open spec fn after_reserve(self, amount: u64) -> Option<Limits> {
        match self.max_alloc {
            None => Some(self),
            Some(max) => if max < amount {
                None
            } else {
                Some(Limits { max_alloc: Some((max - amount) as u64) })
            },
        }
    }

    /// An unbounded budget.
    pub fn no_limits() -> (r: Limits)
        ensures
            r.max_alloc is None,
    {
        Limits { max_alloc: None }
    }

    /// A budget of `max_alloc` bytes.
    pub fn with_max_alloc(max_alloc: u64) -> (r: Limits)
        ensures
            r.max_alloc == Some(max_alloc),
    {
        Limits { max_alloc: Some(max_alloc) }
    }

    /// Takes `amount` bytes from the budget. Where a bounded budget holds fewer, the budget is
    /// left as it was and the request fails with insufficient memory.
    pub fn reserve(&mut self, amount: u64) -> (r: Result<(), ImageError>)
        ensures
            match old(self).after_reserve(amount) {
                Some(rest) => r is Ok && *final(self) == rest,
                None => r == Err::<(), ImageError>(ImageError::Limits(LimitErrorKind::InsufficientMemory))
                    && *final(self) == *old(self),
            },
    {
        match self.max_alloc {
            None => Ok(()),
            Some(max) => {
                if max < amount {
                    Err(ImageError::Limits(LimitErrorKind::InsufficientMemory))
                } else {
                    self.max_alloc = Some(max - amount);
                    Ok(())
                }
            },
        }
    }
}

impl Default for Limits {
    /// An unbounded budget.
    fn default() -> (r: Limits)
        ensures
            r.max_alloc is None,
    {
        Limits::no_limits()
    }
}

} // verus!
