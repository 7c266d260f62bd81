//! The borrow handle that couples a pulled value to its return obligation.

use crate::pool::Pool;
use vstd::prelude::*;

verus! {

/// A handle wrapping one value borrowed from (or destined for) a pool.
///
/// `pooled` records whether the handle carries a pool association: a handle
/// with `pooled == true` owes its value back to a pool, and [`Reusable::release`]
/// discharges that debt; a handle with `pooled == false` owns its value
/// outright and releasing it touches no pool. Exactly one disposition of the
/// value occurs, enforced by moves: both [`Reusable::detach`] and
/// [`Reusable::release`] consume the handle, so neither can follow the other.
pub struct Reusable<T> {
    /// Whether this handle is associated with a pool and owes its value back.
    pub pooled: bool,
    /// The borrowed value; read and written freely while the handle lives.
    pub data: T,
}

impl<T> Reusable<T> {
    /// Wraps `t` in a handle, with (`pooled == true`) or without a pool
    /// association.
    pub fn new(pooled: bool, t: T) -> (r: Reusable<T>)
        ensures
            r.pooled == pooled,
            r.data == t,
    {
        Reusable { pooled, data: t }
    }

    /// Consumes the handle and hands the caller its parts: the pool
    /// association and the value. The handle is gone afterwards, so its
    /// automatic-return obligation cannot also run: the caller now owns the
    /// value and may drop it, attach it, or wrap it in a fresh handle.
    pub fn detach(self) -> (r: (bool, T))
        ensures
            r.0 == self.pooled,
            r.1 == self.data,
    {
        (self.pooled, self.data)
    }

    /// Ends the borrow: a pool-associated handle pushes its value back onto
    /// `pool`'s idle storage; one without an association lets the value go
    /// without touching the pool.
    pub fn release(self, pool: &mut Pool<T>)
        ensures
            self.pooled ==> final(pool)@ == old(pool)@.push(self.data),
            !self.pooled ==> final(pool)@ == old(pool)@,
            final(pool).name@ == old(pool).name@,
            final(pool).cnt_fail == old(pool).cnt_fail,
            final(pool).last_fail == old(pool).last_fail,
    {
        if self.pooled {
            pool.attach(self.data);
        }
    }
}

} // verus!
