//! The pool itself: a stack of idle values plus saturation telemetry.

use crate::guard::Reusable;
use std::time::Instant;
use vstd::prelude::*;

verus! {

#[verifier::external_type_specification]
#[verifier::external_body]
pub struct ExInstant(Instant);

/// Relies on std::time::Instant::now: a moment in time, opaque here; nothing
/// is assumed of its value.
#[verifier::external_body]
fn instant_now() -> (r: Instant) {
    Instant::now()
}

/// A fixed-at-creation cache of reusable values.
///
/// The view of a pool is the sequence of its idle values, in stack order:
/// [`Pool::attach`] pushes on the right, [`try_pull`] pops from the right
/// (last in, first out). The initial fill level is not a ceiling: attaching
/// more values than the pool was constructed with is allowed.
pub struct Pool<T> {
    /// The idle values, in stack order: the last element is the next one out.
    pub objects: Vec<T>,
    /// An identifying label for diagnostics; never read by the pool itself.
    pub name: String,
    /// When the pool was last observed empty by [`pull`]; initially the
    /// moment of construction.
    pub last_fail: Instant,
    /// How many times [`pull`] has observed the pool empty.
    pub cnt_fail: usize,
}

impl<T> View for Pool<T> {
    type V = Seq<T>;

    open spec fn view(&self) -> Seq<T> {
        self.objects@
    }
}

impl<T> Pool<T> {
    /// Builds a pool holding exactly `cap` idle values, each produced by one
    /// synchronous call of `init`; the failure counter starts at zero.
    pub fn new<F: Fn() -> T>(name: String, cap: usize, init: F) -> (r: Pool<T>)
        requires
            call_requires(init, ()),
        ensures
            r@.len() == cap,
            forall|i: int| 0 <= i < cap ==> call_ensures(init, (), #[trigger] r@[i]),
            r.name@ == name@,
            r.cnt_fail == 0,
    {
        let mut objects: Vec<T> = Vec::new();
        let mut i: usize = 0;
        while i < cap
            invariant
                i <= cap,
                objects@.len() == i,
                forall|j: int| 0 <= j < i ==> call_ensures(init, (), #[trigger] objects@[j]),
                call_requires(init, ()),
            decreases cap - i,
        {
            objects.push(init());
            i = i + 1;
        }
        Pool { objects, name, last_fail: instant_now(), cnt_fail: 0 }
    }

    /// How many idle values the pool currently holds.
    pub fn len(&self) -> (r: usize)
        ensures
            r == self@.len(),
    {
        self.objects.len()
    }

    /// Whether the pool currently holds no idle value.
    pub fn is_empty(&self) -> (r: bool)
        ensures
            r == (self@.len() == 0),
    {
        self.objects.len() == 0
    }

    /// Pushes `t` onto idle storage unconditionally: the size grows by one,
    /// whatever the pool's initial fill level was.
    pub fn attach(&mut self, t: T)
        ensures
            final(self)@ == old(self)@.push(t),
            final(self).name@ == old(self).name@,
            final(self).cnt_fail == old(self).cnt_fail,
            final(self).last_fail == old(self).last_fail,
    {
        self.objects.push(t);
    }
}

/// Pops the most recently stored idle value, wrapped in a pool-associated
/// handle; comes back empty, with the pool untouched, when no value is idle.
/// Never blocks, never grows the pool, and leaves the telemetry alone.
pub fn try_pull<T>(pool: &mut Pool<T>) -> (r: Option<Reusable<T>>)
    ensures
        old(pool)@.len() == 0 ==> r is None && final(pool)@ == old(pool)@,
        old(pool)@.len() > 0 ==> r == (Some(
            Reusable { pooled: true, data: old(pool)@.last() },
        )) && final(pool)@ == old(pool)@.drop_last(),
        final(pool).name@ == old(pool).name@,
        final(pool).cnt_fail == old(pool).cnt_fail,
        final(pool).last_fail == old(pool).last_fail,
{
    match pool.objects.pop() {
        Some(data) => Some(Reusable::new(true, data)),
        None => None,
    }
}

/// Pulls like [`try_pull`], but never comes back empty: when the pool is
/// saturated (no idle value), the result wraps a fresh value from `fallback`
/// instead, and the saturation is recorded — the failure counter grows by one
/// and the failure timestamp is set to the current time. The pool itself does
/// not grow on that path; only releasing the handle puts the fallback value
/// into idle storage.
pub fn pull<T, F: Fn() -> T>(pool: &mut Pool<T>, fallback: F) -> (r: Reusable<T>)
    requires
        old(pool)@.len() == 0 ==> call_requires(fallback, ()),
        old(pool)@.len() == 0 ==> old(pool).cnt_fail < usize::MAX,
    ensures
        r.pooled,
        old(pool)@.len() > 0 ==> r.data == old(pool)@.last() && final(pool)@ == old(
            pool,
        )@.drop_last() && final(pool).cnt_fail == old(pool).cnt_fail && final(pool).last_fail
            == old(pool).last_fail,
        old(pool)@.len() == 0 ==> call_ensures(fallback, (), r.data) && final(pool)@ == old(pool)@
            && final(pool).cnt_fail == old(pool).cnt_fail + 1,
        final(pool).name@ == old(pool).name@,
{
    match try_pull(pool) {
        Some(r) => r,
        None => {
            pool.cnt_fail = pool.cnt_fail + 1;
            pool.last_fail = instant_now();
            Reusable::new(true, fallback())
        },
    }
}

} // verus!
