//! An object pool with automatic-return and attach/detach semantics.
//!
//! A [`Pool`] holds a stack of idle, pre-constructed values. A caller borrows
//! a value through [`try_pull`] (non-blocking, may come back empty) or
//! [`pull`] (always yields a value, falling back to a caller-supplied
//! factory when the pool is saturated). A borrowed value travels inside a
//! [`Reusable`] handle; the handle is given back to the pool with
//! [`Reusable::release`], or stripped of its return obligation with
//! [`Reusable::detach`], which hands the caller direct ownership.
//!
//! Returned values are not reset: a caller that needs a clean value clears
//! it after pulling.

pub mod guard;
pub mod laws;
pub mod pool;

pub use guard::Reusable;
pub use pool::pull;
pub use pool::try_pull;
pub use pool::Pool;
