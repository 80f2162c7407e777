//! Shared progress sinks: a caller-supplied closure that many readers may
//! invoke, each call serialised by a lock.

use std::sync::{Arc, Mutex};
use vstd::prelude::*;

verus! {

/// Receiver of byte-count increments. Callers implement it, or hand a
/// closure to [`CallbackFun::wrap`].
pub trait ProgressSink: Send {
    fn report(&mut self, bytes: u64);
}

/// A closure `FnMut(u64)` seen as a sink.
pub struct ClosureSink<F> {
    f: F,
}

/// Runs the caller's closure on one increment; what the closure does is the
/// caller's own code.
#[verifier::external_body]
fn run_closure<F: FnMut(u64)>(f: &mut F, bytes: u64) {
    f(bytes)
}

impl<F: FnMut(u64) + Send> ProgressSink for ClosureSink<F> {
    fn report(&mut self, bytes: u64) {
        run_closure(&mut self.f, bytes)
    }
}

/// The sink a caller hands in to receive byte-count increments.
pub type CallbackFunInner = Box<dyn ProgressSink>;

/// `std::sync::Mutex`, carried through as an opaque value.
#[verifier::external_type_specification]
#[verifier::external_body]
#[verifier::reject_recursive_types(T)]
pub struct ExMutex<T: ?Sized>(Mutex<T>);

/// `Mutex::new` puts a value behind an unlocked lock; nothing is claimed of
/// the result.
pub assume_specification<T>[ Mutex::<T>::new ](t: T) -> Mutex<T>;

/// Relies on `Arc::clone`: another pointer to the same allocation.
#[verifier::external_body]
fn share_arc<T: ?Sized>(a: &Arc<T>) -> (r: Arc<T>)
    ensures
        r == *a,
{
    Arc::clone(a)
}

/// A progress sink that can be shared between readers and invoked
/// concurrently.
#[derive(Clone)]
pub struct CallbackFun {
    inner: Arc<Mutex<CallbackFunInner>>,
}

/// Relies on `Mutex::lock`: the call holds the lock while the sink runs, so
/// calls from several threads take turns; a lock poisoned by an earlier
/// panicking call is taken over as it stands. Nothing is claimed of what the
/// sink does. A sink must not call its own handle from inside `report`.
#[verifier::external_body]
fn invoke_locked(inner: &Mutex<CallbackFunInner>, arg: u64) {
    match inner.lock() {
        Ok(mut f) => f.report(arg),
        Err(poisoned) => poisoned.into_inner().report(arg),
    }
}

impl CallbackFun {
    /// A shared handle on the sink `f`.
    pub fn new(f: CallbackFunInner) -> (r: CallbackFun) {
        CallbackFun { inner: Arc::new(Mutex::new(f)) }
    }

    /// Another handle on the same sink.
    pub fn share(&self) -> (r: CallbackFun)
        ensures
            r == *self,
    {
        CallbackFun { inner: share_arc(&self.inner) }
    }

    /// Hands one increment to the sink.
    pub fn call(&self, arg: u64) {
        invoke_locked(&self.inner, arg);
    }

    /// A shared handle on a sink that runs `closure` on each increment.
    pub fn wrap<F>(closure: F) -> (r: CallbackFun) where F: FnMut(u64) + Send + 'static {
        CallbackFun::new(Box::new(ClosureSink { f: closure }))
    }
}

} // verus!
