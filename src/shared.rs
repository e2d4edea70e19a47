//! Values shared between the playing thread and its controllers.
use vstd::prelude::*;

use std::sync::{Arc, Mutex};

verus! {

#[verifier::external_type_specification]
#[verifier::external_body]
#[verifier::reject_recursive_types(T)]
pub struct ExMutex<T: ?Sized>(Mutex<T>);

/// Relies on `Mutex::new`: a lock around `value`.
#[verifier::external_body]
fn new_mutex<T>(value: T) -> (r: Mutex<T>) {
    Mutex::new(value)
}

/// Relies on `Mutex::lock`: replaces the value unless the lock is poisoned.
/// Other threads may change the value at any time, so nothing is said of it.
#[verifier::external_body]
fn mutex_store<T>(m: &Mutex<T>, value: T) -> (r: bool) {
    match m.lock() {
        Ok(mut guard) => {
            *guard = value;
            true
        },
        Err(_) => false,
    }
}

/// Relies on `Mutex::lock`: a copy of the value, or `None` when the lock is
/// poisoned. Other threads may change the value at any time.
#[verifier::external_body]
fn mutex_load<T: Clone>(m: &Mutex<T>) -> (r: Option<T>) {
    m.lock().ok().map(|guard| guard.clone())
}

/// A value behind a lock, shared by reference counting.
#[derive(Debug)]
#[verifier::reject_recursive_types(T)]
pub struct MutableArc<T> {
    data: Arc<Mutex<T>>,
}

impl<T> MutableArc<T> {
    pub fn new(data: T) -> (r: MutableArc<T>) {
        MutableArc { data: Arc::new(new_mutex(data)) }
    }

    /// Replaces the value; `false` when the lock is poisoned.
    pub fn set_data(&self, data: T) -> (r: bool) {
        mutex_store(&*self.data, data)
    }

    /// A copy of the value; `None` when the lock is poisoned.
    pub fn get_data(&self) -> (r: Option<T>)
        where T: Clone,
    {
        mutex_load(&*self.data)
    }
}

impl<T> Clone for MutableArc<T> {
    fn clone(&self) -> (r: Self) {
        MutableArc { data: Arc::clone(&self.data) }
    }
}

} // verus!
