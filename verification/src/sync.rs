//! A mutex over the standard one, with every operation of it that returns
//! at once.
//!
//! Waiting for the lock is not among them. It is the one operation that can
//! block, so a real-time context must not reach it unreported, and the
//! standard mutex does not return from it, or panics, when the calling
//! thread holds the lock already. Neither the report nor that condition can
//! be had here: the program around this library reports the call and then
//! waits on the standard mutex, which [`Mutex::inner`] hands out.
//!
//! The value inside a mutex is shared: any holder of a reference may lock
//! it and change the value or poison the mutex between two calls. What a
//! call finds therefore depends on more than its arguments, and the
//! operations state nothing of it.

use vstd::prelude::*;

verus! {

/// `std::sync::Mutex`, carried as an opaque value.
#[verifier::external_type_specification]
#[verifier::external_body]
#[verifier::reject_recursive_types(T)]
pub struct ExStdMutex<T: ?Sized>(std::sync::Mutex<T>);

/// `std::sync::MutexGuard`, carried as an opaque value.
#[verifier::external_type_specification]
#[verifier::external_body]
#[verifier::reject_recursive_types(T)]
pub struct ExStdMutexGuard<'a, T: ?Sized + 'a>(std::sync::MutexGuard<'a, T>);

/// `std::sync::PoisonError`, carried as an opaque value.
#[verifier::external_type_specification]
#[verifier::external_body]
#[verifier::reject_recursive_types(T)]
pub struct ExStdPoisonError<T>(std::sync::PoisonError<T>);

/// `std::sync::TryLockError`, carried as an opaque value.
#[verifier::external_type_specification]
#[verifier::external_body]
#[verifier::reject_recursive_types(T)]
pub struct ExStdTryLockError<T>(std::sync::TryLockError<T>);

/// `std::sync::Mutex::new`. Nothing is claimed of the mutex it makes.
pub assume_specification<T>[ std::sync::Mutex::<T>::new ](t: T) -> (m: std::sync::Mutex<T>);

/// `std::sync::Mutex::try_lock`. Nothing is claimed of what it returns.
pub assume_specification<'a, T: ?Sized>[ std::sync::Mutex::<T>::try_lock ](
    m: &'a std::sync::Mutex<T>,
) -> (r: std::sync::TryLockResult<std::sync::MutexGuard<'a, T>>);

/// `std::sync::Mutex::is_poisoned`. Nothing is claimed of what it returns.
pub assume_specification<T: ?Sized>[ std::sync::Mutex::<T>::is_poisoned ](
    m: &std::sync::Mutex<T>,
) -> (r: bool);

/// `std::sync::Mutex::clear_poison`.
pub assume_specification<T: ?Sized>[ std::sync::Mutex::<T>::clear_poison ](
    m: &std::sync::Mutex<T>,
);

/// `std::sync::Mutex::get_mut`. Nothing is claimed of what it returns.
pub assume_specification<'a, T: ?Sized>[ std::sync::Mutex::<T>::get_mut ](
    m: &'a mut std::sync::Mutex<T>,
) -> (r: std::sync::LockResult<&'a mut T>);

/// `std::sync::Mutex::into_inner`. Nothing is claimed of what it returns.
#[verifier::external_body]
fn std_into_inner<T>(m: std::sync::Mutex<T>) -> (r: std::sync::LockResult<T>) {
    m.into_inner()
}

/// A mutual exclusion lock around a value of type `T`.
#[verifier::reject_recursive_types(T)]
pub struct Mutex<T: ?Sized> {
    inner: std::sync::Mutex<T>,
}

impl<T> Mutex<T> {
    /// Makes a mutex that holds `t`, unlocked.
    pub fn new(t: T) -> Self {
        Self { inner: std::sync::Mutex::new(t) }
    }

    /// The standard mutex that this one is made of.
    pub closed spec fn wrapped(&self) -> std::sync::Mutex<T> {
        self.inner
    }

    /// The standard mutex inside, for the one operation that this type
    /// does not have: waiting for the lock.
    pub fn inner(&self) -> (std_mutex: &std::sync::Mutex<T>)
        ensures
            *std_mutex == self.wrapped(),
    {
        &self.inner
    }

    /// Takes the lock if it is free, and fails at once if it is not.
    pub fn try_lock(&self) -> std::sync::TryLockResult<std::sync::MutexGuard<'_, T>> {
        self.inner.try_lock()
    }

    /// Whether a holder of the lock has panicked.
    pub fn is_poisoned(&self) -> bool {
        self.inner.is_poisoned()
    }

    /// Marks the mutex as no longer poisoned.
    pub fn clear_poison(&self) {
        self.inner.clear_poison();
    }

    /// The value inside, without locking: the exclusive borrow shows that
    /// nobody else holds it.
    pub fn get_mut(&mut self) -> Result<&mut T, std::sync::PoisonError<&mut T>> {
        self.inner.get_mut()
    }

    /// Gives up the mutex for the value inside.
    pub fn into_innter(self) -> std::sync::LockResult<T> {
        std_into_inner(self.inner)
    }
}

} // verus!
