use vstd::prelude::*;

use spin::mutex::{SpinMutex, SpinMutexGuard};

use crate::arch::Arch;

verus! {

#[verifier::external_type_specification]
#[verifier::external_body]
#[verifier::reject_recursive_types(T)]
#[verifier::reject_recursive_types(R)]
pub struct ExSpinMutex<T: ?Sized, R>(SpinMutex<T, R>);

#[verifier::external_type_specification]
#[verifier::external_body]
pub struct ExSpin(spin::relax::Spin);

#[verifier::external_type_specification]
#[verifier::external_body]
#[verifier::reject_recursive_types(T)]
pub struct ExSpinMutexGuard<'a, T: ?Sized>(SpinMutexGuard<'a, T>);

/// Relies on spin's `SpinMutex::new`: an unlocked mutex that owns `data`.
#[verifier::external_body]
pub(crate) fn spin_new<T>(data: T) -> SpinMutex<T> {
    SpinMutex::new(data)
}

/// Relies on spin's `SpinMutex::is_locked`: a snapshot of the lock word, which
/// another core may change at any time.
#[verifier::external_body]
pub(crate) fn spin_is_locked<T>(m: &SpinMutex<T>) -> bool {
    m.is_locked()
}

/// Relies on spin's `SpinMutex::lock`: spins until the lock is taken.
#[verifier::external_body]
fn spin_lock<T>(m: &SpinMutex<T>) -> SpinMutexGuard<'_, T> {
    m.lock()
}

/// Relies on spin's `SpinMutex::get_mut`: the data, reached through an
/// exclusive borrow of the mutex without touching the lock.
#[verifier::external_body]
pub(crate) fn spin_get_mut<T>(m: &mut SpinMutex<T>) -> &mut T {
    m.get_mut()
}

/// Relies on spin's `Deref` for `SpinMutexGuard`: the guarded data.
#[verifier::external_body]
pub(crate) fn spin_guard_data<'b, 'a, T>(g: &'b SpinMutexGuard<'a, T>) -> &'b T {
    &**g
}

/// Relies on spin's `DerefMut` for `SpinMutexGuard`: the guarded data.
#[verifier::external_body]
pub(crate) fn spin_guard_data_mut<'b, 'a, T>(g: &'b mut SpinMutexGuard<'a, T>) -> &'b mut T {
    &mut **g
}

/// Relies on spin's `Drop` for `SpinMutexGuard`: dropping the guard releases
/// the lock.
#[verifier::external_body]
fn spin_release<T>(g: SpinMutexGuard<'_, T>) {
    drop(g)
}

/// Evidence that a spin lock was released; only [`unlock`] makes one.
pub struct Unlocked {
    released: (),
}

/// Takes the spin lock. Interrupts must be masked on the core first, so that
/// no handler on this core can find the lock held by the code it interrupted.
pub(crate) fn acquire<'m, T, A: Arch>(m: &'m SpinMutex<T>, core: &A) -> SpinMutexGuard<'m, T>
    requires
        !core.interrupts_on(),
{
    spin_lock(m)
}

/// Releases the spin lock held through `g`.
pub(crate) fn unlock<T>(g: SpinMutexGuard<'_, T>) -> Unlocked {
    spin_release(g);
    Unlocked { released: () }
}

} // verus!
