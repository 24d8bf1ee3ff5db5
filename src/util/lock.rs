use vstd::prelude::*;

use spin::mutex::{SpinMutex, SpinMutexGuard};

use crate::util::spin_lock::{
    acquire, spin_get_mut, spin_guard_data, spin_guard_data_mut, spin_is_locked, spin_new, unlock,
    Unlocked,
};

use crate::arch::Arch;

verus! {

/// The interrupt-enable flag of a core, as it was when it was saved.
pub struct SavedInterruptStatus {
    interrupts_enabled: bool,
}

impl SavedInterruptStatus {
    /// Whether interrupts were enabled when the status was saved.
    pub closed spec fn was_enabled(&self) -> bool {
        self.interrupts_enabled
    }

    /// Saves the current interrupt-enable flag.
    pub fn save<A: Arch>(core: &mut A) -> (r: SavedInterruptStatus)
        ensures
            r.was_enabled() == final(core).interrupts_on(),
            old(core).tracks_flag() ==> *final(core) == *old(core),
    {
        SavedInterruptStatus { interrupts_enabled: core.interrupts_enabled() }
    }

    /// Puts the interrupt-enable flag back to the saved value, enabled only if
    /// it was enabled, once the lock it was saved for is released.
    pub fn restore<A: Arch>(self, core: &mut A, released: Unlocked)
        ensures
            final(core).interrupts_on() == self.was_enabled(),
    {
        if self.interrupts_enabled {
            core.enable_interrupts();
        } else {
            core.disable_interrupts();
        }
    }
}

/// A mutex that keeps interrupts masked on the holding core for as long as it
/// is held.
#[verifier::reject_recursive_types(T)]
pub struct IrqMutex<T> {
    inner: SpinMutex<T>,
}

impl<T> IrqMutex<T> {
    /// An unlocked mutex that owns `data`.
    pub fn new(data: T) -> (r: IrqMutex<T>) {
        IrqMutex { inner: spin_new(data) }
    }

    /// The data, reached without locking through an exclusive borrow of the mutex.
    pub fn get_mut(&mut self) -> &mut T {
        spin_get_mut(&mut self.inner)
    }

    /// The spin lock underneath, for recovery code only: breaking a stuck
    /// lock, or printing from a panic. Taking it directly bypasses the masking
    /// of interrupts that [`IrqMutex::lock`] does.
    pub fn raw(&self) -> &SpinMutex<T> {
        &self.inner
    }

    /// Whether the mutex is held, as seen at the moment of the call.
    pub fn is_locked(&self) -> bool {
        spin_is_locked(&self.inner)
    }

    /// Locks the mutex, or returns `None` without touching the core when it is
    /// held already.
    pub fn try_lock<A: Arch>(&self, core: &mut A) -> (r: Option<IrqMutexGuard<'_, T>>)
        ensures
            r is None ==> *final(core) == *old(core),
            r matches Some(g) ==> (old(core).tracks_flag() ==> g.saved_interrupts() == old(core).interrupts_on())
                && !final(core).interrupts_on(),
    {
        match self.lock(core) {
            Ok(g) => Some(g),
            Err(_) => None,
        }
    }

    /// Locks the mutex: saves the interrupt-enable flag, masks interrupts, then
    /// takes the spin lock. A mutex already held on this core can only be a
    /// deadlock, as nothing else runs here to release it: that is reported,
    /// with the core and the mutex left as they were.
    pub fn lock<A: Arch>(&self, core: &mut A) -> (r: Result<IrqMutexGuard<'_, T>, LockError>)
        ensures
            r is Err ==> *final(core) == *old(core),
            r matches Ok(g) ==> (old(core).tracks_flag() ==> g.saved_interrupts() == old(core).interrupts_on())
                && !final(core).interrupts_on(),
    {
        if spin_is_locked(&self.inner) {
            return Err(LockError::Deadlock);
        }
        let saved_status = SavedInterruptStatus::save(core);
        core.disable_interrupts();
        let guard = acquire(&self.inner, core);
        Ok(IrqMutexGuard { inner: guard, saved_status })
    }
}

/// Why a mutex could not be locked.
#[derive(Clone, Copy, PartialEq, Eq, Debug)]
pub enum LockError {
    /// The mutex is held already: on this core, waiting could never end.
    Deadlock,
}

/// Exclusive access to the data of an [`IrqMutex`], together with the
/// interrupt-enable flag to put back on release.
#[verifier::reject_recursive_types(T)]
pub struct IrqMutexGuard<'a, T> {
    inner: SpinMutexGuard<'a, T>,
    saved_status: SavedInterruptStatus,
}

impl<'a, T> IrqMutexGuard<'a, T> {
    /// Whether interrupts were enabled just before the mutex was locked.
    pub closed spec fn saved_interrupts(&self) -> bool {
        self.saved_status.was_enabled()
    }

    pub fn data(&self) -> &T {
        spin_guard_data(&self.inner)
    }

    pub fn data_mut(&mut self) -> &mut T {
        spin_guard_data_mut(&mut self.inner)
    }

    /// Releases the mutex: first the lock itself, then the interrupt-enable
    /// flag goes back to what it was before locking.
    pub fn release<A: Arch>(self, core: &mut A)
        ensures
            final(core).interrupts_on() == self.saved_interrupts(),
    {
        let IrqMutexGuard { inner, saved_status } = self;
        let released = unlock(inner);
        saved_status.restore(core, released);
    }
}

} // verus!
