use vstd::prelude::*;

use crate::arch::boot::{bring_up_offset, bring_up_result, BootError, HhdmOffset};

pub mod amd64;
pub mod boot;
pub mod gdt;
pub mod model;

verus! {

/// What each supported CPU architecture provides to the rest of the kernel.
///
/// A value of an implementing type is a handle on the current core; its spec
/// view `interrupts_on` is the core's interrupt-enable flag as the handle last
/// read or set it.
pub trait Arch: Sized {
    const NAME: &'static str;

    /// Size of the kernel stack that the bootloader is asked to provide.
    const KERNEL_STACK_SIZE: usize;

    /// Whether the core delivers maskable interrupts.
    spec fn interrupts_on(&self) -> bool;

    /// Whether nothing but this handle changes the flag, so that its view stays
    /// exact between calls.
    spec fn tracks_flag(&self) -> bool;

    /// Reads the interrupt-enable flag; the handle's view becomes what was read,
    /// and a handle that tracks the flag is left unchanged.
    fn interrupts_enabled(&mut self) -> (r: bool)
        ensures
            r == final(self).interrupts_on(),
            old(self).tracks_flag() ==> *final(self) == *old(self),
    ;

    /// Masks interrupts; a no-op in effect when they are already masked.
    fn disable_interrupts(&mut self)
        ensures
            !final(self).interrupts_on(),
    ;

    /// Unmasks interrupts; a no-op in effect when they are already unmasked.
    fn enable_interrupts(&mut self)
        ensures
            final(self).interrupts_on(),
    ;

    /// Bring-up of this core at entry, from what the bootloader answered:
    /// whether it granted the kernel stack size asked for, and the direct-map
    /// offset it reported, if any. Interrupts are masked first, as no handler is
    /// installed yet. A missing answer is fatal, and the error says which one it
    /// was; the offset is resolved into `hhdm` once, and a resolved offset is
    /// returned.
    fn init(&mut self, stack_granted: bool, hhdm_response: Option<u64>, hhdm: &mut HhdmOffset)
        -> (r: Result<usize, BootError>)
        ensures
            !final(self).interrupts_on(),
            r == bring_up_result(stack_granted, old(hhdm).cached(), hhdm_response),
            final(hhdm).cached() == bring_up_offset(stack_granted, old(hhdm).cached(), hhdm_response),
    ;

    /// Parks the core for good with interrupts masked.
    fn hcf(&mut self)
        ensures
            !final(self).interrupts_on(),
    ;
}

/// Runs `f` on the core with interrupts masked, then puts the interrupt-enable
/// flag back as it was read on entry: when it was read masked, the core goes to
/// `f` as it is and comes back as `f` left it, with nothing masked or unmasked
/// around the call; when it was read enabled, it is enabled again afterwards.
pub fn without_interrupts<A: Arch, R, F: FnOnce(A) -> (A, R)>(start: A, f: F) -> (r: (A, R))
    requires
        forall|c: A| !c.interrupts_on() ==> #[trigger] call_requires(f, (c,)),
    ensures
        exists|c_in: A, c_out: A|
            {
                &&& !c_in.interrupts_on()
                &&& #[trigger] call_ensures(f, (c_in,), (c_out, r.1))
                &&& r.0 == c_out || r.0.interrupts_on()
                &&& start.tracks_flag() && !start.interrupts_on() ==> c_in == start && r.0 == c_out
            },
        start.tracks_flag() && start.interrupts_on() ==> r.0.interrupts_on(),
{
    let mut core = start;
    let interrupts_enabled = core.interrupts_enabled();
    if interrupts_enabled {
        core.disable_interrupts();
    }
    let ghost c_in = core;
    let (mut core, result) = f(core);
    let ghost c_out = core;
    if interrupts_enabled {
        core.enable_interrupts();
    }
    let r = (core, result);
    assert(call_ensures(f, (c_in,), (c_out, r.1)));
    r
}

} // verus!
