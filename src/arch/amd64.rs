use vstd::prelude::*;

use x86_64::instructions;
use x86_64::instructions::interrupts;

use core::sync::atomic::{AtomicBool, Ordering};

use crate::arch::boot::{hhdm_physical_offset, BootError, HhdmOffset};
use crate::arch::Arch;

verus! {

/// Size of the kernel stack that the bootloader is asked to provide.
pub const KERNEL_STACK_SIZE: usize = 0x8000;

/// Slots of the descriptor table; only the kernel code and data segments are
/// filled at boot.
pub const KERNEL_CS_IDX: u16 = 1;
pub const KERNEL_DS_IDX: u16 = 2;
pub const TSS_IDX: u16 = 3;
pub const USER_DS_IDX: u16 = 5;
pub const USER_CS_IDX: u16 = 6;

/// A handle on an x86_64 core. Its ghost flag is the CPU's interrupt-enable
/// flag as this handle last read or wrote it. Code elsewhere may change the CPU
/// flag in between (another handle, an interrupt handler), so the handle does
/// not claim to track it: see `tracks_flag`.
pub struct X86_64 {
    interrupts: Ghost<bool>,
}

/// Relies on x86_64's `interrupts::are_enabled`: it reads the IF bit of RFLAGS;
/// the handle records what was read.
#[verifier::external_body]
fn read_interrupt_flag(core: &mut X86_64) -> (r: bool)
    ensures
        final(core).interrupts@ == r,
{
    interrupts::are_enabled()
}

/// Relies on x86_64's `interrupts::disable`: `cli` clears the IF bit; the
/// handle records that.
#[verifier::external_body]
fn clear_interrupt_flag(core: &mut X86_64)
    ensures
        !final(core).interrupts@,
{
    interrupts::disable()
}

/// Relies on x86_64's `interrupts::enable`: `sti` sets the IF bit; the handle
/// records that.
#[verifier::external_body]
fn set_interrupt_flag(core: &mut X86_64)
    ensures
        final(core).interrupts@,
{
    interrupts::enable()
}

/// Relies on x86_64's `instructions::hlt`: waits for the next interrupt.
#[verifier::external_body]
fn halt() {
    instructions::hlt()
}

impl X86_64 {
    /// The handle on the core that runs this code, handed out by the first
    /// claim on the core's latch only; every later claim gets `None`. The kernel
    /// keeps one latch per core.
    pub fn claim(latch: &AtomicBool) -> (r: Option<X86_64>) {
        if latch.swap(true, Ordering::AcqRel) {
            None
        } else {
            Some(X86_64 { interrupts: Ghost(arbitrary()) })
        }
    }
}

impl Arch for X86_64 {
    const NAME: &'static str = "x86_64";

    const KERNEL_STACK_SIZE: usize = KERNEL_STACK_SIZE;

    closed spec fn interrupts_on(&self) -> bool {
        self.interrupts@
    }

    open spec fn tracks_flag(&self) -> bool {
        false
    }

    fn interrupts_enabled(&mut self) -> (r: bool) {
        read_interrupt_flag(self)
    }

    fn disable_interrupts(&mut self) {
        clear_interrupt_flag(self)
    }

    fn enable_interrupts(&mut self) {
        set_interrupt_flag(self)
    }

    fn init(&mut self, stack_granted: bool, hhdm_response: Option<u64>, hhdm: &mut HhdmOffset)
        -> (r: Result<usize, BootError>)
    {
        self.disable_interrupts();
        if !stack_granted {
            return Err(BootError::StackSizeNotGranted);
        }
        match hhdm_physical_offset(hhdm, hhdm_response) {
            Some(offset) => Ok(offset),
            None => Err(BootError::HhdmOffsetMissing),
        }
    }

    /// Masks interrupts and halts, pass after pass: with interrupts masked only
    /// a non-maskable interrupt wakes the core, so the passes outlast any run
    /// of the machine.
    fn hcf(&mut self) {
        let mut pass: u64 = 0;
        clear_interrupt_flag(self);
        while pass < u64::MAX
            invariant
                !self.interrupts_on(),
            decreases u64::MAX - pass,
        {
            clear_interrupt_flag(self);
            halt();
            pass = pass + 1;
        }
    }
}

} // verus!
