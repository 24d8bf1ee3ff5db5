use vstd::prelude::*;

use crate::arch::boot::{hhdm_physical_offset, BootError, HhdmOffset};
use crate::arch::Arch;

verus! {

/// A core whose interrupt-enable flag is a plain value rather than a CPU
/// register: the locking code runs on it unchanged in a hosted process.
pub struct ModelCore {
    pub interrupts_enabled: bool,
    /// Set once the core has been told to halt for good.
    pub halted: bool,
}

impl ModelCore {
    pub fn new(interrupts_enabled: bool) -> (r: ModelCore)
        ensures
            r.interrupts_enabled == interrupts_enabled,
            !r.halted,
    {
        ModelCore { interrupts_enabled, halted: false }
    }
}

impl Arch for ModelCore {
    const NAME: &'static str = "model";

    const KERNEL_STACK_SIZE: usize = 0x8000;

    open spec fn interrupts_on(&self) -> bool {
        self.interrupts_enabled
    }

    open spec fn tracks_flag(&self) -> bool {
        true
    }

    fn interrupts_enabled(&mut self) -> (r: bool) {
        self.interrupts_enabled
    }

    fn disable_interrupts(&mut self) {
        self.interrupts_enabled = false;
    }

    fn enable_interrupts(&mut self) {
        self.interrupts_enabled = true;
    }

    fn init(&mut self, stack_granted: bool, hhdm_response: Option<u64>, hhdm: &mut HhdmOffset)
        -> (r: Result<usize, BootError>)
    {
        self.disable_interrupts();
        if !stack_granted {
            return Err(BootError::StackSizeNotGranted);
        }
        match hhdm_physical_offset(hhdm, hhdm_response) {
            Some(offset) => Ok(offset),
            None => Err(BootError::HhdmOffsetMissing),
        }
    }

    /// Records the halt, with interrupts masked, and hands control back to the host.
    fn hcf(&mut self) {
        self.interrupts_enabled = false;
        self.halted = true;
    }
}

} // verus!
