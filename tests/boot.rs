use bootcore::arch::amd64::{X86_64, KERNEL_CS_IDX, KERNEL_DS_IDX, KERNEL_STACK_SIZE};
use bootcore::arch::boot::{hhdm_physical_offset, BootError, HhdmOffset};
use bootcore::arch::Arch;
use bootcore::arch::gdt::{build_boot_gdt, segment_loads, KERNEL_CODE64, KERNEL_DATA};
use bootcore::arch::model::ModelCore;
use bootcore::util::lock::IrqMutex;
use bootcore::logging::{level_tag, LogLevel};
use bootcore::util::error::{Errno, KError};

#[test]
fn offset_is_resolved_once() {
    let mut h = HhdmOffset::new();
    assert_eq!(hhdm_physical_offset(&mut h, Some(0xffff_8000_0000_0000)), Some(0xffff_8000_0000_0000));
    assert_eq!(hhdm_physical_offset(&mut h, Some(0x1000)), Some(0xffff_8000_0000_0000));
    assert_eq!(hhdm_physical_offset(&mut h, None), Some(0xffff_8000_0000_0000));
}

#[test]
fn missing_offset_is_not_cached() {
    let mut h = HhdmOffset::new();
    assert_eq!(hhdm_physical_offset(&mut h, None), None);
    assert_eq!(hhdm_physical_offset(&mut h, Some(0x2000)), Some(0x2000));
}

#[test]
fn boot_constants() {
    assert_eq!(KERNEL_STACK_SIZE, 0x8000);
    assert_eq!(KERNEL_CS_IDX, 1);
    assert_eq!(KERNEL_DS_IDX, 2);
    assert_ne!(BootError::StackSizeNotGranted, BootError::HhdmOffsetMissing);
    assert_eq!(<X86_64 as Arch>::NAME, "x86_64");
    assert_eq!(<X86_64 as Arch>::KERNEL_STACK_SIZE, KERNEL_STACK_SIZE);
}

#[test]
fn level_tags() {
    assert_eq!(level_tag(LogLevel::Error), "\x1b[1;31mERROR\x1b[0m");
    assert_eq!(level_tag(LogLevel::Warn), "\x1b[1;33mWARN\x1b[0m");
    assert_eq!(level_tag(LogLevel::Info), "\x1b[1;34mINFO\x1b[0m");
    assert_eq!(level_tag(LogLevel::Debug), "\x1b[1;32mDEBUG\x1b[0m");
    assert_eq!(level_tag(LogLevel::Trace), "\x1b[1;37mTRACE\x1b[0m");
}

#[test]
fn error_constructors() {
    let e = KError::new(Some("bad"), Some(Errno(22)));
    assert_eq!(e.message(), Some("bad"));
    assert_eq!(e.errno(), Some(Errno(22)));
    let e = KError::from_errno(Errno(12));
    assert_eq!(e.message(), None);
    assert_eq!(e.errno(), Some(Errno(12)));
    let e = KError::from_message("oops");
    assert_eq!(e.message(), Some("oops"));
    assert_eq!(e.errno(), None);
    assert_eq!(KError::from("x"), KError::from_message("x"));
    assert_eq!(KError::from(Errno(1)), KError::from_errno(Errno(1)));
}

#[test]
fn init_then_lock_cycle() {
    let mut core = ModelCore::new(true);
    let mut h = HhdmOffset::new();
    assert_eq!(core.init(true, Some(0xffff_8000_0000_0000), &mut h), Ok(0xffff_8000_0000_0000));
    assert!(!core.interrupts_enabled);
    assert_eq!(hhdm_physical_offset(&mut h, Some(0x1234)), Some(0xffff_8000_0000_0000));
    assert_eq!(hhdm_physical_offset(&mut h, None), Some(0xffff_8000_0000_0000));

    let m = IrqMutex::new(0u64);
    let g = m.lock(&mut core).expect("free mutex");
    g.release(&mut core);
    assert!(!m.is_locked());
    assert!(!core.interrupts_enabled);
}

#[test]
fn init_without_stack_grant_fails() {
    let mut core = ModelCore::new(true);
    let mut h = HhdmOffset::new();
    assert_eq!(core.init(false, Some(0x1000), &mut h), Err(BootError::StackSizeNotGranted));
    assert!(!core.interrupts_enabled);
    assert_eq!(hhdm_physical_offset(&mut h, None), None);
}

#[test]
fn init_without_offset_fails() {
    let mut core = ModelCore::new(false);
    let mut h = HhdmOffset::new();
    assert_eq!(core.init(true, None, &mut h), Err(BootError::HhdmOffsetMissing));
    assert!(!core.interrupts_enabled);
}

#[test]
fn boot_gdt_selectors() {
    let boot = build_boot_gdt();
    assert_eq!(boot.code_selector, 8);
    assert_eq!(boot.data_selector, 16);
    let entries = boot.gdt.entries();
    assert_eq!(entries.len(), 3);
    assert_eq!(entries[1].raw(), KERNEL_CODE64);
    assert_eq!(entries[2].raw(), KERNEL_DATA);
}

#[test]
fn segment_registers_point_at_kernel_entries() {
    let boot = build_boot_gdt();
    let loads = segment_loads(&boot);
    assert_eq!(loads.cs >> 3, KERNEL_CS_IDX);
    for sel in [loads.ds, loads.es, loads.fs, loads.gs, loads.ss] {
        assert_eq!(sel >> 3, KERNEL_DS_IDX);
        assert_eq!(sel & 3, 0);
    }
    assert_eq!(loads.cs & 3, 0);
}

#[test]
fn error_text_form() {
    assert_eq!(KError::new(Some("bad"), Some(Errno(22))).describe(), "bad (22)");
    assert_eq!(KError::from_message("oops").describe(), "oops");
    assert_eq!(KError::from_errno(Errno(-5)).describe(), " (-5)");
    assert_eq!(KError::new(None, None).describe(), "");
    assert_eq!(KError::from_errno(Errno(0)).describe(), " (0)");
    assert_eq!(KError::from_errno(Errno(i32::MIN)).describe(), " (-2147483648)");
}
