use vstd::prelude::*;

use x86_64::structures::gdt::{Descriptor, GlobalDescriptorTable};

use crate::arch::amd64::{KERNEL_CS_IDX, KERNEL_DS_IDX};

verus! {

#[verifier::external_type_specification]
#[verifier::external_body]
pub struct ExGlobalDescriptorTable<const MAX: usize>(GlobalDescriptorTable<MAX>);

#[verifier::external_type_specification]
pub struct ExDescriptor(Descriptor);

/// Raw value of a 64-bit kernel code segment descriptor.
pub const KERNEL_CODE64: u64 = 0x00af9b000000ffff;

/// Raw value of a kernel data segment descriptor.
pub const KERNEL_DATA: u64 = 0x00cf93000000ffff;

/// The raw entries of a descriptor table, the null entry first.
pub uninterp spec fn gdt_entries(gdt: GlobalDescriptorTable<8>) -> Seq<u64>;

/// The privilege level held in a segment descriptor's DPL field.
pub open spec fn dpl_of(value: u64) -> u64 {
    (value >> 45u64) & 3u64
}

/// The value of a descriptor's first table slot.
pub open spec fn low_value(d: Descriptor) -> u64 {
    match d {
        Descriptor::UserSegment(v) => v,
        Descriptor::SystemSegment(v, _) => v,
    }
}

/// The selector of table slot `index` at privilege level `rpl`.
pub open spec fn selector_of(index: u16, rpl: u64) -> int {
    index * 8 + rpl
}

/// Relies on x86_64's `GlobalDescriptorTable::new`: a table of eight slots
/// holding the null entry alone.
#[verifier::external_body]
fn gdt_new() -> (r: GlobalDescriptorTable<8>)
    ensures
        gdt_entries(r) == seq![0u64],
{
    GlobalDescriptorTable::new()
}

/// Relies on x86_64's `Descriptor::kernel_code_segment`.
#[verifier::external_body]
fn kernel_code_segment() -> (r: Descriptor)
    ensures
        r == Descriptor::UserSegment(KERNEL_CODE64),
{
    Descriptor::kernel_code_segment()
}

/// Relies on x86_64's `Descriptor::kernel_data_segment`.
#[verifier::external_body]
fn kernel_data_segment() -> (r: Descriptor)
    ensures
        r == Descriptor::UserSegment(KERNEL_DATA),
{
    Descriptor::kernel_data_segment()
}

/// Relies on x86_64's `GlobalDescriptorTable::append` for a one-slot segment:
/// the value goes in the next free slot, and the selector's raw value is that
/// slot's index with the descriptor's privilege level. It panics on a full table.
#[verifier::external_body]
fn gdt_append(gdt: &mut GlobalDescriptorTable<8>, entry: Descriptor) -> (r: u16)
    requires
        entry matches Descriptor::UserSegment(_),
        gdt_entries(*old(gdt)).len() < 8,
    ensures
        gdt_entries(*final(gdt)) == gdt_entries(*old(gdt)).push(low_value(entry)),
        r as int == selector_of(gdt_entries(*old(gdt)).len() as u16, dpl_of(low_value(entry))),
{
    gdt.append(entry).0
}

/// The descriptor table used at boot, with the selectors of its two segments.
pub struct BootGdt {
    pub gdt: GlobalDescriptorTable<8>,
    pub code_selector: u16,
    pub data_selector: u16,
}

impl BootGdt {
    /// The table holds the null entry, the kernel code segment and the kernel
    /// data segment, and the selectors name those two slots at ring 0.
    pub open spec fn wf(&self) -> bool {
        &&& gdt_entries(self.gdt) == seq![0u64, KERNEL_CODE64, KERNEL_DATA]
        &&& self.code_selector as int == selector_of(KERNEL_CS_IDX, 0)
        &&& self.data_selector as int == selector_of(KERNEL_DS_IDX, 0)
    }
}

/// Builds the boot descriptor table: a kernel code segment and a kernel data
/// segment after the null entry.
pub fn build_boot_gdt() -> (r: BootGdt)
    ensures
        r.wf(),
{
    let mut gdt = gdt_new();
    assert((0x00af9b000000ffffu64 >> 45u64) & 3u64 == 0) by (bit_vector);
    assert((0x00cf93000000ffffu64 >> 45u64) & 3u64 == 0) by (bit_vector);
    let code_selector = gdt_append(&mut gdt, kernel_code_segment());
    let data_selector = gdt_append(&mut gdt, kernel_data_segment());
    assert(gdt_entries(gdt) =~= seq![0u64, KERNEL_CODE64, KERNEL_DATA]);
    BootGdt { gdt, code_selector, data_selector }
}

/// The selector to write into each segment register.
pub struct SegmentLoads {
    pub cs: u16,
    pub ds: u16,
    pub es: u16,
    pub fs: u16,
    pub gs: u16,
    pub ss: u16,
}

/// The segment register values that the boot table calls for: the code
/// segment in CS, the data segment in every other segment register.
pub fn segment_loads(boot: &BootGdt) -> (r: SegmentLoads)
    requires
        boot.wf(),
    ensures
        r.cs == boot.code_selector,
        r.ds == boot.data_selector,
        r.es == boot.data_selector,
        r.fs == boot.data_selector,
        r.gs == boot.data_selector,
        r.ss == boot.data_selector,
        r.cs / 8 == KERNEL_CS_IDX,
        r.ds / 8 == KERNEL_DS_IDX && r.es / 8 == KERNEL_DS_IDX && r.fs / 8 == KERNEL_DS_IDX,
        r.gs / 8 == KERNEL_DS_IDX && r.ss / 8 == KERNEL_DS_IDX,
        gdt_entries(boot.gdt)[(r.cs / 8) as int] == KERNEL_CODE64,
        gdt_entries(boot.gdt)[(r.ds / 8) as int] == KERNEL_DATA,
        gdt_entries(boot.gdt)[(r.es / 8) as int] == KERNEL_DATA,
        gdt_entries(boot.gdt)[(r.fs / 8) as int] == KERNEL_DATA,
        gdt_entries(boot.gdt)[(r.gs / 8) as int] == KERNEL_DATA,
        gdt_entries(boot.gdt)[(r.ss / 8) as int] == KERNEL_DATA,
{
    let code = boot.code_selector;
    let data = boot.data_selector;
    SegmentLoads { cs: code, ds: data, es: data, fs: data, gs: data, ss: data }
}

} // verus!
