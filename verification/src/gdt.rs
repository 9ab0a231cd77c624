//! Task and segment setup: the segment descriptor table (code segment plus
//! task-state segment), the task-state segment whose interrupt stack table
//! gives the double-fault handler a dedicated stack, and the bit-exact
//! encodings of the descriptors the processor reads.

use vstd::prelude::*;

verus! {

/// The slot of the task-state segment's interrupt stack table that holds the
/// double-fault handler's dedicated stack.
pub const DOUBLE_FAULT_IST_INDEX: u16 = 0;

/// Number of interrupt-stack-table slots in a task-state segment.
pub const IST_SLOTS: usize = 7;

/// Number of privilege-stack-table slots in a task-state segment.
pub const PRIVILEGE_STACK_SLOTS: usize = 3;

/// Byte size of the packed 64-bit task-state segment: a 32-bit reserved word,
/// three privilege stack pointers, a 64-bit reserved word, seven interrupt
/// stack pointers, 64+16 reserved bits, and the 16-bit I/O-map base.
pub const TSS_SIZE: usize = 104;

/// A processor protection ring.
#[derive(Clone, Copy, Debug, PartialEq, Eq, Structural)]
pub enum PrivilegeLevel {
    Ring0,
    Ring1,
    Ring2,
    Ring3,
}

impl PrivilegeLevel {
    /// The ring's number, as it appears in selectors and descriptors.
    pub open spec fn as_u16_spec(self) -> u16 {
        match self {
            PrivilegeLevel::Ring0 => 0,
            PrivilegeLevel::Ring1 => 1,
            PrivilegeLevel::Ring2 => 2,
            PrivilegeLevel::Ring3 => 3,
        }
    }

    pub fn as_u16(self) -> (r: u16)
        ensures
            r == self.as_u16_spec(),
    {
        match self {
            PrivilegeLevel::Ring0 => 0,
            PrivilegeLevel::Ring1 => 1,
            PrivilegeLevel::Ring2 => 2,
            PrivilegeLevel::Ring3 => 3,
        }
    }
}

/// An index into a descriptor table together with a requested privilege
/// level, in the packed form the processor's segment registers hold:
/// bits 3.. are the table index, bits 0..2 the privilege level.
#[derive(Clone, Copy, Debug, PartialEq, Eq, Structural)]
pub struct SegmentSelector(pub u16);

impl SegmentSelector {
    /// The descriptor-table index this selector refers to.
    pub open spec fn index_spec(self) -> u16 {
        self.0 / 8
    }

    /// The requested privilege level in bits 0..2.
    pub open spec fn rpl_spec(self) -> u16 {
        self.0 & 0b11
    }

    pub fn new(index: u16, rpl: PrivilegeLevel) -> (r: SegmentSelector)
        requires
            index < 0x2000,
        ensures
            r.0 == index * 8 + rpl.as_u16_spec(),
            r.index_spec() == index,
            r.rpl_spec() == rpl.as_u16_spec(),
    {
        let bits: u16 = (index << 3) | rpl.as_u16();
        proof {
            let v = rpl.as_u16_spec();
            assert((index << 3) | v == index * 8 + v && ((index * 8 + v) as u16) / 8 == index
                && ((index * 8 + v) as u16) & 0b11 == v) by (bit_vector)
                requires
                    index < 0x2000 && v < 4,
            ;
        }
        SegmentSelector(bits)
    }
}


/// The task-state segment: in 64-bit mode it carries the stack pointers the
/// processor switches to on privilege change or through the interrupt stack
/// table, and the I/O-map base. The reserved words of the hardware record
/// are zero and appear only in the packed form the kernel glue keeps in
/// static storage.
pub struct TaskStateSegment {
    /// Stack pointers for rings 0..3, used on privilege-level change.
    pub privilege_stack_table: Vec<u64>,
    /// The interrupt stack table: seven stack-top addresses that table
    /// entries can select by index, independent of the current stack.
    pub interrupt_stack_table: Vec<u64>,
    /// Byte offset of the I/O permission bitmap from the segment's base;
    /// the segment's own size when there is no bitmap.
    pub iomap_base: u16,
}

impl TaskStateSegment {
    pub open spec fn wf(self) -> bool {
        &&& self.privilege_stack_table@.len() == PRIVILEGE_STACK_SLOTS
        &&& self.interrupt_stack_table@.len() == IST_SLOTS
    }

    /// The stack-top address in interrupt-stack-table slot `slot`.
    pub open spec fn ist_spec(self, slot: int) -> u64 {
        self.interrupt_stack_table@[slot]
    }

    /// A segment with zeroed stack tables and no I/O permission bitmap.
    pub fn new() -> (t: TaskStateSegment)
        ensures
            t.wf(),
            forall|i: int| 0 <= i < IST_SLOTS ==> t.ist_spec(i) == 0,
            forall|i: int| 0 <= i < PRIVILEGE_STACK_SLOTS ==> t.privilege_stack_table@[i] == 0,
            t.iomap_base == TSS_SIZE,
    {
        let mut privilege_stack_table: Vec<u64> = Vec::new();
        let mut interrupt_stack_table: Vec<u64> = Vec::new();
        while privilege_stack_table.len() < PRIVILEGE_STACK_SLOTS
            invariant
                privilege_stack_table@.len() <= PRIVILEGE_STACK_SLOTS,
                forall|i: int| 0 <= i < privilege_stack_table@.len()
                    ==> privilege_stack_table@[i] == 0,
            decreases PRIVILEGE_STACK_SLOTS - privilege_stack_table@.len(),
        {
            privilege_stack_table.push(0);
        }
        while interrupt_stack_table.len() < IST_SLOTS
            invariant
                interrupt_stack_table@.len() <= IST_SLOTS,
                forall|i: int| 0 <= i < interrupt_stack_table@.len()
                    ==> interrupt_stack_table@[i] == 0,
            decreases IST_SLOTS - interrupt_stack_table@.len(),
        {
            interrupt_stack_table.push(0);
        }
        TaskStateSegment { privilege_stack_table, interrupt_stack_table, iomap_base: 104 }
    }

    /// Point interrupt-stack-table slot `slot` at `stack_top`; the other
    /// slots and fields keep their values.
    pub fn set_interrupt_stack(&mut self, slot: usize, stack_top: u64)
        requires
            old(self).wf(),
            slot < IST_SLOTS,
        ensures
            final(self).wf(),
            final(self).ist_spec(slot as int) == stack_top,
            final(self).interrupt_stack_table@ == old(self).interrupt_stack_table@.update(
                slot as int,
                stack_top,
            ),
            final(self).privilege_stack_table@ == old(self).privilege_stack_table@,
            final(self).iomap_base == old(self).iomap_base,
    {
        self.interrupt_stack_table.set(slot, stack_top);
    }
}

/// The descriptor word of a flat 64-bit ring-0 code segment: present,
/// executable, long-mode, with the limit and access bits hardware expects
/// of a segment that spans the whole address space.
pub const KERNEL_CODE_DESCRIPTOR: u64 = 0x00af9b000000ffff;

/// The low word of a task-state-segment descriptor with base `base`: the
/// inclusive limit of the 104-byte segment in bits 0..16, base bits 0..24
/// in bits 16..40, type "available 64-bit TSS" (0b1001) in bits 40..44, the
/// presence bit at 47, and base bits 24..32 in bits 56..64.
pub open spec fn tss_descriptor_low_spec(base: u64) -> u64 {
    (TSS_SIZE - 1) as u64 | ((base & 0xff_ffff) << 16) | (0x89u64 << 40) | (
    ((base >> 24) & 0xff) << 56)
}

/// The high word of a task-state-segment descriptor: base bits 32..64 in
/// bits 0..32, the rest zero.
pub open spec fn tss_descriptor_high_spec(base: u64) -> u64 {
    base >> 32
}

/// The base address a task-state-segment descriptor pair points at,
/// reassembled from its three sub-fields.
pub open spec fn tss_descriptor_base(low: u64, high: u64) -> u64 {
    ((low >> 16) & 0xff_ffff) | (((low >> 56) & 0xff) << 24) | ((high & 0xffff_ffff) << 32)
}

/// A task-state-segment descriptor loses nothing of the base address: the
/// sub-fields of the encoded pair reassemble to the base.
pub proof fn lemma_tss_descriptor_round_trip(base: u64)
    by (bit_vector)
    ensures
        tss_descriptor_base(tss_descriptor_low_spec(base), tss_descriptor_high_spec(base))
            == base,
{
}

/// Encode the two descriptor words of an available 64-bit task-state
/// segment with base `tss_base`.
pub fn tss_descriptor(tss_base: u64) -> (r: (u64, u64))
    ensures
        r.0 == tss_descriptor_low_spec(tss_base),
        r.1 == tss_descriptor_high_spec(tss_base),
        tss_descriptor_base(r.0, r.1) == tss_base,
{
    let low: u64 = 103u64 | ((tss_base & 0xff_ffff) << 16) | (0x89u64 << 40) | (
    ((tss_base >> 24) & 0xff) << 56);
    let high: u64 = tss_base >> 32;
    proof {
        let b = tss_base;
        assert(103u64 | ((b & 0xff_ffff) << 16) | (0x89u64 << 40) | (((b >> 24) & 0xff) << 56)
            == (104 - 1) as u64 | ((b & 0xff_ffff) << 16) | (0x89u64 << 40) | (((b >> 24) & 0xff)
            << 56)) by (bit_vector);
        lemma_tss_descriptor_round_trip(b);
    }
    (low, high)
}

/// Number of descriptor-word slots in the segment descriptor table.
pub const GDT_SLOTS: usize = 8;

/// The segment descriptor table: a fixed-capacity sequence of descriptor
/// words, beginning with the mandatory null descriptor. A code segment
/// takes one word, a task-state segment two. Like the interrupt table, it
/// is latched by address and must not move once loaded; the kernel glue
/// keeps it in static storage.
pub struct Gdt {
    pub table: Vec<u64>,
}

impl Gdt {
    pub open spec fn wf(self) -> bool {
        &&& 1 <= self.table@.len() <= GDT_SLOTS
        &&& self.table@[0] == 0
    }

    /// A table holding only the null descriptor.
    pub fn new() -> (r: Gdt)
        ensures
            r.wf(),
            r.table@ =~= seq![0u64],
    {
        let mut table: Vec<u64> = Vec::new();
        table.push(0);
        Gdt { table }
    }

    /// Append the flat ring-0 code-segment descriptor, returning the
    /// selector that refers to it.
    pub fn add_code_segment(&mut self) -> (sel: SegmentSelector)
        requires
            old(self).wf(),
            old(self).table@.len() + 1 <= GDT_SLOTS,
        ensures
            final(self).wf(),
            final(self).table@ == old(self).table@.push(KERNEL_CODE_DESCRIPTOR),
            sel.0 == old(self).table@.len() * 8,
            sel.rpl_spec() == 0,
            sel.index_spec() == old(self).table@.len(),
    {
        let index = self.table.len();
        self.table.push(KERNEL_CODE_DESCRIPTOR);
        SegmentSelector::new(index as u16, PrivilegeLevel::Ring0)
    }

    /// Append the two descriptor words of the task-state segment at
    /// `tss_base`, returning the selector that refers to them.
    pub fn add_tss_segment(&mut self, tss_base: u64) -> (sel: SegmentSelector)
        requires
            old(self).wf(),
            old(self).table@.len() + 2 <= GDT_SLOTS,
        ensures
            final(self).wf(),
            final(self).table@ == old(self).table@.push(tss_descriptor_low_spec(tss_base)).push(
                tss_descriptor_high_spec(tss_base),
            ),
            sel.0 == old(self).table@.len() * 8,
            sel.rpl_spec() == 0,
            sel.index_spec() == old(self).table@.len(),
    {
        let index = self.table.len();
        let (low, high) = tss_descriptor(tss_base);
        self.table.push(low);
        self.table.push(high);
        SegmentSelector::new(index as u16, PrivilegeLevel::Ring0)
    }

    /// The inclusive byte limit the table-register load is given.
    pub fn pointer_limit(&self) -> (r: u16)
        requires
            self.wf(),
        ensures
            r == self.table@.len() * 8 - 1,
    {
        (self.table.len() * 8 - 1) as u16
    }
}

/// The selectors the segment setup hands on: the code segment the
/// interrupt entries reference, and the task-state segment the task
/// register is loaded with.
pub struct Selectors {
    pub code: SegmentSelector,
    pub tss: SegmentSelector,
}

/// Build the task-state segment of the double-fault path: its interrupt
/// stack table points slot `DOUBLE_FAULT_IST_INDEX` at `double_fault_stack_top`,
/// the top of the reserved alternate stack region, so that the double-fault
/// handler runs on that region whatever the kernel stack's state.
pub fn build_tss(double_fault_stack_top: u64) -> (t: TaskStateSegment)
    ensures
        t.wf(),
        t.ist_spec(DOUBLE_FAULT_IST_INDEX as int) == double_fault_stack_top,
        forall|i: int| 0 <= i < IST_SLOTS && i != DOUBLE_FAULT_IST_INDEX ==> t.ist_spec(i) == 0,
        forall|i: int| 0 <= i < PRIVILEGE_STACK_SLOTS ==> t.privilege_stack_table@[i] == 0,
        t.iomap_base == TSS_SIZE,
{
    let mut tss = TaskStateSegment::new();
    let ghost before = tss;
    tss.set_interrupt_stack(DOUBLE_FAULT_IST_INDEX as usize, double_fault_stack_top);
    proof {
        assert forall|i: int|
            0 <= i < IST_SLOTS && i != DOUBLE_FAULT_IST_INDEX implies tss.ist_spec(i) == 0 by {
            assert(tss.interrupt_stack_table@[i] == before.ist_spec(i));
        }
    }
    tss
}

/// Build the segment descriptor table for a task-state segment placed at
/// `tss_base`: the null descriptor, the code-segment descriptor, and the
/// task-state descriptor pair, with the selectors that refer to them.
pub fn build_gdt(tss_base: u64) -> (r: (Gdt, Selectors))
    ensures
        r.0.wf(),
        r.0.table@ =~= seq![
            0u64,
            KERNEL_CODE_DESCRIPTOR,
            tss_descriptor_low_spec(tss_base),
            tss_descriptor_high_spec(tss_base),
        ],
        r.1.code.0 == 8,
        r.1.tss.0 == 16,
{
    let mut gdt = Gdt::new();
    let code = gdt.add_code_segment();
    let tss = gdt.add_tss_segment(tss_base);
    (gdt, Selectors { code, tss })
}

} // verus!
