//! The interrupt descriptor table and its entries, bit-exact to the layout
//! the processor reads: for each vector a 16-byte record holding the handler
//! address split into three sub-fields, a code-segment selector, and a 16-bit
//! options field (presence, privilege level, gate kind, stack-table index).

use vstd::prelude::*;

use crate::gdt::SegmentSelector;

verus! {

/// A 64-bit virtual address: the entry point of an exception handler.
#[derive(Clone, Copy, Debug, PartialEq, Eq, Structural)]
pub struct VirtAddr(pub u64);

impl VirtAddr {
    pub fn new(addr: u64) -> (r: VirtAddr)
        ensures
            r.0 == addr,
    {
        VirtAddr(addr)
    }
}

/// A value that designates an exception handler's entry point. The kernel
/// glue implements the conversion for its raw handler functions; here the
/// address itself is already a handler designation.
pub trait HandlerType {
    /// The entry-point address this handler designates.
    spec fn addr_spec(self) -> u64;

    fn to_virt_addr(self) -> (r: VirtAddr)
        ensures
            r.0 == self.addr_spec(),
    ;
}

impl HandlerType for VirtAddr {
    open spec fn addr_spec(self) -> u64 {
        self.0
    }

    fn to_virt_addr(self) -> (r: VirtAddr) {
        self
    }
}

/// The 16-bit options field of a table entry. Hardware layout:
/// bit 15 presence, bits 13..15 privilege level, bit 12 zero, bits 9..12
/// fixed to ones, bit 8 clear for an interrupt gate (further interrupts
/// disabled on entry) and set for a trap gate, bits 3..8 zero, and bits 0..3
/// the interrupt-stack-table field, where zero means "stay on the current
/// stack" and `n + 1` selects stack-table slot `n`.
#[derive(Clone, Copy, Debug, PartialEq, Eq, Structural)]
pub struct EntryOptions(pub u16);

/// Bits 9..12 of an options field, which hardware requires to be ones.
pub const OPTIONS_RESERVED_ONES: u16 = 0x0e00;

/// An options field with presence set and further interrupts disabled on
/// entry: bit 15 and bits 9..12.
pub const OPTIONS_PRESENT_INTERRUPT_GATE: u16 = 0x8e00;

impl EntryOptions {
    /// The raw 16-bit field.
    pub open spec fn bits(self) -> u16 {
        self.0
    }

    /// The value `minimal()` returns.
    pub open spec fn minimal_spec() -> EntryOptions {
        EntryOptions(OPTIONS_RESERVED_ONES)
    }

    /// The value `new()` returns.
    pub open spec fn new_spec() -> EntryOptions {
        EntryOptions(OPTIONS_PRESENT_INTERRUPT_GATE)
    }

    /// The presence flag, bit 15. Hardware dispatches through an entry only
    /// when it is set.
    pub open spec fn is_present(self) -> bool {
        self.bits() >> 15 & 1 == 1
    }

    /// The descriptor privilege level, bits 13..15.
    pub open spec fn privilege_level(self) -> u16 {
        self.bits() >> 13 & 0b11
    }

    /// Whether further interrupts stay enabled while the handler runs:
    /// bit 8 set makes the entry a trap gate, clear an interrupt gate.
    pub open spec fn interrupts_enabled_on_entry(self) -> bool {
        self.bits() >> 8 & 1 == 1
    }

    /// The interrupt-stack-table field, bits 0..3: zero for "no stack
    /// switch", `n + 1` to run the handler on stack-table slot `n`.
    pub open spec fn ist_field(self) -> u16 {
        self.bits() & 0b111
    }

    /// Whether the bits the hardware fixes are as it requires: bits 9..12
    /// ones, and bits 3..8 and 12 zero.
    pub open spec fn fixed_bits_ok(self) -> bool {
        self.bits() & 0x1ef8 == OPTIONS_RESERVED_ONES
    }

    /// An options field with only the hardware-mandated one-bits set: not
    /// present, privilege level zero, interrupt gate, no stack switch.
    pub fn minimal() -> (r: Self)
        ensures
            r == Self::minimal_spec(),
            r.bits() == OPTIONS_RESERVED_ONES,
            !r.is_present(),
            r.privilege_level() == 0,
            !r.interrupts_enabled_on_entry(),
            r.ist_field() == 0,
            r.fixed_bits_ok(),
    {
        proof {
            assert(0x0e00u16 >> 15 & 1 == 0 && 0x0e00u16 >> 13 & 0b11 == 0
                && 0x0e00u16 >> 8 & 1 == 0 && 0x0e00u16 & 0b111 == 0
                && 0x0e00u16 & 0x1ef8 == 0x0e00) by (bit_vector);
        }
        EntryOptions(OPTIONS_RESERVED_ONES)
    }

    /// The options of a freshly installed handler: present, privilege level
    /// zero, an interrupt gate, no stack switch.
    pub fn new() -> (r: Self)
        ensures
            r == Self::new_spec(),
            r.bits() == OPTIONS_PRESENT_INTERRUPT_GATE,
            r.is_present(),
            r.privilege_level() == 0,
            !r.interrupts_enabled_on_entry(),
            r.ist_field() == 0,
            r.fixed_bits_ok(),
    {
        let mut options = Self::minimal();
        options.set_present(true);
        options.disable_interrupts(true);
        proof {
            assert((0x0e00u16 | 0x8000) & 0xfeff == 0x8e00) by (bit_vector);
            assert(0x8e00u16 >> 15 & 1 == 1 && 0x8e00u16 >> 13 & 0b11 == 0
                && 0x8e00u16 >> 8 & 1 == 0 && 0x8e00u16 & 0b111 == 0
                && 0x8e00u16 & 0x1ef8 == 0x0e00) by (bit_vector);
        }
        options
    }

    /// Set or clear the presence flag; the other fields keep their values.
    pub fn set_present(&mut self, present: bool)
        ensures
            final(self).bits() == (if present {
                old(self).bits() | 0x8000
            } else {
                old(self).bits() & 0x7fff
            }),
            final(self).is_present() == present,
            final(self).privilege_level() == old(self).privilege_level(),
            final(self).interrupts_enabled_on_entry() == old(
                self,
            ).interrupts_enabled_on_entry(),
            final(self).ist_field() == old(self).ist_field(),
            final(self).fixed_bits_ok() == old(self).fixed_bits_ok(),
    {
        let b = self.0;
        self.0 = if present {
            b | 0x8000
        } else {
            b & 0x7fff
        };
        proof {
            let a = self.0;
            assert((b | 0x8000) >> 15 & 1 == 1 && (b & 0x7fff) >> 15 & 1 == 0) by (bit_vector);
            assert(a == (b | 0x8000) || a == (b & 0x7fff) ==> a >> 13 & 0b11 == b >> 13 & 0b11
                && a >> 8 & 1 == b >> 8 & 1 && a & 0b111 == b & 0b111 && (a & 0x1ef8) == (b
                & 0x1ef8)) by (bit_vector);
        }
    }

    /// Choose between interrupt gate and trap gate: with `disable` the
    /// entry is an interrupt gate (bit 8 clear) and further interrupts are
    /// masked while the handler runs; without it a trap gate. The other
    /// fields keep their values.
    pub fn disable_interrupts(&mut self, disable: bool)
        ensures
            final(self).bits() == (if disable {
                old(self).bits() & 0xfeff
            } else {
                old(self).bits() | 0x0100
            }),
            final(self).interrupts_enabled_on_entry() == !disable,
            final(self).is_present() == old(self).is_present(),
            final(self).privilege_level() == old(self).privilege_level(),
            final(self).ist_field() == old(self).ist_field(),
            final(self).fixed_bits_ok() == old(self).fixed_bits_ok(),
    {
        let b = self.0;
        self.0 = if disable {
            b & 0xfeff
        } else {
            b | 0x0100
        };
        proof {
            let a = self.0;
            assert((b & 0xfeff) >> 8 & 1 == 0 && (b | 0x0100) >> 8 & 1 == 1) by (bit_vector);
            assert(a == (b & 0xfeff) || a == (b | 0x0100) ==> a >> 15 & 1 == b >> 15 & 1
                && a >> 13 & 0b11 == b >> 13 & 0b11 && a & 0b111 == b & 0b111 && (a & 0x1ef8) == (b
                & 0x1ef8)) by (bit_vector);
        }
    }

    /// Set the descriptor privilege level, bits 13..15. The other fields
    /// keep their values.
    pub fn set_privilage_level(&mut self, dpl: u16)
        requires
            dpl < 4,
        ensures
            final(self).bits() == (old(self).bits() & 0x9fff) | (dpl << 13),
            final(self).privilege_level() == dpl,
            final(self).is_present() == old(self).is_present(),
            final(self).interrupts_enabled_on_entry() == old(
                self,
            ).interrupts_enabled_on_entry(),
            final(self).ist_field() == old(self).ist_field(),
            final(self).fixed_bits_ok() == old(self).fixed_bits_ok(),
    {
        let b = self.0;
        self.0 = (b & 0x9fff) | (dpl << 13);
        proof {
            let a = self.0;
            assert(a == (b & 0x9fff) | (dpl << 13) ==> a >> 13 & 0b11 == dpl && a >> 15 & 1 == b
                >> 15 & 1 && a >> 8 & 1 == b >> 8 & 1 && a & 0b111 == b & 0b111 && (a & 0x1ef8) == (
            b & 0x1ef8)) by (bit_vector)
                requires
                    dpl < 4,
            ;
        }
    }

    /// Point the entry at interrupt-stack-table slot `index`: the hardware
    /// field in bits 0..3 is the slot number plus one, so that a field of
    /// zero keeps meaning "no stack switch". The other fields keep their
    /// values.
    pub fn set_stack_index(&mut self, index: u16)
        requires
            index < 7,
        ensures
            final(self).bits() == (old(self).bits() & 0xfff8) | ((index + 1) as u16),
            final(self).ist_field() == index + 1,
            final(self).is_present() == old(self).is_present(),
            final(self).privilege_level() == old(self).privilege_level(),
            final(self).interrupts_enabled_on_entry() == old(
                self,
            ).interrupts_enabled_on_entry(),
            final(self).fixed_bits_ok() == old(self).fixed_bits_ok(),
    {
        let b = self.0;
        let field: u16 = index + 1;
        self.0 = (b & 0xfff8) | field;
        proof {
            let a = self.0;
            assert(a == (b & 0xfff8) | field ==> a & 0b111 == field && a >> 15 & 1 == b >> 15 & 1
                && a >> 13 & 0b11 == b >> 13 & 0b11 && a >> 8 & 1 == b >> 8 & 1 && (a & 0x1ef8) == (
            b & 0x1ef8)) by (bit_vector)
                requires
                    field < 8,
            ;
        }
    }
}

/// The low 16 bits of a handler address, as stored in an entry.
pub open spec fn addr_low(addr: u64) -> u16 {
    (addr & 0xffff) as u16
}

/// Bits 16..32 of a handler address, as stored in an entry.
pub open spec fn addr_middle(addr: u64) -> u16 {
    ((addr >> 16) & 0xffff) as u16
}

/// Bits 32..64 of a handler address, as stored in an entry.
pub open spec fn addr_high(addr: u64) -> u32 {
    ((addr >> 32) & 0xffff_ffff) as u32
}

/// The address the three sub-fields of an entry stand for:
/// `low | middle << 16 | high << 32`.
pub open spec fn addr_reassemble(low: u16, middle: u16, high: u32) -> u64 {
    (low as u64) | ((middle as u64) << 16) | ((high as u64) << 32)
}

/// Splitting an address into the three sub-fields and reassembling them
/// gives the address back: the entry layout loses nothing.
pub proof fn lemma_addr_round_trip(addr: u64)
    by (bit_vector)
    ensures
        addr_reassemble(addr_low(addr), addr_middle(addr), addr_high(addr)) == addr,
{
}

/// One 16-byte interrupt-table record, in the processor's layout: the
/// handler address split over three sub-fields around the code-segment
/// selector and the options field, then 32 reserved zero bits.
#[derive(Clone, Copy, Debug, PartialEq, Eq, Structural)]
pub struct Entry {
    pub pointer_low: u16,
    pub gdt_selector: SegmentSelector,
    pub options: EntryOptions,
    pub pointer_middle: u16,
    pub pointer_high: u32,
    pub reserved: u32,
}

/// Byte size of one table entry.
pub const ENTRY_SIZE: usize = 16;

impl Entry {
    /// The handler address the entry points at, reassembled from its three
    /// sub-fields.
    pub open spec fn handler_addr(self) -> u64 {
        addr_reassemble(self.pointer_low, self.pointer_middle, self.pointer_high)
    }

    /// The entry's options field.
    pub open spec fn options_spec(self) -> EntryOptions {
        self.options
    }

    /// The entry's code-segment selector.
    pub open spec fn selector_spec(self) -> SegmentSelector {
        self.gdt_selector
    }

    /// The record of an absent entry: zero address, zero selector, options
    /// with the presence flag clear.
    pub open spec fn missing_spec() -> Entry {
        Entry {
            pointer_low: 0,
            gdt_selector: SegmentSelector(0),
            options: EntryOptions::minimal_spec(),
            pointer_middle: 0,
            pointer_high: 0,
            reserved: 0,
        }
    }

    /// An absent entry: the safe filler for vectors with no handler. Its
    /// presence flag is clear, so hardware never dispatches through it.
    pub fn missing() -> (r: Entry)
        ensures
            r == Entry::missing_spec(),
            !r.options_spec().is_present(),
            r.handler_addr() == 0,
    {
        let r = Entry {
            pointer_low: 0,
            gdt_selector: SegmentSelector(0),
            options: EntryOptions::minimal(),
            pointer_middle: 0,
            pointer_high: 0,
            reserved: 0,
        };
        proof {
            assert(addr_reassemble(0, 0, 0) == 0) by (bit_vector);
        }
        r
    }

    /// A present interrupt-gate entry pointing at `handler`, with the given
    /// code-segment selector.
    pub fn new(gdt_selector: SegmentSelector, handler: VirtAddr) -> (r: Entry)
        ensures
            r.handler_addr() == handler.0,
            r.options_spec().bits() == OPTIONS_PRESENT_INTERRUPT_GATE,
            r.options_spec().is_present(),
            r.selector_spec() == gdt_selector,
            r == (Entry {
                pointer_low: addr_low(handler.0),
                gdt_selector: gdt_selector,
                options: EntryOptions::new_spec(),
                pointer_middle: addr_middle(handler.0),
                pointer_high: addr_high(handler.0),
                reserved: 0,
            }),
    {
        let pointer = handler.0;
        let low: u16 = pointer as u16;
        let middle: u16 = (pointer >> 16) as u16;
        let high: u32 = (pointer >> 32) as u32;
        proof {
            assert(pointer as u16 == addr_low(pointer) && (pointer >> 16) as u16 == addr_middle(
                pointer,
            ) && (pointer >> 32) as u32 == addr_high(pointer)) by (bit_vector);
            lemma_addr_round_trip(pointer);
        }
        Entry {
            gdt_selector,
            pointer_low: low,
            pointer_middle: middle,
            pointer_high: high,
            options: EntryOptions::new(),
            reserved: 0,
        }
    }

    /// Install `handler` in this entry: the address sub-fields are rewritten
    /// to point at it, the selector is set, and the options become those of a
    /// present interrupt gate. The returned handle adjusts the options
    /// further — notably the stack-table index — before the table is loaded.
    pub fn set_handler<F: HandlerType>(&mut self, handler: F, gdt_selector: SegmentSelector) -> (r:
        &mut EntryOptions)
        ensures
            *r == (EntryOptions::new_spec()),
            final(self).handler_addr() == handler.addr_spec(),
            *final(self) == (Entry {
                pointer_low: addr_low(handler.addr_spec()),
                gdt_selector: gdt_selector,
                options: *final(r),
                pointer_middle: addr_middle(handler.addr_spec()),
                pointer_high: addr_high(handler.addr_spec()),
                reserved: old(self).reserved,
            }),
    {
        let address = handler.to_virt_addr().0;

        self.pointer_low = address as u16;
        self.pointer_middle = (address >> 16) as u16;
        self.pointer_high = (address >> 32) as u32;

        self.options = EntryOptions::new();
        self.gdt_selector = gdt_selector;

        proof {
            assert(address as u16 == addr_low(address) && (address >> 16) as u16 == addr_middle(
                address,
            ) && (address >> 32) as u32 == addr_high(address)) by (bit_vector);
            lemma_addr_round_trip(address);
        }
        &mut self.options
    }
}


/// The hardware-assigned vector numbers of the processor-defined
/// exceptions. Vector numbering is fixed by the architecture.
#[derive(Clone, Copy, Debug, PartialEq, Eq, Structural)]
pub enum ExceptionType {
    DivisionError,
    Debug,
    NonMaskableInterrupt,
    Breakpoint,
    Overflow,
    BoundRangeExceeded,
    InvalidOpcode,
    DeviceNotAvailable,
    DoubleFault,
    InvalidTSS,
    SegmentNotPresent,
    StackSegmentFault,
    GeneralProtectionFault,
    PageFault,
    X87FloatingPointException,
    AlignmentCheck,
    MachineCheck,
    SIMDFloatingPointException,
    VirtualizationException,
    ControlProtectionException,
    HypervisorInjectionException,
    VMMCommunicationException,
    SecurityException,
}

impl ExceptionType {
    /// The exception's vector number, as the architecture assigns it.
    pub open spec fn vector_spec(self) -> u8 {
        match self {
            ExceptionType::DivisionError => 0x0,
            ExceptionType::Debug => 0x1,
            ExceptionType::NonMaskableInterrupt => 0x2,
            ExceptionType::Breakpoint => 0x3,
            ExceptionType::Overflow => 0x4,
            ExceptionType::BoundRangeExceeded => 0x5,
            ExceptionType::InvalidOpcode => 0x6,
            ExceptionType::DeviceNotAvailable => 0x7,
            ExceptionType::DoubleFault => 0x8,
            ExceptionType::InvalidTSS => 0xa,
            ExceptionType::SegmentNotPresent => 0xb,
            ExceptionType::StackSegmentFault => 0xc,
            ExceptionType::GeneralProtectionFault => 0xd,
            ExceptionType::PageFault => 0xe,
            ExceptionType::X87FloatingPointException => 0x10,
            ExceptionType::AlignmentCheck => 0x11,
            ExceptionType::MachineCheck => 0x12,
            ExceptionType::SIMDFloatingPointException => 0x13,
            ExceptionType::VirtualizationException => 0x14,
            ExceptionType::ControlProtectionException => 0x15,
            ExceptionType::HypervisorInjectionException => 0x1c,
            ExceptionType::VMMCommunicationException => 0x1d,
            ExceptionType::SecurityException => 0x1e,
        }
    }

    pub fn vector(self) -> (v: u8)
        ensures
            v == self.vector_spec(),
            v < 31,
    {
        match self {
            ExceptionType::DivisionError => 0x0,
            ExceptionType::Debug => 0x1,
            ExceptionType::NonMaskableInterrupt => 0x2,
            ExceptionType::Breakpoint => 0x3,
            ExceptionType::Overflow => 0x4,
            ExceptionType::BoundRangeExceeded => 0x5,
            ExceptionType::InvalidOpcode => 0x6,
            ExceptionType::DeviceNotAvailable => 0x7,
            ExceptionType::DoubleFault => 0x8,
            ExceptionType::InvalidTSS => 0xa,
            ExceptionType::SegmentNotPresent => 0xb,
            ExceptionType::StackSegmentFault => 0xc,
            ExceptionType::GeneralProtectionFault => 0xd,
            ExceptionType::PageFault => 0xe,
            ExceptionType::X87FloatingPointException => 0x10,
            ExceptionType::AlignmentCheck => 0x11,
            ExceptionType::MachineCheck => 0x12,
            ExceptionType::SIMDFloatingPointException => 0x13,
            ExceptionType::VirtualizationException => 0x14,
            ExceptionType::ControlProtectionException => 0x15,
            ExceptionType::HypervisorInjectionException => 0x1c,
            ExceptionType::VMMCommunicationException => 0x1d,
            ExceptionType::SecurityException => 0x1e,
        }
    }
}

/// Number of vectors the table supports: the processor's full range.
pub const IDT_ENTRIES: usize = 256;

/// The interrupt descriptor table: one entry per vector, contiguous, in
/// vector order. The processor reads the table in memory once its address
/// and byte limit are latched by the load instruction, so after loading it
/// must stay where it is; the kernel glue keeps it in static storage.
pub struct Idt {
    pub entries: Vec<Entry>,
}

impl View for Idt {
    type V = Seq<Entry>;

    open spec fn view(&self) -> Seq<Entry> {
        self.entries@
    }
}

impl Idt {
    /// The table is well formed when it has exactly one slot per supported
    /// vector.
    pub open spec fn wf(self) -> bool {
        self@.len() == IDT_ENTRIES
    }

    /// The table's size in bytes.
    pub open spec fn byte_size_spec(self) -> int {
        self@.len() * ENTRY_SIZE
    }

    /// The handler address the processor would dispatch to on vector `v`:
    /// the entry's address when its presence flag is set, and nothing
    /// otherwise — an absent entry is never dispatched through.
    pub open spec fn dispatches_to(self, v: int) -> Option<u64> {
        if 0 <= v < self@.len() && self@[v].options_spec().is_present() {
            Some(self@[v].handler_addr())
        } else {
            None
        }
    }

    /// The whole dispatch behaviour the loaded table induces: for every
    /// vector, the handler address it resolves to, if any.
    pub open spec fn dispatch_view(self) -> Seq<Option<u64>> {
        Seq::new(self@.len(), |v: int| self.dispatches_to(v))
    }

    /// A table of absent entries: every vector starts with no handler
    /// installed.
    pub fn new() -> (r: Idt)
        ensures
            r.wf(),
            forall|v: int| 0 <= v < IDT_ENTRIES ==> r@[v] == Entry::missing_spec(),
    {
        let mut entries: Vec<Entry> = Vec::new();
        while entries.len() < IDT_ENTRIES
            invariant
                entries@.len() <= IDT_ENTRIES,
                forall|v: int| 0 <= v < entries@.len() ==> entries@[v] == Entry::missing_spec(),
            decreases IDT_ENTRIES - entries@.len(),
        {
            entries.push(Entry::missing());
        }
        Idt { entries }
    }

    /// Install a present interrupt-gate entry for `vector`, pointing at
    /// `handler` through the given code-segment selector. Only that
    /// vector's slot changes. The returned handle adjusts the new entry's
    /// options — notably the stack-table index — before the table is
    /// loaded; nothing reaches the hardware until then.
    pub fn set_handler<F: HandlerType>(
        &mut self,
        vector: ExceptionType,
        handler: F,
        gdt_selector: SegmentSelector,
    ) -> (r: &mut EntryOptions)
        requires
            old(self).wf(),
        ensures
            *r == (EntryOptions::new_spec()),
            final(self)@ == old(self)@.update(
                vector.vector_spec() as int,
                (Entry {
                    pointer_low: addr_low(handler.addr_spec()),
                    gdt_selector: gdt_selector,
                    options: *final(r),
                    pointer_middle: addr_middle(handler.addr_spec()),
                    pointer_high: addr_high(handler.addr_spec()),
                    reserved: old(self)@[vector.vector_spec() as int].reserved,
                }),
            ),
            final(self)@[vector.vector_spec() as int].handler_addr() == handler.addr_spec(),
            final(self)@.len() == old(self)@.len(),
    {
        let idx: usize = vector.vector() as usize;
        let entry = &mut self.entries[idx];
        entry.set_handler(handler, gdt_selector)
    }

    /// The inclusive byte limit the load instruction is given: one less
    /// than the table's byte size. It fits the 16-bit limit field.
    pub fn pointer_limit(&self) -> (r: u16)
        requires
            self.wf(),
        ensures
            r == self.byte_size_spec() - 1,
            r == 4095,
    {
        (self.entries.len() * ENTRY_SIZE - 1) as u16
    }
}

/// An absent entry is never the target of a dispatch: its presence flag is
/// clear, so the processor does not deliver the vector through it.
pub proof fn lemma_missing_never_dispatched(idt: Idt, v: int)
    requires
        0 <= v < idt@.len(),
        idt@[v] == Entry::missing_spec(),
    ensures
        idt.dispatches_to(v) is None,
{
    assert(0x0e00u16 >> 15 & 1 != 1) by (bit_vector);
}

/// A vector whose entry is present with handler address `addr` dispatches
/// to exactly that handler.
pub proof fn lemma_installed_handler_dispatched(idt: Idt, v: int, addr: u64)
    requires
        0 <= v < idt@.len(),
        idt@[v].options_spec().is_present(),
        idt@[v].handler_addr() == addr,
    ensures
        idt.dispatches_to(v) == Some(addr),
{
}

/// Installing at one vector does not disturb dispatch for any other: every
/// slot that kept its entry keeps its dispatch behaviour.
pub proof fn lemma_install_preserves_others(pre: Idt, post: Idt, v: int)
    requires
        pre@.len() == post@.len(),
        forall|u: int| 0 <= u < pre@.len() && u != v ==> post@[u] == pre@[u],
    ensures
        forall|u: int| 0 <= u < pre@.len() && u != v ==> post.dispatches_to(u)
            == pre.dispatches_to(u),
{
}

/// The full table's byte limit stays representable in the 16-bit limit
/// field of the load instruction's operand.
pub proof fn lemma_byte_limit_fits(idt: Idt)
    requires
        idt.wf(),
    ensures
        0 < idt.byte_size_spec(),
        idt.byte_size_spec() - 1 <= 0xffff,
{
}

/// Loading is read-only and its dispatch behaviour is a function of the
/// table's contents alone: two loads of tables with equal contents — in
/// particular, two loads of one table with no mutation in between — latch
/// the same byte limit and induce the same dispatch behaviour.
pub proof fn lemma_load_deterministic(first: Idt, second: Idt)
    requires
        first@ == second@,
    ensures
        first.dispatch_view() == second.dispatch_view(),
        first.byte_size_spec() == second.byte_size_spec(),
{
    assert(first.dispatch_view() =~= second.dispatch_view());
}

} // verus!
