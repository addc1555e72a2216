//! The per-core local interrupt controller: a fixed register map at
//! statically known byte offsets from one base address. There is no
//! indirection; every named register has its own address, derived as
//! `base + fixed offset`, and each accessor yields a typed, capability-
//! tagged register address. The layer performs no validation of the base
//! address itself: the caller guarantees that it is mapped, correctly
//! permissioned and stable for the handle's lifetime.

use vstd::prelude::*;

verus! {

/// Byte offset of the highest register in the map, and so the span of
/// addresses a handle derives from its base.
pub const REGISTER_MAP_SPAN: usize = 0x500;

/// Byte offsets of the local controller's registers from its base
/// address.
#[derive(Clone, Copy, Debug, PartialEq, Eq, Structural)]
pub enum Offset {
    Id,
    Version,
    TaskPriority,
    ArbitrationPriority,
    ProcessorPriority,
    EndOfInterrupt,
    RemoteRead,
    LocalDestination,
    DestinationFormat,
    SpuriousInterruptVector,
    InService,
    TriggerMode,
    InterruptRequest,
    ErrorStatus,
    InterruptCommand,
    TimerLocalVectorTableEntry,
    ThermalLocalVectorTableEntry,
    PerformanceCounterLocalVectorTableEntry,
    LocalInterrupt0VectorTableEntry,
    LocalInterrupt1VectorTableEntry,
    ErrorVectorTableEntry,
    TimerInitialCount,
    TimerCurrentCount,
    TimerDivideConfiguration,
    ExtendedApicFeature,
    ExtendedApicControl,
    SpecificEndOfInterrupt,
    InterruptEnable,
    ExtendedInterruptLocalVectorTable,
}

impl Offset {
    /// Byte offset of the register from the controller's base address.
    pub open spec fn spec_value(self) -> usize {
        match self {
            Offset::Id => 0x20,
            Offset::Version => 0x30,
            Offset::TaskPriority => 0x80,
            Offset::ArbitrationPriority => 0x90,
            Offset::ProcessorPriority => 0xa0,
            Offset::EndOfInterrupt => 0xb0,
            Offset::RemoteRead => 0xc0,
            Offset::LocalDestination => 0xd0,
            Offset::DestinationFormat => 0xe0,
            Offset::SpuriousInterruptVector => 0xf0,
            Offset::InService => 0x100,
            Offset::TriggerMode => 0x180,
            Offset::InterruptRequest => 0x200,
            Offset::ErrorStatus => 0x280,
            Offset::InterruptCommand => 0x300,
            Offset::TimerLocalVectorTableEntry => 0x320,
            Offset::ThermalLocalVectorTableEntry => 0x330,
            Offset::PerformanceCounterLocalVectorTableEntry => 0x340,
            Offset::LocalInterrupt0VectorTableEntry => 0x350,
            Offset::LocalInterrupt1VectorTableEntry => 0x360,
            Offset::ErrorVectorTableEntry => 0x370,
            Offset::TimerInitialCount => 0x380,
            Offset::TimerCurrentCount => 0x390,
            Offset::TimerDivideConfiguration => 0x3e0,
            Offset::ExtendedApicFeature => 0x400,
            Offset::ExtendedApicControl => 0x410,
            Offset::SpecificEndOfInterrupt => 0x420,
            Offset::InterruptEnable => 0x480,
            Offset::ExtendedInterruptLocalVectorTable => 0x500,
        }
    }

    /// Byte offset of the register from the controller's base address.
    pub fn value(self) -> (r: usize)
        ensures
            r == self.spec_value(),
            r <= REGISTER_MAP_SPAN,
    {
        match self {
            Offset::Id => 0x20,
            Offset::Version => 0x30,
            Offset::TaskPriority => 0x80,
            Offset::ArbitrationPriority => 0x90,
            Offset::ProcessorPriority => 0xa0,
            Offset::EndOfInterrupt => 0xb0,
            Offset::RemoteRead => 0xc0,
            Offset::LocalDestination => 0xd0,
            Offset::DestinationFormat => 0xe0,
            Offset::SpuriousInterruptVector => 0xf0,
            Offset::InService => 0x100,
            Offset::TriggerMode => 0x180,
            Offset::InterruptRequest => 0x200,
            Offset::ErrorStatus => 0x280,
            Offset::InterruptCommand => 0x300,
            Offset::TimerLocalVectorTableEntry => 0x320,
            Offset::ThermalLocalVectorTableEntry => 0x330,
            Offset::PerformanceCounterLocalVectorTableEntry => 0x340,
            Offset::LocalInterrupt0VectorTableEntry => 0x350,
            Offset::LocalInterrupt1VectorTableEntry => 0x360,
            Offset::ErrorVectorTableEntry => 0x370,
            Offset::TimerInitialCount => 0x380,
            Offset::TimerCurrentCount => 0x390,
            Offset::TimerDivideConfiguration => 0x3e0,
            Offset::ExtendedApicFeature => 0x400,
            Offset::ExtendedApicControl => 0x410,
            Offset::SpecificEndOfInterrupt => 0x420,
            Offset::InterruptEnable => 0x480,
            Offset::ExtendedInterruptLocalVectorTable => 0x500,
        }
    }
}

/// The address of one register, tagged at compile time with its access
/// capability: a writable register address carries `WRITABLE = true`, a
/// read-only one `WRITABLE = false`. The tag restricts which views a
/// caller can derive; the memory access itself is the caller's trusted
/// primitive.
#[derive(Clone, Copy, Debug)]
pub struct RegisterAddress<const WRITABLE: bool> {
    pub addr: usize,
}

/// Handle on one local controller, anchored at its base address. The
/// address is a value only: the handle owns no resource, and each named
/// accessor derives a fresh typed register address from the same base.
pub struct ApicBase {
    base: usize,
}

impl ApicBase {
    /// The controller's base address.
    pub closed spec fn spec_base(self) -> usize {
        self.base
    }

    /// A handle is well-formed when every register of the map lies
    /// within the address space.
    pub open spec fn wf(self) -> bool {
        self.spec_base() + REGISTER_MAP_SPAN <= usize::MAX
    }

    /// A handle anchored at the given base address. The caller
    /// guarantees the address stays valid for the handle's lifetime.
    pub fn new(base: usize) -> (r: ApicBase)
        requires
            base + REGISTER_MAP_SPAN <= usize::MAX,
        ensures
            r.wf(),
            r.spec_base() == base,
    {
        ApicBase { base }
    }

    /// The address of the named register: base plus its fixed offset.
    fn offset(&self, offset: Offset) -> (r: usize)
        requires
            self.wf(),
        ensures
            r == self.spec_base() + offset.spec_value(),
    {
        self.base + offset.value()
    }

    /// The identity register, read-write, at base + 0x20.
    pub fn id(&self) -> (r: RegisterAddress<true>)
        requires
            self.wf(),
        ensures
            r.addr == self.spec_base() + Offset::Id.spec_value(),
    {
        RegisterAddress { addr: self.offset(Offset::Id) }
    }

    /// The version register, read-only, at base + 0x30.
    pub fn version(&self) -> (r: RegisterAddress<false>)
        requires
            self.wf(),
        ensures
            r.addr == self.spec_base() + Offset::Version.spec_value(),
    {
        RegisterAddress { addr: self.offset(Offset::Version) }
    }

    /// The extended feature register, read-write, at base + 0x400.
    pub fn extended_apic_feature(&self) -> (r: RegisterAddress<true>)
        requires
            self.wf(),
        ensures
            r.addr == self.spec_base() + Offset::ExtendedApicFeature.spec_value(),
    {
        RegisterAddress { addr: self.offset(Offset::ExtendedApicFeature) }
    }

    /// The extended control register, read-write, at base + 0x410.
    pub fn extended_apic_control(&self) -> (r: RegisterAddress<true>)
        requires
            self.wf(),
        ensures
            r.addr == self.spec_base() + Offset::ExtendedApicControl.spec_value(),
    {
        RegisterAddress { addr: self.offset(Offset::ExtendedApicControl) }
    }

    /// The spurious interrupt vector register, read-write, at base +
    /// 0xf0.
    pub fn spurious_interrupt_vector(&self) -> (r: RegisterAddress<true>)
        requires
            self.wf(),
        ensures
            r.addr == self.spec_base() + Offset::SpuriousInterruptVector.spec_value(),
    {
        RegisterAddress { addr: self.offset(Offset::SpuriousInterruptVector) }
    }

    /// The timer's local vector table entry, read-write, at base +
    /// 0x320.
    pub fn timer_local_vector_table_entry(&self) -> (r: RegisterAddress<true>)
        requires
            self.wf(),
        ensures
            r.addr == self.spec_base() + Offset::TimerLocalVectorTableEntry.spec_value(),
    {
        RegisterAddress { addr: self.offset(Offset::TimerLocalVectorTableEntry) }
    }

    /// The timer's initial count register, read-write, at base + 0x380.
    pub fn timer_initial_count(&self) -> (r: RegisterAddress<true>)
        requires
            self.wf(),
        ensures
            r.addr == self.spec_base() + Offset::TimerInitialCount.spec_value(),
    {
        RegisterAddress { addr: self.offset(Offset::TimerInitialCount) }
    }

    /// The timer's divide configuration register, read-write, at base +
    /// 0x3e0.
    pub fn timer_divide_configuration(&self) -> (r: RegisterAddress<true>)
        requires
            self.wf(),
        ensures
            r.addr == self.spec_base() + Offset::TimerDivideConfiguration.spec_value(),
    {
        RegisterAddress { addr: self.offset(Offset::TimerDivideConfiguration) }
    }

    /// The end-of-interrupt register, read-write, at base + 0xb0.
    /// Writing it signals completion of the in-service interrupt to the
    /// hardware.
    pub fn end_of_interrupt(&self) -> (r: RegisterAddress<true>)
        requires
            self.wf(),
        ensures
            r.addr == self.spec_base() + Offset::EndOfInterrupt.spec_value(),
    {
        RegisterAddress { addr: self.offset(Offset::EndOfInterrupt) }
    }
}

} // verus!
