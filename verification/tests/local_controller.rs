use apic_regs::apic::{ApicBase, Offset};

#[test]
fn named_offsets_match_the_register_map() {
    assert_eq!(Offset::Id.value(), 0x20);
    assert_eq!(Offset::Version.value(), 0x30);
    assert_eq!(Offset::TaskPriority.value(), 0x80);
    assert_eq!(Offset::ArbitrationPriority.value(), 0x90);
    assert_eq!(Offset::ProcessorPriority.value(), 0xa0);
    assert_eq!(Offset::EndOfInterrupt.value(), 0xb0);
    assert_eq!(Offset::RemoteRead.value(), 0xc0);
    assert_eq!(Offset::LocalDestination.value(), 0xd0);
    assert_eq!(Offset::DestinationFormat.value(), 0xe0);
    assert_eq!(Offset::SpuriousInterruptVector.value(), 0xf0);
    assert_eq!(Offset::InService.value(), 0x100);
    assert_eq!(Offset::TriggerMode.value(), 0x180);
    assert_eq!(Offset::InterruptRequest.value(), 0x200);
    assert_eq!(Offset::ErrorStatus.value(), 0x280);
    assert_eq!(Offset::InterruptCommand.value(), 0x300);
    assert_eq!(Offset::TimerLocalVectorTableEntry.value(), 0x320);
    assert_eq!(Offset::ThermalLocalVectorTableEntry.value(), 0x330);
    assert_eq!(Offset::PerformanceCounterLocalVectorTableEntry.value(), 0x340);
    assert_eq!(Offset::LocalInterrupt0VectorTableEntry.value(), 0x350);
    assert_eq!(Offset::LocalInterrupt1VectorTableEntry.value(), 0x360);
    assert_eq!(Offset::ErrorVectorTableEntry.value(), 0x370);
    assert_eq!(Offset::TimerInitialCount.value(), 0x380);
    assert_eq!(Offset::TimerCurrentCount.value(), 0x390);
    assert_eq!(Offset::TimerDivideConfiguration.value(), 0x3e0);
    assert_eq!(Offset::ExtendedApicFeature.value(), 0x400);
    assert_eq!(Offset::ExtendedApicControl.value(), 0x410);
    assert_eq!(Offset::SpecificEndOfInterrupt.value(), 0x420);
    assert_eq!(Offset::InterruptEnable.value(), 0x480);
    assert_eq!(Offset::ExtendedInterruptLocalVectorTable.value(), 0x500);
}

#[test]
fn accessors_anchor_registers_at_base_plus_offset() {
    let base: usize = 0xfee0_0000;
    let apic = ApicBase::new(base);
    assert_eq!(apic.id().addr, base + 0x20);
    assert_eq!(apic.version().addr, base + 0x30);
    assert_eq!(apic.extended_apic_feature().addr, base + 0x400);
    assert_eq!(apic.extended_apic_control().addr, base + 0x410);
    assert_eq!(apic.spurious_interrupt_vector().addr, base + 0xf0);
    assert_eq!(apic.timer_local_vector_table_entry().addr, base + 0x320);
    assert_eq!(apic.timer_initial_count().addr, base + 0x380);
    assert_eq!(apic.timer_divide_configuration().addr, base + 0x3e0);
    assert_eq!(apic.end_of_interrupt().addr, base + 0xb0);
}

#[test]
fn handles_at_different_bases_are_independent() {
    let a = ApicBase::new(0x1000);
    let b = ApicBase::new(0x2000);
    assert_eq!(a.end_of_interrupt().addr, 0x10b0);
    assert_eq!(b.end_of_interrupt().addr, 0x20b0);
}
