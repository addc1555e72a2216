use apic_regs::io_apic::{Index, IoApicBase, Offset, Op, Select};
use apic_regs::values::{Arbitration, RedirectionTableEntry, Version};

fn sample_entry() -> RedirectionTableEntry {
    RedirectionTableEntry {
        vector: 0x31,
        delivery_mode: 0b011,
        destination_mode: false,
        delivery_status: true,
        polarity: false,
        remote_irr: true,
        trigger_mode: false,
        mask: true,
        destination: 0x42,
    }
}

#[test]
fn register_offsets() {
    assert_eq!(Offset::Select.value(), 0x0);
    assert_eq!(Offset::Window.value(), 0x10);
}

#[test]
fn internal_register_indices() {
    assert_eq!(Index::Id.as_u8(), 0x0);
    assert_eq!(Index::Version.as_u8(), 0x1);
    assert_eq!(Index::Arbitration.as_u8(), 0x2);
    assert_eq!(Index::RedirectionTableEntryBase.as_u8(), 0x10);
}

#[test]
fn select_carries_index_in_low_byte() {
    let s = Select::new(0xab);
    assert_eq!(s.raw(), 0xab);
    assert_eq!(s.index(), 0xab);
}

#[test]
fn set_index_replaces_low_byte() {
    let s = Select::new(0xab).set_index(0xcd);
    assert_eq!(s.raw(), 0xcd);
    assert_eq!(s.index(), 0xcd);
}

#[test]
fn raw_read_returns_register_file_word() {
    let mut regs = vec![0u32; 256];
    regs[0x2f] = 0xdead_beef;
    let mut router = IoApicBase::with_registers(regs);
    assert_eq!(router.read(0x2f), 0xdead_beef);
    assert_eq!(*router.ops(), vec![Op::Select(0x2f), Op::ReadWindow]);
}

#[test]
fn raw_write_updates_register_file_word() {
    let mut router = IoApicBase::new();
    router.write(0x07, 0x1234_5678);
    assert_eq!(router.read(0x07), 0x1234_5678);
    assert_eq!(
        *router.ops(),
        vec![Op::Select(0x07), Op::WriteWindow(0x1234_5678), Op::Select(0x07), Op::ReadWindow]
    );
}

#[test]
fn read_id_extracts_identity_bits() {
    let mut regs = vec![0u32; 256];
    regs[0x00] = 0x0d00_0000;
    let mut router = IoApicBase::with_registers(regs);
    assert_eq!(router.read_id(), 0xd);
    assert_eq!(*router.ops(), vec![Op::Select(0x00), Op::ReadWindow]);
}

#[test]
fn read_version_decodes_version_register() {
    let mut regs = vec![0u32; 256];
    regs[0x01] = 0x0081_0000;
    let mut router = IoApicBase::with_registers(regs);
    assert_eq!(router.read_version(), Version { version: 0x00, max_redirection_entry: 0x81 });
    assert_eq!(*router.ops(), vec![Op::Select(0x01), Op::ReadWindow]);
}

#[test]
fn arbitration_write_then_read_returns_value() {
    let mut router = IoApicBase::new();
    router.write_arbitration(Arbitration { id: 0x9 });
    assert_eq!(router.read_arbitration(), Arbitration { id: 0x9 });
    assert_eq!(
        *router.ops(),
        vec![Op::Select(0x02), Op::WriteWindow(0x0900_0000), Op::Select(0x02), Op::ReadWindow]
    );
}

#[test]
fn redirection_entry_write_then_read_returns_value() {
    let v = sample_entry();
    let mut router = IoApicBase::new();
    router.write_redirection_table_entry(5, v);
    assert_eq!(router.read_redirection_table_entry(5), v);
}

#[test]
fn redirection_read_issues_four_primitive_ops_in_order() {
    let mut router = IoApicBase::new();
    router.read_redirection_table_entry(5);
    assert_eq!(
        *router.ops(),
        vec![Op::Select(0x1a), Op::ReadWindow, Op::Select(0x1b), Op::ReadWindow]
    );
}

#[test]
fn redirection_write_issues_four_primitive_ops_in_order() {
    let v = sample_entry();
    let (low, high) = v.into_raw();
    let mut router = IoApicBase::new();
    router.write_redirection_table_entry(0, v);
    assert_eq!(
        *router.ops(),
        vec![Op::Select(0x10), Op::WriteWindow(low), Op::Select(0x11), Op::WriteWindow(high)]
    );
}

#[test]
fn last_redirection_row_uses_highest_index_pair() {
    let mut router = IoApicBase::new();
    router.read_redirection_table_entry(23);
    assert_eq!(
        *router.ops(),
        vec![Op::Select(0x3e), Op::ReadWindow, Op::Select(0x3f), Op::ReadWindow]
    );
}

#[test]
fn update_equals_read_then_transform_then_write() {
    let mut initial = vec![0u32; 256];
    let (low, high) = sample_entry().into_raw();
    initial[0x1e] = low;
    initial[0x1f] = high;

    let set_mask = |mut e: RedirectionTableEntry| {
        e.mask = true;
        e.vector = 0x77;
        e
    };

    let mut updated = IoApicBase::with_registers(initial.clone());
    updated.update_redirection_table_entry(7, set_mask);

    let mut composed = IoApicBase::with_registers(initial);
    let read = composed.read_redirection_table_entry(7);
    composed.write_redirection_table_entry(7, set_mask(read));

    assert_eq!(*updated.ops(), *composed.ops());
    assert_eq!(
        updated.read_redirection_table_entry(7),
        composed.read_redirection_table_entry(7)
    );
}

#[test]
fn update_transforms_the_stored_entry() {
    let v = sample_entry();
    let mut router = IoApicBase::new();
    router.write_redirection_table_entry(3, v);
    router.update_redirection_table_entry(3, |mut e| {
        e.mask = false;
        e
    });
    let got = router.read_redirection_table_entry(3);
    assert_eq!(got, RedirectionTableEntry { mask: false, ..v });
}
