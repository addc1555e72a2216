use apic_regs::values::{Arbitration, RedirectionTableEntry, Version};

fn sample_entry() -> RedirectionTableEntry {
    RedirectionTableEntry {
        vector: 0x45,
        delivery_mode: 0b101,
        destination_mode: true,
        delivery_status: false,
        polarity: true,
        remote_irr: false,
        trigger_mode: true,
        mask: true,
        destination: 0xab,
    }
}

#[test]
fn version_encodes_to_exact_word() {
    let v = Version { version: 0x12, max_redirection_entry: 0x17 };
    assert_eq!(v.into_raw(), 0x0017_0012);
}

#[test]
fn version_round_trips_through_raw_word() {
    let v = Version { version: 0x12, max_redirection_entry: 0x17 };
    assert_eq!(Version::from_raw(v.into_raw()), v);
}

#[test]
fn version_raw_word_round_trips_when_reserved_bits_are_zero() {
    let w: u32 = 0x00ff_00ff;
    assert_eq!(Version::from_raw(w).into_raw(), w);
}

#[test]
fn version_decode_example_word() {
    let v = Version::from_raw(0x0081_0000);
    assert_eq!(v.version, 0x00);
    assert_eq!(v.max_redirection_entry, 0x81);
    // hardware convention: the field is the entry count minus one
    assert_eq!(v.max_redirection_entry as u16 + 1, 0x82);
}

#[test]
fn version_decode_ignores_reserved_bits() {
    let v = Version::from_raw(0xffff_ffff);
    assert_eq!(v, Version { version: 0xff, max_redirection_entry: 0xff });
}

#[test]
fn arbitration_encodes_to_exact_word() {
    let a = Arbitration { id: 0xa };
    assert_eq!(a.into_raw(), 0x0a00_0000);
}

#[test]
fn arbitration_round_trips_through_raw_word() {
    let a = Arbitration { id: 0xf };
    assert_eq!(Arbitration::from_raw(a.into_raw()), a);
}

#[test]
fn arbitration_raw_word_round_trips_when_reserved_bits_are_zero() {
    let w: u32 = 0x0700_0000;
    assert_eq!(Arbitration::from_raw(w).into_raw(), w);
}

#[test]
fn arbitration_decode_ignores_reserved_bits() {
    let a = Arbitration::from_raw(0xffff_ffff);
    assert_eq!(a, Arbitration { id: 0xf });
}

#[test]
fn redirection_entry_encodes_to_exact_words() {
    let (low, high) = sample_entry().into_raw();
    assert_eq!(low, 0x0001_ad45);
    assert_eq!(high, 0xab00_0000);
}

#[test]
fn redirection_entry_round_trips_through_raw_words() {
    let e = sample_entry();
    let (low, high) = e.into_raw();
    assert_eq!(RedirectionTableEntry::from_raw(low, high), e);
}

#[test]
fn redirection_entry_all_zero_round_trips() {
    let e = RedirectionTableEntry {
        vector: 0,
        delivery_mode: 0,
        destination_mode: false,
        delivery_status: false,
        polarity: false,
        remote_irr: false,
        trigger_mode: false,
        mask: false,
        destination: 0,
    };
    let (low, high) = e.into_raw();
    assert_eq!((low, high), (0, 0));
    assert_eq!(RedirectionTableEntry::from_raw(low, high), e);
}

#[test]
fn redirection_entry_decode_ignores_reserved_bits() {
    let e = RedirectionTableEntry::from_raw(0xffff_ffff, 0xffff_ffff);
    assert_eq!(
        e,
        RedirectionTableEntry {
            vector: 0xff,
            delivery_mode: 0x7,
            destination_mode: true,
            delivery_status: true,
            polarity: true,
            remote_irr: true,
            trigger_mode: true,
            mask: true,
            destination: 0xff,
        }
    );
    // re-encoding zero-fills what decoding ignored
    assert_eq!(e.into_raw(), (0x0001_ffff, 0xff00_0000));
}
