//! Bitfield codecs for the I/O router's internal registers.
//!
//! Each codec is a pure, total pair of functions between a decoded value
//! type and its raw hardware word(s). Encoding zero-fills every reserved
//! bit; decoding ignores reserved bits. The round-trip laws are stated
//! and proved at the bottom of this module.

use vstd::prelude::*;

verus! {

/// Decoded contents of the router's version register: the implementation
/// version in bits [0:8) and, in bits [16:24), the index of the highest
/// redirection-table entry the hardware supports (entry count minus one,
/// by hardware convention).
#[derive(Clone, Copy, Debug, PartialEq, Eq, Structural)]
pub struct Version {
    pub version: u8,
    pub max_redirection_entry: u8,
}

/// Raw version word for a decoded value: version in bits [0:8),
/// max redirection entry in bits [16:24), reserved bits zero.
pub open spec fn version_encoded(v: Version) -> u32 {
    (v.version as u32) | ((v.max_redirection_entry as u32) << 16)
}

/// Decoded value of a raw version word; reserved bits are ignored.
pub open spec fn version_decoded(w: u32) -> Version {
    Version { version: (w & 0xff) as u8, max_redirection_entry: ((w >> 16) & 0xff) as u8 }
}

/// True when every reserved bit of a raw version word (everything outside
/// bits [0:8) and [16:24)) is zero.
pub open spec fn version_reserved_zero(w: u32) -> bool {
    w & 0xff00_ff00 == 0
}

impl Version {
    /// Decode a raw version word.
    pub fn from_raw(w: u32) -> (r: Version)
        ensures
            r == version_decoded(w),
    {
        proof {
            assert(w & 0xff < 256 && (w >> 16) & 0xff < 256) by (bit_vector);
        }
        Version { version: (w & 0xff) as u8, max_redirection_entry: ((w >> 16) & 0xff) as u8 }
    }

    /// Encode back to a raw version word, with reserved bits zero.
    pub fn into_raw(self) -> (r: u32)
        ensures
            r == version_encoded(self),
    {
        (self.version as u32) | ((self.max_redirection_entry as u32) << 16)
    }
}

/// Decoding a version word recovers exactly the fields that encoding
/// packed: the codec round-trips on every representable value.
pub proof fn lemma_version_decode_of_encode(v: Version)
    ensures
        version_decoded(version_encoded(v)) == v,
{
    let a = v.version;
    let b = v.max_redirection_entry;
    assert((((a as u32) | ((b as u32) << 16)) & 0xff) as u8 == a) by (bit_vector);
    assert(((((a as u32) | ((b as u32) << 16)) >> 16) & 0xff) as u8 == b) by (bit_vector);
}

/// Encoding the decoded fields reproduces any raw version word whose
/// reserved bits are zero.
pub proof fn lemma_version_encode_of_decode(w: u32)
    requires
        version_reserved_zero(w),
    ensures
        version_encoded(version_decoded(w)) == w,
{
    assert(((w & 0xff) as u8 as u32) | ((((w >> 16) & 0xff) as u8 as u32) << 16) == w)
        by (bit_vector)
        requires
            w & 0xff00_ff00 == 0,
    ;
}

/// Decoded contents of the router's arbitration register: the arbitration
/// priority identifier held in bits [24:28) of the raw word.
#[derive(Clone, Copy, Debug, PartialEq, Eq, Structural)]
pub struct Arbitration {
    pub id: u8,
}

/// An arbitration value is representable when its identifier fits the
/// four-bit hardware field.
pub open spec fn arbitration_wf(a: Arbitration) -> bool {
    a.id < 16
}

/// Raw arbitration word for a decoded value: the identifier in bits
/// [24:28), reserved bits zero.
pub open spec fn arbitration_encoded(a: Arbitration) -> u32 {
    (a.id as u32) << 24
}

/// Decoded value of a raw arbitration word; reserved bits are ignored.
pub open spec fn arbitration_decoded(w: u32) -> Arbitration {
    Arbitration { id: ((w >> 24) & 0xf) as u8 }
}

/// True when every reserved bit of a raw arbitration word (everything
/// outside bits [24:28)) is zero.
pub open spec fn arbitration_reserved_zero(w: u32) -> bool {
    w & 0xf0ff_ffff == 0
}

impl Arbitration {
    /// Decode a raw arbitration word.
    pub fn from_raw(w: u32) -> (r: Arbitration)
        ensures
            r == arbitration_decoded(w),
            arbitration_wf(r),
    {
        proof {
            assert((w >> 24) & 0xf < 16) by (bit_vector);
        }
        Arbitration { id: ((w >> 24) & 0xf) as u8 }
    }

    /// Encode back to a raw arbitration word, with reserved bits zero.
    pub fn into_raw(self) -> (r: u32)
        ensures
            r == arbitration_encoded(self),
    {
        (self.id as u32) << 24
    }
}

/// Decoding an arbitration word recovers exactly the identifier that
/// encoding packed, for every representable value.
pub proof fn lemma_arbitration_decode_of_encode(a: Arbitration)
    requires
        arbitration_wf(a),
    ensures
        arbitration_decoded(arbitration_encoded(a)) == a,
{
    let i = a.id;
    assert(((((i as u32) << 24) >> 24) & 0xf) as u8 == i) by (bit_vector)
        requires
            i < 16,
    ;
}

/// Encoding the decoded identifier reproduces any raw arbitration word
/// whose reserved bits are zero.
pub proof fn lemma_arbitration_encode_of_decode(w: u32)
    requires
        arbitration_reserved_zero(w),
    ensures
        arbitration_encoded(arbitration_decoded(w)) == w,
{
    assert((((w >> 24) & 0xf) as u8 as u32) << 24 == w) by (bit_vector)
        requires
            w & 0xf0ff_ffff == 0,
    ;
}

/// One decoded row of the redirection table: how a single external
/// interrupt line is routed. The low hardware word holds the vector in
/// bits [0:8), the delivery mode in bits [8:11), and single-bit flags at
/// bits 11 through 16; the high word holds the destination in bits
/// [24:32). All other bits are reserved.
#[derive(Clone, Copy, Debug, PartialEq, Eq, Structural)]
pub struct RedirectionTableEntry {
    pub vector: u8,
    pub delivery_mode: u8,
    pub destination_mode: bool,
    pub delivery_status: bool,
    pub polarity: bool,
    pub remote_irr: bool,
    pub trigger_mode: bool,
    pub mask: bool,
    pub destination: u8,
}

/// An entry is representable when its delivery mode fits the three-bit
/// hardware field; every other field fills its field exactly.
pub open spec fn rte_wf(e: RedirectionTableEntry) -> bool {
    e.delivery_mode < 8
}

/// A single flag bit as a word value.
pub open spec fn flag_bit(b: bool) -> u32 {
    if b {
        1u32
    } else {
        0u32
    }
}

/// Low raw word for a decoded entry, with reserved bits zero.
pub open spec fn rte_low_encoded(e: RedirectionTableEntry) -> u32 {
    (e.vector as u32) | ((e.delivery_mode as u32) << 8) | (flag_bit(e.destination_mode) << 11) | (
    flag_bit(e.delivery_status) << 12) | (flag_bit(e.polarity) << 13) | (flag_bit(e.remote_irr)
        << 14) | (flag_bit(e.trigger_mode) << 15) | (flag_bit(e.mask) << 16)
}

/// High raw word for a decoded entry, with reserved bits zero.
pub open spec fn rte_high_encoded(e: RedirectionTableEntry) -> u32 {
    (e.destination as u32) << 24
}

/// Decoded entry for a pair of raw words; reserved bits are ignored.
pub open spec fn rte_decoded(low: u32, high: u32) -> RedirectionTableEntry {
    RedirectionTableEntry {
        vector: (low & 0xff) as u8,
        delivery_mode: ((low >> 8) & 0x7) as u8,
        destination_mode: (low >> 11) & 1 == 1,
        delivery_status: (low >> 12) & 1 == 1,
        polarity: (low >> 13) & 1 == 1,
        remote_irr: (low >> 14) & 1 == 1,
        trigger_mode: (low >> 15) & 1 == 1,
        mask: (low >> 16) & 1 == 1,
        destination: ((high >> 24) & 0xff) as u8,
    }
}

/// True when every reserved bit of a raw low word (everything above
/// bit 16) is zero.
pub open spec fn rte_low_reserved_zero(low: u32) -> bool {
    low & 0xfffe_0000 == 0
}

/// True when every reserved bit of a raw high word (everything below
/// bit 24) is zero.
pub open spec fn rte_high_reserved_zero(high: u32) -> bool {
    high & 0x00ff_ffff == 0
}

impl RedirectionTableEntry {
    /// Decode a pair of raw words, low word first.
    pub fn from_raw(low: u32, high: u32) -> (r: RedirectionTableEntry)
        ensures
            r == rte_decoded(low, high),
            rte_wf(r),
    {
        proof {
            assert(low & 0xff < 256 && (low >> 8) & 0x7 < 8 && (high >> 24) & 0xff < 256)
                by (bit_vector);
        }
        RedirectionTableEntry {
            vector: (low & 0xff) as u8,
            delivery_mode: ((low >> 8) & 0x7) as u8,
            destination_mode: (low >> 11) & 1 == 1,
            delivery_status: (low >> 12) & 1 == 1,
            polarity: (low >> 13) & 1 == 1,
            remote_irr: (low >> 14) & 1 == 1,
            trigger_mode: (low >> 15) & 1 == 1,
            mask: (low >> 16) & 1 == 1,
            destination: ((high >> 24) & 0xff) as u8,
        }
    }

    /// Encode into a pair of raw words (low, high), reserved bits zero.
    pub fn into_raw(self) -> (r: (u32, u32))
        ensures
            r.0 == rte_low_encoded(self),
            r.1 == rte_high_encoded(self),
    {
        let low: u32 = (self.vector as u32) | ((self.delivery_mode as u32) << 8) | ((if self
            .destination_mode {
            1u32
        } else {
            0u32
        }) << 11) | ((if self.delivery_status {
            1u32
        } else {
            0u32
        }) << 12) | ((if self.polarity {
            1u32
        } else {
            0u32
        }) << 13) | ((if self.remote_irr {
            1u32
        } else {
            0u32
        }) << 14) | ((if self.trigger_mode {
            1u32
        } else {
            0u32
        }) << 15) | ((if self.mask {
            1u32
        } else {
            0u32
        }) << 16);
        let high: u32 = (self.destination as u32) << 24;
        (low, high)
    }
}

/// Decoding the pair of words an entry encodes to recovers exactly that
/// entry: the redirection-table codec round-trips on every representable
/// value.
pub proof fn lemma_rte_decode_of_encode(e: RedirectionTableEntry)
    requires
        rte_wf(e),
    ensures
        rte_decoded(rte_low_encoded(e), rte_high_encoded(e)) == e,
{
    let v = e.vector;
    let dm = e.delivery_mode;
    let b0 = flag_bit(e.destination_mode);
    let b1 = flag_bit(e.delivery_status);
    let b2 = flag_bit(e.polarity);
    let b3 = flag_bit(e.remote_irr);
    let b4 = flag_bit(e.trigger_mode);
    let b5 = flag_bit(e.mask);
    let d = e.destination;
    let low = rte_low_encoded(e);
    assert(low == (v as u32) | ((dm as u32) << 8) | (b0 << 11) | (b1 << 12) | (b2 << 13) | (b3
        << 14) | (b4 << 15) | (b5 << 16));
    let enc = (v as u32) | ((dm as u32) << 8) | (b0 << 11) | (b1 << 12) | (b2 << 13) | (b3 << 14)
        | (b4 << 15) | (b5 << 16);
    assert((enc & 0xff) as u8 == v && ((enc >> 8) & 0x7) as u8 == dm && (enc >> 11) & 1 == b0 && (
    enc >> 12) & 1 == b1 && (enc >> 13) & 1 == b2 && (enc >> 14) & 1 == b3 && (enc >> 15) & 1 == b4
        && (enc >> 16) & 1 == b5) by (bit_vector)
        requires
            dm < 8 && b0 < 2 && b1 < 2 && b2 < 2 && b3 < 2 && b4 < 2 && b5 < 2 && enc == (
            v as u32) | ((dm as u32) << 8) | (b0 << 11) | (b1 << 12) | (b2 << 13) | (b3 << 14) | (
            b4 << 15) | (b5 << 16),
    ;
    assert(((((d as u32) << 24) >> 24) & 0xff) as u8 == d) by (bit_vector);
}

/// Encoding the decoded fields reproduces any raw word pair whose
/// reserved bits are zero.
pub proof fn lemma_rte_encode_of_decode(low: u32, high: u32)
    requires
        rte_low_reserved_zero(low),
        rte_high_reserved_zero(high),
    ensures
        rte_low_encoded(rte_decoded(low, high)) == low,
        rte_high_encoded(rte_decoded(low, high)) == high,
{
    let e = rte_decoded(low, high);
    let b0 = flag_bit(e.destination_mode);
    let b1 = flag_bit(e.delivery_status);
    let b2 = flag_bit(e.polarity);
    let b3 = flag_bit(e.remote_irr);
    let b4 = flag_bit(e.trigger_mode);
    let b5 = flag_bit(e.mask);
    assert(b0 == (low >> 11) & 1 && b1 == (low >> 12) & 1 && b2 == (low >> 13) & 1 && b3 == (low
        >> 14) & 1 && b4 == (low >> 15) & 1 && b5 == (low >> 16) & 1) by (bit_vector)
        requires
            b0 == flag_bit((low >> 11) & 1 == 1) && b1 == flag_bit((low >> 12) & 1 == 1) && b2
                == flag_bit((low >> 13) & 1 == 1) && b3 == flag_bit((low >> 14) & 1 == 1) && b4
                == flag_bit((low >> 15) & 1 == 1) && b5 == flag_bit((low >> 16) & 1 == 1),
    ;
    assert(((low & 0xff) as u8 as u32) | ((((low >> 8) & 0x7) as u8 as u32) << 8) | (((low >> 11)
        & 1) << 11) | (((low >> 12) & 1) << 12) | (((low >> 13) & 1) << 13) | (((low >> 14) & 1)
        << 14) | (((low >> 15) & 1) << 15) | (((low >> 16) & 1) << 16) == low) by (bit_vector)
        requires
            low & 0xfffe_0000 == 0,
    ;
    assert((((high >> 24) & 0xff) as u8 as u32) << 24 == high) by (bit_vector)
        requires
            high & 0x00ff_ffff == 0,
    ;
}

} // verus!

