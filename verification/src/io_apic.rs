//! The I/O router: a two-register indirect addressing scheme (select +
//! window) over an internal register file that holds identity, version
//! and arbitration registers and a 24-row redirection table, each row a
//! 64-bit logical value split across two consecutive 32-bit words.
//!
//! The router exposes exactly one window shared by all internal
//! registers, so every access is a select-then-access sequence and no
//! public operation touches the window without selecting first. The
//! handle models the register file it addresses and keeps a log of the
//! primitive operations it has issued, so the exact select/access
//! sequence of every composite operation is part of its contract. The
//! router provides no internal locking: every operation takes the handle
//! by exclusive reference, and serializing cross-context access to the
//! same hardware remains the caller's obligation.

use vstd::prelude::*;
use vstd::pervasive::VecAdditionalExecFns;
use bit_field::BitField;
use crate::values::{
    Version, Arbitration, RedirectionTableEntry, version_decoded, arbitration_decoded,
    arbitration_encoded, rte_decoded, rte_low_encoded, rte_high_encoded,
};

verus! {

/// Number of rows in the redirection table.
pub const REDIRECTION_TABLE_ROWS: u8 = 24;

/// Byte offsets of the router's two hardware registers from its base
/// address.
#[derive(Clone, Copy, Debug, PartialEq, Eq, Structural)]
pub enum Offset {
    Select,
    Window,
}

impl Offset {
    /// Byte offset of the register from the router's base address.
    pub open spec fn spec_value(self) -> usize {
        match self {
            Offset::Select => 0x0,
            Offset::Window => 0x10,
        }
    }

    /// Byte offset of the register from the router's base address.
    pub fn value(self) -> (r: usize)
        ensures
            r == self.spec_value(),
    {
        match self {
            Offset::Select => 0x0,
            Offset::Window => 0x10,
        }
    }
}

/// Indices of the router's named internal registers. Redirection-table
/// row `n` occupies the two consecutive indices base + 2n (low word) and
/// base + 2n + 1 (high word).
#[derive(Clone, Copy, Debug, PartialEq, Eq, Structural)]
pub enum Index {
    Id,
    Version,
    Arbitration,
    RedirectionTableEntryBase,
}

impl Index {
    /// The index value written into the select register's low byte.
    pub open spec fn spec_value(self) -> u8 {
        match self {
            Index::Id => 0x0,
            Index::Version => 0x1,
            Index::Arbitration => 0x2,
            Index::RedirectionTableEntryBase => 0x10,
        }
    }

    /// The index value written into the select register's low byte.
    pub fn as_u8(self) -> (r: u8)
        ensures
            r == self.spec_value(),
    {
        match self {
            Index::Id => 0x0,
            Index::Version => 0x1,
            Index::Arbitration => 0x2,
            Index::RedirectionTableEntryBase => 0x10,
        }
    }
}

/// Relies on bit_field's `BitField` impl for `u32`: `set_bits(0..8, v)`
/// replaces the low eight bits with `v` and leaves all other bits
/// unchanged (and never panics here, since a byte always fits the range).
#[verifier::external_body]
fn word_with_low_byte(word: u32, index: u8) -> (r: u32)
    ensures
        r == (word & 0xffff_ff00) | (index as u32),
{
    let mut w = word;
    w.set_bits(0..8, index.into());
    w
}

/// Relies on bit_field's `BitField` impl for `u32`: `get_bits(24..28)`
/// extracts bits [24:28) shifted down to the low bits.
#[verifier::external_body]
fn id_bits_of_word(word: u32) -> (r: u32)
    ensures
        r == (word >> 24) & 0xf,
{
    word.get_bits(24..28)
}

/// Contents of the router's select register. Only the low eight bits
/// carry meaning (the index of the internal register the window exposes);
/// the remaining bits are reserved and left untouched when the index is
/// replaced.
#[derive(Clone, Copy, Debug)]
pub struct Select(u32);

impl Select {
    /// The raw 32-bit contents of the select register.
    pub closed spec fn spec_word(self) -> u32 {
        self.0
    }

    /// The index in the low eight bits.
    pub open spec fn spec_index(self) -> u32 {
        self.spec_word() & 0xff
    }

    /// A fresh select value carrying the given index, reserved bits zero.
    pub fn new(index: u8) -> (r: Select)
        ensures
            r.spec_word() == index as u32,
    {
        Select(index as u32)
    }

    /// The select value with exactly the given raw register contents,
    /// as read back from the hardware register.
    pub fn from_raw(word: u32) -> (r: Select)
        ensures
            r.spec_word() == word,
    {
        Select(word)
    }

    /// The same select value with the low eight bits replaced by the
    /// given index and every reserved bit preserved.
    pub fn set_index(self, index: u8) -> (r: Select)
        ensures
            r.spec_word() == (self.spec_word() & 0xffff_ff00) | (index as u32),
            r.spec_index() == index as u32,
    {
        let r = Select(word_with_low_byte(self.0, index));
        proof {
            let w = self.0;
            assert(((w & 0xffff_ff00) | (index as u32)) & 0xff == index as u32) by (bit_vector);
        }
        r
    }

    /// The raw 32-bit contents of the select register.
    pub fn raw(self) -> (r: u32)
        ensures
            r == self.spec_word(),
    {
        self.0
    }

    /// The index in the low eight bits.
    pub fn index(self) -> (r: u8)
        ensures
            r as u32 == self.spec_index(),
    {
        proof {
            let w = self.0;
            assert(w & 0xff < 256) by (bit_vector);
        }
        (self.0 & 0xff) as u8
    }
}

/// One primitive hardware operation issued by the router handle: a write
/// of an index to the select register, a read of the window, or a write
/// of a word to the window.
#[derive(Clone, Copy, Debug, PartialEq, Eq, Structural)]
pub enum Op {
    Select(u8),
    ReadWindow,
    WriteWindow(u32),
}

/// Handle on one I/O router. It holds the current select register
/// contents, the internal register file addressed through the window
/// (one 32-bit word per reachable index), and the log of primitive
/// operations issued so far, in order.
///
/// Every operation takes the handle by exclusive reference, so no two
/// select/window sequences through one handle can interleave; callers
/// that share one router across execution contexts must serialize those
/// contexts themselves.
pub struct IoApicBase {
    select: Select,
    registers: Vec<u32>,
    ops: Vec<Op>,
}

/// Number of distinct indices reachable through the select register's
/// low byte, and so the size of the modeled register file.
pub const REGISTER_FILE_WORDS: usize = 256;

impl IoApicBase {
    /// The register file addressed through the window, one word per
    /// index.
    pub closed spec fn registers_view(self) -> Seq<u32> {
        self.registers@
    }

    /// The primitive operations issued so far, oldest first.
    pub closed spec fn ops_view(self) -> Seq<Op> {
        self.ops@
    }

    /// The index currently held in the select register's low byte.
    pub closed spec fn selected(self) -> u32 {
        self.select.spec_index()
    }

    /// The raw contents of the select register.
    pub closed spec fn select_word(self) -> u32 {
        self.select.spec_word()
    }

    /// A handle is well-formed when its register file covers every index
    /// reachable through the select register's low byte.
    pub open spec fn wf(self) -> bool {
        self.registers_view().len() == REGISTER_FILE_WORDS
    }

    /// A fresh handle over a zeroed register file, with an empty log.
    pub fn new() -> (r: IoApicBase)
        ensures
            r.wf(),
            r.registers_view() =~= Seq::new(REGISTER_FILE_WORDS as nat, |i: int| 0u32),
            r.ops_view() =~= Seq::<Op>::empty(),
            r.select_word() == 0,
    {
        let mut registers: Vec<u32> = Vec::new();
        let mut i: usize = 0;
        while i < REGISTER_FILE_WORDS
            invariant
                i <= REGISTER_FILE_WORDS,
                registers@.len() == i,
                forall|j: int| 0 <= j < i ==> registers@[j] == 0u32,
            decreases REGISTER_FILE_WORDS - i,
        {
            registers.push(0);
            i = i + 1;
        }
        IoApicBase { select: Select::new(0), registers, ops: Vec::new() }
    }

    /// A fresh handle over the given register file contents, with an
    /// empty log.
    pub fn with_registers(registers: Vec<u32>) -> (r: IoApicBase)
        requires
            registers@.len() == REGISTER_FILE_WORDS,
        ensures
            r.wf(),
            r.registers_view() == registers@,
            r.ops_view() =~= Seq::<Op>::empty(),
            r.select_word() == 0,
    {
        IoApicBase { select: Select::new(0), registers, ops: Vec::new() }
    }

    /// The log of primitive operations issued so far, oldest first.
    pub fn ops(&self) -> (r: &Vec<Op>)
        ensures
            r@ == self.ops_view(),
    {
        &self.ops
    }

    /// Write an index into the select register's low byte, preserving
    /// the reserved bits. One primitive operation.
    fn select_index(&mut self, index: u8)
        requires
            old(self).wf(),
        ensures
            final(self).wf(),
            final(self).select_word() == (old(self).select_word() & 0xffff_ff00) | (index as u32),
            final(self).selected() == index as u32,
            final(self).registers_view() == old(self).registers_view(),
            final(self).ops_view() == old(self).ops_view().push(Op::Select(index)),
    {
        self.select = self.select.set_index(index);
        self.ops.push(Op::Select(index));
    }

    /// Read the window: the word of the currently selected internal
    /// register. One primitive operation.
    fn read_window(&mut self) -> (r: u32)
        requires
            old(self).wf(),
        ensures
            final(self).wf(),
            r == old(self).registers_view()[old(self).selected() as int],
            final(self).select_word() == old(self).select_word(),
            final(self).registers_view() == old(self).registers_view(),
            final(self).ops_view() == old(self).ops_view().push(Op::ReadWindow),
    {
        let i = self.select.index();
        proof {
            let w = self.select.spec_word();
            assert(w & 0xff < 256) by (bit_vector);
        }
        let r = self.registers[i as usize];
        self.ops.push(Op::ReadWindow);
        r
    }

    /// Write the window: replace the word of the currently selected
    /// internal register. One primitive operation.
    fn write_window(&mut self, word: u32)
        requires
            old(self).wf(),
        ensures
            final(self).wf(),
            final(self).select_word() == old(self).select_word(),
            final(self).registers_view() == old(self).registers_view().update(
                old(self).selected() as int,
                word,
            ),
            final(self).ops_view() == old(self).ops_view().push(Op::WriteWindow(word)),
    {
        let i = self.select.index();
        proof {
            let w = self.select.spec_word();
            assert(w & 0xff < 256) by (bit_vector);
        }
        self.registers.set(i as usize, word);
        self.ops.push(Op::WriteWindow(word));
    }

    /// Select an internal register, then read it through the window:
    /// exactly the primitive sequence select(index), read.
    pub fn read(&mut self, index: u8) -> (r: u32)
        requires
            old(self).wf(),
        ensures
            final(self).wf(),
            r == old(self).registers_view()[index as int],
            final(self).selected() == index as u32,
            final(self).select_word() == (old(self).select_word() & 0xffff_ff00) | (index as u32),
            final(self).registers_view() == old(self).registers_view(),
            final(self).ops_view() =~= old(self).ops_view() + seq![
                Op::Select(index),
                Op::ReadWindow,
            ],
    {
        self.select_index(index);
        self.read_window()
    }

    /// Select an internal register, then overwrite it through the
    /// window: exactly the primitive sequence select(index), write.
    pub fn write(&mut self, index: u8, word: u32)
        requires
            old(self).wf(),
        ensures
            final(self).wf(),
            final(self).selected() == index as u32,
            final(self).select_word() == (old(self).select_word() & 0xffff_ff00) | (index as u32),
            final(self).registers_view() == old(self).registers_view().update(index as int, word),
            final(self).ops_view() =~= old(self).ops_view() + seq![
                Op::Select(index),
                Op::WriteWindow(word),
            ],
    {
        self.select_index(index);
        self.write_window(word);
    }

    /// Read the router's identity: bits [24:28) of the identity
    /// register. One select and one window read.
    pub fn read_id(&mut self) -> (r: u8)
        requires
            old(self).wf(),
        ensures
            final(self).wf(),
            r as u32 == (old(self).registers_view()[Index::Id.spec_value() as int] >> 24) & 0xf,
            final(self).registers_view() == old(self).registers_view(),
            final(self).ops_view() =~= old(self).ops_view() + seq![
                Op::Select(Index::Id.spec_value()),
                Op::ReadWindow,
            ],
            final(self).select_word() == (old(self).select_word() & 0xffff_ff00) | (
            Index::Id.spec_value() as u32),
    {
        let w = self.read(Index::Id.as_u8());
        let bits = id_bits_of_word(w);
        proof {
            assert((w >> 24) & 0xf < 256) by (bit_vector);
        }
        bits as u8
    }

    /// Read and decode the version register. One select and one window
    /// read.
    pub fn read_version(&mut self) -> (r: Version)
        requires
            old(self).wf(),
        ensures
            final(self).wf(),
            r == version_decoded(old(self).registers_view()[Index::Version.spec_value() as int]),
            final(self).registers_view() == old(self).registers_view(),
            final(self).ops_view() =~= old(self).ops_view() + seq![
                Op::Select(Index::Version.spec_value()),
                Op::ReadWindow,
            ],
            final(self).select_word() == (old(self).select_word() & 0xffff_ff00) | (
            Index::Version.spec_value() as u32),
    {
        let w = self.read(Index::Version.as_u8());
        Version::from_raw(w)
    }

    /// Read and decode the arbitration register. One select and one
    /// window read.
    pub fn read_arbitration(&mut self) -> (r: Arbitration)
        requires
            old(self).wf(),
        ensures
            final(self).wf(),
            r == arbitration_decoded(
                old(self).registers_view()[Index::Arbitration.spec_value() as int],
            ),
            final(self).registers_view() == old(self).registers_view(),
            final(self).ops_view() =~= old(self).ops_view() + seq![
                Op::Select(Index::Arbitration.spec_value()),
                Op::ReadWindow,
            ],
            final(self).select_word() == (old(self).select_word() & 0xffff_ff00) | (
            Index::Arbitration.spec_value() as u32),
    {
        let w = self.read(Index::Arbitration.as_u8());
        Arbitration::from_raw(w)
    }

    /// Encode and write the arbitration register. One select and one
    /// window write.
    pub fn write_arbitration(&mut self, value: Arbitration)
        requires
            old(self).wf(),
        ensures
            final(self).wf(),
            final(self).registers_view() == old(self).registers_view().update(
                Index::Arbitration.spec_value() as int,
                arbitration_encoded(value),
            ),
            final(self).ops_view() =~= old(self).ops_view() + seq![
                Op::Select(Index::Arbitration.spec_value()),
                Op::WriteWindow(arbitration_encoded(value)),
            ],
            final(self).select_word() == (old(self).select_word() & 0xffff_ff00) | (
            Index::Arbitration.spec_value() as u32),
    {
        let w = value.into_raw();
        self.write(Index::Arbitration.as_u8(), w);
    }
}

/// Index of the low word of redirection-table row `row`.
pub open spec fn redirection_low_index(row: u8) -> int {
    Index::RedirectionTableEntryBase.spec_value() + 2 * row
}

/// Index of the high word of redirection-table row `row`.
pub open spec fn redirection_high_index(row: u8) -> int {
    redirection_low_index(row) + 1
}

/// The primitive operations that reading redirection-table row `row`
/// issues: select and read the low word, then select and read the high
/// word.
pub open spec fn read_redirection_ops(row: u8) -> Seq<Op> {
    seq![
        Op::Select(redirection_low_index(row) as u8),
        Op::ReadWindow,
        Op::Select(redirection_high_index(row) as u8),
        Op::ReadWindow,
    ]
}

/// The primitive operations that writing `entry` to redirection-table
/// row `row` issues: select and write the low word, then select and
/// write the high word.
pub open spec fn write_redirection_ops(row: u8, entry: RedirectionTableEntry) -> Seq<Op> {
    seq![
        Op::Select(redirection_low_index(row) as u8),
        Op::WriteWindow(rte_low_encoded(entry)),
        Op::Select(redirection_high_index(row) as u8),
        Op::WriteWindow(rte_high_encoded(entry)),
    ]
}

/// The entry that redirection-table row `row` holds in a register file.
pub open spec fn redirection_entry_of(registers: Seq<u32>, row: u8) -> RedirectionTableEntry {
    rte_decoded(registers[redirection_low_index(row)], registers[redirection_high_index(row)])
}

/// The register file after `entry` is written to redirection-table row
/// `row`: the row's two words replaced by the encoding, low word first,
/// everything else untouched.
pub open spec fn with_redirection_entry(
    registers: Seq<u32>,
    row: u8,
    entry: RedirectionTableEntry,
) -> Seq<u32> {
    registers.update(redirection_low_index(row), rte_low_encoded(entry)).update(
        redirection_high_index(row),
        rte_high_encoded(entry),
    )
}

/// Replacing the select register's low byte leaves its reserved upper
/// bits unchanged, whatever they held.
proof fn lemma_select_low_byte_replace(word: u32, index: u8)
    ensures
        ((word & 0xffff_ff00) | (index as u32)) & 0xffff_ff00 == word & 0xffff_ff00,
{
    assert(((word & 0xffff_ff00) | (index as u32)) & 0xffff_ff00 == word & 0xffff_ff00)
        by (bit_vector);
}

/// The pair of internal register indices holding redirection-table row
/// `row`: low word first, then high word.
pub fn redirection_index_pair(row: u8) -> (r: (u8, u8))
    requires
        row < REDIRECTION_TABLE_ROWS,
    ensures
        r.0 == redirection_low_index(row),
        r.1 == redirection_high_index(row),
{
    let index_low: u8 = Index::RedirectionTableEntryBase.as_u8() + row * 2;
    (index_low, index_low + 1)
}

impl IoApicBase {
    /// Read and decode redirection-table row `irq`: select and read its
    /// low word, then select and read its high word — exactly four
    /// primitive operations, in that order.
    pub fn read_redirection_table_entry(&mut self, irq: u8) -> (r: RedirectionTableEntry)
        requires
            old(self).wf(),
            irq < REDIRECTION_TABLE_ROWS,
        ensures
            final(self).wf(),
            r == redirection_entry_of(old(self).registers_view(), irq),
            final(self).registers_view() == old(self).registers_view(),
            final(self).ops_view() =~= old(self).ops_view() + read_redirection_ops(irq),
            final(self).select_word() == (old(self).select_word() & 0xffff_ff00) | (
            redirection_high_index(irq) as u32),
    {
        let (index_low, index_high) = redirection_index_pair(irq);

        let low = self.read(index_low);
        proof {
            lemma_select_low_byte_replace(old(self).select_word(), index_low);
        }
        let high = self.read(index_high);

        RedirectionTableEntry::from_raw(low, high)
    }

    /// Encode and write redirection-table row `irq`: select and write
    /// its low word, then select and write its high word — exactly four
    /// primitive operations, in that order.
    pub fn write_redirection_table_entry(&mut self, irq: u8, value: RedirectionTableEntry)
        requires
            old(self).wf(),
            irq < REDIRECTION_TABLE_ROWS,
        ensures
            final(self).wf(),
            final(self).registers_view() == with_redirection_entry(
                old(self).registers_view(),
                irq,
                value,
            ),
            final(self).ops_view() =~= old(self).ops_view() + write_redirection_ops(irq, value),
            final(self).select_word() == (old(self).select_word() & 0xffff_ff00) | (
            redirection_high_index(irq) as u32),
    {
        let (index_low, index_high) = redirection_index_pair(irq);

        let (low, high) = value.into_raw();

        self.write(index_low, low);
        proof {
            lemma_select_low_byte_replace(old(self).select_word(), index_low);
        }
        self.write(index_high, high);
    }

    /// Read redirection-table row `irq`, pass the decoded entry through
    /// the caller's transformation, and write the result back: the same
    /// register file and the same primitive operations, in the same
    /// order, as reading the row and then writing the transformed entry.
    /// The read-modify-write sequence is not atomic across handles.
    pub fn update_redirection_table_entry<F: FnOnce(RedirectionTableEntry) ->
        RedirectionTableEntry>(&mut self, irq: u8, f: F)
        requires
            old(self).wf(),
            irq < REDIRECTION_TABLE_ROWS,
            call_requires(f, (redirection_entry_of(old(self).registers_view(), irq),)),
        ensures
            final(self).wf(),
            exists|updated: RedirectionTableEntry|
                (#[trigger] call_ensures(
                    f,
                    (redirection_entry_of(old(self).registers_view(), irq),),
                    updated,
                ) && final(self).registers_view() == with_redirection_entry(
                    old(self).registers_view(),
                    irq,
                    updated,
                ) && final(self).ops_view() =~= old(self).ops_view() + read_redirection_ops(irq)
                    + write_redirection_ops(irq, updated)),
            final(self).select_word() == (old(self).select_word() & 0xffff_ff00) | (
            redirection_high_index(irq) as u32),
    {
        let value = self.read_redirection_table_entry(irq);
        let value = f(value);
        proof {
            lemma_select_low_byte_replace(
                old(self).select_word(),
                (redirection_high_index(irq) as u8),
            );
        }
        self.write_redirection_table_entry(irq, value);
    }
}

/// Writing a representable entry to a redirection-table row and then
/// reading that row back yields the written entry, whatever the register
/// file held before: `write_redirection_table_entry` followed by
/// `read_redirection_table_entry` on the same row recovers its argument.
pub proof fn lemma_redirection_write_then_read(
    registers: Seq<u32>,
    row: u8,
    entry: RedirectionTableEntry,
)
    requires
        registers.len() == REGISTER_FILE_WORDS,
        row < REDIRECTION_TABLE_ROWS,
        crate::values::rte_wf(entry),
    ensures
        redirection_entry_of(with_redirection_entry(registers, row, entry), row) == entry,
{
    let written = with_redirection_entry(registers, row, entry);
    assert(written[redirection_low_index(row)] == rte_low_encoded(entry));
    assert(written[redirection_high_index(row)] == rte_high_encoded(entry));
    crate::values::lemma_rte_decode_of_encode(entry);
}

} // verus!

