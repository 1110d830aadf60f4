//! The program table: the binary container that packages the compiled
//! modules, each under its dotted name, together with one synthetic entry
//! carrying the program's declared name.
//!
//! Layout, in order: a fixed 16-byte header (magic word, name-pool offset,
//! bytecode-pool offset, entry count, each 32-bit little-endian); one
//! fixed 8-byte pointer record per entry (name length, bytecode length);
//! the name bytes, concatenated without separators; the bytecode bytes.
//! Each entry's bytecode is its one-byte flag field followed by its
//! payload. Offsets are absolute byte offsets from the start of the table.

use vstd::prelude::*;

use crate::util::push_bytes;

verus! {

/// One named payload of the program table, with its one-byte flag field
/// (bit 0: the entry is a module; bit 1: the module is a package; all bits
/// clear: the synthetic program-name entry).
#[derive(Debug, Clone, PartialEq, Eq)]
pub struct ProgramEntry {
    pub name: Vec<u8>,
    pub payload: Vec<u8>,
    pub flags: u8,
}

/// Size in bytes of the table header.
pub const HEADER_SIZE: u32 = 16;

/// Size in bytes of one pointer record.
pub const RECORD_SIZE: u32 = 8;

/// The little-endian bytes of a 32-bit word.
pub open spec fn le32(n: u32) -> Seq<u8> {
    seq![
        (n & 0xff) as u8,
        ((n >> 8) & 0xff) as u8,
        ((n >> 16) & 0xff) as u8,
        ((n >> 24) & 0xff) as u8,
    ]
}

/// Total length of the name pool: the entries' name bytes, concatenated.
pub open spec fn names_len(entries: Seq<ProgramEntry>) -> int
    decreases entries.len(),
{
    if entries.len() == 0 {
        0
    } else {
        names_len(entries.drop_last()) + entries.last().name@.len()
    }
}

/// Total length of the bytecode pool: one flag byte plus the payload, per
/// entry.
pub open spec fn payloads_len(entries: Seq<ProgramEntry>) -> int
    decreases entries.len(),
{
    if entries.len() == 0 {
        0
    } else {
        payloads_len(entries.drop_last()) + 1 + entries.last().payload@.len()
    }
}

/// Absolute offset of the name pool: right after the header and the
/// pointer records.
pub open spec fn name_pool_offset(entries: Seq<ProgramEntry>) -> int {
    HEADER_SIZE + RECORD_SIZE * entries.len()
}

/// Absolute offset of the bytecode pool: right after the name pool.
pub open spec fn code_pool_offset(entries: Seq<ProgramEntry>) -> int {
    name_pool_offset(entries) + names_len(entries)
}

/// Total size in bytes of the serialized table.
pub open spec fn table_size(entries: Seq<ProgramEntry>) -> int {
    code_pool_offset(entries) + payloads_len(entries)
}

/// The pointer records section: per entry, its name length then its
/// bytecode length (flag byte included), each 32-bit little-endian.
pub open spec fn records_bytes(entries: Seq<ProgramEntry>) -> Seq<u8>
    decreases entries.len(),
{
    if entries.len() == 0 {
        Seq::empty()
    } else {
        records_bytes(entries.drop_last()) + le32(entries.last().name@.len() as u32) + le32(
            (1 + entries.last().payload@.len()) as u32,
        )
    }
}

/// The name pool section.
pub open spec fn names_bytes(entries: Seq<ProgramEntry>) -> Seq<u8>
    decreases entries.len(),
{
    if entries.len() == 0 {
        Seq::empty()
    } else {
        names_bytes(entries.drop_last()) + entries.last().name@
    }
}

/// The bytecode pool section: per entry, its flag byte then its payload.
pub open spec fn payloads_bytes(entries: Seq<ProgramEntry>) -> Seq<u8>
    decreases entries.len(),
{
    if entries.len() == 0 {
        Seq::empty()
    } else {
        payloads_bytes(entries.drop_last()) + seq![entries.last().flags]
            + entries.last().payload@
    }
}

/// The whole serialized table.
pub open spec fn table_bytes_spec(magic: u32, entries: Seq<ProgramEntry>) -> Seq<u8> {
    le32(magic) + le32(name_pool_offset(entries) as u32) + le32(code_pool_offset(entries) as u32)
        + le32(entries.len() as u32) + records_bytes(entries) + names_bytes(entries)
        + payloads_bytes(entries)
}

proof fn lemma_pools_nonneg(entries: Seq<ProgramEntry>)
    ensures
        names_len(entries) >= 0,
        payloads_len(entries) >= entries.len(),
    decreases entries.len(),
{
    if entries.len() > 0 {
        lemma_pools_nonneg(entries.drop_last());
    }
}

proof fn lemma_take_succ(entries: Seq<ProgramEntry>, i: int)
    requires
        0 <= i < entries.len(),
    ensures
        names_len(entries.take(i + 1)) == names_len(entries.take(i)) + entries[i].name@.len(),
        payloads_len(entries.take(i + 1)) == payloads_len(entries.take(i)) + 1
            + entries[i].payload@.len(),
        records_bytes(entries.take(i + 1)) == records_bytes(entries.take(i)) + le32(
            entries[i].name@.len() as u32,
        ) + le32((1 + entries[i].payload@.len()) as u32),
        names_bytes(entries.take(i + 1)) == names_bytes(entries.take(i)) + entries[i].name@,
        payloads_bytes(entries.take(i + 1)) == payloads_bytes(entries.take(i)) + seq![
            entries[i].flags,
        ] + entries[i].payload@,
{
    assert(entries.take(i + 1).drop_last() =~= entries.take(i));
    assert(entries.take(i + 1).last() == entries[i]);
}

/// Every prefix of the pools is no longer than the whole pool.
proof fn lemma_take_le(entries: Seq<ProgramEntry>, i: int)
    requires
        0 <= i <= entries.len(),
    ensures
        names_len(entries.take(i)) <= names_len(entries),
        payloads_len(entries.take(i)) <= payloads_len(entries),
        names_len(entries.take(i)) >= 0,
        payloads_len(entries.take(i)) >= 0,
    decreases entries.len() - i,
{
    lemma_pools_nonneg(entries.take(i));
    if i == entries.len() {
        assert(entries.take(i) =~= entries);
    } else {
        lemma_take_succ(entries, i);
        lemma_take_le(entries, i + 1);
    }
}

/// Appends a 32-bit word to `out`, little-endian.
fn push_le32(out: &mut Vec<u8>, n: u32)
    ensures
        final(out)@ == old(out)@ + le32(n),
{
    out.push((n & 0xff) as u8);
    out.push(((n >> 8) & 0xff) as u8);
    out.push(((n >> 16) & 0xff) as u8);
    out.push(((n >> 24) & 0xff) as u8);
    proof {
        assert(out@ =~= old(out)@ + le32(n));
    }
}

/// Serializes the program table: header, pointer records, name pool,
/// bytecode pool, as the module doc describes. The same entries always
/// yield the same bytes.
#[verifier::loop_isolation(false)]
pub fn build_table(magic: u32, entries: &Vec<ProgramEntry>) -> (r: Vec<u8>)
    requires
        table_size(entries@) <= u32::MAX,
    ensures
        r@ == table_bytes_spec(magic, entries@),
        r@.len() == table_size(entries@),
{
    proof {
        lemma_pools_nonneg(entries@);
    }
    let count = entries.len();

    let mut names_total: u64 = 0;
    let mut i: usize = 0;
    while i < count
        invariant
            0 <= i <= count == entries@.len(),
            names_total == names_len(entries@.take(i as int)),
        decreases count - i,
    {
        proof {
            lemma_take_succ(entries@, i as int);
            lemma_take_le(entries@, i + 1);
        }
        names_total = names_total + entries[i].name.len() as u64;
        i = i + 1;
    }
    proof {
        assert(entries@.take(count as int) =~= entries@);
    }

    let name_pool_off: u64 = HEADER_SIZE as u64 + RECORD_SIZE as u64 * count as u64;
    let code_pool_off: u64 = name_pool_off + names_total;

    let mut out: Vec<u8> = Vec::new();
    push_le32(&mut out, magic);
    push_le32(&mut out, name_pool_off as u32);
    push_le32(&mut out, code_pool_off as u32);
    push_le32(&mut out, count as u32);

    let ghost header = le32(magic) + le32(name_pool_offset(entries@) as u32) + le32(
        code_pool_offset(entries@) as u32,
    ) + le32(entries@.len() as u32);

    let mut i: usize = 0;
    while i < count
        invariant
            0 <= i <= count == entries@.len(),
            out@ == header + records_bytes(entries@.take(i as int)),
        decreases count - i,
    {
        proof {
            lemma_take_succ(entries@, i as int);
            lemma_take_le(entries@, i as int);
            lemma_take_le(entries@, i + 1);
            assert(entries@[i as int].name@.len() <= names_len(entries@)) by {
                assert(names_len(entries@.take(i + 1)) == names_len(entries@.take(i as int))
                    + entries@[i as int].name@.len());
            }
            assert(entries@[i as int].payload@.len() + 1 <= payloads_len(entries@)) by {
                assert(payloads_len(entries@.take(i + 1)) == payloads_len(
                    entries@.take(i as int),
                ) + 1 + entries@[i as int].payload@.len());
            }
        }
        push_le32(&mut out, entries[i].name.len() as u32);
        push_le32(&mut out, (entries[i].payload.len() + 1) as u32);
        i = i + 1;
    }

    let mut i: usize = 0;
    while i < count
        invariant
            0 <= i <= count == entries@.len(),
            out@ == header + records_bytes(entries@) + names_bytes(entries@.take(i as int)),
        decreases count - i,
    {
        proof {
            lemma_take_succ(entries@, i as int);
        }
        push_bytes(&mut out, &entries[i].name);
        i = i + 1;
    }

    let mut i: usize = 0;
    while i < count
        invariant
            0 <= i <= count == entries@.len(),
            out@ == header + records_bytes(entries@) + names_bytes(entries@) + payloads_bytes(
                entries@.take(i as int),
            ),
        decreases count - i,
    {
        proof {
            lemma_take_succ(entries@, i as int);
        }
        out.push(entries[i].flags);
        push_bytes(&mut out, &entries[i].payload);
        proof {
            assert(header + records_bytes(entries@) + names_bytes(entries@) + payloads_bytes(
                entries@.take(i + 1),
            ) =~= (header + records_bytes(entries@) + names_bytes(entries@) + payloads_bytes(
                entries@.take(i as int),
            )).push(entries@[i as int].flags) + entries@[i as int].payload@);
        }
        i = i + 1;
    }

    proof {
        assert(entries@.take(count as int) =~= entries@);
        assert(out@ =~= table_bytes_spec(magic, entries@));
        lemma_table_bytes_len(magic, entries@);
    }
    out
}

proof fn lemma_sections_len(entries: Seq<ProgramEntry>)
    ensures
        records_bytes(entries).len() == RECORD_SIZE * entries.len(),
        names_bytes(entries).len() == names_len(entries),
        payloads_bytes(entries).len() == payloads_len(entries),
    decreases entries.len(),
{
    if entries.len() > 0 {
        lemma_sections_len(entries.drop_last());
        assert(RECORD_SIZE * entries.len() == RECORD_SIZE * (entries.len() - 1) + RECORD_SIZE)
            by (nonlinear_arith);
    }
}

proof fn lemma_table_bytes_len(magic: u32, entries: Seq<ProgramEntry>)
    ensures
        table_bytes_spec(magic, entries).len() == table_size(entries),
{
    lemma_sections_len(entries);
}

/// Law: the header offsets of a serialized table are exactly the cumulative
/// byte lengths of the sections before them — the name pool starts where
/// the header and the pointer records end, the bytecode pool starts where
/// the name pool ends, and the table ends where the bytecode pool ends —
/// and the sections found at those offsets are exactly the three sections.
pub proof fn lemma_table_layout(magic: u32, entries: Seq<ProgramEntry>)
    ensures
        name_pool_offset(entries) == HEADER_SIZE + records_bytes(entries).len(),
        code_pool_offset(entries) == name_pool_offset(entries) + names_bytes(entries).len(),
        table_bytes_spec(magic, entries).len() == code_pool_offset(entries) + payloads_bytes(
            entries,
        ).len(),
        table_bytes_spec(magic, entries).subrange(
            HEADER_SIZE as int,
            name_pool_offset(entries),
        ) == records_bytes(entries),
        table_bytes_spec(magic, entries).subrange(
            name_pool_offset(entries),
            code_pool_offset(entries),
        ) == names_bytes(entries),
        table_bytes_spec(magic, entries).subrange(
            code_pool_offset(entries),
            table_size(entries),
        ) == payloads_bytes(entries),
{
    lemma_sections_len(entries);
    lemma_pools_nonneg(entries);
    assert(table_bytes_spec(magic, entries).subrange(
        HEADER_SIZE as int,
        name_pool_offset(entries),
    ) =~= records_bytes(entries));
    assert(table_bytes_spec(magic, entries).subrange(
        name_pool_offset(entries),
        code_pool_offset(entries),
    ) =~= names_bytes(entries));
    assert(table_bytes_spec(magic, entries).subrange(
        code_pool_offset(entries),
        table_size(entries),
    ) =~= payloads_bytes(entries));
}

} // verus!
