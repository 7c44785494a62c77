//! How perfdata are laid out in bytes, stated from the writer's side, and what follows for the
//! reader: perfdata that are laid out so are accepted, and nothing else is.

use vstd::prelude::*;

use crate::error::Fault;
use crate::index::IndexView;
use crate::perfdata::{EntryMeta, EntryView, PerfHeader};

verus! {

/// The four bytes of a number below 2^32, the most significant first or last.
#[verifier::opaque]
pub open spec fn u32_bytes(value: int, is_little_endian: bool) -> Seq<u8> {
    let high = (value / 0x100_0000) as u8;
    let upper = (value / 0x1_0000 % 0x100) as u8;
    let lower = (value / 0x100 % 0x100) as u8;
    let low = (value % 0x100) as u8;
    if is_little_endian {
        seq![low, lower, upper, high]
    } else {
        seq![high, upper, lower, low]
    }
}

/// The eight bytes of a 64-bit number in two's complement.
pub open spec fn i64_bytes(value: int, is_little_endian: bool) -> Seq<u8> {
    let unsigned = if value < 0 {
        value + 0x1_0000_0000_0000_0000
    } else {
        value
    };
    let high = u32_bytes(unsigned / 0x1_0000_0000, is_little_endian);
    let low = u32_bytes(unsigned % 0x1_0000_0000, is_little_endian);
    if is_little_endian {
        low + high
    } else {
        high + low
    }
}

proof fn lemma_digits(value: int)
    requires
        0 <= value < 0x1_0000_0000,
    ensures
        0 <= value / 0x100_0000 < 0x100,
        0 <= value / 0x1_0000 % 0x100 < 0x100,
        0 <= value / 0x100 % 0x100 < 0x100,
        0 <= value % 0x100 < 0x100,
        value == 0x100_0000 * (value / 0x100_0000) + 0x1_0000 * (value / 0x1_0000 % 0x100) + 0x100
            * (value / 0x100 % 0x100) + value % 0x100,
{
    assert(value / 0x1_0000 == 0x100 * (value / 0x100_0000) + value / 0x1_0000 % 0x100);
    assert(value / 0x100 == 0x100 * (value / 0x1_0000) + value / 0x100 % 0x100);
}

proof fn lemma_value_of_digits(high: int, upper: int, lower: int, low: int)
    requires
        0 <= high < 0x100,
        0 <= upper < 0x100,
        0 <= lower < 0x100,
        0 <= low < 0x100,
    ensures
        ({
            let value = 0x100_0000 * high + 0x1_0000 * upper + 0x100 * lower + low;
            &&& 0 <= value < 0x1_0000_0000
            &&& value / 0x100_0000 == high
            &&& value / 0x1_0000 % 0x100 == upper
            &&& value / 0x100 % 0x100 == lower
            &&& value % 0x100 == low
        }),
{
    let value = 0x100_0000 * high + 0x1_0000 * upper + 0x100 * lower + low;
    assert(value / 0x1_0000 == 0x100 * high + upper);
    assert(value / 0x100 == 0x1_0000 * high + 0x100 * upper + lower);
}

proof fn lemma_u32_written(value: int, is_little_endian: bool)
    requires
        0 <= value < 0x1_0000_0000,
    ensures
        u32_bytes(value, is_little_endian).len() == 4,
        crate::bytes::u32_value(u32_bytes(value, is_little_endian), is_little_endian) == value,
{
    reveal(u32_bytes);
    lemma_digits(value);
}

proof fn lemma_u32_read(bytes: Seq<u8>, is_little_endian: bool)
    requires
        bytes.len() == 4,
    ensures
        0 <= crate::bytes::u32_value(bytes, is_little_endian) < 0x1_0000_0000,
        u32_bytes(crate::bytes::u32_value(bytes, is_little_endian), is_little_endian) == bytes,
{
    reveal(u32_bytes);
    if is_little_endian {
        lemma_value_of_digits(bytes[3] as int, bytes[2] as int, bytes[1] as int, bytes[0] as int);
    } else {
        lemma_value_of_digits(bytes[0] as int, bytes[1] as int, bytes[2] as int, bytes[3] as int);
    }
    assert(u32_bytes(crate::bytes::u32_value(bytes, is_little_endian), is_little_endian) =~= bytes);
}

/// A number is read back from its four bytes, and the bytes are those of the number.
pub proof fn law_u32_round_trip(value: int, bytes: Seq<u8>, is_little_endian: bool)
    ensures
        0 <= value < 0x1_0000_0000 ==> u32_bytes(value, is_little_endian).len() == 4
            && crate::bytes::u32_value(u32_bytes(value, is_little_endian), is_little_endian)
            == value,
        bytes.len() == 4 ==> 0 <= crate::bytes::u32_value(bytes, is_little_endian) < 0x1_0000_0000
            && u32_bytes(crate::bytes::u32_value(bytes, is_little_endian), is_little_endian)
            == bytes,
{
    if 0 <= value < 0x1_0000_0000 {
        lemma_u32_written(value, is_little_endian);
    }
    if bytes.len() == 4 {
        lemma_u32_read(bytes, is_little_endian);
    }
}

proof fn lemma_first_four(bytes: Seq<u8>, is_little_endian: bool)
    requires
        bytes.len() >= 4,
    ensures
        crate::bytes::u32_value(bytes, is_little_endian) == crate::bytes::u32_value(
            bytes.take(4),
            is_little_endian,
        ),
{
}

proof fn lemma_u64_read(first: Seq<u8>, second: Seq<u8>, is_little_endian: bool)
    requires
        first.len() == 4,
        second.len() == 4,
    ensures
        crate::bytes::u64_value(first + second, is_little_endian) == (if is_little_endian {
            crate::bytes::u32_value(first, true) + 0x1_0000_0000 * crate::bytes::u32_value(
                second,
                true,
            )
        } else {
            0x1_0000_0000 * crate::bytes::u32_value(first, false) + crate::bytes::u32_value(
                second,
                false,
            )
        }),
{
    assert((first + second).skip(4) =~= second);
    assert((first + second).take(4) =~= first);
    lemma_first_four(first + second, is_little_endian);
}

proof fn lemma_i64_written(value: i64, is_little_endian: bool)
    ensures
        i64_bytes(value as int, is_little_endian).len() == 8,
        crate::bytes::i64_value(i64_bytes(value as int, is_little_endian), is_little_endian)
            == value,
{
    let unsigned: int = if value < 0 {
        value + 0x1_0000_0000_0000_0000
    } else {
        value as int
    };
    let high = u32_bytes(unsigned / 0x1_0000_0000, is_little_endian);
    let low = u32_bytes(unsigned % 0x1_0000_0000, is_little_endian);
    lemma_u32_written(unsigned / 0x1_0000_0000, is_little_endian);
    lemma_u32_written(unsigned % 0x1_0000_0000, is_little_endian);
    lemma_u64_read(low, high, is_little_endian);
    lemma_u64_read(high, low, is_little_endian);
}

proof fn lemma_i64_read(bytes: Seq<u8>, is_little_endian: bool)
    requires
        bytes.len() == 8,
    ensures
        i64::MIN <= crate::bytes::i64_value(bytes, is_little_endian) <= i64::MAX,
        i64_bytes(crate::bytes::i64_value(bytes, is_little_endian), is_little_endian) == bytes,
{
    let first = bytes.take(4);
    let second = bytes.skip(4);
    assert(first + second =~= bytes);
    lemma_u32_read(first, is_little_endian);
    lemma_u32_read(second, is_little_endian);
    lemma_u64_read(first, second, is_little_endian);
    let one = crate::bytes::u32_value(first, is_little_endian);
    let two = crate::bytes::u32_value(second, is_little_endian);
    assert((one + 0x1_0000_0000 * two) / 0x1_0000_0000 == two);
    assert((one + 0x1_0000_0000 * two) % 0x1_0000_0000 == one);
    assert((0x1_0000_0000 * one + two) / 0x1_0000_0000 == one);
    assert((0x1_0000_0000 * one + two) % 0x1_0000_0000 == two);
}

/// A 64-bit number is read back from its eight bytes, and the bytes are those of the number.
pub proof fn law_i64_round_trip(value: i64, bytes: Seq<u8>, is_little_endian: bool)
    ensures
        i64_bytes(value as int, is_little_endian).len() == 8,
        crate::bytes::i64_value(i64_bytes(value as int, is_little_endian), is_little_endian)
            == value,
        bytes.len() == 8 ==> i64::MIN <= crate::bytes::i64_value(bytes, is_little_endian)
            <= i64::MAX && i64_bytes(
            crate::bytes::i64_value(bytes, is_little_endian),
            is_little_endian,
        ) == bytes,
{
    lemma_i64_written(value, is_little_endian);
    if bytes.len() == 8 {
        lemma_i64_read(bytes, is_little_endian);
    }
}

/// An entry as a JVM publishes it. Offsets count from the start of the entry.
pub struct PublishedEntry {
    /// The name, in UTF-8.
    pub name: Seq<u8>,
    pub data_type: u8,
    pub units: u8,
    pub vector_length: int,
    pub name_offset: int,
    pub data_offset: int,
    pub len: int,
}

impl PublishedEntry {
    /// The name in characters.
    pub open spec fn key(self) -> Seq<char> {
        vstd::utf8::decode_utf8(self.name)
    }

    /// Whether the name is well-formed UTF-8 that is not empty and holds no NUL, and its region,
    /// which ends where the value starts, leaves room for a NUL and has at most 64 KiB.
    pub open spec fn name_fits(self) -> bool {
        &&& self.name.len() > 0
        &&& vstd::utf8::valid_utf8(self.name)
        &&& forall|i: int| 0 <= i < self.name.len() ==> #[trigger] self.name[i] != 0
        &&& 20 <= self.name_offset
        &&& self.name_offset + self.name.len() < self.data_offset
        &&& self.data_offset - self.name_offset <= 65536
    }

    /// Whether the value fits in the entry: one counter (`J`) has eight bytes, and a string (`B`)
    /// has string units and at most 16 MiB.
    pub open spec fn value_fits(self) -> bool {
        &&& self.data_offset <= self.len
        &&& self.data_type == 0x4a && self.vector_length == 0 ==> self.data_offset + 8 <= self.len
        &&& self.data_type == 0x42 && self.vector_length > 0 ==> self.units == 5
            && self.vector_length <= 16777216 && self.data_offset + self.vector_length <= self.len
    }

    /// Whether the bytes from `start` on hold this entry.
    pub open spec fn stands_at(self, bytes: Seq<u8>, start: int, is_little_endian: bool) -> bool {
        &&& self.name_fits()
        &&& self.value_fits()
        &&& self.len % 4 == 0
        &&& self.len < 0x1_0000_0000
        &&& 0 <= self.vector_length < 0x1_0000_0000
        &&& 0 <= start && start + self.len <= bytes.len()
        &&& bytes.subrange(start, start + 4) == u32_bytes(self.len, is_little_endian)
        &&& bytes.subrange(start + 4, start + 8) == u32_bytes(self.name_offset, is_little_endian)
        &&& bytes.subrange(start + 8, start + 12) == u32_bytes(self.vector_length, is_little_endian)
        &&& bytes[start + 12] == self.data_type
        &&& bytes[start + 14] == self.units
        &&& bytes.subrange(start + 16, start + 20) == u32_bytes(self.data_offset, is_little_endian)
        &&& bytes.subrange(
            start + self.name_offset,
            start + self.name_offset + self.name.len(),
        ) == self.name
        &&& bytes[start + self.name_offset + self.name.len()] == 0
    }

    /// What the index holds of the entry.
    pub open spec fn meta(self, start: int) -> EntryMeta {
        EntryMeta {
            data_type: self.data_type,
            data_offset: (start + self.data_offset) as usize,
            vector_length: self.vector_length as usize,
        }
    }
}

/// Where the entry at a position starts, the first of them starting at `start`.
pub open spec fn entry_start(entries: Seq<PublishedEntry>, start: int, position: int) -> int
    decreases position,
{
    if position <= 0 {
        start
    } else {
        entry_start(entries, start, position - 1) + entries[position - 1].len
    }
}

/// Whether entries stand one after the other from `start` to `end`.
pub open spec fn entries_stand(
    bytes: Seq<u8>,
    entries: Seq<PublishedEntry>,
    start: int,
    end: int,
    is_little_endian: bool,
) -> bool {
    &&& forall|i: int|
        0 <= i < entries.len() ==> (#[trigger] entries[i]).stands_at(
            bytes,
            entry_start(entries, start, i),
            is_little_endian,
        )
    &&& entry_start(entries, start, entries.len() as int) == end
}

/// Whether no two entries have the same name.
pub open spec fn names_differ(entries: Seq<PublishedEntry>) -> bool {
    forall|i: int, j: int|
        0 <= i < j < entries.len() ==> (#[trigger] entries[i]).key() != (
        #[trigger] entries[j]).key()
}

/// Whether an index lists entries in their order, each under its name.
pub open spec fn lists(index: IndexView, entries: Seq<PublishedEntry>, start: int) -> bool {
    &&& index.names.len() == entries.len()
    &&& forall|i: int|
        0 <= i < entries.len() ==> #[trigger] index.names[i] == entries[i].key() && index.get(
            entries[i].key(),
        ) == Some(entries[i].meta(entry_start(entries, start, i)))
}

proof fn lemma_name_region(region: Seq<u8>, name: Seq<u8>, number: int)
    requires
        name.len() > 0,
        vstd::utf8::valid_utf8(name),
        forall|i: int| 0 <= i < name.len() ==> #[trigger] name[i] != 0,
        name.len() < region.len() <= 65536,
        region.take(name.len() as int) == name,
        region[name.len() as int] == 0,
    ensures
        crate::perfdata::entry_name(region, number) == Ok::<Seq<char>, Fault>(
            vstd::utf8::decode_utf8(name),
        ),
{
    assert forall|i: int| 0 <= i < name.len() implies !crate::bytes::ends_text(
        #[trigger] region[i],
        false,
    ) by {
        assert(region.take(name.len() as int)[i] == name[i]);
    }
    crate::bytes::lemma_leading_text(region, false, name.len() as int);
}

proof fn lemma_field(bytes: Seq<u8>, offset: int, value: int, is_little_endian: bool)
    requires
        0 <= value < 0x1_0000_0000,
        bytes.subrange(offset, offset + 4) == u32_bytes(value, is_little_endian),
    ensures
        crate::perfdata::u32_at(bytes, offset, is_little_endian) == value,
{
    lemma_u32_written(value, is_little_endian);
}

proof fn lemma_entry_is_read(
    bytes: Seq<u8>,
    header: PerfHeader,
    entry: PublishedEntry,
    start: int,
    number: int,
)
    requires
        entry.stands_at(bytes, start, header.is_little_endian),
        start + entry.len <= header.used,
        start % 4 == 0,
        header.used <= bytes.len(),
    ensures
        crate::perfdata::entry_at(bytes, header, start, number) == Ok::<EntryView, Fault>(
            EntryView { name: entry.key(), meta: entry.meta(start), end: start + entry.len },
        ),
{
    let little = header.is_little_endian;
    lemma_field(bytes, start, entry.len, little);
    lemma_field(bytes, start + 4, entry.name_offset, little);
    lemma_field(bytes, start + 8, entry.vector_length, little);
    lemma_field(bytes, start + 16, entry.data_offset, little);
    let region = bytes.subrange(start + entry.name_offset, start + entry.data_offset);
    assert(region.take(entry.name.len() as int) =~= bytes.subrange(
        start + entry.name_offset,
        start + entry.name_offset + entry.name.len(),
    ));
    lemma_name_region(region, entry.name, number);
}

proof fn lemma_starts(
    bytes: Seq<u8>,
    entries: Seq<PublishedEntry>,
    start: int,
    end: int,
    is_little_endian: bool,
    position: int,
)
    requires
        entries_stand(bytes, entries, start, end, is_little_endian),
        start % 4 == 0,
        0 <= position <= entries.len(),
    ensures
        entry_start(entries, start, position) % 4 == 0,
        start + 20 * position <= entry_start(entries, start, position),
        entry_start(entries, start, position) + 20 * (entries.len() - position) <= end,
    decreases position,
{
    lemma_starts_up(bytes, entries, start, is_little_endian, position);
    lemma_starts_down(bytes, entries, start, end, is_little_endian, position);
}

proof fn lemma_starts_up(
    bytes: Seq<u8>,
    entries: Seq<PublishedEntry>,
    start: int,
    is_little_endian: bool,
    position: int,
)
    requires
        forall|i: int|
            0 <= i < entries.len() ==> (#[trigger] entries[i]).stands_at(
                bytes,
                entry_start(entries, start, i),
                is_little_endian,
            ),
        start % 4 == 0,
        0 <= position <= entries.len(),
    ensures
        entry_start(entries, start, position) % 4 == 0,
        start + 20 * position <= entry_start(entries, start, position),
    decreases position,
{
    if position > 0 {
        lemma_starts_up(bytes, entries, start, is_little_endian, position - 1);
        assert(entries[position - 1].stands_at(
            bytes,
            entry_start(entries, start, position - 1),
            is_little_endian,
        ));
    }
}

proof fn lemma_starts_down(
    bytes: Seq<u8>,
    entries: Seq<PublishedEntry>,
    start: int,
    end: int,
    is_little_endian: bool,
    position: int,
)
    requires
        entries_stand(bytes, entries, start, end, is_little_endian),
        0 <= position <= entries.len(),
    ensures
        entry_start(entries, start, position) + 20 * (entries.len() - position) <= end,
    decreases entries.len() - position,
{
    if position < entries.len() {
        lemma_starts_down(bytes, entries, start, end, is_little_endian, position + 1);
        assert(entries[position].stands_at(
            bytes,
            entry_start(entries, start, position),
            is_little_endian,
        ));
        assert(entry_start(entries, start, position + 1) == entry_start(entries, start, position)
            + entries[position].len);
    }
}

/// Whether an index lists the first entries.
spec fn lists_first(
    index: IndexView,
    entries: Seq<PublishedEntry>,
    start: int,
    count: int,
) -> bool {
    &&& index.wf()
    &&& index.names.len() == count
    &&& forall|i: int|
        0 <= i < count ==> #[trigger] index.names[i] == entries[i].key() && index.get(
            entries[i].key(),
        ) == Some(entries[i].meta(entry_start(entries, start, i)))
}

proof fn lemma_entries_are_read(
    bytes: Seq<u8>,
    header: PerfHeader,
    entries: Seq<PublishedEntry>,
    count: int,
    index: IndexView,
)
    requires
        header.used <= bytes.len(),
        header.entry_offset % 4 == 0,
        header.num_entries == entries.len(),
        0 <= count <= entries.len(),
        names_differ(entries),
        entries_stand(
            bytes,
            entries,
            header.entry_offset as int,
            header.used as int,
            header.is_little_endian,
        ),
        lists_first(index, entries, header.entry_offset as int, count),
    ensures
        ({
            let start = header.entry_offset as int;
            let read = crate::perfdata::index_from(
                bytes,
                header,
                entry_start(entries, start, count),
                count,
                index,
            );
            read is Ok && lists_first(read->Ok_0, entries, start, entries.len() as int)
        }),
    decreases entries.len() - count,
{
    let start = header.entry_offset as int;
    let little = header.is_little_endian;
    if count < entries.len() {
        let cursor = entry_start(entries, start, count);
        let entry = entries[count];
        lemma_starts(bytes, entries, start, header.used as int, little, count);
        lemma_starts(bytes, entries, start, header.used as int, little, count + 1);
        assert(entry.stands_at(bytes, cursor, little));
        assert(entry_start(entries, start, count + 1) == cursor + entry.len);
        lemma_entry_is_read(bytes, header, entry, cursor, count);
        assert(index.get(entry.key()) is None) by {
            if index.get(entry.key()) is Some {
                assert(index.entries.contains_key(entry.key()));
                assert(index.names.contains(entry.key()));
                let i = index.names.index_of(entry.key());
                assert(index.names[i] == entries[i].key());
                assert(entries[i].key() != entries[count].key());
            }
        }
        let pushed = index.push(entry.key(), entry.meta(cursor));
        index.lemma_push(entry.key(), entry.meta(cursor));
        assert forall|i: int| 0 <= i < count + 1 implies #[trigger] pushed.names[i]
            == entries[i].key() && pushed.get(entries[i].key()) == Some(
            entries[i].meta(entry_start(entries, start, i)),
        ) by {
            if i < count {
                assert(index.names[i] == entries[i].key());
                assert(entries[i].key() != entries[count].key());
            }
        }
        lemma_entries_are_read(bytes, header, entries, count + 1, pushed);
    }
}

/// Entries that stand one after the other, from the offset of the first to the end of the used
/// bytes, are all read: the index lists them in their order, each under its name with its type,
/// its place and its length.
pub proof fn law_published_entries_are_indexed(
    bytes: Seq<u8>,
    header: PerfHeader,
    entries: Seq<PublishedEntry>,
)
    requires
        header.used <= bytes.len(),
        header.entry_offset % 4 == 0,
        header.num_entries == entries.len(),
        names_differ(entries),
        entries_stand(
            bytes,
            entries,
            header.entry_offset as int,
            header.used as int,
            header.is_little_endian,
        ),
    ensures
        crate::perfdata::index_value(bytes, header) is Ok,
        lists(
            crate::perfdata::index_value(bytes, header)->Ok_0,
            entries,
            header.entry_offset as int,
        ),
{
    assert(entry_start(entries, header.entry_offset as int, 0) == header.entry_offset);
    lemma_entries_are_read(bytes, header, entries, 0, IndexView::empty());
}

/// Whether the first 32 bytes hold a prologue that says this.
pub open spec fn prologue_stands(bytes: Seq<u8>, header: PerfHeader) -> bool {
    let little = header.is_little_endian;
    &&& bytes.len() >= 32
    &&& bytes[0] == 0xca && bytes[1] == 0xfe && bytes[2] == 0xc0 && bytes[3] == 0xc0
    &&& bytes[4] == (if little {
        1u8
    } else {
        0u8
    })
    &&& bytes[5] == 2 && bytes[6] == 0
    &&& header.accessible == (bytes[7] != 0)
    &&& header.used < 0x1_0000_0000 && header.entry_offset < 0x1_0000_0000 && header.num_entries
        < 0x1_0000_0000
    &&& bytes.subrange(8, 12) == u32_bytes(header.used as int, little)
    &&& bytes.subrange(12, 16) == u32_bytes(header.overflow as int, little)
    &&& bytes.subrange(16, 24) == i64_bytes(header.modification_timestamp as int, little)
    &&& bytes.subrange(24, 28) == u32_bytes(header.entry_offset as int, little)
    &&& bytes.subrange(28, 32) == u32_bytes(header.num_entries as int, little)
}

/// A prologue is read as what it says, and nothing but a prologue is read as one.
pub proof fn law_prologue_is_read(bytes: Seq<u8>, header: PerfHeader)
    ensures
        crate::perfdata::header_value(bytes) == Ok::<PerfHeader, Fault>(header) <==> prologue_stands(
            bytes,
            header,
        ),
{
    if prologue_stands(bytes, header) {
        let little = header.is_little_endian;
        lemma_u32_written(header.used as int, little);
        lemma_u32_written(header.overflow as int, little);
        lemma_u32_written(header.entry_offset as int, little);
        lemma_u32_written(header.num_entries as int, little);
        lemma_i64_written(header.modification_timestamp, little);
        let magic = bytes.subrange(0, 4);
        assert(magic[0] == 0xca && magic[1] == 0xfe && magic[2] == 0xc0 && magic[3] == 0xc0);
    }
    if crate::perfdata::header_value(bytes) == Ok::<PerfHeader, Fault>(header) {
        let little = header.is_little_endian;
        let magic = bytes.subrange(0, 4);
        lemma_value_of_digits(magic[0] as int, magic[1] as int, magic[2] as int, magic[3] as int);
        lemma_value_of_digits(0xca, 0xfe, 0xc0, 0xc0);
        lemma_u32_read(bytes.subrange(8, 12), little);
        lemma_u32_read(bytes.subrange(12, 16), little);
        lemma_u32_read(bytes.subrange(24, 28), little);
        lemma_u32_read(bytes.subrange(28, 32), little);
        lemma_i64_read(bytes.subrange(16, 24), little);
    }
}

/// Whether bytes start with the number of perfdata files.
pub open spec fn magic_stands(bytes: Seq<u8>) -> bool {
    bytes[0] == 0xca && bytes[1] == 0xfe && bytes[2] == 0xc0 && bytes[3] == 0xc0
}

/// What is no prologue is rejected for the first of its defects: its length, its number, its byte
/// order, its version.
pub proof fn law_prologue_faults(bytes: Seq<u8>)
    ensures
        bytes.len() < 32 ==> crate::perfdata::header_value(bytes) == Err::<PerfHeader, Fault>(
            Fault::InvalidFormat("perfdata prologue is truncated"@),
        ) && crate::perfdata::mapped_header(bytes) == Err::<PerfHeader, Fault>(
            Fault::InvalidFormat("could not read perfdata prologue"@),
        ),
        bytes.len() >= 32 && !magic_stands(bytes) ==> crate::perfdata::header_value(bytes) == Err::<
            PerfHeader,
            Fault,
        >(Fault::InvalidFormat("invalid magic number"@)),
        bytes.len() >= 32 && magic_stands(bytes) && bytes[4] > 1 ==> crate::perfdata::header_value(
            bytes,
        ) == Err::<PerfHeader, Fault>(
            Fault::InvalidFormat(
                "invalid byte-order marker "@ + crate::text::decimal_text(bytes[4] as nat),
            ),
        ),
        bytes.len() >= 32 && magic_stands(bytes) && bytes[4] <= 1 && !(bytes[5] == 2 && bytes[6]
            == 0) ==> crate::perfdata::header_value(bytes) == Err::<PerfHeader, Fault>(
            Fault::InvalidFormat(
                "unsupported perfdata version "@ + crate::text::decimal_text(bytes[5] as nat)
                    + "."@ + crate::text::decimal_text(bytes[6] as nat),
            ),
        ),
{
    if bytes.len() >= 32 {
        let magic = bytes.subrange(0, 4);
        lemma_value_of_digits(magic[0] as int, magic[1] as int, magic[2] as int, magic[3] as int);
        lemma_value_of_digits(0xca, 0xfe, 0xc0, 0xc0);
    }
}

/// A value is rejected for the first of its defects: a counter for want of eight bytes, a string
/// for its units, for a length of more than 16 MiB, or for leaving its entry. Nothing else is
/// rejected.
pub proof fn law_value_faults(name: Seq<char>, meta: EntryMeta, units: u8, end: int)
    ensures
        ({
            let fault = crate::perfdata::value_fault(name, meta, units, end);
            let counter = meta.data_type == 0x4a && meta.vector_length == 0;
            let string = meta.data_type == 0x42 && meta.vector_length > 0;
            &&& !counter && !string ==> fault is None
            &&& counter && meta.data_offset + 8 <= end ==> fault is None
            &&& counter && meta.data_offset + 8 > end ==> fault == Some(
                Fault::InvalidFormat(
                    "long entry "@ + name + " does not contain eight data bytes"@,
                ),
            )
            &&& string && units != 5 ==> fault == Some(
                Fault::InvalidFormat(
                    "byte-vector entry "@ + name + " does not have string units"@,
                ),
            )
            &&& string && units == 5 && meta.vector_length > 16777216 ==> fault == Some(
                Fault::InvalidFormat(
                    "byte-vector entry "@ + name + " exceeds the supported string size"@,
                ),
            )
            &&& string && units == 5 && meta.vector_length <= 16777216 && meta.data_offset
                + meta.vector_length > end ==> fault == Some(
                Fault::InvalidFormat("byte-vector entry "@ + name + " exceeds its entry"@),
            )
            &&& string && units == 5 && meta.vector_length <= 16777216 && meta.data_offset
                + meta.vector_length <= end ==> fault is None
        }),
{
}

/// A name is what stands before the first NUL of its region. It is rejected where the region has
/// more than 64 KiB or no NUL, or where the name is empty or not UTF-8.
pub proof fn law_name_faults(region: Seq<u8>, number: nat, len: int)
    requires
        0 <= len <= region.len(),
        forall|i: int| 0 <= i < len ==> #[trigger] region[i] != 0,
        len < region.len() ==> region[len] == 0,
    ensures
        ({
            let read = crate::perfdata::entry_name(region, number as int);
            let entry = "entry "@ + crate::text::decimal_text(number);
            let name = region.take(len);
            &&& region.len() > 65536 ==> read == Err::<Seq<char>, Fault>(
                Fault::InvalidFormat(entry + " name region is too large"@),
            )
            &&& region.len() <= 65536 && len == region.len() ==> read == Err::<Seq<char>, Fault>(
                Fault::InvalidFormat(entry + " name is not NUL-terminated"@),
            )
            &&& region.len() <= 65536 && 0 == len < region.len() ==> read == Err::<
                Seq<char>,
                Fault,
            >(Fault::InvalidFormat(entry + " has an empty name"@))
            &&& region.len() <= 65536 && 0 < len < region.len() && !vstd::utf8::valid_utf8(name)
                ==> read == Err::<Seq<char>, Fault>(
                Fault::InvalidFormat(entry + " name is not valid UTF-8"@),
            )
            &&& region.len() <= 65536 && 0 < len < region.len() && vstd::utf8::valid_utf8(name)
                ==> read == Ok::<Seq<char>, Fault>(vstd::utf8::decode_utf8(name))
        }),
{
    crate::reading::law_text_runs_to_its_end(region, false, len);
}

/// Perfdata as a JVM publishes them: an accessible prologue, and its entries, which start on a
/// multiple of four behind it and fill the used bytes.
pub open spec fn perfdata_stand(
    bytes: Seq<u8>,
    header: PerfHeader,
    entries: Seq<PublishedEntry>,
) -> bool {
    &&& prologue_stands(bytes, header)
    &&& header.accessible
    &&& 32 <= header.entry_offset && header.entry_offset % 4 == 0
    &&& header.used <= bytes.len()
    &&& header.num_entries == entries.len()
    &&& names_differ(entries)
    &&& entries_stand(
        bytes,
        entries,
        header.entry_offset as int,
        header.used as int,
        header.is_little_endian,
    )
}

/// Perfdata as a JVM publishes them are accepted, with their prologue and all of their entries.
pub proof fn law_published_perfdata_are_accepted(
    bytes: Seq<u8>,
    header: PerfHeader,
    entries: Seq<PublishedEntry>,
)
    requires
        perfdata_stand(bytes, header, entries),
    ensures
        crate::perfdata::snapshot_value(bytes) matches Ok((read, index)) && read == header && lists(
            index,
            entries,
            header.entry_offset as int,
        ),
{
    law_prologue_is_read(bytes, header);
    law_published_entries_are_indexed(bytes, header, entries);
    lemma_starts(
        bytes,
        entries,
        header.entry_offset as int,
        header.used as int,
        header.is_little_endian,
        0,
    );
    assert(header.entry_offset + 20 * header.num_entries <= header.used);
    assert(header.num_entries <= (header.used - header.entry_offset) / 20);
}

/// An entry of published perfdata lies within the used bytes.
pub proof fn lemma_entry_place(
    bytes: Seq<u8>,
    header: PerfHeader,
    entries: Seq<PublishedEntry>,
    position: int,
)
    requires
        perfdata_stand(bytes, header, entries),
        0 <= position < entries.len(),
    ensures
        ({
            let start = entry_start(entries, header.entry_offset as int, position);
            &&& entries[position].stands_at(bytes, start, header.is_little_endian)
            &&& 32 <= start && start + entries[position].len <= header.used
        }),
{
    let first = header.entry_offset as int;
    let little = header.is_little_endian;
    lemma_starts(bytes, entries, first, header.used as int, little, position);
    lemma_starts(bytes, entries, first, header.used as int, little, position + 1);
    assert(entries[position].stands_at(bytes, entry_start(entries, first, position), little));
    assert(entry_start(entries, first, position + 1) == entry_start(entries, first, position)
        + entries[position].len);
}

/// The entry that the bytes from `start` on hold, as it was published.
spec fn entry_in(bytes: Seq<u8>, start: int, is_little_endian: bool) -> PublishedEntry {
    let name_offset = crate::perfdata::u32_at(bytes, start + 4, is_little_endian);
    let data_offset = crate::perfdata::u32_at(bytes, start + 16, is_little_endian);
    PublishedEntry {
        name: crate::bytes::leading_text(
            bytes.subrange(start + name_offset, start + data_offset),
            false,
        ),
        data_type: bytes[start + 12],
        units: bytes[start + 14],
        vector_length: crate::perfdata::u32_at(bytes, start + 8, is_little_endian),
        name_offset,
        data_offset,
        len: crate::perfdata::u32_at(bytes, start, is_little_endian),
    }
}

/// Text is followed by the byte that ends it, unless it is all there is.
proof fn lemma_leading_text_ends(bytes: Seq<u8>)
    ensures
        ({
            let text = crate::bytes::leading_text(bytes, false);
            &&& text.len() <= bytes.len()
            &&& text == bytes.take(text.len() as int)
            &&& text.len() < bytes.len() ==> bytes[text.len() as int] == 0
        }),
    decreases bytes.len(),
{
    let text = crate::bytes::leading_text(bytes, false);
    if bytes.len() > 0 && !crate::bytes::ends_text(bytes[0], false) {
        lemma_leading_text_ends(bytes.skip(1));
    }
    assert(text =~= bytes.take(text.len() as int));
}

proof fn lemma_entry_was_published(bytes: Seq<u8>, header: PerfHeader, start: int, number: int)
    requires
        0 <= start,
        header.used <= bytes.len(),
        crate::perfdata::entry_at(bytes, header, start, number) is Ok,
    ensures
        ({
            let entry = entry_in(bytes, start, header.is_little_endian);
            let read = crate::perfdata::entry_at(bytes, header, start, number)->Ok_0;
            &&& entry.stands_at(bytes, start, header.is_little_endian)
            &&& read.name == entry.key()
            &&& read.meta == entry.meta(start)
            &&& read.end == start + entry.len
            &&& read.end <= header.used
        }),
{
    let little = header.is_little_endian;
    let entry = entry_in(bytes, start, little);
    lemma_u32_read(bytes.subrange(start, start + 4), little);
    lemma_u32_read(bytes.subrange(start + 4, start + 8), little);
    lemma_u32_read(bytes.subrange(start + 8, start + 12), little);
    lemma_u32_read(bytes.subrange(start + 16, start + 20), little);
    let region = bytes.subrange(start + entry.name_offset, start + entry.data_offset);
    lemma_leading_text_ends(region);
    crate::bytes::lemma_leading_text_runs_on(region, false);
    assert forall|i: int| 0 <= i < entry.name.len() implies #[trigger] entry.name[i] != 0 by {
        assert(!crate::bytes::ends_text(crate::bytes::leading_text(region, false)[i], false));
    }
    assert(bytes.subrange(
        start + entry.name_offset,
        start + entry.name_offset + entry.name.len(),
    ) =~= entry.name);
    assert(region[entry.name.len() as int] == bytes[start + entry.name_offset + entry.name.len()]);
}

proof fn lemma_one_more(
    bytes: Seq<u8>,
    entries: Seq<PublishedEntry>,
    entry: PublishedEntry,
    index: IndexView,
    start: int,
    is_little_endian: bool,
)
    requires
        names_differ(entries),
        entries_stand(
            bytes,
            entries,
            start,
            entry_start(entries, start, entries.len() as int),
            is_little_endian,
        ),
        lists_first(index, entries, start, entries.len() as int),
        entry.stands_at(
            bytes,
            entry_start(entries, start, entries.len() as int),
            is_little_endian,
        ),
        index.get(entry.key()) is None,
    ensures
        ({
            let cursor = entry_start(entries, start, entries.len() as int);
            let longer = entries.push(entry);
            &&& names_differ(longer)
            &&& entry_start(longer, start, longer.len() as int) == cursor + entry.len
            &&& entries_stand(bytes, longer, start, cursor + entry.len, is_little_endian)
            &&& lists_first(
                index.push(entry.key(), entry.meta(cursor)),
                longer,
                start,
                longer.len() as int,
            )
        }),
{
    let count = entries.len() as int;
    let cursor = entry_start(entries, start, count);
    let longer = entries.push(entry);
    let pushed = index.push(entry.key(), entry.meta(cursor));
    assert forall|i: int| 0 <= i <= count implies #[trigger] entry_start(longer, start, i)
        == entry_start(entries, start, i) by {
        lemma_prefix_starts(entries, entry, start, i);
    }
    assert(entry_start(longer, start, count) == cursor);
    assert(entry_start(longer, start, count + 1) == cursor + longer[count].len);
    assert forall|i: int| 0 <= i < longer.len() implies (#[trigger] longer[i]).stands_at(
        bytes,
        entry_start(longer, start, i),
        is_little_endian,
    ) by {
        assert(entry_start(longer, start, i) == entry_start(entries, start, i));
        if i < count {
            assert(longer[i] == entries[i]);
            assert(entries[i].stands_at(bytes, entry_start(entries, start, i), is_little_endian));
        }
    }
    index.lemma_push(entry.key(), entry.meta(cursor));
    assert forall|i: int, j: int| 0 <= i < j < longer.len() implies (#[trigger] longer[i]).key()
        != (#[trigger] longer[j]).key() by {
        assert(longer[i] == entries[i]);
        if j == count {
            assert(index.names[i] == entries[i].key());
        } else {
            assert(longer[j] == entries[j]);
        }
    }
    assert forall|i: int| 0 <= i < longer.len() implies #[trigger] pushed.names[i]
        == longer[i].key() && pushed.get(longer[i].key()) == Some(
        longer[i].meta(entry_start(longer, start, i)),
    ) by {
        assert(entry_start(longer, start, i) == entry_start(entries, start, i));
        if i < count {
            assert(index.names[i] == entries[i].key());
            assert(longer[i] == entries[i]);
            assert(longer[i].key() != longer[count].key());
        }
    }
}

proof fn lemma_index_was_published(
    bytes: Seq<u8>,
    header: PerfHeader,
    entries: Seq<PublishedEntry>,
    index: IndexView,
) -> (all: Seq<PublishedEntry>)
    requires
        header.used <= bytes.len(),
        entries.len() <= header.num_entries,
        names_differ(entries),
        entries_stand(
            bytes,
            entries,
            header.entry_offset as int,
            entry_start(entries, header.entry_offset as int, entries.len() as int),
            header.is_little_endian,
        ),
        0 <= entry_start(entries, header.entry_offset as int, entries.len() as int),
        lists_first(index, entries, header.entry_offset as int, entries.len() as int),
        crate::perfdata::index_from(
            bytes,
            header,
            entry_start(entries, header.entry_offset as int, entries.len() as int),
            entries.len() as int,
            index,
        ) is Ok,
    ensures
        all.len() == header.num_entries,
        names_differ(all),
        entries_stand(
            bytes,
            all,
            header.entry_offset as int,
            header.used as int,
            header.is_little_endian,
        ),
        lists_first(
            crate::perfdata::index_from(
                bytes,
                header,
                entry_start(entries, header.entry_offset as int, entries.len() as int),
                entries.len() as int,
                index,
            )->Ok_0,
            all,
            header.entry_offset as int,
            all.len() as int,
        ),
    decreases header.num_entries - entries.len(),
{
    let start = header.entry_offset as int;
    let little = header.is_little_endian;
    let count = entries.len() as int;
    let cursor = entry_start(entries, start, count);
    if count >= header.num_entries {
        entries
    } else {
        lemma_entry_was_published(bytes, header, cursor, count);
        let entry = entry_in(bytes, cursor, little);
        let longer = entries.push(entry);
        let pushed = index.push(entry.key(), entry.meta(cursor));
        lemma_one_more(bytes, entries, entry, index, start, little);
        assert(entry_start(longer, start, count + 1) == cursor + entry.len);
        lemma_index_was_published(bytes, header, longer, pushed)
    }
}

proof fn lemma_prefix_starts(
    entries: Seq<PublishedEntry>,
    entry: PublishedEntry,
    start: int,
    position: int,
)
    requires
        0 <= position <= entries.len(),
    ensures
        entry_start(entries.push(entry), start, position) == entry_start(entries, start, position),
    decreases position,
{
    if position > 0 {
        lemma_prefix_starts(entries, entry, start, position - 1);
    }
}

/// Nothing is accepted that is not perfdata as a JVM publishes them, and the index that is read
/// lists just the entries that were published.
pub proof fn law_accepted_perfdata_were_published(bytes: Seq<u8>)
    requires
        crate::perfdata::snapshot_value(bytes) is Ok,
    ensures
        ({
            let (header, index) = crate::perfdata::snapshot_value(bytes)->Ok_0;
            exists|entries: Seq<PublishedEntry>| #[trigger]
                perfdata_stand(bytes, header, entries) && lists(
                    index,
                    entries,
                    header.entry_offset as int,
                )
        }),
{
    let (header, index) = crate::perfdata::snapshot_value(bytes)->Ok_0;
    law_prologue_is_read(bytes, header);
    let none = Seq::<PublishedEntry>::empty();
    assert(entry_start(none, header.entry_offset as int, 0) == header.entry_offset);
    let entries = lemma_index_was_published(bytes, header, none, IndexView::empty());
    assert(perfdata_stand(bytes, header, entries));
}

} // verus!
