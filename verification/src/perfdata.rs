//! The hsperfdata format: a prologue, then one entry for each counter.

use vstd::prelude::*;
use vstd::string::*;

use crate::bytes::{leading_text_len, read_i64, read_text, read_u32, utf8_text};
use crate::error::{invalid, Fault, JvmMonitorError};
use crate::index::{IndexView, PerfIndex};
use crate::text::decimal;

verus! {

/// The size of the prologue.
pub const PROLOGUE_SIZE: usize = 32;

/// The largest perfdata file that is mapped or read.
pub const MAX_PERFDATA_SIZE: u64 = 67_108_864;

/// The size of the fixed part of an entry.
pub const ENTRY_HEADER_SIZE: usize = 20;

/// The longest region that an entry may set aside for its name.
pub const MAX_ENTRY_NAME_LENGTH: usize = 65_536;

/// The longest string value.
pub const MAX_STRING_VECTOR_LENGTH: usize = 16_777_216;

/// The type code of a 64-bit counter.
pub const LONG_TYPE: u8 = 0x4a;

/// The type code of a byte vector.
pub const BYTE_TYPE: u8 = 0x42;

/// The units code of a string.
pub const STRING_UNITS: u8 = 5;

/// The number at the start of every perfdata file, whose most significant byte comes first.
pub const PERFDATA_MAGIC: u32 = 0xcafe_c0c0;

/// Where an entry keeps its value.
#[derive(Debug, Clone, Copy, PartialEq, Eq, Structural)]
pub struct EntryMeta {
    /// Type code of the value.
    pub data_type: u8,
    /// Offset of the value from the start of the perfdata.
    pub data_offset: usize,
    /// Number of elements, zero for a scalar.
    pub vector_length: usize,
}

impl EntryMeta {
    /// Whether the value is one 64-bit counter.
    pub open spec fn is_long(self) -> bool {
        self.data_type == LONG_TYPE && self.vector_length == 0
    }

    /// Whether the value is a string.
    pub open spec fn is_string(self) -> bool {
        self.data_type == BYTE_TYPE && self.vector_length > 0
    }

    /// Whether the value, where it is a counter or a string, ends no later than the byte at `end`.
    pub open spec fn ends_by(self, end: int) -> bool {
        &&& self.is_long() ==> self.data_offset + 8 <= end
        &&& self.is_string() ==> self.data_offset + self.vector_length <= end
    }

    /// Whether the value is one 64-bit counter.
    pub fn holds_long(&self) -> (long: bool)
        ensures
            long == self.is_long(),
    {
        self.data_type == LONG_TYPE && self.vector_length == 0
    }

    /// Whether the value is a string.
    pub fn holds_string(&self) -> (string: bool)
        ensures
            string == self.is_string(),
    {
        self.data_type == BYTE_TYPE && self.vector_length > 0
    }
}

/// The prologue's fields.
#[derive(Debug, Clone, Copy, PartialEq, Eq, Structural)]
pub struct PerfHeader {
    /// Byte order of the numbers.
    pub is_little_endian: bool,
    /// Whether the JVM has finished setting the perfdata up.
    pub accessible: bool,
    /// Number of bytes in use, prologue included.
    pub used: usize,
    /// Number of bytes that did not fit.
    pub overflow: u32,
    /// When the structure last changed, in ticks.
    pub modification_timestamp: i64,
    /// Offset of the first entry.
    pub entry_offset: usize,
    /// Number of entries.
    pub num_entries: usize,
}

/// A sequence of characters as the reason why perfdata is rejected.
pub open spec fn rejection(message: Seq<char>) -> Fault {
    Fault::InvalidFormat(message)
}

impl PerfHeader {
    /// What is wrong with the layout that the prologue describes, in a buffer of the given length.
    pub open spec fn layout_fault(self, buffer_len: int) -> Option<Fault> {
        if self.used < PROLOGUE_SIZE || self.used > buffer_len {
            Some(
                rejection(
                    "used bytes "@ + crate::text::decimal_text(self.used as nat)
                        + " outside mapping length "@ + crate::text::decimal_text(
                        buffer_len as nat,
                    ),
                ),
            )
        } else if self.entry_offset < PROLOGUE_SIZE || self.entry_offset > self.used
            || self.entry_offset % 4 != 0 {
            Some(
                rejection(
                    "invalid entry offset "@ + crate::text::decimal_text(self.entry_offset as nat)
                        + " for used size "@ + crate::text::decimal_text(self.used as nat),
                ),
            )
        } else if self.num_entries > (self.used - self.entry_offset) / ENTRY_HEADER_SIZE as int {
            Some(
                rejection(
                    "entry count "@ + crate::text::decimal_text(self.num_entries as nat)
                        + " exceeds structural maximum "@ + crate::text::decimal_text(
                        ((self.used - self.entry_offset) / ENTRY_HEADER_SIZE as int) as nat,
                    ),
                ),
            )
        } else {
            None
        }
    }

    /// Checks that the regions which the prologue names fit in a buffer of the given length.
    pub fn validate_layout(&self, buffer_len: usize) -> (checked: Result<(), JvmMonitorError>)
        ensures
            match checked {
                Ok(_) => self.layout_fault(buffer_len as int) is None,
                Err(error) => self.layout_fault(buffer_len as int) == Some(error@),
            },
    {
        if self.used < PROLOGUE_SIZE || self.used > buffer_len {
            return Err(
                invalid(
                    "used bytes ".to_owned().concat(&decimal(self.used as u64)).concat(
                        " outside mapping length ",
                    ).concat(&decimal(buffer_len as u64)),
                ),
            );
        }
        if self.entry_offset < PROLOGUE_SIZE || self.entry_offset > self.used || self.entry_offset
            % 4 != 0 {
            return Err(
                invalid(
                    "invalid entry offset ".to_owned().concat(
                        &decimal(self.entry_offset as u64),
                    ).concat(" for used size ").concat(&decimal(self.used as u64)),
                ),
            );
        }
        let entry_bytes: usize = self.used - self.entry_offset;
        let maximum_entries: usize = entry_bytes / ENTRY_HEADER_SIZE;
        if self.num_entries > maximum_entries {
            return Err(
                invalid(
                    "entry count ".to_owned().concat(&decimal(self.num_entries as u64)).concat(
                        " exceeds structural maximum ",
                    ).concat(&decimal(maximum_entries as u64)),
                ),
            );
        }
        Ok(())
    }

    /// Whether two prologues describe the same structure. The overflow count may differ.
    pub open spec fn describes_same(self, other: PerfHeader) -> bool {
        self == (PerfHeader { overflow: self.overflow, ..other })
    }

    /// Whether two prologues describe the same structure. The overflow count may differ.
    pub fn same_structure(&self, other: &PerfHeader) -> (same: bool)
        ensures
            same == self.describes_same(*other),
    {
        self.is_little_endian == other.is_little_endian && self.accessible == other.accessible
            && self.used == other.used && self.modification_timestamp
            == other.modification_timestamp && self.entry_offset == other.entry_offset
            && self.num_entries == other.num_entries
    }
}

/// The number in four bytes from the given offset on.
pub open spec fn u32_at(bytes: Seq<u8>, offset: int, is_little_endian: bool) -> int {
    crate::bytes::u32_value(bytes.subrange(offset, offset + 4), is_little_endian)
}

/// The number in eight bytes from the given offset on.
pub open spec fn i64_at(bytes: Seq<u8>, offset: int, is_little_endian: bool) -> int {
    crate::bytes::i64_value(bytes.subrange(offset, offset + 8), is_little_endian)
}

/// What the prologue says, or why it is no prologue.
pub open spec fn header_value(bytes: Seq<u8>) -> Result<PerfHeader, Fault> {
    let little = bytes[4] == 1;
    if bytes.len() < PROLOGUE_SIZE {
        Err(rejection("perfdata prologue is truncated"@))
    } else if u32_at(bytes, 0, false) != PERFDATA_MAGIC {
        Err(rejection("invalid magic number"@))
    } else if bytes[4] > 1 {
        Err(
            rejection(
                "invalid byte-order marker "@ + crate::text::decimal_text(bytes[4] as nat),
            ),
        )
    } else if bytes[5] != 2 || bytes[6] != 0 {
        Err(
            rejection(
                "unsupported perfdata version "@ + crate::text::decimal_text(bytes[5] as nat)
                    + "."@ + crate::text::decimal_text(bytes[6] as nat),
            ),
        )
    } else {
        Ok(
            PerfHeader {
                is_little_endian: little,
                accessible: bytes[7] != 0,
                used: u32_at(bytes, 8, little) as usize,
                overflow: u32_at(bytes, 12, little) as u32,
                modification_timestamp: i64_at(bytes, 16, little) as i64,
                entry_offset: u32_at(bytes, 24, little) as usize,
                num_entries: u32_at(bytes, 28, little) as usize,
            },
        )
    }
}

/// Reads the prologue.
pub fn parse_header(bytes: &[u8]) -> (header: Result<PerfHeader, JvmMonitorError>)
    ensures
        match header {
            Ok(header) => header_value(bytes@) == Ok::<PerfHeader, Fault>(header),
            Err(error) => header_value(bytes@) == Err::<PerfHeader, Fault>(error@),
        },
{
    if bytes.len() < PROLOGUE_SIZE {
        return Err(invalid("perfdata prologue is truncated".to_owned()));
    }
    if read_u32(&bytes[0..4], false) != PERFDATA_MAGIC {
        return Err(invalid("invalid magic number".to_owned()));
    }
    if bytes[4] > 1 {
        return Err(
            invalid("invalid byte-order marker ".to_owned().concat(&decimal(bytes[4] as u64))),
        );
    }
    let is_little_endian: bool = bytes[4] == 1;
    if bytes[5] != 2 || bytes[6] != 0 {
        return Err(
            invalid(
                "unsupported perfdata version ".to_owned().concat(
                    &decimal(bytes[5] as u64),
                ).concat(".").concat(&decimal(bytes[6] as u64)),
            ),
        );
    }
    Ok(
        PerfHeader {
            is_little_endian,
            accessible: bytes[7] != 0,
            used: read_u32(&bytes[8..12], is_little_endian) as usize,
            overflow: read_u32(&bytes[12..16], is_little_endian),
            modification_timestamp: read_i64(&bytes[16..24], is_little_endian),
            entry_offset: read_u32(&bytes[24..28], is_little_endian) as usize,
            num_entries: read_u32(&bytes[28..32], is_little_endian) as usize,
        },
    )
}

/// An entry that was read, and where the next one starts.
pub struct EntryView {
    pub name: Seq<char>,
    pub meta: EntryMeta,
    pub end: int,
}

/// How a message names the entry that it is about.
pub open spec fn entry_text(number: int) -> Seq<char> {
    "entry "@ + crate::text::decimal_text(number as nat)
}

/// What is wrong with the value of a named entry that spans the bytes up to `end`.
pub open spec fn value_fault(name: Seq<char>, meta: EntryMeta, units: u8, end: int) -> Option<
    Fault,
> {
    if meta.is_long() && meta.data_offset + 8 > end {
        Some(rejection("long entry "@ + name + " does not contain eight data bytes"@))
    } else if meta.is_string() && units != STRING_UNITS {
        Some(rejection("byte-vector entry "@ + name + " does not have string units"@))
    } else if meta.is_string() && meta.vector_length > MAX_STRING_VECTOR_LENGTH {
        Some(rejection("byte-vector entry "@ + name + " exceeds the supported string size"@))
    } else if meta.is_string() && meta.data_offset + meta.vector_length > end {
        Some(rejection("byte-vector entry "@ + name + " exceeds its entry"@))
    } else {
        None
    }
}

/// The name in the region that an entry sets aside for it, or why there is none.
pub open spec fn entry_name(region: Seq<u8>, number: int) -> Result<Seq<char>, Fault> {
    let text = crate::bytes::leading_text(region, false);
    if region.len() > MAX_ENTRY_NAME_LENGTH {
        Err(rejection(entry_text(number) + " name region is too large"@))
    } else if text.len() == region.len() {
        Err(rejection(entry_text(number) + " name is not NUL-terminated"@))
    } else if text.len() == 0 {
        Err(rejection(entry_text(number) + " has an empty name"@))
    } else if !vstd::utf8::valid_utf8(text) {
        Err(rejection(entry_text(number) + " name is not valid UTF-8"@))
    } else {
        Ok(vstd::utf8::decode_utf8(text))
    }
}

/// The entry at `cursor`, or why there is none.
pub open spec fn entry_at(bytes: Seq<u8>, header: PerfHeader, cursor: int, number: int) -> Result<
    EntryView,
    Fault,
> {
    let little = header.is_little_endian;
    let entry_len = u32_at(bytes, cursor, little);
    let name_offset = u32_at(bytes, cursor + 4, little);
    let vector_length = u32_at(bytes, cursor + 8, little);
    let data_offset = u32_at(bytes, cursor + 16, little);
    let end = cursor + entry_len;
    let meta = EntryMeta {
        data_type: bytes[cursor + 12],
        data_offset: (cursor + data_offset) as usize,
        vector_length: vector_length as usize,
    };
    if cursor % 4 != 0 {
        Err(
            rejection(
                entry_text(number) + " starts at unaligned offset "@ + crate::text::decimal_text(
                    cursor as nat,
                ),
            ),
        )
    } else if cursor + ENTRY_HEADER_SIZE > usize::MAX {
        Err(rejection("entry header offset overflow"@))
    } else if cursor + ENTRY_HEADER_SIZE > header.used {
        Err(rejection(entry_text(number) + " header exceeds used data"@))
    } else if entry_len < ENTRY_HEADER_SIZE || entry_len % 4 != 0 {
        Err(
            rejection(
                entry_text(number) + " has invalid length "@ + crate::text::decimal_text(
                    entry_len as nat,
                ),
            ),
        )
    } else if end > usize::MAX {
        Err(rejection("entry length overflow"@))
    } else if end > header.used {
        Err(rejection(entry_text(number) + " extends beyond used data"@))
    } else if name_offset < ENTRY_HEADER_SIZE || name_offset >= data_offset || data_offset
        > entry_len {
        Err(
            rejection(
                entry_text(number) + " has invalid name/data offsets "@
                    + crate::text::decimal_text(name_offset as nat) + "/"@
                    + crate::text::decimal_text(data_offset as nat),
            ),
        )
    } else {
        match entry_name(bytes.subrange(cursor + name_offset, cursor + data_offset), number) {
            Err(fault) => Err(fault),
            Ok(name) => match value_fault(name, meta, bytes[cursor + 14], end) {
                Some(fault) => Err(fault),
                None => Ok(EntryView { name, meta, end }),
            },
        }
    }
}

/// The index of the entries from `cursor` on, after the `number` entries that `index` holds.
pub open spec fn index_from(
    bytes: Seq<u8>,
    header: PerfHeader,
    cursor: int,
    number: int,
    index: IndexView,
) -> Result<IndexView, Fault>
    decreases header.num_entries - number,
{
    if number >= header.num_entries {
        if cursor == header.used {
            Ok(index)
        } else {
            Err(
                rejection(
                    "parsed entries end at "@ + crate::text::decimal_text(cursor as nat)
                        + ", but used data ends at "@ + crate::text::decimal_text(
                        header.used as nat,
                    ),
                ),
            )
        }
    } else {
        match entry_at(bytes, header, cursor, number) {
            Err(fault) => Err(fault),
            Ok(entry) => if index.get(entry.name) is Some {
                Err(rejection("duplicate perfdata entry "@ + entry.name))
            } else {
                index_from(
                    bytes,
                    header,
                    entry.end,
                    number + 1,
                    index.push(entry.name, entry.meta),
                )
            },
        }
    }
}

/// The index of all entries, or why there is none.
pub open spec fn index_value(bytes: Seq<u8>, header: PerfHeader) -> Result<IndexView, Fault> {
    index_from(bytes, header, header.entry_offset as int, 0, IndexView::empty())
}

/// A name is not empty and holds no NUL.
proof fn lemma_entry_name(bytes: Seq<u8>, header: PerfHeader, cursor: int, number: int)
    requires
        entry_at(bytes, header, cursor, number) is Ok,
    ensures
        entry_at(bytes, header, cursor, number)->Ok_0.name.len() > 0,
        !entry_at(bytes, header, cursor, number)->Ok_0.name.contains('\0'),
{
    let name_offset = u32_at(bytes, cursor + 4, header.is_little_endian);
    let data_offset = u32_at(bytes, cursor + 16, header.is_little_endian);
    let region = bytes.subrange(cursor + name_offset, cursor + data_offset);
    let text = crate::bytes::leading_text(region, false);
    crate::bytes::lemma_leading_text_runs_on(region, false);
    crate::bytes::lemma_decoded_text(text);
}

proof fn lemma_index_from(
    bytes: Seq<u8>,
    header: PerfHeader,
    cursor: int,
    number: int,
    index: IndexView,
)
    requires
        0 <= cursor,
        0 <= number <= header.num_entries,
        index.wf(),
        index.longs_apart(),
        index.values_within(cursor),
        index.names_plain(),
        header.entry_offset <= cursor,
        index.values_start_between(header.entry_offset as int, cursor),
        index_from(bytes, header, cursor, number, index) is Ok,
    ensures
        ({
            let complete = index_from(bytes, header, cursor, number, index)->Ok_0;
            &&& complete.wf()
            &&& complete.longs_apart()
            &&& complete.values_within(header.used as int)
            &&& complete.names_plain()
            &&& complete.values_start_between(header.entry_offset as int, header.used as int)
            &&& complete.names.len() == index.names.len() + header.num_entries - number
        }),
    decreases header.num_entries - number,
{
    if number < header.num_entries {
        let entry = entry_at(bytes, header, cursor, number)->Ok_0;
        let pushed = index.push(entry.name, entry.meta);
        index.lemma_push(entry.name, entry.meta);
        assert(cursor < entry.meta.data_offset <= entry.end);
        assert(pushed.values_within(entry.end)) by {
            assert forall|name: Seq<char>| #[trigger]
                pushed.entries.contains_key(name) implies pushed.entries[name].ends_by(
                entry.end,
            ) by {
                if name != entry.name {
                    assert(index.entries.contains_key(name));
                }
            }
        }
        assert(pushed.longs_apart()) by {
            assert forall|first: Seq<char>, second: Seq<char>| #[trigger]
                pushed.entries.contains_key(first) && #[trigger] pushed.entries.contains_key(second)
                    && pushed.entries[first].is_long() && pushed.entries[second].is_long()
                    && pushed.entries[first].data_offset
                    == pushed.entries[second].data_offset implies first == second by {
                if first != entry.name {
                    assert(index.entries.contains_key(first));
                }
                if second != entry.name {
                    assert(index.entries.contains_key(second));
                }
            }
        }
        lemma_entry_name(bytes, header, cursor, number);
        assert(pushed.names_plain()) by {
            assert forall|name: Seq<char>| #[trigger]
                pushed.entries.contains_key(name) implies name.len() > 0 && !name.contains(
                '\0',
            ) by {
                if name != entry.name {
                    assert(index.entries.contains_key(name));
                }
            }
        }
        assert(pushed.values_start_between(header.entry_offset as int, entry.end)) by {
            assert forall|name: Seq<char>| #[trigger]
                pushed.entries.contains_key(name) implies header.entry_offset
                < pushed.entries[name].data_offset <= entry.end by {
                if name != entry.name {
                    assert(index.entries.contains_key(name));
                }
            }
        }
        lemma_index_from(bytes, header, entry.end, number + 1, pushed);
    }
}

/// An index that was read has as many entries as the prologue announces. Each counter and each
/// string in it lies within the used bytes, no two counters share their place, and no name is
/// empty or holds a NUL.
pub proof fn law_index_is_complete(bytes: Seq<u8>, header: PerfHeader)
    requires
        index_value(bytes, header) is Ok,
    ensures
        index_value(bytes, header)->Ok_0.wf(),
        index_value(bytes, header)->Ok_0.longs_apart(),
        index_value(bytes, header)->Ok_0.values_within(header.used as int),
        index_value(bytes, header)->Ok_0.names_plain(),
        index_value(bytes, header)->Ok_0.values_start_between(
            header.entry_offset as int,
            header.used as int,
        ),
        index_value(bytes, header)->Ok_0.names.len() == header.num_entries,
{
    lemma_index_from(bytes, header, header.entry_offset as int, 0, IndexView::empty());
}

/// A prologue is read from its own bytes alone.
pub proof fn lemma_header_value(bytes: Seq<u8>)
    requires
        bytes.len() >= PROLOGUE_SIZE,
    ensures
        mapped_header(bytes) == header_value(bytes),
{
    let prologue = bytes.subrange(0, PROLOGUE_SIZE as int);
    assert(prologue.subrange(0, 4) =~= bytes.subrange(0, 4));
    assert(prologue.subrange(8, 12) =~= bytes.subrange(8, 12));
    assert(prologue.subrange(12, 16) =~= bytes.subrange(12, 16));
    assert(prologue.subrange(16, 24) =~= bytes.subrange(16, 24));
    assert(prologue.subrange(24, 28) =~= bytes.subrange(24, 28));
    assert(prologue.subrange(28, 32) =~= bytes.subrange(28, 32));
}

proof fn lemma_entry_at(bytes: Seq<u8>, header: PerfHeader, cursor: int, number: int)
    requires
        0 <= cursor,
        header.used <= bytes.len(),
    ensures
        entry_at(bytes.subrange(0, header.used as int), header, cursor, number) == entry_at(
            bytes,
            header,
            cursor,
            number,
        ),
{
    let used = bytes.subrange(0, header.used as int);
    if cursor + ENTRY_HEADER_SIZE <= header.used {
        assert(used.subrange(cursor, cursor + 4) =~= bytes.subrange(cursor, cursor + 4));
        assert(used.subrange(cursor + 4, cursor + 4 + 4) =~= bytes.subrange(
            cursor + 4,
            cursor + 4 + 4,
        ));
        assert(used.subrange(cursor + 8, cursor + 8 + 4) =~= bytes.subrange(
            cursor + 8,
            cursor + 8 + 4,
        ));
        assert(used.subrange(cursor + 16, cursor + 16 + 4) =~= bytes.subrange(
            cursor + 16,
            cursor + 16 + 4,
        ));
        let name_offset = u32_at(bytes, cursor + 4, header.is_little_endian);
        let data_offset = u32_at(bytes, cursor + 16, header.is_little_endian);
        if 0 <= name_offset <= data_offset && cursor + data_offset <= header.used {
            assert(used.subrange(cursor + name_offset, cursor + data_offset) =~= bytes.subrange(
                cursor + name_offset,
                cursor + data_offset,
            ));
        }
    }
}

/// Whether a byte belongs to what describes an entry, from the start of the entry to its value,
/// the entries being those from `cursor` on, after `number` others.
pub open spec fn describes_entry(
    bytes: Seq<u8>,
    header: PerfHeader,
    cursor: int,
    number: int,
    position: int,
) -> bool
    decreases header.num_entries - number,
{
    if number >= header.num_entries {
        false
    } else {
        match entry_at(bytes, header, cursor, number) {
            Ok(entry) => cursor <= position < entry.meta.data_offset || describes_entry(
                bytes,
                header,
                entry.end,
                number + 1,
                position,
            ),
            Err(_) => false,
        }
    }
}

proof fn lemma_index_ignores_values(
    first: Seq<u8>,
    second: Seq<u8>,
    header: PerfHeader,
    cursor: int,
    number: int,
    index: IndexView,
)
    requires
        0 <= cursor,
        header.used <= first.len(),
        header.used <= second.len(),
        index_from(first, header, cursor, number, index) is Ok,
        forall|position: int| #[trigger]
            describes_entry(first, header, cursor, number, position) ==> first[position]
                == second[position],
    ensures
        index_from(second, header, cursor, number, index) == index_from(
            first,
            header,
            cursor,
            number,
            index,
        ),
    decreases header.num_entries - number,
{
    if number < header.num_entries {
        let entry = entry_at(first, header, cursor, number)->Ok_0;
        assert forall|position: int| cursor <= position < entry.meta.data_offset implies #[trigger]
            first[position] == second[position] by {
            assert(describes_entry(first, header, cursor, number, position));
        }
        assert(first.subrange(cursor, cursor + 4) =~= second.subrange(cursor, cursor + 4));
        assert(first.subrange(cursor + 4, cursor + 4 + 4) =~= second.subrange(
            cursor + 4,
            cursor + 4 + 4,
        ));
        assert(first.subrange(cursor + 8, cursor + 8 + 4) =~= second.subrange(
            cursor + 8,
            cursor + 8 + 4,
        ));
        assert(first.subrange(cursor + 16, cursor + 16 + 4) =~= second.subrange(
            cursor + 16,
            cursor + 16 + 4,
        ));
        let name_offset = u32_at(first, cursor + 4, header.is_little_endian);
        let data_offset = u32_at(first, cursor + 16, header.is_little_endian);
        assert(first.subrange(cursor + name_offset, cursor + data_offset) =~= second.subrange(
            cursor + name_offset,
            cursor + data_offset,
        ));
        assert(first[cursor + 12] == second[cursor + 12]);
        assert(first[cursor + 14] == second[cursor + 14]);
        assert(entry_at(second, header, cursor, number) == entry_at(first, header, cursor, number));
        assert forall|position: int| #[trigger]
            describes_entry(first, header, entry.end, number + 1, position) implies first[position]
            == second[position] by {
            assert(describes_entry(first, header, cursor, number, position));
        }
        lemma_index_ignores_values(
            first,
            second,
            header,
            entry.end,
            number + 1,
            index.push(entry.name, entry.meta),
        );
    }
}

/// An index depends on what describes its entries alone. Neither the values, nor the prologue's own
/// bytes, nor what comes after the used bytes matter, so that values may be read from a later image
/// under an index that was taken before.
pub proof fn law_index_ignores_values(first: Seq<u8>, second: Seq<u8>, header: PerfHeader)
    requires
        header.used <= first.len(),
        header.used <= second.len(),
        index_value(first, header) is Ok,
        forall|position: int| #[trigger]
            describes_entry(first, header, header.entry_offset as int, 0, position)
                ==> first[position] == second[position],
    ensures
        index_value(second, header) == index_value(first, header),
{
    lemma_index_ignores_values(
        first,
        second,
        header,
        header.entry_offset as int,
        0,
        IndexView::empty(),
    );
}

proof fn lemma_index_from_used(
    bytes: Seq<u8>,
    header: PerfHeader,
    cursor: int,
    number: int,
    index: IndexView,
)
    requires
        0 <= cursor,
        header.used <= bytes.len(),
    ensures
        index_from(bytes.subrange(0, header.used as int), header, cursor, number, index)
            == index_from(bytes, header, cursor, number, index),
    decreases header.num_entries - number,
{
    if number < header.num_entries {
        lemma_entry_at(bytes, header, cursor, number);
        if let Ok(entry) = entry_at(bytes, header, cursor, number) {
            lemma_index_from_used(
                bytes,
                header,
                entry.end,
                number + 1,
                index.push(entry.name, entry.meta),
            );
        }
    }
}

/// An index is read from the used bytes alone.
pub proof fn lemma_index_of_used(bytes: Seq<u8>, header: PerfHeader)
    requires
        header.used <= bytes.len(),
    ensures
        index_value(bytes.subrange(0, header.used as int), header) == index_value(bytes, header),
{
    lemma_index_from_used(bytes, header, header.entry_offset as int, 0, IndexView::empty());
}

/// A message about one entry.
fn entry_message(number: usize, problem: &str) -> (message: String)
    ensures
        message@ == entry_text(number as int) + problem@,
{
    "entry ".to_owned().concat(&decimal(number as u64)).concat(problem)
}

/// Reads the name in the region that an entry sets aside for it.
fn parse_entry_name(region: &[u8], number: usize) -> (name: Result<String, JvmMonitorError>)
    ensures
        match name {
            Ok(name) => entry_name(region@, number as int) == Ok::<Seq<char>, Fault>(name@),
            Err(error) => entry_name(region@, number as int) == Err::<Seq<char>, Fault>(error@),
        },
{
    if region.len() > MAX_ENTRY_NAME_LENGTH {
        return Err(invalid(entry_message(number, " name region is too large")));
    }
    let name_len: usize = leading_text_len(region, false);
    if name_len == region.len() {
        return Err(invalid(entry_message(number, " name is not NUL-terminated")));
    }
    if name_len == 0 {
        return Err(invalid(entry_message(number, " has an empty name")));
    }
    assert(region@.subrange(0, name_len as int) =~= region@.take(name_len as int));
    match utf8_text(&region[0..name_len]) {
        Some(name) => Ok(name.to_owned()),
        None => Err(invalid(entry_message(number, " name is not valid UTF-8"))),
    }
}

/// Checks that the value of an entry lies within it.
fn check_value(name: &String, meta: &EntryMeta, units: u8, end: usize) -> (checked: Result<
    (),
    JvmMonitorError,
>)
    requires
        meta.data_offset <= end,
    ensures
        match checked {
            Ok(_) => value_fault(name@, *meta, units, end as int) is None,
            Err(error) => value_fault(name@, *meta, units, end as int) == Some(error@),
        },
{
    let room: usize = end - meta.data_offset;
    if meta.holds_long() {
        if room < 8 {
            return Err(
                invalid(
                    "long entry ".to_owned().concat(name).concat(
                        " does not contain eight data bytes",
                    ),
                ),
            );
        }
    } else if meta.holds_string() {
        if units != STRING_UNITS {
            return Err(
                invalid(
                    "byte-vector entry ".to_owned().concat(name).concat(
                        " does not have string units",
                    ),
                ),
            );
        }
        if meta.vector_length > MAX_STRING_VECTOR_LENGTH {
            return Err(
                invalid(
                    "byte-vector entry ".to_owned().concat(name).concat(
                        " exceeds the supported string size",
                    ),
                ),
            );
        }
        if room < meta.vector_length {
            return Err(
                invalid("byte-vector entry ".to_owned().concat(name).concat(" exceeds its entry")),
            );
        }
    }
    Ok(())
}

/// Reads the entry at `cursor`: its name, where its value is, and where the next entry starts.
fn parse_entry(bytes: &[u8], header: &PerfHeader, cursor: usize, number: usize) -> (entry: Result<
    (String, EntryMeta, usize),
    JvmMonitorError,
>)
    requires
        header.used <= bytes@.len(),
    ensures
        match entry {
            Ok((name, meta, end)) => entry_at(bytes@, *header, cursor as int, number as int) == Ok::<
                EntryView,
                Fault,
            >(EntryView { name: name@, meta, end: end as int }),
            Err(error) => entry_at(bytes@, *header, cursor as int, number as int) == Err::<
                EntryView,
                Fault,
            >(error@),
        },
{
    let little: bool = header.is_little_endian;
    if cursor % 4 != 0 {
        return Err(
            invalid(
                entry_message(number, " starts at unaligned offset ").concat(
                    &decimal(cursor as u64),
                ),
            ),
        );
    }
    if cursor.checked_add(ENTRY_HEADER_SIZE).is_none() {
        return Err(invalid("entry header offset overflow".to_owned()));
    }
    if cursor + ENTRY_HEADER_SIZE > header.used {
        return Err(invalid(entry_message(number, " header exceeds used data")));
    }
    let entry_len: usize = read_u32(&bytes[cursor..cursor + 4], little) as usize;
    if entry_len < ENTRY_HEADER_SIZE || entry_len % 4 != 0 {
        return Err(
            invalid(
                entry_message(number, " has invalid length ").concat(&decimal(entry_len as u64)),
            ),
        );
    }
    if cursor.checked_add(entry_len).is_none() {
        return Err(invalid("entry length overflow".to_owned()));
    }
    let end: usize = cursor + entry_len;
    if end > header.used {
        return Err(invalid(entry_message(number, " extends beyond used data")));
    }
    let name_offset: usize = read_u32(&bytes[cursor + 4..cursor + 8], little) as usize;
    let vector_length: usize = read_u32(&bytes[cursor + 8..cursor + 12], little) as usize;
    let data_offset: usize = read_u32(&bytes[cursor + 16..cursor + 20], little) as usize;
    if name_offset < ENTRY_HEADER_SIZE || name_offset >= data_offset || data_offset > entry_len {
        return Err(
            invalid(
                entry_message(number, " has invalid name/data offsets ").concat(
                    &decimal(name_offset as u64),
                ).concat("/").concat(&decimal(data_offset as u64)),
            ),
        );
    }
    let name: String = match parse_entry_name(
        &bytes[cursor + name_offset..cursor + data_offset],
        number,
    ) {
        Ok(name) => name,
        Err(error) => return Err(error),
    };
    let meta = EntryMeta {
        data_type: bytes[cursor + 12],
        data_offset: cursor + data_offset,
        vector_length,
    };
    match check_value(&name, &meta, bytes[cursor + 14], end) {
        Ok(_) => Ok((name, meta, end)),
        Err(error) => Err(error),
    }
}

/// Reads all entries that the prologue announces.
pub fn parse_index(bytes: &[u8], header: &PerfHeader) -> (index: Result<PerfIndex, JvmMonitorError>)
    requires
        header.used <= bytes@.len(),
    ensures
        match index {
            Ok(index) => index_value(bytes@, *header) == Ok::<IndexView, Fault>(index@)
                && index@.wf(),
            Err(error) => index_value(bytes@, *header) == Err::<IndexView, Fault>(error@),
        },
{
    let mut index = PerfIndex::new();
    let mut cursor: usize = header.entry_offset;
    let mut number: usize = 0;
    while number < header.num_entries
        invariant
            header.used <= bytes@.len(),
            number <= header.num_entries,
            index@.wf(),
            index_value(bytes@, *header) == index_from(
                bytes@,
                *header,
                cursor as int,
                number as int,
                index@,
            ),
        decreases header.num_entries - number,
    {
        match parse_entry(bytes, header, cursor, number) {
            Ok((name, meta, end)) => {
                if index.get(&name).is_some() {
                    return Err(invalid("duplicate perfdata entry ".to_owned().concat(&name)));
                }
                index.push(name, meta);
                cursor = end;
                number += 1;
            },
            Err(error) => return Err(error),
        }
    }
    if cursor != header.used {
        return Err(
            invalid(
                "parsed entries end at ".to_owned().concat(&decimal(cursor as u64)).concat(
                    ", but used data ends at ",
                ).concat(&decimal(header.used as u64)),
            ),
        );
    }
    Ok(index)
}

/// The prologue and the index of a complete perfdata image, or why there are none.
pub open spec fn snapshot_value(bytes: Seq<u8>) -> Result<(PerfHeader, IndexView), Fault> {
    match header_value(bytes) {
        Err(fault) => Err(fault),
        Ok(header) => if !header.accessible {
            Err(rejection("target perfdata is not accessible"@))
        } else {
            match header.layout_fault(bytes.len() as int) {
                Some(fault) => Err(fault),
                None => match index_value(bytes, header) {
                    Err(fault) => Err(fault),
                    Ok(index) => Ok((header, index)),
                },
            }
        },
    }
}

/// Reads a complete perfdata image.
pub fn parse_snapshot(bytes: &[u8]) -> (parsed: Result<(PerfHeader, PerfIndex), JvmMonitorError>)
    ensures
        match parsed {
            Ok((header, index)) => snapshot_value(bytes@) == Ok::<(PerfHeader, IndexView), Fault>(
                (header, index@),
            ) && index@.wf(),
            Err(error) => snapshot_value(bytes@) == Err::<(PerfHeader, IndexView), Fault>(error@),
        },
{
    let header: PerfHeader = match parse_header(bytes) {
        Ok(header) => header,
        Err(error) => return Err(error),
    };
    if !header.accessible {
        return Err(invalid("target perfdata is not accessible".to_owned()));
    }
    match header.validate_layout(bytes.len()) {
        Ok(_) => {},
        Err(error) => return Err(error),
    }
    match parse_index(bytes, &header) {
        Ok(index) => Ok((header, index)),
        Err(error) => Err(error),
    }
}

/// Whether perfdata of the given length is mapped or read.
pub open spec fn supported_size(len: int) -> bool {
    PROLOGUE_SIZE <= len <= MAX_PERFDATA_SIZE
}

/// The error of a file that is too small to be perfdata, or too large.
pub open spec fn file_size_rejection(len: nat) -> Fault {
    rejection(
        "perfdata file size "@ + crate::text::decimal_text(len)
            + " is outside the supported range"@,
    )
}

/// The prologue at the start of mapped perfdata, or why it cannot be read.
pub open spec fn mapped_header(bytes: Seq<u8>) -> Result<PerfHeader, Fault> {
    if bytes.len() < PROLOGUE_SIZE {
        Err(rejection("could not read perfdata prologue"@))
    } else {
        header_value(bytes.subrange(0, PROLOGUE_SIZE as int))
    }
}

/// The counter at an offset of perfdata that reaches that far.
pub open spec fn long_at(bytes: Seq<u8>, offset: int, is_little_endian: bool) -> Option<i64> {
    if offset + 8 <= bytes.len() {
        Some(i64_at(bytes, offset, is_little_endian) as i64)
    } else {
        None
    }
}

/// The string at an offset of perfdata that reaches that far: what comes before the first NUL.
pub open spec fn string_at(bytes: Seq<u8>, offset: int, maximum_len: int) -> Option<Seq<char>> {
    if offset + maximum_len <= bytes.len() {
        Some(
            crate::bytes::text_value(
                crate::bytes::leading_text(bytes.subrange(offset, offset + maximum_len), false),
            ),
        )
    } else {
        None
    }
}

/// The bytes of a perfdata mapping, as they were at one moment.
#[derive(Debug)]
pub struct PerfMemory {
    bytes: Vec<u8>,
}

impl View for PerfMemory {
    type V = Seq<u8>;

    closed spec fn view(&self) -> Seq<u8> {
        self.bytes@
    }
}

impl PerfMemory {
    /// Holds the bytes of a mapping.
    pub fn new(bytes: Vec<u8>) -> (memory: PerfMemory)
        ensures
            memory@ == bytes@,
    {
        PerfMemory { bytes }
    }

    /// Refuses to map a file that is too small to be perfdata, or too large.
    pub fn check_file_size(file_len: u64) -> (checked: Result<(), JvmMonitorError>)
        ensures
            match checked {
                Ok(_) => supported_size(file_len as int),
                Err(error) => !supported_size(file_len as int) && error@ == file_size_rejection(
                    file_len as nat,
                ),
            },
    {
        if (PROLOGUE_SIZE as u64) <= file_len && file_len <= MAX_PERFDATA_SIZE {
            Ok(())
        } else {
            Err(
                invalid(
                    "perfdata file size ".to_owned().concat(&decimal(file_len)).concat(
                        " is outside the supported range",
                    ),
                ),
            )
        }
    }

    /// Refuses a mapping that is too small to be perfdata, or too large.
    pub fn check_mapping_size(mapping_len: usize) -> (checked: Result<(), JvmMonitorError>)
        ensures
            match checked {
                Ok(_) => supported_size(mapping_len as int),
                Err(error) => !supported_size(mapping_len as int) && error@ == rejection(
                    "mapping size "@ + crate::text::decimal_text(mapping_len as nat)
                        + " is outside the supported range"@,
                ),
            },
    {
        if PROLOGUE_SIZE <= mapping_len && mapping_len as u64 <= MAX_PERFDATA_SIZE {
            Ok(())
        } else {
            Err(
                invalid(
                    "mapping size ".to_owned().concat(&decimal(mapping_len as u64)).concat(
                        " is outside the supported range",
                    ),
                ),
            )
        }
    }

    /// The number of bytes.
    pub fn len(&self) -> (len: usize)
        ensures
            len == self@.len(),
    {
        self.bytes.len()
    }

    /// Whether the JVM has finished setting the perfdata up, where there is a flag to tell.
    pub fn is_accessible(&self) -> (accessible: Option<bool>)
        ensures
            accessible == (if self@.len() <= 7 {
                None
            } else {
                Some(self@[7] != 0)
            }),
    {
        if self.bytes.len() <= 7 {
            None
        } else {
            Some(self.bytes[7] != 0)
        }
    }

    /// Reads the prologue.
    pub fn header(&self) -> (header: Result<PerfHeader, JvmMonitorError>)
        ensures
            match header {
                Ok(header) => mapped_header(self@) == Ok::<PerfHeader, Fault>(header),
                Err(error) => mapped_header(self@) == Err::<PerfHeader, Fault>(error@),
            },
    {
        match self.copy_bytes(0, PROLOGUE_SIZE) {
            Some(bytes) => parse_header(bytes.as_slice()),
            None => Err(invalid("could not read perfdata prologue".to_owned())),
        }
    }

    /// Reads the counter at an offset.
    pub fn read_i64(&self, offset: usize, is_little_endian: bool) -> (value: Option<i64>)
        ensures
            value == long_at(self@, offset as int, is_little_endian),
    {
        let bytes: &[u8] = self.bytes.as_slice();
        let available: usize = bytes.len();
        match offset.checked_add(8) {
            Some(end) => if end <= available {
                Some(read_i64(&bytes[offset..end], is_little_endian))
            } else {
                None
            },
            None => None,
        }
    }

    /// Reads the string at an offset.
    pub fn read_string(&self, offset: usize, maximum_len: usize) -> (value: Option<String>)
        ensures
            match value {
                Some(value) => string_at(self@, offset as int, maximum_len as int) == Some(value@),
                None => string_at(self@, offset as int, maximum_len as int) is None,
            },
    {
        match self.copy_bytes(offset, maximum_len) {
            Some(bytes) => {
                let string_len: usize = leading_text_len(bytes.as_slice(), false);
                assert(bytes@.subrange(0, string_len as int) =~= bytes@.take(string_len as int));
                Some(read_text(&bytes.as_slice()[0..string_len]))
            },
            None => None,
        }
    }

    /// Copies a range of the bytes.
    pub fn copy_bytes(&self, offset: usize, len: usize) -> (copy: Option<Vec<u8>>)
        ensures
            match copy {
                Some(copy) => offset + len <= self@.len() && copy@ == self@.subrange(
                    offset as int,
                    offset + len,
                ),
                None => offset + len > self@.len(),
            },
    {
        let bytes: &[u8] = self.bytes.as_slice();
        let available: usize = bytes.len();
        match offset.checked_add(len) {
            Some(end) => if end <= available {
                Some(vstd::slice::slice_to_vec(&bytes[offset..end]))
            } else {
                None
            },
            None => None,
        }
    }
}

} // verus!
