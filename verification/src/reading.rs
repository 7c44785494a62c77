//! What reading a value gives back of what was written.

use vstd::prelude::*;

use crate::layout::PublishedEntry;
use crate::monitor::{MonitorView, ValueView};
use crate::perfdata::{EntryMeta, PerfHeader};
use crate::target::TargetIdentity;

verus! {

/// Text runs up to the first NUL, or to the first NUL or space where it is one word, or to the end
/// of the bytes where there is none. Nothing else ends it.
pub proof fn law_text_runs_to_its_end(bytes: Seq<u8>, one_word: bool, len: int)
    requires
        0 <= len <= bytes.len(),
        forall|i: int|
            0 <= i < len ==> #[trigger] bytes[i] != 0 && (one_word ==> bytes[i] != 0x20),
        len < bytes.len() ==> bytes[len] == 0 || (one_word && bytes[len] == 0x20),
    ensures
        crate::bytes::leading_text(bytes, one_word) == bytes.take(len),
    decreases len,
{
    if len == 0 {
        assert(bytes.take(0) =~= seq![]);
    } else {
        let rest = bytes.skip(1);
        assert forall|i: int| 0 <= i < len - 1 implies #[trigger] rest[i] != 0 && (one_word
            ==> rest[i] != 0x20) by {
            assert(rest[i] == bytes[i + 1]);
        }
        law_text_runs_to_its_end(rest, one_word, len - 1);
        assert(bytes[0] != 0);
        assert(bytes.take(len) =~= seq![bytes[0]] + rest.take(len - 1));
    }
}

/// A counter reads back as it was written, in either byte order, and cannot be read where it does
/// not lie within the image.
pub proof fn law_long_reads_back(bytes: Seq<u8>, offset: int, value: i64, is_little_endian: bool)
    requires
        0 <= offset,
    ensures
        offset + 8 <= bytes.len() && bytes.subrange(offset, offset + 8)
            == crate::layout::i64_bytes(value as int, is_little_endian)
            ==> crate::perfdata::long_at(bytes, offset, is_little_endian) == Some(value),
        offset + 8 > bytes.len() ==> crate::perfdata::long_at(
            bytes,
            offset,
            is_little_endian,
        ) is None,
        crate::perfdata::long_at(bytes, offset, is_little_endian) == Some(value)
            ==> bytes.subrange(offset, offset + 8) == crate::layout::i64_bytes(
            value as int,
            is_little_endian,
        ),
{
    crate::layout::law_i64_round_trip(
        value,
        bytes.subrange(offset, offset + 8),
        is_little_endian,
    );
}

/// Whether text without a NUL stands at an offset where there is room for `room` bytes: the text
/// fills it, or a NUL follows.
pub open spec fn text_stands(bytes: Seq<u8>, offset: int, room: int, text: Seq<u8>) -> bool {
    &&& 0 <= offset && offset + room <= bytes.len()
    &&& text.len() <= room
    &&& forall|i: int| 0 <= i < text.len() ==> #[trigger] text[i] != 0
    &&& forall|i: int| 0 <= i < text.len() ==> #[trigger] text[i] == bytes[offset + i]
    &&& text.len() < room ==> bytes[offset + text.len()] == 0
}

/// A string reads back whole. What is not UTF-8 is read lossily, and a string that does not lie
/// within the image cannot be read.
pub proof fn law_string_reads_back(bytes: Seq<u8>, offset: int, room: int, text: Seq<u8>)
    requires
        0 <= offset,
        0 <= room,
    ensures
        text_stands(bytes, offset, room, text) && vstd::utf8::valid_utf8(text)
            ==> crate::perfdata::string_at(bytes, offset, room) == Some(
            vstd::utf8::decode_utf8(text),
        ),
        text_stands(bytes, offset, room, text) && !vstd::utf8::valid_utf8(text)
            ==> crate::perfdata::string_at(bytes, offset, room) == Some(
            crate::bytes::lossy_text(text),
        ),
        offset + room > bytes.len() ==> crate::perfdata::string_at(bytes, offset, room) is None,
{
    if text_stands(bytes, offset, room, text) {
        let region = bytes.subrange(offset, offset + room);
        assert forall|i: int| 0 <= i < text.len() implies #[trigger] region[i] != 0 by {
            assert(region[i] == bytes[offset + i]);
            assert(text[i] == bytes[offset + i]);
        }
        law_text_runs_to_its_end(region, false, text.len() as int);
        assert(region.take(text.len() as int) =~= text) by {
            assert forall|i: int| 0 <= i < text.len() implies #[trigger] region.take(
                text.len() as int,
            )[i] == text[i] by {
                assert(text[i] == bytes[offset + i]);
            }
        }
    }
}

/// A text that a Rust string holds reads back as that text.
pub proof fn law_written_text_reads_back(bytes: Seq<u8>, offset: int, room: int, text: Seq<char>)
    requires
        text_stands(bytes, offset, room, vstd::utf8::encode_utf8(text)),
    ensures
        crate::perfdata::string_at(bytes, offset, room) == Some(text),
{
    vstd::utf8::encode_utf8_valid_utf8(text);
    vstd::utf8::encode_utf8_decode_utf8(text);
    law_string_reads_back(bytes, offset, room, vstd::utf8::encode_utf8(text));
}

impl MonitorView {
    /// What a key reads depends on the type of its entry. An entry of type `J` without a vector is
    /// one counter, an entry of type `B` with one is a string, and no other can be read.
    pub proof fn law_keys_read_by_type(self, key: Seq<char>, meta: EntryMeta)
        requires
            self.lookup(key) == Some(meta),
        ensures
            meta.data_type == 0x4a && meta.vector_length == 0 ==> self.metric(key) == (
            match crate::perfdata::long_at(
                self.memory,
                meta.data_offset as int,
                self.is_little_endian,
            ) {
                Some(value) => Some(ValueView::Long(value)),
                None => None,
            }),
            meta.data_type == 0x42 && meta.vector_length > 0 ==> self.metric(key) == (
            match crate::perfdata::string_at(
                self.memory,
                meta.data_offset as int,
                meta.vector_length as int,
            ) {
                Some(value) => Some(ValueView::String(value)),
                None => None,
            }),
            !(meta.data_type == 0x4a && meta.vector_length == 0) && !(meta.data_type == 0x42
                && meta.vector_length > 0) ==> self.metric(key) is None,
    {
    }

    /// A handle reads as the key that it was made for. To another monitor it reads as nothing.
    pub proof fn law_handles_read_as_their_keys(self, owner: usize, key: Seq<char>, meta: EntryMeta)
        requires
            self.lookup(key) == Some(meta),
        ensures
            owner == self.monitor_id ==> self.handled(owner, meta) == self.metric(key),
            owner != self.monitor_id ==> self.handled(owner, meta) is None,
    {
    }

    /// The readings that stand in for what cannot be read: zero for a counter and a dash for a
    /// text. A value that can be read is never replaced, and a counter is shown in decimal.
    pub proof fn law_stand_ins(self, key: Seq<char>)
        ensures
            self.lookup(key) is None ==> self.metric(key) is None,
            self.metric(key) matches Some(ValueView::Long(value)) ==> self.long_or_zero(key)
                == value && self.string(key) is None && self.string_or_dash(key) == seq!['-']
                && self.display_value(key) == crate::text::signed_decimal_text(value as int),
            self.metric(key) matches Some(ValueView::String(text)) ==> self.long_or_zero(key) == 0
                && self.string(key) == Some(text) && self.string_or_dash(key) == text
                && self.display_value(key) == text,
            self.metric(key) is None ==> self.long_or_zero(key) == 0 && self.string(key) is None
                && self.string_or_dash(key) == seq!['-'] && self.display_value(key) == seq!['-'],
    {
        reveal_strlit("-");
        assert("-"@ =~= seq!['-']);
    }

    /// A monitor that is connected to published perfdata reads each of their values by its key, in
    /// whatever image of the mapping they stand: a counter as it was written, a string whole.
    pub proof fn law_published_values_are_read(
        monitor_id: usize,
        target: TargetIdentity,
        bytes: Seq<u8>,
        header: PerfHeader,
        entries: Seq<PublishedEntry>,
        position: int,
        memory: Seq<u8>,
    )
        requires
            crate::layout::perfdata_stand(bytes, header, entries),
            0 <= position < entries.len(),
            header.used <= memory.len(),
        ensures
            ({
                let (_, index) = crate::perfdata::snapshot_value(bytes)->Ok_0;
                let monitor = MonitorView::connected(monitor_id, target, memory, header, index);
                let entry = entries[position];
                let at = crate::layout::entry_start(
                    entries,
                    header.entry_offset as int,
                    position,
                ) + entry.data_offset;
                &&& entry.data_type == 0x4a && entry.vector_length == 0 ==> forall|value: i64|
                    memory.subrange(at, at + 8) == #[trigger] crate::layout::i64_bytes(
                        value as int,
                        header.is_little_endian,
                    ) ==> monitor.metric(entry.key()) == Some(ValueView::Long(value))
                &&& entry.data_type == 0x42 && entry.vector_length > 0 ==> forall|text: Seq<u8>|
                    #[trigger] text_stands(memory, at, entry.vector_length, text)
                        && vstd::utf8::valid_utf8(text) ==> monitor.metric(entry.key()) == Some(
                        ValueView::String(vstd::utf8::decode_utf8(text)),
                    )
                &&& !(entry.data_type == 0x4a && entry.vector_length == 0) && !(entry.data_type
                    == 0x42 && entry.vector_length > 0) ==> monitor.metric(entry.key()) is None
            }),
    {
        crate::layout::law_published_perfdata_are_accepted(bytes, header, entries);
        let (_, index) = crate::perfdata::snapshot_value(bytes)->Ok_0;
        let monitor = MonitorView::connected(monitor_id, target, memory, header, index);
        let entry = entries[position];
        let start = crate::layout::entry_start(entries, header.entry_offset as int, position);
        let at = start + entry.data_offset;
        crate::layout::lemma_entry_place(bytes, header, entries, position);
        assert(index.names[position] == entry.key());
        let meta = entry.meta(start);
        assert(monitor.lookup(entry.key()) == Some(meta));
        monitor.law_keys_read_by_type(entry.key(), meta);
        if entry.data_type == 0x4a && entry.vector_length == 0 {
            assert forall|value: i64|
                memory.subrange(at, at + 8) == #[trigger] crate::layout::i64_bytes(
                    value as int,
                    header.is_little_endian,
                ) implies monitor.metric(entry.key()) == Some(ValueView::Long(value)) by {
                law_long_reads_back(memory, at, value, header.is_little_endian);
            }
        }
        if entry.data_type == 0x42 && entry.vector_length > 0 {
            assert forall|text: Seq<u8>| #[trigger]
                text_stands(memory, at, entry.vector_length, text) && vstd::utf8::valid_utf8(
                    text,
                ) implies monitor.metric(entry.key()) == Some(
                ValueView::String(vstd::utf8::decode_utf8(text)),
            ) by {
                law_string_reads_back(memory, at, entry.vector_length, text);
            }
        }
    }
}

} // verus!
