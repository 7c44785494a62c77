//! Under which names Java processes are discovered.

use vstd::prelude::*;

use crate::discovery::{JavaProcessInfo, Sighting};
use crate::layout::PublishedEntry;
use crate::perfdata::PerfHeader;

verus! {

/// Whether a word stands at an offset where there is room for `room` bytes: it holds neither a NUL
/// nor a space, and fills the room or is followed by one of the two.
pub open spec fn word_stands(bytes: Seq<u8>, offset: int, room: int, word: Seq<u8>) -> bool {
    &&& 0 <= offset && offset + room <= bytes.len()
    &&& word.len() <= room
    &&& forall|i: int|
        0 <= i < word.len() ==> #[trigger] word[i] == bytes[offset + i] && word[i] != 0 && word[i]
            != 0x20
    &&& word.len() < room ==> bytes[offset + word.len()] == 0 || bytes[offset + word.len()] == 0x20
}

/// Whether a copy of at most 64 MiB is of perfdata that hold the command of the JVM as a string
/// whose first word is the given one.
pub open spec fn tells(snapshot: Seq<u8>, word: Seq<u8>) -> bool {
    &&& snapshot.len() <= 67_108_864
    &&& crate::perfdata::snapshot_value(snapshot) is Ok
    &&& ({
        let (_, index) = crate::perfdata::snapshot_value(snapshot)->Ok_0;
        index.get("sun.rt.javaCommand"@) matches Some(meta) && meta.data_type == 0x42
            && meta.vector_length > 0 && word_stands(
            snapshot,
            meta.data_offset as int,
            meta.vector_length as int,
            word,
        )
    })
}

/// The text of a word: what UTF-8 makes of it, or a lossy reading where it is not UTF-8.
pub open spec fn text_of(word: Seq<u8>) -> Seq<char> {
    if vstd::utf8::valid_utf8(word) {
        vstd::utf8::decode_utf8(word)
    } else {
        crate::bytes::lossy_text(word)
    }
}

/// The name of an application is the first word of its command, however large the perfdata are, up
/// to 64 MiB. A word that a Rust string holds is the name as it is.
pub proof fn law_first_word_is_the_name(snapshot: Seq<u8>, word: Seq<u8>)
    requires
        tells(snapshot, word),
    ensures
        crate::discovery::application_name(snapshot) == Some(text_of(word)),
        forall|name: Seq<char>|
            word == #[trigger] vstd::utf8::encode_utf8(name)
                ==> crate::discovery::application_name(snapshot) == Some(name),
{
    let (_, index) = crate::perfdata::snapshot_value(snapshot)->Ok_0;
    let meta = index.get("sun.rt.javaCommand"@)->0;
    let offset = meta.data_offset as int;
    let region = snapshot.subrange(offset, offset + meta.vector_length);
    assert forall|i: int| 0 <= i < word.len() implies #[trigger] region[i] != 0 && region[i]
        != 0x20 by {
        assert(word[i] == snapshot[offset + i]);
    }
    crate::reading::law_text_runs_to_its_end(region, true, word.len() as int);
    assert(region.take(word.len() as int) =~= word) by {
        assert forall|i: int| 0 <= i < word.len() implies #[trigger] region.take(
            word.len() as int,
        )[i] == word[i] by {
            assert(word[i] == snapshot[offset + i]);
        }
    }
    assert forall|name: Seq<char>|
        word == #[trigger] vstd::utf8::encode_utf8(
            name,
        ) implies crate::discovery::application_name(snapshot) == Some(name) by {
        vstd::utf8::encode_utf8_valid_utf8(name);
        vstd::utf8::encode_utf8_decode_utf8(name);
    }
}

proof fn lemma_some_word_stands(bytes: Seq<u8>) -> (len: int)
    ensures
        0 <= len <= bytes.len(),
        forall|i: int| 0 <= i < len ==> #[trigger] bytes[i] != 0 && bytes[i] != 0x20,
        len < bytes.len() ==> bytes[len] == 0 || bytes[len] == 0x20,
    decreases bytes.len(),
{
    if bytes.len() == 0 || bytes[0] == 0 || bytes[0] == 0x20 {
        0
    } else {
        let rest = bytes.skip(1);
        let len = lemma_some_word_stands(rest);
        assert forall|i: int| 0 <= i < len + 1 implies #[trigger] bytes[i] != 0 && bytes[i]
            != 0x20 by {
            if i > 0 {
                assert(rest[i - 1] == bytes[i]);
            }
        }
        len + 1
    }
}

/// Only perfdata that hold the command of the JVM as a string, in a copy of at most 64 MiB, name an
/// application.
pub proof fn law_names_come_from_commands(snapshot: Seq<u8>)
    ensures
        crate::discovery::application_name(snapshot) is Some <==> exists|word: Seq<u8>|
            tells(snapshot, word),
{
    if crate::discovery::application_name(snapshot) is Some {
        let (header, index) = crate::perfdata::snapshot_value(snapshot)->Ok_0;
        let meta = index.get("sun.rt.javaCommand"@)->0;
        let offset = meta.data_offset as int;
        crate::perfdata::law_index_is_complete(snapshot, header);
        assert(index.entries.contains_key("sun.rt.javaCommand"@));
        let region = snapshot.subrange(offset, offset + meta.vector_length);
        let len = lemma_some_word_stands(region);
        let word = region.take(len);
        assert forall|i: int| 0 <= i < word.len() implies #[trigger] word[i] == snapshot[offset + i]
            && word[i] != 0 && word[i] != 0x20 by {
            assert(word[i] == region[i]);
        }
        assert(tells(snapshot, word));
    }
    if exists|word: Seq<u8>| tells(snapshot, word) {
        let word = choose|word: Seq<u8>| tells(snapshot, word);
        law_first_word_is_the_name(snapshot, word);
    }
}

/// Perfdata that are laid out well and hold the command of the JVM name its application.
pub proof fn law_published_commands_name_applications(
    snapshot: Seq<u8>,
    header: PerfHeader,
    entries: Seq<PublishedEntry>,
    position: int,
    word: Seq<u8>,
)
    requires
        crate::layout::perfdata_stand(snapshot, header, entries),
        snapshot.len() <= 67_108_864,
        0 <= position < entries.len(),
        entries[position].key() == "sun.rt.javaCommand"@,
        entries[position].data_type == 0x42,
        entries[position].vector_length > 0,
        word_stands(
            snapshot,
            crate::layout::entry_start(entries, header.entry_offset as int, position)
                + entries[position].data_offset,
            entries[position].vector_length,
            word,
        ),
    ensures
        crate::discovery::application_name(snapshot) == Some(text_of(word)),
{
    crate::layout::law_published_perfdata_are_accepted(snapshot, header, entries);
    crate::layout::lemma_entry_place(snapshot, header, entries, position);
    let (_, index) = crate::perfdata::snapshot_value(snapshot)->Ok_0;
    assert(index.names[position] == entries[position].key());
    law_first_word_is_the_name(snapshot, word);
}

/// A process that is seen running, with perfdata that hold its command, is discovered under the
/// first word of the command in the first such sighting. A process that is never seen so is not
/// discovered.
pub proof fn law_running_commands_are_discovered(
    sightings: Seq<Sighting>,
    pid: u32,
    position: int,
    word: Seq<u8>,
)
    ensures
        0 <= position < sightings.len() && sightings[position].pid == pid
            && sightings[position].running && tells(sightings[position].snapshot, word)
            ==> crate::discovery::discovered(sightings).contains_key(pid),
        0 <= position < sightings.len() && sightings[position].pid == pid
            && sightings[position].running && tells(sightings[position].snapshot, word) && (forall|
            j: int,
            earlier: Seq<u8>,
        |
            0 <= j < position && (#[trigger] sightings[j]).pid == pid && sightings[j].running
                ==> !(#[trigger] tells(sightings[j].snapshot, earlier)))
            ==> crate::discovery::discovered(sightings)[pid] == text_of(word),
        (forall|j: int, seen: Seq<u8>|
            0 <= j < sightings.len() && (#[trigger] sightings[j]).pid == pid
                && sightings[j].running ==> !(#[trigger] tells(sightings[j].snapshot, seen)))
            ==> !crate::discovery::discovered(sightings).contains_key(pid),
{
    crate::discovery::law_running_processes_are_discovered(sightings, pid);
    assert forall|j: int| 0 <= j < sightings.len() implies ((#[trigger] sightings[j]).counts() <==>
        sightings[j].running && exists|seen: Seq<u8>| tells(sightings[j].snapshot, seen)) by {
        law_names_come_from_commands(sightings[j].snapshot);
    }
    if 0 <= position < sightings.len() && tells(sightings[position].snapshot, word) {
        law_first_word_is_the_name(sightings[position].snapshot, word);
        assert(sightings[position].counts() <==> sightings[position].running);
    }
}

/// Processes are listed by increasing ID, and each that was found is listed once, under its name.
pub proof fn law_processes_are_listed_in_order(found: Seq<JavaProcessInfo>, i: int, j: int)
    requires
        crate::discovery::sorted_by_pid(found),
        0 <= i < j < found.len(),
    ensures
        found[i].pid < found[j].pid,
        crate::discovery::names_of(found).contains_key(found[i].pid),
        crate::discovery::names_of(found)[found[i].pid] == found[i].name@,
        forall|pid: u32| #[trigger]
            crate::discovery::names_of(found).contains_key(pid) ==> exists|k: int|
                0 <= k < found.len() && #[trigger] found[k].pid == pid,
{
    crate::discovery::lemma_names_of(found);
}

/// Files of 32 bytes to 64 MiB are read in search of a name.
pub proof fn law_discoverable_sizes(file_len: int)
    ensures
        crate::discovery::discoverable_size(file_len) <==> 32 <= file_len <= 67_108_864,
{
}

/// An entry of `/proc` stands for a process where its name is the decimal number of one, zeros
/// before it or not, without a sign, and not zero.
pub proof fn law_proc_entries(name: Seq<char>, pid: int)
    ensures
        crate::discovery::entry_pid(name) == Some(pid) <==> 0 < pid <= 4_294_967_295 && exists|
            count: nat,
        |
            name == #[trigger] crate::wording::zeros(count) + crate::text::decimal_text(
                pid as nat,
            ),
{
    crate::wording::law_numbers_are_read(name, u32::MAX as int, pid);
    if crate::discovery::entry_pid(name) == Some(pid) {
        assert('0' <= name[0] <= '9');
        let count = choose|count: nat|
            name == #[trigger] crate::wording::zeros(count) + crate::text::decimal_text(pid as nat)
                || name == seq!['+'] + (crate::wording::zeros(count) + crate::text::decimal_text(
                pid as nat,
            ));
        assert(name == crate::wording::zeros(count) + crate::text::decimal_text(pid as nat));
    }
    if 0 < pid <= 4_294_967_295 && exists|count: nat|
        name == #[trigger] crate::wording::zeros(count) + crate::text::decimal_text(pid as nat) {
        let decimal = crate::text::decimal_text(pid as nat);
        let count = choose|count: nat| name == #[trigger] crate::wording::zeros(count) + decimal;
        crate::text::law_decimal_text_is_read_back(pid as nat, pid);
        assert forall|i: int| 0 <= i < name.len() implies '0' <= #[trigger] name[i] <= '9' by {
            if i >= count {
                assert(name[i] == decimal[i - count]);
            }
        }
        assert(crate::wording::writes(name, pid));
    }
}

/// A perfdata file belongs to the process whose number its name writes.
pub proof fn law_perfdata_files(name: Seq<char>, pid: int)
    ensures
        crate::discovery::file_pid(name) == Some(pid) <==> crate::wording::writes(name, pid) && pid
            <= 4_294_967_295,
{
    crate::wording::law_numbers_are_read(name, u32::MAX as int, pid);
}

/// A process is looked at where its perfdata file or its entry in `/proc` is come across, unless it
/// was found before.
pub proof fn law_processes_are_looked_at_once(found: Map<u32, Seq<char>>, pid: u32)
    ensures
        !found.contains_key(pid) ==> crate::discovery::wanted(
            found,
            crate::discovery::file_pid(crate::text::decimal_text(pid as nat)),
        ) == Some(pid as int),
        !found.contains_key(pid) && pid > 0 ==> crate::discovery::wanted(
            found,
            crate::discovery::entry_pid(crate::text::decimal_text(pid as nat)),
        ) == Some(pid as int),
        found.contains_key(pid) ==> crate::discovery::wanted(found, Some(pid as int)) is None,
        crate::discovery::wanted(found, None) is None,
{
    crate::discovery::law_names_lead_to_processes(pid);
}

/// The directory of a user is named after the user, behind `hsperfdata_`. It holds perfdata, and so
/// does no entry that is not a directory or whose name does not start so.
pub proof fn law_perfdata_directories(user: Seq<char>, name: Seq<char>)
    ensures
        ({
            let prefix = seq!['h', 's', 'p', 'e', 'r', 'f', 'd', 'a', 't', 'a', '_'];
            &&& crate::discovery::directory_of(user) == prefix + user
            &&& crate::discovery::holds_perfdata(crate::discovery::directory_of(user), true)
            &&& !crate::discovery::holds_perfdata(name, false)
            &&& crate::discovery::holds_perfdata(name, true) <==> name.len() >= 11 && name.take(11)
                == prefix
        }),
{
    let prefix = seq!['h', 's', 'p', 'e', 'r', 'f', 'd', 'a', 't', 'a', '_'];
    reveal_strlit("hsperfdata_");
    assert("hsperfdata_"@ =~= prefix);
    crate::discovery::law_user_directories_hold_perfdata(user);
    if name.len() >= 11 {
        assert(name.take(11) =~= name.subrange(0, 11));
    }
}

} // verus!
