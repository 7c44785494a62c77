//! Discovering Java processes by the perfdata files that they publish.
//!
//! The caller walks the directories and hands over what it comes across.

use std::collections::HashSet;

use vstd::prelude::*;
use vstd::string::*;

use crate::bytes::{leading_text_len, read_text};
use crate::monitor::JvmMonitor;
use crate::perfdata::{parse_snapshot, EntryMeta, PROLOGUE_SIZE};
use crate::text::{characters, has_prefix, parse_unsigned};

verus! {

broadcast use vstd::std_specs::hash::group_hash_axioms;

/// Larger files are not read.
pub const MAX_DISCOVERY_FILE_SIZE: u64 = 64 * 1024 * 1024;

/// Information about a discovered Java process, similar to the output of `jps`.
#[derive(Debug, Clone)]
pub struct JavaProcessInfo {
    /// The process ID (PID) of the JVM.
    pub pid: u32,
    /// Short name of the application (e.g., the Main class or JAR filename).
    pub name: String,
}

/// The Java processes that have been discovered so far.
pub struct Discovery {
    found: Vec<JavaProcessInfo>,
    seen: HashSet<u32>,
}

/// The names of processes by their IDs.
pub open spec fn names_of(found: Seq<JavaProcessInfo>) -> Map<u32, Seq<char>>
    decreases found.len(),
{
    if found.len() == 0 {
        Map::empty()
    } else {
        names_of(found.drop_last()).insert(found.last().pid, found.last().name@)
    }
}

/// Whether no process is listed twice.
pub open spec fn listed_once(found: Seq<JavaProcessInfo>) -> bool {
    forall|i: int, j: int|
        0 <= i < j < found.len() ==> #[trigger] found[i].pid != #[trigger] found[j].pid
}

/// Whether processes are listed by increasing ID.
pub open spec fn sorted_by_pid(found: Seq<JavaProcessInfo>) -> bool {
    forall|i: int, j: int|
        0 <= i < j < found.len() ==> #[trigger] found[i].pid < #[trigger] found[j].pid
}

/// The processes that have a name are those that are listed, each under the name that is listed.
pub proof fn lemma_names_of(found: Seq<JavaProcessInfo>)
    requires
        listed_once(found),
    ensures
        forall|pid: u32| #[trigger]
            names_of(found).contains_key(pid) ==> exists|i: int|
                0 <= i < found.len() && #[trigger] found[i].pid == pid,
        forall|i: int|
            0 <= i < found.len() ==> names_of(found).contains_key(#[trigger] found[i].pid)
                && names_of(found)[found[i].pid] == found[i].name@,
    decreases found.len(),
{
    if found.len() > 0 {
        let rest = found.drop_last();
        assert forall|i: int, j: int| 0 <= i < j < rest.len() implies #[trigger] rest[i].pid
            != #[trigger] rest[j].pid by {
            assert(rest[i] == found[i] && rest[j] == found[j]);
        }
        lemma_names_of(rest);
        assert forall|pid: u32| #[trigger] names_of(found).contains_key(pid) implies exists|i: int|
            0 <= i < found.len() && #[trigger] found[i].pid == pid by {
            if pid == found.last().pid {
                assert(found[found.len() - 1].pid == pid);
            } else {
                assert(names_of(rest).contains_key(pid));
                let i = choose|i: int| 0 <= i < rest.len() && #[trigger] rest[i].pid == pid;
                assert(rest[i] == found[i]);
            }
        }
        assert forall|i: int| 0 <= i < found.len() implies names_of(found).contains_key(
            #[trigger] found[i].pid,
        ) && names_of(found)[found[i].pid] == found[i].name@ by {
            if i < rest.len() {
                assert(rest[i] == found[i]);
                assert(found[i].pid != found[found.len() - 1].pid);
            }
        }
    }
}

/// A process that is put somewhere into the list is named there like the others.
proof fn lemma_insert(found: Seq<JavaProcessInfo>, position: int, info: JavaProcessInfo)
    requires
        0 <= position <= found.len(),
        listed_once(found),
        listed_once(found.insert(position, info)),
    ensures
        names_of(found.insert(position, info)) == names_of(found).insert(info.pid, info.name@),
{
    let longer = found.insert(position, info);
    lemma_names_of(found);
    lemma_names_of(longer);
    assert forall|pid: u32| #[trigger]
        names_of(longer).contains_key(pid) <==> names_of(found).insert(
            info.pid,
            info.name@,
        ).contains_key(pid) by {
        if names_of(longer).contains_key(pid) && pid != info.pid {
            let i = choose|i: int| 0 <= i < longer.len() && #[trigger] longer[i].pid == pid;
            if i < position {
                assert(longer[i] == found[i]);
            } else {
                assert(longer[i] == found[i - 1]);
            }
        }
        if names_of(found).contains_key(pid) {
            let i = choose|i: int| 0 <= i < found.len() && #[trigger] found[i].pid == pid;
            let j = if i < position {
                i
            } else {
                i + 1
            };
            assert(longer[j] == found[i]);
        }
        assert(longer[position].pid == info.pid);
    }
    assert forall|pid: u32| #[trigger] names_of(longer).contains_key(pid) implies names_of(
        longer,
    )[pid] == names_of(found).insert(info.pid, info.name@)[pid] by {
        let i = choose|i: int| 0 <= i < longer.len() && #[trigger] longer[i].pid == pid;
        if i < position {
            assert(longer[i] == found[i]);
            assert(longer[i].pid != longer[position].pid);
        } else if i > position {
            assert(longer[i] == found[i - 1]);
            assert(longer[position].pid != longer[i].pid);
        }
    }
    assert(names_of(longer) =~= names_of(found).insert(info.pid, info.name@));
}

/// The key under which a JVM publishes what it was started with.
pub open spec fn command_key() -> Seq<char> {
    "sun.rt.javaCommand"@
}

/// The name of the application in a copy of its perfdata: the first word of its command.
pub open spec fn application_name(snapshot: Seq<u8>) -> Option<Seq<char>> {
    if snapshot.len() > MAX_DISCOVERY_FILE_SIZE {
        None
    } else {
        match crate::perfdata::snapshot_value(snapshot) {
            Ok((_, index)) => match index.get(command_key()) {
                Some(meta) => if meta.is_string() {
                    Some(
                        crate::bytes::text_value(
                            crate::bytes::leading_text(
                                snapshot.subrange(
                                    meta.data_offset as int,
                                    meta.data_offset + meta.vector_length,
                                ),
                                true,
                            ),
                        ),
                    )
                } else {
                    None
                },
                None => None,
            },
            Err(_) => None,
        }
    }
}

/// A process that was come across, whether it runs, and a copy of its perfdata.
pub struct Sighting {
    pub pid: u32,
    pub running: bool,
    pub snapshot: Seq<u8>,
}

impl Sighting {
    /// Whether this is a running Java process.
    pub open spec fn counts(self) -> bool {
        self.running && application_name(self.snapshot) is Some
    }
}

/// The names by process ID after one more sighting.
pub open spec fn recorded(names: Map<u32, Seq<char>>, sighting: Sighting) -> Map<u32, Seq<char>> {
    if sighting.counts() && !names.contains_key(sighting.pid) {
        names.insert(sighting.pid, application_name(sighting.snapshot)->0)
    } else {
        names
    }
}

/// The names by process ID after a number of sightings.
pub open spec fn discovered(sightings: Seq<Sighting>) -> Map<u32, Seq<char>>
    decreases sightings.len(),
{
    if sightings.len() == 0 {
        Map::empty()
    } else {
        recorded(discovered(sightings.drop_last()), sightings.last())
    }
}

/// Whether a sighting is of this process, running, with perfdata that name an application.
spec fn finds(sighting: Sighting, pid: u32) -> bool {
    sighting.pid == pid && sighting.counts()
}

proof fn lemma_found(sightings: Seq<Sighting>, pid: u32)
    ensures
        discovered(sightings).contains_key(pid) <==> exists|i: int|
            0 <= i < sightings.len() && #[trigger] finds(sightings[i], pid),
    decreases sightings.len(),
{
    if sightings.len() > 0 {
        let rest = sightings.drop_last();
        let last = sightings.len() - 1;
        lemma_found(rest, pid);
        if discovered(rest).contains_key(pid) {
            let i = choose|i: int| 0 <= i < rest.len() && #[trigger] finds(rest[i], pid);
            assert(finds(sightings[i], pid));
        }
        if finds(sightings[last], pid) {
            assert(discovered(sightings).contains_key(pid));
        }
        if exists|i: int| 0 <= i < sightings.len() && #[trigger] finds(sightings[i], pid) {
            let i = choose|i: int| 0 <= i < sightings.len() && #[trigger] finds(sightings[i], pid);
            if i < last {
                assert(finds(rest[i], pid));
            }
        }
    }
}

proof fn lemma_name_of_found(sightings: Seq<Sighting>, pid: u32, position: int)
    requires
        0 <= position < sightings.len(),
        finds(sightings[position], pid),
        forall|j: int| 0 <= j < position ==> !#[trigger] finds(sightings[j], pid),
    ensures
        discovered(sightings)[pid] == application_name(sightings[position].snapshot)->0,
    decreases sightings.len(),
{
    let rest = sightings.drop_last();
    let last = sightings.len() - 1;
    lemma_found(rest, pid);
    if position < last {
        assert(finds(rest[position], pid));
        assert forall|j: int| 0 <= j < position implies !#[trigger] finds(rest[j], pid) by {
            assert(!finds(sightings[j], pid));
        }
        lemma_name_of_found(rest, pid, position);
    } else if discovered(rest).contains_key(pid) {
        let i = choose|i: int| 0 <= i < rest.len() && #[trigger] finds(rest[i], pid);
        assert(!finds(sightings[i], pid));
    }
}

/// The processes that are discovered are those that were seen running, with perfdata that name an
/// application, and each has the name of the first such sighting.
pub proof fn law_running_processes_are_discovered(sightings: Seq<Sighting>, pid: u32)
    ensures
        discovered(sightings).contains_key(pid) <==> exists|i: int|
            0 <= i < sightings.len() && (#[trigger] sightings[i]).pid == pid
                && sightings[i].counts(),
        forall|i: int|
            0 <= i < sightings.len() && (#[trigger] sightings[i]).pid == pid
                && sightings[i].counts() && (forall|j: int|
                0 <= j < i ==> !((#[trigger] sightings[j]).pid == pid && sightings[j].counts()))
                ==> discovered(sightings)[pid] == application_name(sightings[i].snapshot)->0,
{
    lemma_found(sightings, pid);
    if discovered(sightings).contains_key(pid) {
        let i = choose|i: int| 0 <= i < sightings.len() && #[trigger] finds(sightings[i], pid);
        assert(sightings[i].pid == pid && sightings[i].counts());
    }
    if exists|i: int|
        0 <= i < sightings.len() && (#[trigger] sightings[i]).pid == pid && sightings[i].counts() {
        let i = choose|i: int|
            0 <= i < sightings.len() && (#[trigger] sightings[i]).pid == pid
                && sightings[i].counts();
        assert(finds(sightings[i], pid));
    }
    assert forall|i: int|
        0 <= i < sightings.len() && (#[trigger] sightings[i]).pid == pid && sightings[i].counts()
            && (forall|j: int|
            0 <= j < i ==> !((#[trigger] sightings[j]).pid == pid
                && sightings[j].counts())) implies discovered(sightings)[pid] == application_name(
        sightings[i].snapshot,
    )->0 by {
        assert forall|j: int| 0 <= j < i implies !#[trigger] finds(sightings[j], pid) by {
            assert(!(sightings[j].pid == pid && sightings[j].counts()));
        }
        lemma_name_of_found(sightings, pid, i);
    }
}

/// The process that an entry of `/proc` stands for.
pub open spec fn entry_pid(name: Seq<char>) -> Option<int> {
    if crate::text::all_digits(name) {
        match crate::text::unsigned_value(name, u32::MAX as int) {
            Some(pid) => if pid == 0 {
                None
            } else {
                Some(pid)
            },
            None => None,
        }
    } else {
        None
    }
}

/// The process whose perfdata a file of the given name holds.
pub open spec fn file_pid(name: Seq<char>) -> Option<int> {
    crate::text::unsigned_value(name, u32::MAX as int)
}

/// The process that is still to be looked at, where a name stands for one: one that was not found
/// before.
pub open spec fn wanted(found: Map<u32, Seq<char>>, pid: Option<int>) -> Option<int> {
    match pid {
        Some(pid) => if found.contains_key(pid as u32) {
            None
        } else {
            Some(pid)
        },
        None => None,
    }
}

/// What the names of perfdata directories start with.
pub open spec fn directory_prefix() -> Seq<char> {
    "hsperfdata_"@
}

/// The perfdata file of a process, which is named after it, and its entry in `/proc` are traced
/// back to the process.
pub proof fn law_names_lead_to_processes(pid: u32)
    ensures
        file_pid(crate::text::decimal_text(pid as nat)) == Some(pid as int),
        pid > 0 ==> entry_pid(crate::text::decimal_text(pid as nat)) == Some(pid as int),
{
    crate::text::law_decimal_text_is_read_back(pid as nat, u32::MAX as int);
}

/// The directory of any user is one that holds perfdata.
pub proof fn law_user_directories_hold_perfdata(user: Seq<char>)
    ensures
        directory_prefix().is_prefix_of(directory_prefix() + user),
{
    assert(directory_prefix() =~= (directory_prefix() + user).subrange(
        0,
        directory_prefix().len() as int,
    ));
}

/// Whether a directory entry of the given name and kind holds perfdata.
pub open spec fn holds_perfdata(name: Seq<char>, is_directory: bool) -> bool {
    directory_prefix().is_prefix_of(name) && is_directory
}

/// The name of the directory that holds the perfdata of a user's JVMs.
pub open spec fn directory_of(user: Seq<char>) -> Seq<char> {
    directory_prefix() + user
}

/// The name of the directory that holds the perfdata of a user's JVMs.
pub fn user_directory_name(user: &str) -> (name: String)
    ensures
        name@ == directory_prefix() + user@,
        name@ == directory_of(user@),
{
    "hsperfdata_".to_owned().concat(user)
}

/// Whether a directory entry of the given name and kind holds perfdata.
pub fn is_perfdata_directory(name: &str, is_directory: bool) -> (perfdata: bool)
    ensures
        perfdata == (directory_prefix().is_prefix_of(name@) && is_directory),
        perfdata == holds_perfdata(name@, is_directory),
{
    let name: Vec<char> = characters(name);
    has_prefix(name.as_slice(), "hsperfdata_") && is_directory
}

/// Whether a file of the given length is read in search of a name.
pub open spec fn discoverable_size(file_len: int) -> bool {
    PROLOGUE_SIZE <= file_len <= MAX_DISCOVERY_FILE_SIZE
}

/// Whether a file of the given length is read in search of a name.
pub fn is_discoverable_size(file_len: u64) -> (discoverable: bool)
    ensures
        discoverable == (PROLOGUE_SIZE <= file_len <= MAX_DISCOVERY_FILE_SIZE),
        discoverable == discoverable_size(file_len as int),
{
    PROLOGUE_SIZE as u64 <= file_len && file_len <= MAX_DISCOVERY_FILE_SIZE
}

impl JvmMonitor {
    /// Reads the name of the application out of a copy of its perfdata.
    pub fn fast_extract_name(snapshot: &[u8]) -> (name: Option<String>)
        ensures
            match name {
                Some(name) => application_name(snapshot@) == Some(name@),
                None => application_name(snapshot@) is None,
            },
    {
        let available: usize = snapshot.len();
        if available as u64 > MAX_DISCOVERY_FILE_SIZE {
            return None;
        }
        match parse_snapshot(snapshot) {
            Ok((header, index)) => {
                proof {
                    crate::perfdata::law_index_is_complete(snapshot@, header);
                }
                let meta: EntryMeta = match index.get("sun.rt.javaCommand") {
                    Some(meta) => meta,
                    None => return None,
                };
                if !meta.holds_string() {
                    return None;
                }
                assert(index@.entries.contains_key(command_key()));
                let end: usize = meta.data_offset + meta.vector_length;
                let data: &[u8] = &snapshot[meta.data_offset..end];
                let name_len: usize = leading_text_len(data, true);
                assert(data@.subrange(0, name_len as int) =~= data@.take(name_len as int));
                Some(read_text(&data[0..name_len]))
            },
            Err(_) => None,
        }
    }

    /// Starts to discover all Java processes, on the host and in containers.
    pub fn discover_all() -> (discovery: Discovery)
        ensures
            discovery@ == Map::<u32, Seq<char>>::empty(),
    {
        Discovery { found: Vec::new(), seen: HashSet::new() }
    }
}

impl View for Discovery {
    type V = Map<u32, Seq<char>>;

    closed spec fn view(&self) -> Map<u32, Seq<char>> {
        names_of(self.found@)
    }
}

/// Puts a process into its place among others that are listed by increasing ID.
fn insert_by_pid(sorted: &mut Vec<JavaProcessInfo>, info: JavaProcessInfo)
    requires
        sorted_by_pid(old(sorted)@),
        !names_of(old(sorted)@).contains_key(info.pid),
    ensures
        sorted_by_pid(final(sorted)@),
        names_of(final(sorted)@) == names_of(old(sorted)@).insert(info.pid, info.name@),
{
    let mut position: usize = 0;
    while position < sorted.len() && sorted[position].pid < info.pid
        invariant
            position <= sorted@.len(),
            forall|i: int| 0 <= i < position ==> (#[trigger] sorted@[i]).pid < info.pid,
        decreases sorted@.len() - position,
    {
        position += 1;
    }
    let ghost before = sorted@;
    proof {
        lemma_names_of(before);
        let longer = before.insert(position as int, info);
        assert forall|i: int| position <= i < before.len() implies info.pid < (
        #[trigger] before[i]).pid by {
            assert(names_of(before).contains_key(before[i].pid));
            if i > position {
                assert(before[position as int].pid < before[i].pid);
            }
        }
        assert forall|i: int, j: int| 0 <= i < j < longer.len() implies #[trigger] longer[i].pid
            < #[trigger] longer[j].pid by {
            if j < position {
                assert(longer[i] == before[i] && longer[j] == before[j]);
            } else if j == position {
                assert(longer[i] == before[i]);
            } else if i < position {
                assert(longer[i] == before[i] && longer[j] == before[j - 1]);
            } else if i == position {
                assert(longer[j] == before[j - 1]);
            } else {
                assert(longer[i] == before[i - 1] && longer[j] == before[j - 1]);
            }
        }
        lemma_insert(before, position as int, info);
    }
    sorted.insert(position, info);
}

impl Discovery {
    #[verifier::type_invariant]
    spec fn sound(self) -> bool {
        listed_once(self.found@) && self.seen@ == names_of(self.found@).dom()
    }

    /// Reads the process that an entry of `/proc` stands for, where it is still to be looked at.
    pub fn wants_entry(&self, name: &str) -> (wanted: Option<u32>)
        ensures
            match wanted {
                Some(pid) => entry_pid(name@) == Some(pid as int) && !self@.contains_key(pid),
                None => entry_pid(name@) is None || self@.contains_key(entry_pid(name@)->0 as u32),
            },
            match wanted {
                Some(pid) => crate::discovery::wanted(self@, entry_pid(name@)) == Some(pid as int),
                None => crate::discovery::wanted(self@, entry_pid(name@)) is None,
            },
    {
        proof {
            use_type_invariant(self);
        }
        let digits: Vec<char> = characters(name);
        let mut i: usize = 0;
        while i < digits.len()
            invariant
                digits@ == name@,
                i <= digits@.len(),
                forall|j: int| 0 <= j < i ==> '0' <= #[trigger] digits@[j] <= '9',
            decreases digits@.len() - i,
        {
            if !('0' <= digits[i] && digits[i] <= '9') {
                assert(!('0' <= name@[i as int] <= '9'));
                return None;
            }
            i += 1;
        }
        assert(crate::text::all_digits(name@));
        match parse_unsigned(digits.as_slice(), u32::MAX as u64) {
            Some(pid) => {
                let pid: u32 = pid as u32;
                if pid == 0 || self.seen.contains(&pid) {
                    None
                } else {
                    Some(pid)
                }
            },
            None => None,
        }
    }

    /// Reads the process whose perfdata a file holds, where it is still to be looked at.
    pub fn wants_file(&self, name: &str) -> (wanted: Option<u32>)
        ensures
            match wanted {
                Some(pid) => file_pid(name@) == Some(pid as int) && !self@.contains_key(pid),
                None => file_pid(name@) is None || self@.contains_key(file_pid(name@)->0 as u32),
            },
            match wanted {
                Some(pid) => crate::discovery::wanted(self@, file_pid(name@)) == Some(pid as int),
                None => crate::discovery::wanted(self@, file_pid(name@)) is None,
            },
    {
        proof {
            use_type_invariant(self);
        }
        let name: Vec<char> = characters(name);
        match parse_unsigned(name.as_slice(), u32::MAX as u64) {
            Some(pid) => {
                let pid: u32 = pid as u32;
                if self.seen.contains(&pid) {
                    None
                } else {
                    Some(pid)
                }
            },
            None => None,
        }
    }

    /// Takes note of a process and a copy of its perfdata. A process that does not run, perfdata
    /// without a name of the application, and a process that was found before change nothing.
    ///
    /// `running` is whether the process runs, as far as can be told. A JVM that was killed leaves
    /// its perfdata behind.
    pub fn record(self, pid: u32, running: bool, snapshot: &[u8]) -> (discovery: Discovery)
        ensures
            discovery@ == recorded(self@, (Sighting { pid, running, snapshot: snapshot@ })),
    {
        proof {
            use_type_invariant(&self);
        }
        let Discovery { found, seen } = self;
        let mut found: Vec<JavaProcessInfo> = found;
        let mut seen: HashSet<u32> = seen;
        if running && !seen.contains(&pid) {
            if let Some(name) = JvmMonitor::fast_extract_name(snapshot) {
                let ghost before = found@;
                let info: JavaProcessInfo = JavaProcessInfo { pid, name };
                proof {
                    lemma_names_of(before);
                    assert(before.push(info).drop_last() =~= before);
                    assert forall|i: int, j: int|
                        0 <= i < j < before.push(info).len() implies #[trigger] before.push(
                        info,
                    )[i].pid != #[trigger] before.push(info)[j].pid by {
                        assert(before.push(info)[i] == before[i]);
                        assert(names_of(before).contains_key(before[i].pid));
                    }
                }
                found.push(info);
                seen.insert(pid);
                assert(seen@ =~= names_of(found@).dom());
            }
        }
        Discovery { found, seen }
    }

    /// The processes that were discovered, by increasing ID.
    pub fn finish(self) -> (processes: Vec<JavaProcessInfo>)
        ensures
            sorted_by_pid(processes@),
            names_of(processes@) == self@,
    {
        proof {
            use_type_invariant(&self);
        }
        let ghost all = self@;
        let Discovery { found, seen } = self;
        let mut found: Vec<JavaProcessInfo> = found;
        let mut sorted: Vec<JavaProcessInfo> = Vec::new();
        assert(names_of(found@).union_prefer_right(names_of(sorted@)) =~= all);
        while found.len() > 0
            invariant
                listed_once(found@),
                sorted_by_pid(sorted@),
                names_of(found@).dom().disjoint(names_of(sorted@).dom()),
                names_of(found@).union_prefer_right(names_of(sorted@)) == all,
            decreases found@.len(),
        {
            let ghost left = found@;
            let ghost done = names_of(sorted@);
            proof {
                lemma_names_of(left);
                lemma_names_of(left.drop_last());
            }
            if let Some(info) = found.pop() {
                assert(names_of(left).contains_key(info.pid));
                assert(!names_of(found@).contains_key(info.pid)) by {
                    if names_of(found@).contains_key(info.pid) {
                        let i = choose|i: int|
                            0 <= i < found@.len() && #[trigger] found@[i].pid == info.pid;
                        assert(left[i].pid != left[left.len() - 1].pid);
                    }
                }
                insert_by_pid(&mut sorted, info);
                assert(names_of(found@).union_prefer_right(names_of(sorted@)) =~= all);
                assert(names_of(found@).dom().disjoint(names_of(sorted@).dom()));
            }
        }
        assert(names_of(sorted@) =~= all);
        sorted
    }
}

} // verus!
