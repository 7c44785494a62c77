//! What `/proc` tells of a process.

use vstd::prelude::*;
use vstd::string::*;

use crate::bytes::utf8_text;
use crate::monitor::JvmMonitor;
use crate::text::{characters, has_prefix, parse_unsigned, split_words};

verus! {

/// A status file of this size or more is not read.
pub const PROCESS_STAT_LIMIT: usize = 4096;

/// Which of the words after the command of a process is its start time.
pub const START_TIME_POSITION: usize = 19;

/// The position of the last closing parenthesis before `end`, if there is one.
pub open spec fn command_end(stat: Seq<char>, end: int) -> Option<int>
    decreases end,
{
    if end <= 0 {
        None
    } else if stat[end - 1] == ')' {
        Some(end - 1)
    } else {
        command_end(stat, end - 1)
    }
}

/// The start time in `/proc/<pid>/stat`. The second field, the command, may hold spaces and
/// parentheses, so the words are counted from behind its last parenthesis and the ASCII character
/// that follows it.
pub open spec fn start_time(stat: Seq<char>) -> Option<int> {
    match command_end(stat, stat.len() as int) {
        Some(end) => if end + 1 < stat.len() && (stat[end + 1] as u32) < 0x80 {
            let words = crate::text::words_of(stat.skip(end + 2));
            if words.len() > START_TIME_POSITION {
                crate::text::unsigned_value(words[START_TIME_POSITION as int], u64::MAX as int)
            } else {
                None
            }
        } else {
            None
        },
        None => None,
    }
}

/// The start time in the first bytes of a `/proc/<pid>/stat`, where they are all of it.
pub open spec fn start_time_of_bytes(bytes: Seq<u8>) -> Option<int> {
    if bytes.len() < PROCESS_STAT_LIMIT && vstd::utf8::valid_utf8(bytes) {
        start_time(vstd::utf8::decode_utf8(bytes))
    } else {
        None
    }
}

/// The process ID in the innermost namespace, after the lines of `/proc/<pid>/status`: the last
/// word of the first line that lists these IDs.
pub open spec fn namespace_pid(lines: Seq<Seq<char>>) -> Option<int>
    decreases lines.len(),
{
    if lines.len() == 0 {
        None
    } else if "NSpid:"@.is_prefix_of(lines[0]) {
        let words = crate::text::words_of(lines[0]);
        if words.len() > 0 {
            crate::text::unsigned_value(words.last(), u32::MAX as int)
        } else {
            None
        }
    } else {
        namespace_pid(lines.skip(1))
    }
}

impl JvmMonitor {
    /// Reads the start time of a process out of its `/proc/<pid>/stat`.
    pub fn parse_process_start_time(stat: &str) -> (time: Option<u64>)
        ensures
            match time {
                Some(time) => start_time(stat@) == Some(time as int),
                None => start_time(stat@) is None,
            },
    {
        let stat: Vec<char> = characters(stat);
        let mut end: usize = stat.len();
        while end > 0 && stat[end - 1] != ')'
            invariant
                end <= stat@.len(),
                command_end(stat@, end as int) == command_end(stat@, stat@.len() as int),
            decreases end,
        {
            end -= 1;
        }
        if end == 0 || end >= stat.len() || stat[end] as u32 >= 0x80 {
            return None;
        }
        assert(stat@.subrange(end + 1, stat@.len() as int) =~= stat@.skip(end + 1));
        let words: Vec<Vec<char>> = split_words(&stat.as_slice()[end + 1..stat.len()]);
        if words.len() <= START_TIME_POSITION {
            return None;
        }
        parse_unsigned(words[START_TIME_POSITION].as_slice(), u64::MAX)
    }

    /// Reads the start time of a process out of the first bytes of its `/proc/<pid>/stat`, where
    /// they are all of it.
    pub fn read_process_start_time(bytes: &[u8]) -> (time: Option<u64>)
        ensures
            match time {
                Some(time) => bytes@.len() < PROCESS_STAT_LIMIT && vstd::utf8::valid_utf8(bytes@)
                    && start_time(vstd::utf8::decode_utf8(bytes@)) == Some(time as int),
                None => bytes@.len() >= PROCESS_STAT_LIMIT || !vstd::utf8::valid_utf8(bytes@)
                    || start_time(vstd::utf8::decode_utf8(bytes@)) is None,
            },
            match time {
                Some(time) => start_time_of_bytes(bytes@) == Some(time as int),
                None => start_time_of_bytes(bytes@) is None,
            },
    {
        if bytes.len() >= PROCESS_STAT_LIMIT {
            return None;
        }
        match utf8_text(bytes) {
            Some(stat) => JvmMonitor::parse_process_start_time(stat),
            None => None,
        }
    }

    /// Reads the process ID in the innermost namespace out of the lines of `/proc/<pid>/status`.
    pub fn get_ns_pid(lines: &Vec<String>) -> (pid: Option<u32>)
        ensures
            match pid {
                Some(pid) => namespace_pid(lines@.map_values(|line: String| line@)) == Some(
                    pid as int,
                ),
                None => namespace_pid(lines@.map_values(|line: String| line@)) is None,
            },
    {
        let ghost views = lines@.map_values(|line: String| line@);
        assert(views.skip(0) =~= views);
        let mut i: usize = 0;
        while i < lines.len()
            invariant
                i <= lines@.len(),
                views == lines@.map_values(|line: String| line@),
                namespace_pid(views) == namespace_pid(views.skip(i as int)),
            decreases lines@.len() - i,
        {
            let line: Vec<char> = characters(lines[i].as_str());
            proof {
                assert(views.skip(i as int)[0] == lines@[i as int]@);
                assert(views.skip(i as int).skip(1) =~= views.skip(i + 1));
            }
            if has_prefix(line.as_slice(), "NSpid:") {
                let words: Vec<Vec<char>> = split_words(line.as_slice());
                if words.len() == 0 {
                    return None;
                }
                return match parse_unsigned(words[words.len() - 1].as_slice(), u32::MAX as u64) {
                    Some(pid) => Some(pid as u32),
                    None => None,
                };
            }
            i += 1;
        }
        None
    }
}

} // verus!
