use jmon_rs::command::{parse_arguments, Command};
use jmon_rs::discovery::{is_discoverable_size, is_perfdata_directory, user_directory_name};
use jmon_rs::metrics::{builtin_long_candidates, builtin_metric_order_is_complete};
use jmon_rs::report::{collector_display, monitor_frame, process_header, process_row, process_rule};
use jmon_rs::report::FrameTexts;
use jmon_rs::stats::{saturating_add, to_count, to_kb, to_proportion, to_share};
use jmon_rs::text::{characters, decimal, join, pad, parse_unsigned, signed_decimal, split_words};
use jmon_rs::text::{has_prefix, is_whitespace, truncate_for_display};
use jmon_rs::{
    BuiltinLongMetric, ClassStats, CompilerStats, GcStats, JvmMonitor, JvmStatsSnapshot,
    MetricKeySource, MonitorHealth, Ratio, RuntimeStats,
};

const FIXTURE_LEN: usize = 4096;

#[derive(Clone, Copy)]
enum FixtureValue<'a> {
    Long(i64),
    String(&'a str),
}

fn fixture(
    is_little_endian: bool,
    accessible: bool,
    modification_timestamp: i64,
    entries: &[(&str, FixtureValue<'_>)],
) -> Vec<u8> {
    let mut bytes = vec![0_u8; 32];

    for (name, value) in entries {
        let entry_start = bytes.len();
        let name_offset = 20;
        let name_end = name_offset + name.len() + 1;
        let data_offset = match value {
            FixtureValue::Long(_) => align_absolute(entry_start, name_end, 8),
            FixtureValue::String(_) => align(name_end, 4),
        };
        let (data_type, units, vector_length, data_len) = match value {
            FixtureValue::Long(_) => (b'J', 1_u8, 0_usize, 8_usize),
            FixtureValue::String(value) => (b'B', 5_u8, value.len() + 1, value.len() + 1),
        };
        let entry_len = align(data_offset + data_len, 4);
        bytes.resize(entry_start + entry_len, 0);

        put_u32(&mut bytes, entry_start, entry_len as u32, is_little_endian);
        put_u32(&mut bytes, entry_start + 4, name_offset as u32, is_little_endian);
        put_u32(&mut bytes, entry_start + 8, vector_length as u32, is_little_endian);
        bytes[entry_start + 12] = data_type;
        bytes[entry_start + 13] = 1;
        bytes[entry_start + 14] = units;
        bytes[entry_start + 15] = 3;
        put_u32(&mut bytes, entry_start + 16, data_offset as u32, is_little_endian);
        bytes[entry_start + name_offset..entry_start + name_offset + name.len()]
            .copy_from_slice(name.as_bytes());

        let data_start = entry_start + data_offset;
        match value {
            FixtureValue::Long(value) => {
                let encoded = if is_little_endian {
                    value.to_le_bytes()
                } else {
                    value.to_be_bytes()
                };
                bytes[data_start..data_start + 8].copy_from_slice(&encoded);
            }
            FixtureValue::String(value) => {
                bytes[data_start..data_start + value.len()].copy_from_slice(value.as_bytes());
            }
        }
    }

    let used = bytes.len();
    assert!(used <= FIXTURE_LEN);
    bytes.resize(FIXTURE_LEN, 0);
    bytes[0..4].copy_from_slice(&0xcafec0c0_u32.to_be_bytes());
    bytes[4] = u8::from(is_little_endian);
    bytes[5] = 2;
    bytes[6] = 0;
    bytes[7] = u8::from(accessible);
    put_u32(&mut bytes, 8, used as u32, is_little_endian);
    put_u32(&mut bytes, 12, 0, is_little_endian);
    put_i64(&mut bytes, 16, modification_timestamp, is_little_endian);
    put_u32(&mut bytes, 24, 32, is_little_endian);
    put_u32(&mut bytes, 28, entries.len() as u32, is_little_endian);
    bytes
}

fn align(value: usize, alignment: usize) -> usize {
    (value + alignment - 1) & !(alignment - 1)
}

fn align_absolute(entry_start: usize, relative: usize, alignment: usize) -> usize {
    let absolute = align(entry_start + relative, alignment);
    absolute - entry_start
}

fn put_u32(bytes: &mut [u8], offset: usize, value: u32, is_little_endian: bool) {
    let encoded = if is_little_endian {
        value.to_le_bytes()
    } else {
        value.to_be_bytes()
    };
    bytes[offset..offset + 4].copy_from_slice(&encoded);
}

fn get_u32(bytes: &[u8], offset: usize, is_little_endian: bool) -> u32 {
    let encoded: [u8; 4] = bytes[offset..offset + 4].try_into().expect("u32 bytes");
    if is_little_endian {
        u32::from_le_bytes(encoded)
    } else {
        u32::from_be_bytes(encoded)
    }
}

fn put_i64(bytes: &mut [u8], offset: usize, value: i64, is_little_endian: bool) {
    let encoded = if is_little_endian {
        value.to_le_bytes()
    } else {
        value.to_be_bytes()
    };
    bytes[offset..offset + 8].copy_from_slice(&encoded);
}

fn arguments(args: &[&str]) -> Command {
    parse_arguments(&args.iter().map(|arg| arg.to_string()).collect())
}

#[test]
fn arguments_choose_the_mode() {
    assert_eq!(arguments(&["jmon"]), Command::Discover);
    assert_eq!(arguments(&["jmon", "--help"]), Command::Help);
    assert_eq!(arguments(&["jmon", "-h", "5"]), Command::Help);
    assert_eq!(arguments(&["jmon", "-help"]), Command::InvalidPid);
    assert_eq!(arguments(&["jmon", "12345"]), Command::Monitor { pid: 12345, interval: 1 });
    assert_eq!(
        arguments(&["jmon", "+12345", "5"]),
        Command::Monitor { pid: 12345, interval: 5 }
    );
    assert_eq!(
        arguments(&["jmon", "12345", "soon"]),
        Command::Monitor { pid: 12345, interval: 1 }
    );
    assert_eq!(arguments(&["jmon", "12345", "0"]), Command::ZeroInterval);
    assert_eq!(arguments(&["jmon", "java", "0"]), Command::InvalidPid);
    assert_eq!(arguments(&["jmon", "4294967296"]), Command::InvalidPid);
    assert_eq!(arguments(&["jmon", ""]), Command::InvalidPid);
}

#[test]
fn numbers_are_written_and_read_back() {
    for value in [0, 9, 10, 42, 4_294_967_295, u64::MAX] {
        assert_eq!(decimal(value), value.to_string());
        assert_eq!(parse_unsigned(&characters(&decimal(value)), u64::MAX), Some(value));
    }
    for value in [0, -1, 7, i64::MIN, i64::MAX] {
        assert_eq!(signed_decimal(value), value.to_string());
    }
    for text in ["", "+", "-1", "1 ", "18446744073709551616", "++1"] {
        assert_eq!(parse_unsigned(&characters(text), u64::MAX), None);
    }
    assert_eq!(parse_unsigned(&characters("+007"), 7), Some(7));
    assert_eq!(parse_unsigned(&characters("8"), 7), None);
}

#[test]
fn white_space_is_that_of_unicode() {
    for code in 0..=0x10ffff_u32 {
        if let Some(c) = char::from_u32(code) {
            assert_eq!(is_whitespace(c), c.is_whitespace(), "{code:x}");
        }
    }
}

#[test]
fn words_are_split_at_white_space() {
    let words: Vec<String> = split_words(&characters(" a\tbc \u{3000}d\n"))
        .into_iter()
        .map(|word| word.into_iter().collect())
        .collect();
    assert_eq!(words, ["a", "bc", "d"]);
    assert!(split_words(&characters(" \n")).is_empty());
}

#[test]
fn texts_are_padded_joined_and_compared() {
    assert_eq!(pad("ab", 4), format!("{:<4}", "ab"));
    assert_eq!(pad("世界", 3), format!("{:<3}", "世界"));
    assert_eq!(pad("abcde", 4), "abcde");
    let texts = vec!["a".to_owned(), "".to_owned(), "c".to_owned()];
    assert_eq!(join(&texts, " | "), "a |  | c");
    assert_eq!(join(&Vec::new(), " | "), "");
    assert!(has_prefix(&characters("hsperfdata_root"), "hsperfdata_"));
    assert!(!has_prefix(&characters("hsperfdata"), "hsperfdata_"));
    assert!(!has_prefix(&characters("hsperfdata-root"), "hsperfdata_"));
}

#[test]
fn truncation_may_keep_more_than_there_is() {
    assert_eq!(truncate_for_display("abcd", 3, 9), "abcd...");
    assert_eq!(truncate_for_display("abcd", 3, 0), "...");
    assert_eq!(truncate_for_display("", 0, 0), "");
}

#[test]
fn start_times_follow_the_last_parenthesis() {
    let fields = "S 1 2 3 4 5 6 7 8 9 10 11 12 13 14 15 16 17 18 77 0";
    let parse = JvmMonitor::parse_process_start_time;
    assert_eq!(parse(&format!("1 (java) {fields}")), Some(77));
    assert_eq!(parse(&format!("1 java {fields}")), None);
    assert_eq!(parse(&format!("1 (java)é{fields}")), None);
    assert_eq!(parse("1 (java)"), None);
    assert_eq!(parse("1 (java) S 1 2 3"), None);
    assert_eq!(parse(&format!("1 (java) {}", fields.replace("77", "7x"))), None);
}

#[test]
fn start_times_are_read_from_short_utf8_files_only() {
    let stat = "1 (java) S 1 2 3 4 5 6 7 8 9 10 11 12 13 14 15 16 17 18 77 0";
    let read = JvmMonitor::read_process_start_time;
    assert_eq!(read(stat.as_bytes()), Some(77));
    let mut long = stat.as_bytes().to_vec();
    long.resize(4095, b' ');
    assert_eq!(read(&long), Some(77));
    long.push(b' ');
    assert_eq!(read(&long), None);
    let mut broken = stat.as_bytes().to_vec();
    broken[3] = 0xff;
    assert_eq!(read(&broken), None);
}

#[test]
fn namespace_pids_come_last_in_their_line() {
    let lines = |text: &str| text.lines().map(|line| line.to_owned()).collect();
    let read = |text: &str| JvmMonitor::get_ns_pid(&lines(text));
    assert_eq!(read("Name:\tjava\nNSpid:\t4242\t17\nNSpid:\t9"), Some(17));
    assert_eq!(read("NSpid:\t4242"), Some(4242));
    assert_eq!(read("NSpid:"), None);
    assert_eq!(read("NSpid:\t4294967296"), None);
    assert_eq!(read("Name:\tjava\nPid:\t4242"), None);
}

#[test]
fn names_are_the_first_word_of_the_command() {
    let extract = |value| {
        JvmMonitor::fast_extract_name(&fixture(true, true, 1, &[("sun.rt.javaCommand", value)]))
    };
    assert_eq!(
        extract(FixtureValue::String("org.example.Main --port 80")).as_deref(),
        Some("org.example.Main")
    );
    assert_eq!(extract(FixtureValue::String("app.jar")).as_deref(), Some("app.jar"));
    assert_eq!(extract(FixtureValue::String("")).as_deref(), Some(""));
    assert_eq!(extract(FixtureValue::Long(1)), None);
    assert_eq!(JvmMonitor::fast_extract_name(&fixture(true, true, 1, &[])), None);
    assert_eq!(JvmMonitor::fast_extract_name(&[]), None);
    let mut lossy = fixture(
        true,
        true,
        1,
        &[("sun.rt.javaCommand", FixtureValue::String("Main"))],
    );
    let data = 32 + get_u32(&lossy, 48, true) as usize;
    lossy[data] = 0xc3;
    assert_eq!(
        JvmMonitor::fast_extract_name(&lossy).as_deref(),
        Some("\u{fffd}ain")
    );
}

#[test]
fn discovered_processes_are_listed_once_by_pid() {
    let named = |name| {
        fixture(true, true, 1, &[("sun.rt.javaCommand", FixtureValue::String(name))])
    };
    let discovery = JvmMonitor::discover_all()
        .record(30, true, &named("c"))
        .record(10, true, &named("a"))
        .record(30, true, &named("other"))
        .record(20, true, &[]);
    assert_eq!(discovery.wants_entry("20"), Some(20));
    assert_eq!(discovery.wants_entry("30"), None);
    assert_eq!(discovery.wants_entry("0"), None);
    assert_eq!(discovery.wants_entry("+20"), None);
    assert_eq!(discovery.wants_entry("self"), None);
    assert_eq!(discovery.wants_entry(""), None);
    assert_eq!(discovery.wants_entry("4294967296"), None);
    assert_eq!(discovery.wants_file("+20"), Some(20));
    assert_eq!(discovery.wants_file("0"), Some(0));
    assert_eq!(discovery.wants_file("10"), None);
    assert_eq!(discovery.wants_file("10.lock"), None);
    let processes = discovery.record(20, true, &named("b")).finish();
    let listed: Vec<(u32, &str)> =
        processes.iter().map(|process| (process.pid, process.name.as_str())).collect();
    assert_eq!(listed, [(10, "a"), (20, "b"), (30, "c")]);
    assert!(JvmMonitor::discover_all().finish().is_empty());
}

#[test]
fn processes_that_do_not_run_are_not_listed() {
    let left_behind = fixture(
        true,
        true,
        1,
        &[("sun.rt.javaCommand", FixtureValue::String("Main"))],
    );
    let discovery = JvmMonitor::discover_all().record(4242, false, &left_behind);
    assert_eq!(discovery.wants_file("4242"), Some(4242));
    assert!(discovery.finish().is_empty());
    let processes = JvmMonitor::discover_all()
        .record(4242, false, &left_behind)
        .record(4242, true, &left_behind)
        .finish();
    assert_eq!(processes.len(), 1);
    assert_eq!(processes[0].pid, 4242);
}

#[test]
fn perfdata_directories_are_told_by_name_and_kind() {
    assert_eq!(user_directory_name("alice"), "hsperfdata_alice");
    assert!(is_perfdata_directory(&user_directory_name("alice"), true));
    assert!(!is_perfdata_directory(&user_directory_name("alice"), false));
    assert!(!is_perfdata_directory("systemd-private", true));
    assert!(is_discoverable_size(32));
    assert!(!is_discoverable_size(31));
    assert!(is_discoverable_size(64 * 1024 * 1024));
}

#[test]
fn every_counter_stands_at_its_position() {
    assert!(builtin_metric_order_is_complete());
    for (position, metric) in BuiltinLongMetric::ALL.into_iter().enumerate() {
        assert_eq!(metric.position(), position);
        assert!(!builtin_long_candidates(metric).is_empty());
    }
    let peak: Vec<&str> = builtin_long_candidates(BuiltinLongMetric::ThreadsPeak)
        .iter()
        .map(|candidate| candidate.key)
        .collect();
    assert_eq!(
        peak,
        ["java.threads.livePeak", "java.threads.peak", "java.threads.peakCount"]
    );
}

#[test]
fn every_key_stands_for_one_counter() {
    let mut keys = Vec::new();
    for metric in BuiltinLongMetric::ALL {
        let candidates = builtin_long_candidates(metric);
        let legacy = candidates
            .iter()
            .any(|candidate| candidate.source == MetricKeySource::LegacyHotSpot);
        assert_eq!(
            legacy,
            matches!(metric, BuiltinLongMetric::PermGenCapacity | BuiltinLongMetric::PermGenUsed)
        );
        for (position, candidate) in candidates.iter().enumerate() {
            assert!(position == 0 || candidate.source != MetricKeySource::OpenJdk);
            assert!(!keys.contains(&candidate.key), "{}", candidate.key);
            keys.push(candidate.key);
        }
    }
    assert_eq!(keys.len(), 49);
}

#[test]
fn quotients_are_exact_and_defined() {
    assert_eq!(to_kb(1536), Ratio { numerator: 1536, denominator: 1024 });
    assert_eq!(to_share(3, 4), Ratio { numerator: 3, denominator: 4 });
    assert_eq!(to_share(3, 0), Ratio::default());
    assert_eq!(to_share(3, -4), Ratio { numerator: 0, denominator: 1 });
    assert_eq!(to_proportion(3, 4), Ratio { numerator: 3, denominator: 4 });
    assert_eq!(to_proportion(5, 4), Ratio { numerator: 4, denominator: 4 });
    assert_eq!(to_proportion(-1, 4), Ratio { numerator: 0, denominator: 4 });
    assert_eq!(to_proportion(5, 0), Ratio::default());
    assert_eq!(to_proportion(-1, -4), Ratio::default());
    assert_eq!(saturating_add(i64::MAX, i64::MAX), i64::MAX);
    assert_eq!(saturating_add(i64::MIN, -1), i64::MIN);
    assert_eq!(saturating_add(-2, 5), 3);
    assert_eq!(to_count(-1), 0);
    assert_eq!(to_count(i64::MAX), i64::MAX as u64);
}

#[test]
fn collectors_are_labelled_by_ordinal() {
    let names = [Some("Copy".to_owned()), None, Some("Concurrent".to_owned())];
    assert_eq!(collector_display(&names), "0=Copy | 2=Concurrent");
    assert_eq!(collector_display(&[None, None, None]), "");
}

#[test]
fn process_rows_are_aligned() {
    assert_eq!(
        process_header(),
        "PID      | Name                      | Heap Used  | Live Thr   | GC Time   "
    );
    assert_eq!(
        process_row(4242, "org.example.VeryLongMainClass", "12.5 MB", "31", "0.125s"),
        "4242     | org.example.VeryLongMa... | 12.5 MB    | 31         | 0.125s    "
    );
    assert_eq!(process_rule(), "-".repeat(90));
}

fn frame_texts(collectors: &str) -> FrameTexts {
    let text = |value: &str| value.to_owned();
    FrameTexts {
        vm_name: text("HotSpot"),
        vm_version: text("21"),
        command: text("Main"),
        collectors: text(collectors),
        safepoint_time: text("0.500"),
        app_time: text("1.500"),
        safepoint_overhead: text("25.000"),
        s0u: text("1"),
        s1u: text("2"),
        eu: text("3"),
        ec: text("4"),
        ou: text("5"),
        oc: text("6"),
        mu: text("7"),
        mc: text("8"),
        ccsu: text("9"),
        ygct: text("0.100"),
        fgct: text("0.200"),
        cgct: text("0.300"),
        gct: text("0.600"),
        code_cache_used: text("-"),
        code_cache_utilization: text("-"),
    }
}

#[test]
fn frames_show_counters_and_texts_in_their_columns() {
    let sample = JvmStatsSnapshot {
        health: MonitorHealth {
            pid: 42,
            overflow_bytes: 0,
            num_entries: 0,
            modification_timestamp: 0,
        },
        gc: GcStats { ygc: 11, fgc: 12, cgc: 13, lgcc: "No GC".to_owned(), ..GcStats::default() },
        runtime: RuntimeStats {
            threads_live: 21,
            threads_daemon: 22,
            threads_peak: 23,
            safepoints: 24,
            ..RuntimeStats::default()
        },
        classes: ClassStats { loaded: 31, unloaded: 32, ..ClassStats::default() },
        compiler: CompilerStats { compiled: 41, failed: 42, invalid: -1, ..CompilerStats::default() },
    };
    let rule = "=".repeat(79);
    let expected = format!(
        "\x1B[2J\x1B[1;1H{rule}\n JMON - JVM Monitor | PID: 42 | Interval: 3s\n VM: HotSpot (21)\n \
         CMD: Main\n GC slots: 0=Copy\n{rule}\n\n[Runtime & Threads]\n\
         Live     Daemon   Peak     | Safepoints SP Time(s) | AppTime(s) Overhead%   \n\
         21       22       23       | 24         0.500      | 1.500      25.000      %\n\n\
         [Garbage Collection (KB)]\n\
         S0U      S1U      EU       EC       | OU       OC       | MU       MC       | CCSU    \n\
         1        2        3        4        | 5        6        | 7        8        | 9       \n\n\
         C0     C0T      | C1     C1T      | C2     C2T      | GCT      | Last Cause          \n\
         11     0.100    | 12     0.200    | 13     0.300    | 0.600    | No GC               \n\n\
         [Class & JIT]\n\
         Loaded     Unloaded   | Compiled   Failed     Invalid    | CodeCache  Util%   \n\
         31         32         | 41         42         -1         | -          -       \n{rule}\n"
    );
    assert_eq!(monitor_frame(42, 3, &sample, &frame_texts("0=Copy")), expected);
    assert_eq!(
        monitor_frame(42, 3, &sample, &frame_texts("")),
        expected.replace(" GC slots: 0=Copy\n", "")
    );
}
