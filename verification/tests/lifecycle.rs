use jmon_rs::error::io_error_message;
use jmon_rs::{
    BuiltinLongMetric, ConnectProgress, FileIdentity, FileKey, JvmMonitor, JvmMonitorError,
    JvmStatsSnapshot, MetricKeySource, PendingRefresh, PerfMemory, PerfValue, Ratio,
    RefreshProgress, TargetObservation,
};

const FIXTURE_LEN: usize = 4096;

#[derive(Clone, Copy)]
enum FixtureValue<'a> {
    Long(i64),
    String(&'a str),
}

fn fixture(
    is_little_endian: bool,
    accessible: bool,
    modification_timestamp: i64,
    entries: &[(&str, FixtureValue<'_>)],
) -> Vec<u8> {
    let mut bytes = vec![0_u8; 32];

    for (name, value) in entries {
        let entry_start = bytes.len();
        let name_offset = 20;
        let name_end = name_offset + name.len() + 1;
        let data_offset = match value {
            FixtureValue::Long(_) => align_absolute(entry_start, name_end, 8),
            FixtureValue::String(_) => align(name_end, 4),
        };
        let (data_type, units, vector_length, data_len) = match value {
            FixtureValue::Long(_) => (b'J', 1_u8, 0_usize, 8_usize),
            FixtureValue::String(value) => (b'B', 5_u8, value.len() + 1, value.len() + 1),
        };
        let entry_len = align(data_offset + data_len, 4);
        bytes.resize(entry_start + entry_len, 0);

        put_u32(&mut bytes, entry_start, entry_len as u32, is_little_endian);
        put_u32(&mut bytes, entry_start + 4, name_offset as u32, is_little_endian);
        put_u32(&mut bytes, entry_start + 8, vector_length as u32, is_little_endian);
        bytes[entry_start + 12] = data_type;
        bytes[entry_start + 13] = 1;
        bytes[entry_start + 14] = units;
        bytes[entry_start + 15] = 3;
        put_u32(&mut bytes, entry_start + 16, data_offset as u32, is_little_endian);
        bytes[entry_start + name_offset..entry_start + name_offset + name.len()]
            .copy_from_slice(name.as_bytes());

        let data_start = entry_start + data_offset;
        match value {
            FixtureValue::Long(value) => {
                let encoded = if is_little_endian {
                    value.to_le_bytes()
                } else {
                    value.to_be_bytes()
                };
                bytes[data_start..data_start + 8].copy_from_slice(&encoded);
            }
            FixtureValue::String(value) => {
                bytes[data_start..data_start + value.len()].copy_from_slice(value.as_bytes());
            }
        }
    }

    let used = bytes.len();
    assert!(used <= FIXTURE_LEN);
    bytes.resize(FIXTURE_LEN, 0);
    bytes[0..4].copy_from_slice(&0xcafec0c0_u32.to_be_bytes());
    bytes[4] = u8::from(is_little_endian);
    bytes[5] = 2;
    bytes[6] = 0;
    bytes[7] = u8::from(accessible);
    put_u32(&mut bytes, 8, used as u32, is_little_endian);
    put_u32(&mut bytes, 12, 0, is_little_endian);
    put_i64(&mut bytes, 16, modification_timestamp, is_little_endian);
    put_u32(&mut bytes, 24, 32, is_little_endian);
    put_u32(&mut bytes, 28, entries.len() as u32, is_little_endian);
    bytes
}

fn align(value: usize, alignment: usize) -> usize {
    (value + alignment - 1) & !(alignment - 1)
}

fn align_absolute(entry_start: usize, relative: usize, alignment: usize) -> usize {
    let absolute = align(entry_start + relative, alignment);
    absolute - entry_start
}

fn put_u32(bytes: &mut [u8], offset: usize, value: u32, is_little_endian: bool) {
    let encoded = if is_little_endian {
        value.to_le_bytes()
    } else {
        value.to_be_bytes()
    };
    bytes[offset..offset + 4].copy_from_slice(&encoded);
}

fn get_u32(bytes: &[u8], offset: usize, is_little_endian: bool) -> u32 {
    let encoded: [u8; 4] = bytes[offset..offset + 4].try_into().expect("u32 bytes");
    if is_little_endian {
        u32::from_le_bytes(encoded)
    } else {
        u32::from_be_bytes(encoded)
    }
}

fn put_i64(bytes: &mut [u8], offset: usize, value: i64, is_little_endian: bool) {
    let encoded = if is_little_endian {
        value.to_le_bytes()
    } else {
        value.to_be_bytes()
    };
    bytes[offset..offset + 8].copy_from_slice(&encoded);
}

/// The file that holds the given bytes.
fn identity(bytes: &[u8]) -> FileIdentity {
    FileIdentity { len: bytes.len() as u64, key: FileKey::Inode { device: 1, inode: 7 } }
}

/// A target that is alive and whose file holds the given bytes.
fn alive(bytes: &[u8]) -> TargetObservation {
    TargetObservation {
        start_time: None,
        path: Some(identity(bytes)),
        file: Ok(identity(bytes)),
    }
}

fn image(bytes: &[u8]) -> PerfMemory {
    PerfMemory::new(bytes.to_vec())
}

/// Connects to perfdata that hold still.
fn connect_as(monitor_id: usize, pid: u32, bytes: &[u8]) -> Result<JvmMonitor, JvmMonitorError> {
    let mut connecting = JvmMonitor::connect(monitor_id, pid, Some(Ok(identity(bytes))), None)?;
    loop {
        match connecting.advance(&image(bytes), Some(identity(bytes)), false) {
            ConnectProgress::Failed(error) => return Err(error),
            ConnectProgress::Pending(next) => connecting = next,
            ConnectProgress::Captured(captured) => {
                return captured.finish(image(bytes), None, alive(bytes));
            }
        }
    }
}

fn connect(pid: u32, bytes: &[u8]) -> JvmMonitor {
    connect_as(1, pid, bytes).expect("connect fixture")
}

/// Refreshes a monitor of perfdata that hold still.
fn refresh_seeing(
    monitor: &mut JvmMonitor,
    seen: TargetObservation,
    bytes: &[u8],
) -> Result<usize, JvmMonitorError> {
    let mut progress = monitor.refresh(seen, image(bytes));
    loop {
        match progress {
            RefreshProgress::Done(result) => return result,
            RefreshProgress::Pending(pending) => {
                progress = monitor.resume_refresh(pending, image(bytes));
            }
        }
    }
}

fn refresh(monitor: &mut JvmMonitor, bytes: &[u8]) -> Result<usize, JvmMonitorError> {
    refresh_seeing(monitor, alive(bytes), bytes)
}

fn sample(monitor: &mut JvmMonitor, bytes: &[u8]) -> Result<JvmStatsSnapshot, JvmMonitorError> {
    let refreshed = refresh(monitor, bytes);
    monitor.sample(refreshed)
}

fn number(ratio: Ratio) -> f64 {
    ratio.numerator as f64 / ratio.denominator as f64
}

fn reason(error: JvmMonitorError) -> String {
    match error {
        JvmMonitorError::InvalidFormat(reason) => reason,
        other => panic!("unexpected {other:?}"),
    }
}

fn base(timestamp: i64) -> Vec<u8> {
    fixture(true, true, timestamp, &[("base.metric", FixtureValue::Long(7))])
}

fn extended(timestamp: i64) -> Vec<u8> {
    fixture(
        true,
        true,
        timestamp,
        &[
            ("base.metric", FixtureValue::Long(7)),
            ("late.metric", FixtureValue::Long(8)),
        ],
    )
}

#[test]
fn connecting_needs_a_file() {
    assert!(matches!(
        JvmMonitor::connect(1, 5, None, None),
        Err(JvmMonitorError::ProcessNotFound(5))
    ));
    let denied = std::io::Error::from(std::io::ErrorKind::PermissionDenied);
    match JvmMonitor::connect(1, 5, Some(Err(denied)), None) {
        Err(JvmMonitorError::IoError(error)) => {
            assert_eq!(error.kind(), std::io::ErrorKind::PermissionDenied);
        }
        _ => panic!("connected"),
    }
}

#[test]
fn connecting_waits_until_perfdata_are_accessible() {
    let closed = fixture(true, false, 1, &[("base.metric", FixtureValue::Long(7))]);
    let open = base(1);
    let same = Some(identity(&open));
    let connecting = JvmMonitor::connect(1, 5, Some(Ok(identity(&open))), None).expect("file");
    let connecting = match connecting.advance(&image(&closed), same, false) {
        ConnectProgress::Pending(next) => next,
        _ => panic!("did not wait"),
    };
    assert_eq!(connecting.pause_millis(), 20);
    let connecting = match connecting.advance(&image(&open), None, true) {
        ConnectProgress::Pending(next) => next,
        _ => panic!("did not go on"),
    };
    assert_eq!(connecting.pause_millis(), 0);
    let connecting = match connecting.advance(&image(&open), None, true) {
        ConnectProgress::Pending(next) => next,
        _ => panic!("did not take the first image"),
    };
    match connecting.advance(&image(&open), None, true) {
        ConnectProgress::Captured(captured) => {
            let monitor = captured.finish(image(&open), None, alive(&open)).expect("monitor");
            assert_eq!(monitor.pid(), 5);
            assert_eq!(monitor.read_long("base.metric"), 7);
        }
        _ => panic!("did not capture"),
    }
}

#[test]
fn waiting_ends_when_the_time_is_up_or_the_file_is_gone() {
    let closed = fixture(true, false, 1, &[]);
    let start = || JvmMonitor::connect(1, 5, Some(Ok(identity(&closed))), None).expect("file");
    match start().advance(&image(&closed), Some(identity(&closed)), true) {
        ConnectProgress::Failed(error) => assert_eq!(
            reason(error),
            "JVM 5 perfdata did not become accessible within 5 seconds"
        ),
        _ => panic!("waited on"),
    }
    for path in [
        None,
        Some(FileIdentity { len: 4096, key: FileKey::Inode { device: 1, inode: 8 } }),
        Some(FileIdentity { len: 4095, key: FileKey::Inode { device: 1, inode: 7 } }),
    ] {
        assert!(matches!(
            start().advance(&image(&closed), path, true),
            ConnectProgress::Failed(JvmMonitorError::ProcessNotFound(5))
        ));
    }
}

#[test]
fn a_target_that_changes_while_connecting_is_refused() {
    let bytes = base(1);
    let finish = |start: Option<u64>, later: Option<u64>, seen: TargetObservation| {
        let file = Some(Ok(identity(&bytes)));
        let mut connecting = JvmMonitor::connect(1, 5, file, start).expect("file");
        loop {
            match connecting.advance(&image(&bytes), None, false) {
                ConnectProgress::Pending(next) => connecting = next,
                ConnectProgress::Captured(captured) => {
                    return captured.finish(image(&bytes), later, seen);
                }
                ConnectProgress::Failed(error) => return Err(error),
            }
        }
    };
    let seen = |start_time: Option<u64>| TargetObservation { start_time, ..alive(&bytes) };
    assert!(finish(Some(3), None, seen(Some(3))).is_ok());
    assert!(finish(None, Some(3), seen(Some(3))).is_ok());
    assert!(finish(None, None, seen(Some(3))).is_ok());
    for (start, later, now) in [
        (Some(3), None, Some(4)),
        (Some(3), Some(4), Some(4)),
        (None, Some(3), Some(4)),
        (None, Some(3), None),
    ] {
        assert!(matches!(
            finish(start, later, seen(now)),
            Err(JvmMonitorError::ProcessNotFound(5))
        ));
    }
    let other = FileIdentity { len: 4096, key: FileKey::Inode { device: 2, inode: 7 } };
    assert!(matches!(
        finish(None, None, TargetObservation { path: Some(other), ..alive(&bytes) }),
        Err(JvmMonitorError::ProcessNotFound(5))
    ));
    assert!(matches!(
        finish(None, None, TargetObservation { file: Ok(other), ..alive(&bytes) }),
        Err(JvmMonitorError::ProcessNotFound(5))
    ));
    let failed = std::io::Error::from(std::io::ErrorKind::Other);
    assert!(matches!(
        finish(None, None, TargetObservation { path: Some(other), file: Err(failed), start_time: None }),
        Err(JvmMonitorError::IoError(_))
    ));
}

#[test]
fn a_creation_time_that_was_not_known_is_not_held_against_a_file() {
    let unknown = FileIdentity { len: 9, key: FileKey::Created { at: None } };
    let known = FileIdentity { len: 9, key: FileKey::Created { at: Some(4) } };
    assert!(unknown.matches(&known));
    assert!(!known.matches(&unknown));
    assert!(known.matches(&known));
    assert!(!unknown.matches(&FileIdentity { len: 8, ..unknown }));
}

#[test]
fn health_is_read_from_the_prologue() {
    let bytes = base(1);
    let mut monitor = connect(5, &bytes);
    let mut later = extended(2);
    put_u32(&mut later, 12, 11, true);
    let health = monitor.check_health(alive(&later), image(&later)).expect("healthy");
    assert_eq!(health.pid, 5);
    assert_eq!(health.overflow_bytes, 11);
    assert_eq!(health.num_entries, 2);
    assert_eq!(health.modification_timestamp, 2);
    assert_eq!(monitor.read_long("late.metric"), 0);
}

#[test]
fn ill_health_is_reported() {
    let bytes = extended(1);
    let mut monitor = connect(5, &bytes);
    let closed = fixture(true, false, 1, &[("base.metric", FixtureValue::Long(7))]);
    assert!(matches!(
        monitor.check_health(alive(&closed), image(&closed)),
        Err(JvmMonitorError::ProcessNotFound(5))
    ));
    let turned = fixture(
        false,
        true,
        1,
        &[
            ("base.metric", FixtureValue::Long(7)),
            ("late.metric", FixtureValue::Long(8)),
        ],
    );
    assert_eq!(
        reason(monitor.check_health(alive(&turned), image(&turned)).expect_err("turned")),
        "perfdata byte order changed after connection"
    );
    let smaller = base(1);
    assert_eq!(
        reason(monitor.check_health(alive(&smaller), image(&smaller)).expect_err("smaller")),
        "perfdata structure moved backwards after connection"
    );
    let mut broken = bytes.clone();
    broken[0] = 0;
    assert_eq!(
        reason(monitor.check_health(alive(&broken), image(&broken)).expect_err("broken")),
        "invalid magic number"
    );
    let short = vec![0_u8; 64];
    assert!(matches!(
        monitor.check_health(alive(&short), image(&short)),
        Err(JvmMonitorError::ProcessNotFound(5))
    ));
}

#[test]
fn refresh_refuses_a_structure_that_moved_backwards() {
    let mut monitor = connect(5, &extended(1));
    let smaller = base(2);
    assert_eq!(
        reason(refresh(&mut monitor, &smaller).expect_err("smaller")),
        "perfdata structure moved backwards after connection"
    );
    let grown = fixture(
        true,
        true,
        1,
        &[
            ("base.metric", FixtureValue::Long(7)),
            ("late.metric", FixtureValue::Long(8)),
            ("next.metric", FixtureValue::Long(9)),
        ],
    );
    match monitor.refresh(alive(&grown), image(&grown)) {
        RefreshProgress::Pending(pending) => {
            assert!(pending.should_yield());
            assert_eq!(pending.pause_millis(), 0);
            match monitor.resume_refresh(pending, image(&smaller)) {
                RefreshProgress::Done(Err(error)) => assert_eq!(
                    reason(error),
                    "perfdata structure moved backwards during refresh"
                ),
                _ => panic!("went on"),
            }
        }
        RefreshProgress::Done(_) => panic!("did not wait for the timestamp"),
    }
}

#[test]
fn refresh_refuses_a_changed_byte_order() {
    let mut monitor = connect(5, &base(1));
    let turned = fixture(
        false,
        true,
        2,
        &[
            ("base.metric", FixtureValue::Long(7)),
            ("late.metric", FixtureValue::Long(8)),
        ],
    );
    assert_eq!(
        reason(refresh(&mut monitor, &turned).expect_err("turned")),
        "perfdata byte order changed after connection"
    );
}

#[test]
fn refresh_refuses_an_index_that_lost_an_entry() {
    let mut monitor = connect(5, &base(1));
    let renamed = fixture(true, true, 2, &[("bass.metric", FixtureValue::Long(7))]);
    assert_eq!(
        reason(refresh(&mut monitor, &renamed).expect_err("renamed")),
        "existing perfdata entry base.metric was removed or relocated"
    );
    assert_eq!(refresh(&mut monitor, &extended(3)).expect("late entry"), 1);
    let replaced = fixture(
        true,
        true,
        4,
        &[
            ("base.metric", FixtureValue::Long(7)),
            ("last.metric", FixtureValue::Long(8)),
        ],
    );
    assert_eq!(
        reason(refresh(&mut monitor, &replaced).expect_err("replaced")),
        "dynamic perfdata entry late.metric was removed or relocated"
    );
    assert!(matches!(monitor.read_metric("late.metric"), Some(PerfValue::Long(8))));
    assert!(monitor.read_metric("last.metric").is_none());
}

#[test]
fn a_failed_refresh_leaves_what_is_known() {
    let mut monitor = connect(5, &base(1));
    let state = monitor.refresh_state();
    let resolution = monitor.metric_resolution(BuiltinLongMetric::Safepoints);
    let relocated = fixture(
        true,
        true,
        2,
        &[
            ("sun.rt.safepoints", FixtureValue::Long(3)),
            ("base.metric", FixtureValue::Long(7)),
        ],
    );
    assert!(refresh(&mut monitor, &relocated).is_err());
    assert_eq!(monitor.refresh_state(), state);
    assert_eq!(monitor.metric_resolution(BuiltinLongMetric::Safepoints), resolution);
    assert!(monitor.read_metric("sun.rt.safepoints").is_none());
}

#[test]
fn failures_to_read_a_growing_structure_are_excused_three_times() {
    let mut monitor = connect(5, &base(1));
    let mut torn = extended(2);
    let used = get_u32(&base(1), 8, true) as usize;
    torn[used..used + 4].fill(0);
    for failures in 1..=3 {
        assert_eq!(refresh(&mut monitor, &torn).expect("excused"), 0);
        assert_eq!(monitor.refresh_state().transient_failures, failures);
    }
    assert_eq!(
        reason(refresh(&mut monitor, &torn).expect_err("reported")),
        "entry 1 has invalid length 0"
    );
    assert_eq!(refresh(&mut monitor, &extended(2)).expect("published"), 1);
    assert_eq!(monitor.refresh_state().transient_failures, 0);
}

#[test]
fn a_refresh_ends_within_seventeen_images() {
    let mut monitor = connect(5, &base(1));
    let mut torn = extended(1);
    let used = get_u32(&base(1), 8, true) as usize;
    torn[used..used + 4].fill(0);
    let mut images = 1;
    let mut pauses = 0;
    let mut progress = monitor.refresh(alive(&torn), image(&torn));
    while let RefreshProgress::Pending(pending) = progress {
        pauses += pending.pause_millis();
        images += 1;
        progress = monitor.resume_refresh(pending, image(&torn));
    }
    assert_eq!(images, 17);
    assert_eq!(pauses, 4);
    assert!(matches!(progress, RefreshProgress::Done(Ok(0))));
}

#[test]
fn an_index_under_the_timestamp_of_another_structure_is_not_published() {
    let mut monitor = connect(5, &base(1));
    let seen = extended(2);
    let mut grown = fixture(
        true,
        true,
        2,
        &[
            ("base.metric", FixtureValue::Long(7)),
            ("late.metric", FixtureValue::Long(8)),
            ("next.metric", FixtureValue::Long(9)),
        ],
    );
    put_u32(&mut grown, 12, 4, true);
    let mut progress = monitor.refresh(alive(&seen), image(&seen));
    while let RefreshProgress::Pending(pending) = progress {
        assert!(matches!(pending, PendingRefresh::Capturing(_, _)));
        progress = monitor.resume_refresh(pending, image(&grown));
    }
    assert!(matches!(progress, RefreshProgress::Done(Ok(0))));
    assert!(monitor.read_metric("late.metric").is_none());
    assert_eq!(monitor.refresh_state().overflow, 4);
    assert_eq!(refresh(&mut monitor, &grown).expect("published"), 2);
}

#[test]
fn refreshing_twice_changes_nothing_more() {
    let mut monitor = connect(5, &base(1));
    assert_eq!(refresh(&mut monitor, &extended(2)).expect("published"), 1);
    let state = monitor.refresh_state();
    assert_eq!(refresh(&mut monitor, &extended(2)).expect("idle"), 0);
    assert_eq!(monitor.refresh_state(), state);
    assert_eq!(monitor.read_long("late.metric"), 8);
}

#[test]
fn a_timer_frequency_that_comes_up_late_is_picked_up_by_an_idle_refresh() {
    let silent = fixture(
        true,
        true,
        1,
        &[
            ("sun.os.hrt.frequency", FixtureValue::Long(0)),
            ("sun.rt.safepointTime", FixtureValue::Long(30)),
            ("sun.rt.applicationTime", FixtureValue::Long(90)),
        ],
    );
    let ticking = fixture(
        true,
        true,
        1,
        &[
            ("sun.os.hrt.frequency", FixtureValue::Long(60)),
            ("sun.rt.safepointTime", FixtureValue::Long(30)),
            ("sun.rt.applicationTime", FixtureValue::Long(90)),
        ],
    );
    let mut monitor = connect(5, &silent);
    assert_eq!(number(monitor.get_runtime_stats().safepoint_time_s), 0.0);
    assert_eq!(refresh(&mut monitor, &ticking).expect("idle"), 0);
    let runtime = monitor.get_runtime_stats();
    assert_eq!(number(runtime.safepoint_time_s), 0.5);
    assert_eq!(number(runtime.app_time_s), 1.5);
    assert_eq!(number(runtime.safepoint_overhead), 0.25);
}

#[test]
fn handles_outlive_refreshes_and_read_like_their_keys() {
    let mut monitor = connect(5, &base(1));
    let handle = monitor.metric_handle("base.metric").expect("handle");
    assert!(monitor.metric_handle("late.metric").is_none());
    let moved_on = fixture(
        true,
        true,
        2,
        &[
            ("base.metric", FixtureValue::Long(70)),
            ("late.text", FixtureValue::String("x")),
        ],
    );
    assert_eq!(refresh(&mut monitor, &moved_on).expect("published"), 1);
    assert_eq!(monitor.read_long("base.metric"), 70);
    assert_eq!(monitor.read_long_handle(handle), Some(70));
    assert!(matches!(monitor.read_metric_handle(handle), Some(PerfValue::Long(70))));
    let text = monitor.metric_handle("late.text").expect("handle");
    assert_eq!(monitor.read_long_handle(text), None);
    assert!(matches!(
        monitor.read_metric_handle(text),
        Some(PerfValue::String(value)) if value == "x"
    ));
    let other = connect_as(2, 5, &moved_on).expect("other monitor");
    assert!(other.read_metric_handle(text).is_none());
}

#[test]
fn values_are_read_from_the_latest_image() {
    let mut monitor = connect(5, &base(1));
    let later = fixture(true, true, 1, &[("base.metric", FixtureValue::Long(-9))]);
    monitor.observe(image(&later));
    assert_eq!(monitor.read_long("base.metric"), -9);
    assert_eq!(monitor.read_display_value("base.metric"), "-9");
    assert_eq!(monitor.read_string("base.metric"), "-");
    assert_eq!(monitor.read_optional_string("base.metric"), None);
    assert_eq!(monitor.read_display_value("no.metric"), "-");
    monitor.observe(image(&later[0..64]));
    assert!(monitor.read_metric("base.metric").is_none());
    assert_eq!(monitor.read_long("base.metric"), 0);
}

#[test]
fn the_second_alias_is_taken_where_the_first_is_missing() {
    let bytes = fixture(
        true,
        true,
        1,
        &[
            ("java.threads.livePeak", FixtureValue::String("not a counter")),
            ("java.threads.peakCount", FixtureValue::Long(3)),
            ("java.threads.peak", FixtureValue::Long(4)),
        ],
    );
    let monitor = connect(5, &bytes);
    let resolution = monitor.metric_resolution(BuiltinLongMetric::ThreadsPeak);
    assert_eq!(resolution.key, Some("java.threads.peak"));
    assert_eq!(resolution.source, Some(MetricKeySource::VendorAlias));
    assert!(resolution.is_available());
    assert_eq!(monitor.read_builtin_long(BuiltinLongMetric::ThreadsPeak), Some(4));
    assert_eq!(monitor.read_known_long(BuiltinLongMetric::ThreadsLive), 0);
}

#[test]
fn a_counter_is_resolved_just_where_it_can_be_read() {
    let mut monitor = connect(5, &base(1));
    let later = fixture(
        true,
        true,
        2,
        &[
            ("base.metric", FixtureValue::Long(7)),
            ("sun.rt.safepoints", FixtureValue::Long(0)),
            ("sun.cls.unloadedClasses", FixtureValue::Long(3)),
        ],
    );
    assert_eq!(refresh(&mut monitor, &later).expect("published"), 2);
    let mut resolved = 0;
    for metric in BuiltinLongMetric::ALL {
        let resolution = monitor.metric_resolution(metric);
        let value = monitor.read_builtin_long(metric);
        assert_eq!(resolution.key.is_some(), value.is_some());
        assert_eq!(resolution.source.is_some(), value.is_some());
        if let (Some(key), Some(value)) = (resolution.key, value) {
            assert!(matches!(monitor.read_metric(key), Some(PerfValue::Long(read)) if read == value));
            resolved += 1;
        }
    }
    assert_eq!(resolved, 2);
}

#[test]
fn runtime_stats_follow_their_formulas() {
    let bytes = fixture(
        true,
        true,
        1,
        &[
            ("java.threads.live", FixtureValue::Long(12)),
            ("java.threads.daemon", FixtureValue::Long(5)),
            ("java.threads.livePeak", FixtureValue::Long(0)),
            ("sun.ci.codeCache.used", FixtureValue::Long(3 * 1024)),
            ("sun.ci.codeCache.capacity", FixtureValue::Long(4 * 1024)),
            ("sun.rt.safepoints", FixtureValue::Long(77)),
        ],
    );
    let monitor = connect(5, &bytes);
    let runtime = monitor.get_runtime_stats();
    assert_eq!(runtime.threads_live, 12);
    assert_eq!(runtime.threads_daemon, 5);
    assert_eq!(runtime.threads_peak, 12);
    assert_eq!(number(runtime.code_cache_used), 3.0);
    assert_eq!(number(runtime.code_cache_capacity), 4.0);
    assert_eq!(number(runtime.code_cache_utilization), 0.75);
    assert_eq!(runtime.safepoints, 77);
    assert_eq!(number(runtime.safepoint_overhead), 0.0);
    assert_eq!(monitor.code_cache_used().map(number), Some(3.0));
    assert_eq!(monitor.code_cache_utilization().map(number), Some(0.75));
}

#[test]
fn utilization_and_overhead_stay_between_zero_and_one() {
    let runtime = |used, capacity, safepoint, application| {
        let bytes = fixture(
            true,
            true,
            1,
            &[
                ("sun.ci.codeCache.used", FixtureValue::Long(used)),
                ("sun.ci.codeCache.capacity", FixtureValue::Long(capacity)),
                ("sun.rt.safepointTime", FixtureValue::Long(safepoint)),
                ("sun.rt.applicationTime", FixtureValue::Long(application)),
            ],
        );
        let stats = connect(5, &bytes).get_runtime_stats();
        (number(stats.code_cache_utilization), number(stats.safepoint_overhead))
    };
    assert_eq!(runtime(2048, 1024, 30, -10), (1.0, 1.0));
    assert_eq!(runtime(-1, 1024, -10, 30), (0.0, 0.0));
    assert_eq!(runtime(512, 1024, 10, 30), (0.5, 0.25));
    assert_eq!(runtime(512, 0, 10, -30), (0.0, 0.0));
}

#[test]
fn unpublished_code_cache_counters_are_missing_not_zero() {
    let monitor = connect(5, &base(1));
    assert_eq!(monitor.code_cache_used(), None);
    assert_eq!(monitor.code_cache_utilization(), None);
    assert_eq!(number(monitor.get_runtime_stats().code_cache_utilization), 0.0);
}

#[test]
fn counters_saturate_instead_of_overflowing() {
    let bytes = fixture(
        true,
        true,
        1,
        &[
            ("sun.os.hrt.frequency", FixtureValue::Long(1)),
            ("java.cls.loadedClasses", FixtureValue::Long(i64::MAX)),
            ("java.cls.sharedLoadedClasses", FixtureValue::Long(1)),
            ("java.cls.unloadedClasses", FixtureValue::Long(i64::MIN)),
            ("java.cls.sharedUnloadedClasses", FixtureValue::Long(-1)),
            ("sun.gc.collector.0.invocations", FixtureValue::Long(-3)),
            ("sun.gc.collector.0.time", FixtureValue::Long(i64::MAX)),
            ("sun.gc.collector.1.time", FixtureValue::Long(2)),
            ("sun.gc.collector.2.time", FixtureValue::Long(-2)),
        ],
    );
    let monitor = connect(5, &bytes);
    let classes = monitor.get_class_stats();
    assert_eq!(classes.loaded, i64::MAX);
    assert_eq!(classes.unloaded, i64::MIN);
    let gc = monitor.get_gc_numeric_stats();
    assert_eq!(gc.ygc, 0);
    assert_eq!(gc.gct.numerator, i64::MAX - 2);
    let slots = monitor.get_gc_collector_numeric_stats();
    assert_eq!(slots[0].ordinal, 0);
    assert_eq!(slots[0].invocations, Some(0));
    assert_eq!(slots[1].invocations, None);
    assert_eq!(slots[1].time_s.map(number), Some(2.0));
    assert_eq!(slots[2].ordinal, 2);
}

#[test]
fn gc_stats_carry_their_causes() {
    let bytes = fixture(
        true,
        true,
        1,
        &[
            ("sun.gc.generation.0.space.0.capacity", FixtureValue::Long(2048)),
            ("sun.gc.generation.0.space.0.used", FixtureValue::Long(1536)),
            ("sun.gc.generation.1.space.0.used", FixtureValue::Long(512)),
            ("sun.gc.metaspace.used", FixtureValue::Long(1024)),
            ("sun.gc.compressedclassspace.capacity", FixtureValue::Long(256)),
            ("sun.gc.lastCause", FixtureValue::String("Allocation Failure")),
        ],
    );
    let gc = connect(5, &bytes).get_gc_stats();
    assert_eq!(number(gc.ec), 2.0);
    assert_eq!(number(gc.eu), 1.5);
    assert_eq!(number(gc.ou), 0.5);
    assert_eq!(number(gc.mu), 1.0);
    assert_eq!(number(gc.ccsc), 0.25);
    assert_eq!(gc.lgcc, "Allocation Failure");
    assert_eq!(gc.gcc, "-");
}

#[test]
fn a_sample_shows_the_noted_health() {
    let mut monitor = connect(5, &base(1));
    let snapshot = sample(&mut monitor, &extended(9)).expect("sample");
    assert_eq!(snapshot.health.pid, 5);
    assert_eq!(snapshot.health.num_entries, 2);
    assert_eq!(snapshot.health.modification_timestamp, 9);
    assert_eq!(snapshot.compiler.failed_method, "-");
    let failed = monitor.sample(Err(JvmMonitorError::ProcessNotFound(5)));
    assert!(matches!(failed, Err(JvmMonitorError::ProcessNotFound(5))));
}

#[test]
fn the_compatibility_report_lists_every_counter_in_order() {
    let report = connect(5, &base(1)).compatibility();
    assert_eq!(report.metrics.len(), BuiltinLongMetric::ALL.len());
    for (resolution, metric) in report.metrics.iter().zip(BuiltinLongMetric::ALL) {
        assert_eq!(resolution.metric, metric);
        assert!(!resolution.is_available());
    }
    assert_eq!(report.vm_name, None);
}

#[test]
fn a_restarted_process_is_noticed() {
    let bytes = base(1);
    let file = Some(Ok(identity(&bytes)));
    let mut connecting = JvmMonitor::connect(1, 5, file, Some(10)).expect("file");
    let mut monitor = loop {
        match connecting.advance(&image(&bytes), None, false) {
            ConnectProgress::Pending(next) => connecting = next,
            ConnectProgress::Captured(captured) => {
                let seen = TargetObservation { start_time: Some(10), ..alive(&bytes) };
                break captured.finish(image(&bytes), None, seen).expect("monitor");
            }
            ConnectProgress::Failed(error) => panic!("{error:?}"),
        }
    };
    let same = TargetObservation { start_time: Some(10), ..alive(&bytes) };
    assert_eq!(refresh_seeing(&mut monitor, same, &bytes).expect("alive"), 0);
    for start_time in [Some(11), None] {
        let seen = TargetObservation { start_time, ..alive(&bytes) };
        assert!(matches!(
            refresh_seeing(&mut monitor, seen, &bytes),
            Err(JvmMonitorError::ProcessNotFound(5))
        ));
    }
    let failed = TargetObservation {
        start_time: Some(10),
        path: Some(identity(&bytes)),
        file: Err(std::io::Error::from(std::io::ErrorKind::Other)),
    };
    assert!(matches!(
        refresh_seeing(&mut monitor, failed, &bytes),
        Err(JvmMonitorError::IoError(_))
    ));
}

#[test]
fn errors_explain_themselves() {
    assert_eq!(
        JvmMonitorError::ProcessNotFound(42).message(),
        "JVM process 42 not found or access denied"
    );
    assert_eq!(
        JvmMonitorError::InvalidFormat("broken".to_owned()).message(),
        "Invalid hsperfdata format: broken"
    );
    assert_eq!(io_error_message("disk on fire"), "IO Error: disk on fire");
    let io = std::io::Error::new(std::io::ErrorKind::Other, "disk on fire");
    assert_eq!(JvmMonitorError::from(io).message(), "IO Error: disk on fire");
}
