use jmon_rs::discovery::is_discoverable_size;
use jmon_rs::perfdata::{parse_snapshot, MAX_PERFDATA_SIZE};
use jmon_rs::{
    BuiltinLongMetric, ConnectProgress, FileIdentity, FileKey, JvmMonitor, JvmMonitorError,
    JvmStatsSnapshot, MetricKeySource, PerfMemory, PerfValue, Ratio, RefreshProgress,
    TargetObservation,
};

type NameProfile = (
    &'static str,
    [Option<&'static str>; 3],
    [Option<&'static str>; 3],
    [[Option<&'static str>; 3]; 3],
);

const COLLECTOR_KEYS: [&str; 3] = [
    "sun.gc.collector.0.name",
    "sun.gc.collector.1.name",
    "sun.gc.collector.2.name",
];
const GENERATION_KEYS: [&str; 3] = [
    "sun.gc.generation.0.name",
    "sun.gc.generation.1.name",
    "sun.gc.generation.2.name",
];
const SPACE_KEYS: [[&str; 3]; 3] = [
    [
        "sun.gc.generation.0.space.0.name",
        "sun.gc.generation.0.space.1.name",
        "sun.gc.generation.0.space.2.name",
    ],
    [
        "sun.gc.generation.1.space.0.name",
        "sun.gc.generation.1.space.1.name",
        "sun.gc.generation.1.space.2.name",
    ],
    [
        "sun.gc.generation.2.space.0.name",
        "sun.gc.generation.2.space.1.name",
        "sun.gc.generation.2.space.2.name",
    ],
];

fn assert_send_sync<T: Send + Sync>() {}

const FIXTURE_LEN: usize = 4096;

#[derive(Clone, Copy)]
enum FixtureValue<'a> {
    Long(i64),
    String(&'a str),
}

fn fixture(
    is_little_endian: bool,
    accessible: bool,
    modification_timestamp: i64,
    entries: &[(&str, FixtureValue<'_>)],
) -> Vec<u8> {
    let mut bytes = vec![0_u8; 32];

    for (name, value) in entries {
        let entry_start = bytes.len();
        let name_offset = 20;
        let name_end = name_offset + name.len() + 1;
        let data_offset = match value {
            FixtureValue::Long(_) => align_absolute(entry_start, name_end, 8),
            FixtureValue::String(_) => align(name_end, 4),
        };
        let (data_type, units, vector_length, data_len) = match value {
            FixtureValue::Long(_) => (b'J', 1_u8, 0_usize, 8_usize),
            FixtureValue::String(value) => (b'B', 5_u8, value.len() + 1, value.len() + 1),
        };
        let entry_len = align(data_offset + data_len, 4);
        bytes.resize(entry_start + entry_len, 0);

        put_u32(&mut bytes, entry_start, entry_len as u32, is_little_endian);
        put_u32(&mut bytes, entry_start + 4, name_offset as u32, is_little_endian);
        put_u32(&mut bytes, entry_start + 8, vector_length as u32, is_little_endian);
        bytes[entry_start + 12] = data_type;
        bytes[entry_start + 13] = 1;
        bytes[entry_start + 14] = units;
        bytes[entry_start + 15] = 3;
        put_u32(&mut bytes, entry_start + 16, data_offset as u32, is_little_endian);
        bytes[entry_start + name_offset..entry_start + name_offset + name.len()]
            .copy_from_slice(name.as_bytes());

        let data_start = entry_start + data_offset;
        match value {
            FixtureValue::Long(value) => {
                let encoded = if is_little_endian {
                    value.to_le_bytes()
                } else {
                    value.to_be_bytes()
                };
                bytes[data_start..data_start + 8].copy_from_slice(&encoded);
            }
            FixtureValue::String(value) => {
                bytes[data_start..data_start + value.len()].copy_from_slice(value.as_bytes());
            }
        }
    }

    let used = bytes.len();
    assert!(used <= FIXTURE_LEN);
    bytes.resize(FIXTURE_LEN, 0);
    bytes[0..4].copy_from_slice(&0xcafec0c0_u32.to_be_bytes());
    bytes[4] = u8::from(is_little_endian);
    bytes[5] = 2;
    bytes[6] = 0;
    bytes[7] = u8::from(accessible);
    put_u32(&mut bytes, 8, used as u32, is_little_endian);
    put_u32(&mut bytes, 12, 0, is_little_endian);
    put_i64(&mut bytes, 16, modification_timestamp, is_little_endian);
    put_u32(&mut bytes, 24, 32, is_little_endian);
    put_u32(&mut bytes, 28, entries.len() as u32, is_little_endian);
    bytes
}

fn align(value: usize, alignment: usize) -> usize {
    (value + alignment - 1) & !(alignment - 1)
}

fn align_absolute(entry_start: usize, relative: usize, alignment: usize) -> usize {
    let absolute = align(entry_start + relative, alignment);
    absolute - entry_start
}

fn put_u32(bytes: &mut [u8], offset: usize, value: u32, is_little_endian: bool) {
    let encoded = if is_little_endian {
        value.to_le_bytes()
    } else {
        value.to_be_bytes()
    };
    bytes[offset..offset + 4].copy_from_slice(&encoded);
}

fn get_u32(bytes: &[u8], offset: usize, is_little_endian: bool) -> u32 {
    let encoded: [u8; 4] = bytes[offset..offset + 4].try_into().expect("u32 bytes");
    if is_little_endian {
        u32::from_le_bytes(encoded)
    } else {
        u32::from_be_bytes(encoded)
    }
}

fn put_i64(bytes: &mut [u8], offset: usize, value: i64, is_little_endian: bool) {
    let encoded = if is_little_endian {
        value.to_le_bytes()
    } else {
        value.to_be_bytes()
    };
    bytes[offset..offset + 8].copy_from_slice(&encoded);
}

/// The file that holds the given bytes.
fn identity(bytes: &[u8]) -> FileIdentity {
    FileIdentity { len: bytes.len() as u64, key: FileKey::Inode { device: 1, inode: 7 } }
}

/// A target that is alive and whose file holds the given bytes.
fn alive(bytes: &[u8]) -> TargetObservation {
    TargetObservation {
        start_time: None,
        path: Some(identity(bytes)),
        file: Ok(identity(bytes)),
    }
}

fn image(bytes: &[u8]) -> PerfMemory {
    PerfMemory::new(bytes.to_vec())
}

/// Connects to perfdata that hold still.
fn connect_as(monitor_id: usize, pid: u32, bytes: &[u8]) -> Result<JvmMonitor, JvmMonitorError> {
    let mut connecting = JvmMonitor::connect(monitor_id, pid, Some(Ok(identity(bytes))), None)?;
    loop {
        match connecting.advance(&image(bytes), Some(identity(bytes)), false) {
            ConnectProgress::Failed(error) => return Err(error),
            ConnectProgress::Pending(next) => connecting = next,
            ConnectProgress::Captured(captured) => {
                return captured.finish(image(bytes), None, alive(bytes));
            }
        }
    }
}

fn connect(pid: u32, bytes: &[u8]) -> JvmMonitor {
    connect_as(1, pid, bytes).expect("connect fixture")
}

/// Refreshes a monitor of perfdata that hold still.
fn refresh_seeing(
    monitor: &mut JvmMonitor,
    seen: TargetObservation,
    bytes: &[u8],
) -> Result<usize, JvmMonitorError> {
    let mut progress = monitor.refresh(seen, image(bytes));
    loop {
        match progress {
            RefreshProgress::Done(result) => return result,
            RefreshProgress::Pending(pending) => {
                progress = monitor.resume_refresh(pending, image(bytes));
            }
        }
    }
}

fn refresh(monitor: &mut JvmMonitor, bytes: &[u8]) -> Result<usize, JvmMonitorError> {
    refresh_seeing(monitor, alive(bytes), bytes)
}

fn sample(monitor: &mut JvmMonitor, bytes: &[u8]) -> Result<JvmStatsSnapshot, JvmMonitorError> {
    let refreshed = refresh(monitor, bytes);
    monitor.sample(refreshed)
}

fn number(ratio: Ratio) -> f64 {
    ratio.numerator as f64 / ratio.denominator as f64
}

#[test]
fn parses_little_and_big_endian_entries() {
    for is_little_endian in [true, false] {
        let bytes = fixture(
            is_little_endian,
            true,
            1,
            &[
                ("test.long", FixtureValue::Long(42)),
                ("test.string", FixtureValue::String("hello")),
            ],
        );
        let (header, index) = parse_snapshot(&bytes).expect("valid fixture");
        assert_eq!(header.is_little_endian, is_little_endian);
        assert_eq!(index.len(), 2);

            let monitor = connect(123, &bytes);
        assert_eq!(monitor.read_long("test.long"), 42);
        assert!(matches!(
            monitor.read_metric("test.string"),
            Some(PerfValue::String(value)) if value == "hello"
        ));
    }
}

#[test]
fn malformed_structures_return_errors_instead_of_partial_indexes() {
    let valid = fixture(true, true, 1, &[("test.long", FixtureValue::Long(42))]);

    let mut bad_magic = valid.clone();
    bad_magic[0] = 0;
    assert!(parse_snapshot(&bad_magic).is_err());

    let mut bad_version = valid.clone();
    bad_version[5] = 3;
    assert!(parse_snapshot(&bad_version).is_err());

    let mut inaccessible = valid.clone();
    inaccessible[7] = 0;
    assert!(parse_snapshot(&inaccessible).is_err());

    let mut huge_count = valid.clone();
    put_u32(&mut huge_count, 28, u32::MAX, true);
    assert!(parse_snapshot(&huge_count).is_err());

    let mut zero_length = valid.clone();
    put_u32(&mut zero_length, 32, 0, true);
    assert!(parse_snapshot(&zero_length).is_err());

    let mut missing_name_terminator = valid.clone();
    let data_offset = get_u32(&missing_name_terminator, 48, true) as usize;
    missing_name_terminator[52..32 + data_offset].fill(b'x');
    assert!(parse_snapshot(&missing_name_terminator).is_err());
}

#[test]
fn oversized_perfdata_is_rejected_before_mapping_or_snapshot_allocation() {
    let oversized = FileIdentity {
        len: MAX_PERFDATA_SIZE + 1,
        key: FileKey::Inode { device: 1, inode: 7 },
    };
    assert!(matches!(
        JvmMonitor::connect(1, 124, Some(Ok(oversized)), None),
        Err(JvmMonitorError::InvalidFormat(_))
    ));
    assert!(!is_discoverable_size(MAX_PERFDATA_SIZE + 1));
}

#[test]
fn parser_does_not_panic_on_mutated_structures() {
    let intact = fixture(
        true,
        true,
        1,
        &[
            ("test.long", FixtureValue::Long(42)),
            ("test.string", FixtureValue::String("hello")),
        ],
    );
    let mut random = 0x9e37_79b9_7f4a_7c15_u64;
    for _ in 0..2_000 {
        let mut bytes = intact.clone();
        for _ in 0..4 {
            random = random
                .wrapping_mul(6_364_136_223_846_793_005)
                .wrapping_add(1);
            let offset = (random as usize) % 160;
            bytes[offset] ^= (random >> 32) as u8;
        }
        assert!(match parse_snapshot(&bytes) {
            Ok((header, index)) => index.len() == header.num_entries,
            Err(error) => matches!(error, JvmMonitorError::InvalidFormat(_)),
        });
    }
}

#[test]
fn refresh_waits_for_timestamp_publication_and_adds_dynamic_entry() {
    let initial = fixture(
        true,
        true,
        10,
        &[
            ("sun.os.hrt.frequency", FixtureValue::Long(1_000_000_000)),
            ("base.metric", FixtureValue::Long(7)),
        ],
    );
    let complete = fixture(
        true,
        true,
        11,
        &[
            ("sun.os.hrt.frequency", FixtureValue::Long(1_000_000_000)),
            ("base.metric", FixtureValue::Long(7)),
            ("dynamic.metric", FixtureValue::Long(42)),
        ],
    );
    let mut monitor = connect(456, &initial);

    // Simulate HotSpot's early publication of used/num_entries while the new
    // entry is still incomplete and mod_timestamp remains unchanged.
    let mut early = initial.clone();
    let complete_used = get_u32(&complete, 8, true);
    let complete_count = get_u32(&complete, 28, true);
    put_u32(&mut early, 8, complete_used, true);
    put_u32(&mut early, 28, complete_count, true);
    assert_eq!(refresh(&mut monitor, &early).expect("transient refresh"), 0);
    assert_eq!(monitor.read_long("dynamic.metric"), 0);

    assert_eq!(refresh(&mut monitor, &complete).expect("published refresh"), 1);
    assert_eq!(monitor.read_long("dynamic.metric"), 42);
    let dynamic = monitor
        .metric_handle("dynamic.metric")
        .expect("resolve dynamic metric");
    assert_eq!(monitor.read_long_handle(dynamic), Some(42));
    assert_eq!(refresh(&mut monitor, &complete).expect("idempotent refresh"), 0);

    let mut overflowed = complete.clone();
    put_u32(&mut overflowed, 12, 123, true);
    assert_eq!(
        sample(&mut monitor, &overflowed)
            .expect("degraded sample")
            .health
            .overflow_bytes,
        123
    );
}

#[test]
fn refresh_accepts_a_stable_entry_when_modification_timestamp_collides() {
    let initial = fixture(true, true, 20, &[("base.metric", FixtureValue::Long(7))]);
    let updated = fixture(
        true,
        true,
        20,
        &[
            ("base.metric", FixtureValue::Long(7)),
            ("colliding.metric", FixtureValue::Long(99)),
        ],
    );
    let mut monitor = connect(457, &initial);

    assert_eq!(refresh(&mut monitor, &updated).expect("stable colliding refresh"), 1);
    assert_eq!(monitor.read_long("colliding.metric"), 99);
}

#[test]
fn canonical_zero_is_not_treated_as_missing() {
    let bytes = fixture(
        true,
        true,
        1,
        &[
            (
                "sun.gc.generation.0.space.1.capacity",
                FixtureValue::Long(0),
            ),
            (
                "sun.gc.generation.0.space.1.maxCapacity",
                FixtureValue::Long(1024),
            ),
        ],
    );
    let monitor = connect(789, &bytes);
    assert_eq!(number(monitor.get_gc_stats().s0c), 0.0);
    assert_eq!(
        monitor.read_builtin_long(BuiltinLongMetric::Survivor0Capacity),
        Some(0)
    );
    assert_eq!(
        monitor
            .metric_resolution(BuiltinLongMetric::Survivor0Capacity)
            .key,
        Some("sun.gc.generation.0.space.1.capacity")
    );
}

#[test]
fn canonical_builtin_key_wins_over_vendor_alias_even_when_its_value_is_zero() {
    let bytes = fixture(
        true,
        true,
        1,
        &[
            ("java.cls.loadedClasses", FixtureValue::Long(0)),
            ("sun.cls.loadedClasses", FixtureValue::Long(91)),
        ],
    );
    let monitor = connect(791, &bytes);

    assert_eq!(
        monitor.read_builtin_long(BuiltinLongMetric::LoadedClasses),
        Some(0)
    );
    assert_eq!(monitor.read_long("sun.cls.loadedClasses"), 91);
    let resolution = monitor.metric_resolution(BuiltinLongMetric::LoadedClasses);
    assert_eq!(resolution.key, Some("java.cls.loadedClasses"));
    assert_eq!(resolution.source, Some(MetricKeySource::OpenJdk));
}

#[test]
fn survivor_max_capacity_is_not_mistaken_for_current_capacity() {
    let bytes = fixture(
        true,
        true,
        1,
        &[(
            "sun.gc.generation.0.space.1.maxCapacity",
            FixtureValue::Long(1024),
        )],
    );
    let monitor = connect(792, &bytes);

    assert_eq!(
        monitor.read_builtin_long(BuiltinLongMetric::Survivor0Capacity),
        None
    );
    let resolution = monitor.metric_resolution(BuiltinLongMetric::Survivor0Capacity);
    assert_eq!(resolution.metric, BuiltinLongMetric::Survivor0Capacity);
    assert_eq!(resolution.key, None);
    assert_eq!(resolution.source, None);
    // The aggregate maps absence to zero.
    assert_eq!(number(monitor.get_gc_numeric_stats().s0c), 0.0);
}

#[test]
fn jdk7_permgen_does_not_alias_metaspace_or_code_cache() {
    let bytes = fixture(
        true,
        true,
        1,
        &[
            (
                "sun.gc.generation.2.space.0.capacity",
                FixtureValue::Long(2048),
            ),
            ("sun.gc.generation.2.space.0.used", FixtureValue::Long(1024)),
        ],
    );
    let monitor = connect(793, &bytes);

    assert_eq!(
        monitor.read_builtin_long(BuiltinLongMetric::PermGenCapacity),
        Some(2048)
    );
    assert_eq!(
        monitor.read_builtin_long(BuiltinLongMetric::PermGenUsed),
        Some(1024)
    );
    assert_eq!(
        monitor
            .metric_resolution(BuiltinLongMetric::PermGenCapacity)
            .source,
        Some(MetricKeySource::LegacyHotSpot)
    );
    for metric in [
        BuiltinLongMetric::MetaspaceCapacity,
        BuiltinLongMetric::MetaspaceUsed,
        BuiltinLongMetric::CodeCacheCapacity,
        BuiltinLongMetric::CodeCacheUsed,
    ] {
        assert_eq!(monitor.read_builtin_long(metric), None, "{metric:?}");
        assert!(
            !monitor.metric_resolution(metric).is_available(),
            "{metric:?}"
        );
    }
}

#[test]
fn gc_total_time_supports_jdk8_without_and_newer_jdks_with_collector_two() {
    let jdk8 = fixture(
        true,
        true,
        1,
        &[
            ("sun.os.hrt.frequency", FixtureValue::Long(1000)),
            ("sun.gc.collector.0.invocations", FixtureValue::Long(2)),
            ("sun.gc.collector.0.time", FixtureValue::Long(100)),
            ("sun.gc.collector.1.invocations", FixtureValue::Long(1)),
            ("sun.gc.collector.1.time", FixtureValue::Long(200)),
        ],
    );
    let jdk8_monitor = connect(794, &jdk8);
    let jdk8_gc = jdk8_monitor.get_gc_numeric_stats();
    assert_eq!(
        jdk8_monitor.read_builtin_long(BuiltinLongMetric::Collector2Time),
        None
    );
    assert_eq!(jdk8_gc.cgc, 0);
    assert_eq!(number(jdk8_gc.cgct), 0.0);
    assert!((number(jdk8_gc.gct) - 0.3).abs() < f64::EPSILON);

    let newer = fixture(
        true,
        true,
        1,
        &[
            ("sun.os.hrt.frequency", FixtureValue::Long(1000)),
            ("sun.gc.collector.0.invocations", FixtureValue::Long(2)),
            ("sun.gc.collector.0.time", FixtureValue::Long(100)),
            ("sun.gc.collector.1.invocations", FixtureValue::Long(1)),
            ("sun.gc.collector.1.time", FixtureValue::Long(200)),
            ("sun.gc.collector.2.invocations", FixtureValue::Long(3)),
            ("sun.gc.collector.2.time", FixtureValue::Long(300)),
        ],
    );
    let newer_monitor = connect(795, &newer);
    let newer_gc = newer_monitor.get_gc_numeric_stats();
    assert_eq!(
        newer_monitor.read_builtin_long(BuiltinLongMetric::Collector2Time),
        Some(300)
    );
    assert_eq!(newer_gc.cgc, 3);
    assert_eq!(number(newer_gc.cgct), 0.3);
    assert!((number(newer_gc.gct) - 0.6).abs() < f64::EPSILON);
}

#[test]
fn compatibility_preserves_zgc_generational_zgc_and_shenandoah_profiles() {
    let profiles: [NameProfile; 3] = [
        (
            "ZGC",
            [None, None, Some("Z concurrent cycle pauses")],
            [None, Some("old"), None],
            [
                [None, None, None],
                [Some("space"), None, None],
                [None, None, None],
            ],
        ),
        (
            "Generational ZGC",
            [
                Some("ZGC minor collection pauses"),
                None,
                Some("ZGC major collection pauses"),
            ],
            [Some("young"), Some("old"), None],
            [
                [Some("space"), None, None],
                [Some("space"), None, None],
                [None, None, None],
            ],
        ),
        (
            "Shenandoah",
            [Some("Shenandoah partial"), Some("Shenandoah full"), None],
            [Some("Young"), Some("Heap"), None],
            [
                [None, None, None],
                [Some("Heap"), None, None],
                [None, None, None],
            ],
        ),
    ];

    for (profile_index, (policy, collectors, generations, spaces)) in
        profiles.into_iter().enumerate()
    {
        let mut entries = vec![
            ("java.property.java.version", FixtureValue::String("21")),
            ("sun.gc.policy.name", FixtureValue::String(policy)),
        ];
        for ordinal in 0..3 {
            if let Some(name) = collectors[ordinal] {
                entries.push((COLLECTOR_KEYS[ordinal], FixtureValue::String(name)));
            }
            if let Some(name) = generations[ordinal] {
                entries.push((GENERATION_KEYS[ordinal], FixtureValue::String(name)));
            }
            for space in 0..3 {
                if let Some(name) = spaces[ordinal][space] {
                    entries.push((SPACE_KEYS[ordinal][space], FixtureValue::String(name)));
                }
            }
        }

        let bytes = fixture(true, true, 1, &entries);
            let monitor = connect(800 + profile_index as u32, &bytes);
        let compatibility = monitor.compatibility();

        assert_eq!(compatibility.gc_policy.as_deref(), Some(policy));
        assert_eq!(
            compatibility.collector_names,
            collectors.map(|name| name.map(str::to_owned))
        );
        assert_eq!(
            compatibility.generation_names,
            generations.map(|name| name.map(str::to_owned))
        );
        assert_eq!(
            compatibility.space_names,
            spaces.map(|generation| generation.map(|name| name.map(str::to_owned)))
        );
    }
}

#[test]
fn refresh_keeps_the_initial_alias_binding_when_a_canonical_key_appears() {
    let initial = fixture(
        true,
        true,
        30,
        &[("sun.ci.totalCompilations", FixtureValue::Long(17))],
    );
    let updated = fixture(
        true,
        true,
        31,
        &[
            ("sun.ci.totalCompilations", FixtureValue::Long(17)),
            ("sun.ci.totalCompiles", FixtureValue::Long(0)),
        ],
    );
    let mut monitor = connect(796, &initial);

    assert_eq!(
        monitor.read_builtin_long(BuiltinLongMetric::Compilations),
        Some(17)
    );
    assert_eq!(
        monitor
            .metric_resolution(BuiltinLongMetric::Compilations)
            .source,
        Some(MetricKeySource::VendorAlias)
    );

    assert_eq!(refresh(&mut monitor, &updated).expect("refresh canonical counter"), 1);
    assert_eq!(
        monitor.read_builtin_long(BuiltinLongMetric::Compilations),
        Some(17)
    );
    assert_eq!(monitor.read_long("sun.ci.totalCompiles"), 0);
    let resolution = monitor.metric_resolution(BuiltinLongMetric::Compilations);
    assert_eq!(resolution.key, Some("sun.ci.totalCompilations"));
    assert_eq!(resolution.source, Some(MetricKeySource::VendorAlias));
}

#[test]
fn refresh_binds_a_builtin_metric_that_was_initially_missing() {
    let initial = fixture(true, true, 40, &[("base.metric", FixtureValue::Long(1))]);
    let updated = fixture(
        true,
        true,
        41,
        &[
            ("base.metric", FixtureValue::Long(1)),
            ("sun.rt.safepointSyncTime", FixtureValue::Long(23)),
        ],
    );
    let mut monitor = connect(797, &initial);

    assert_eq!(
        monitor.read_builtin_long(BuiltinLongMetric::SafepointSyncTime),
        None
    );
    assert!(
        !monitor
            .metric_resolution(BuiltinLongMetric::SafepointSyncTime)
            .is_available()
    );

    assert_eq!(refresh(&mut monitor, &updated).expect("refresh missing built-in"), 1);
    assert_eq!(
        monitor.read_builtin_long(BuiltinLongMetric::SafepointSyncTime),
        Some(23)
    );
    let resolution = monitor.metric_resolution(BuiltinLongMetric::SafepointSyncTime);
    assert_eq!(resolution.key, Some("sun.rt.safepointSyncTime"));
    assert_eq!(resolution.source, Some(MetricKeySource::OpenJdk));
}

#[test]
fn refresh_picks_up_a_late_timer_frequency_for_seconds_conversion() {
    let initial = fixture(
        true,
        true,
        50,
        &[
            ("java.ci.totalTime", FixtureValue::Long(250)),
            ("sun.gc.collector.0.time", FixtureValue::Long(250)),
        ],
    );
    let updated = fixture(
        true,
        true,
        51,
        &[
            ("java.ci.totalTime", FixtureValue::Long(250)),
            ("sun.gc.collector.0.time", FixtureValue::Long(250)),
            ("sun.os.hrt.frequency", FixtureValue::Long(1000)),
        ],
    );
    let mut monitor = connect(798, &initial);

    assert_eq!(monitor.compatibility().timer_frequency_hz, None);
    assert_eq!(number(monitor.get_compiler_numeric_stats().time), 0.0);
    assert_eq!(monitor.get_gc_collector_numeric_stats()[0].time_s, None);

    assert_eq!(refresh(&mut monitor, &updated).expect("refresh timer frequency"), 1);
    assert_eq!(monitor.compatibility().timer_frequency_hz, Some(1000));
    assert_eq!(number(monitor.get_compiler_numeric_stats().time), 0.25);
    assert_eq!(
        monitor.get_gc_collector_numeric_stats()[0].time_s.map(number),
        Some(0.25)
    );
}

#[test]
fn class_and_compiler_stats_support_current_hotspot_counter_names() {
    let bytes = fixture(
        true,
        true,
        1,
        &[
            ("java.cls.loadedClasses", FixtureValue::Long(4)),
            ("java.cls.sharedLoadedClasses", FixtureValue::Long(401)),
            ("sun.cls.loadedBytes", FixtureValue::Long(6_216)),
            ("sun.cls.sharedLoadedBytes", FixtureValue::Long(1_035_696)),
            ("sun.ci.totalCompiles", FixtureValue::Long(5)),
            ("sun.ci.totalInvalidates", FixtureValue::Long(2)),
            ("java.ci.totalTime", FixtureValue::Long(10)),
            ("sun.ci.lastFailedType", FixtureValue::Long(0)),
        ],
    );
    let monitor = connect(790, &bytes);

    let classes = monitor.get_class_stats();
    assert_eq!(classes.loaded, 405);
    assert_eq!(number(classes.bytes), 1_041_912.0 / 1024.0);
    let compiler = monitor.get_compiler_stats();
    assert_eq!(compiler.compiled, 5);
    assert_eq!(compiler.invalid, 2);
    assert_eq!(compiler.failed_type, "0");
}

#[test]
fn checked_sample_detects_an_unlinked_target() {
    let bytes = fixture(true, true, 1, &[("test.long", FixtureValue::Long(42))]);
    let mut monitor = connect(999, &bytes);
    let unlinked = TargetObservation {
        start_time: None,
        path: None,
        file: Ok(identity(&bytes)),
    };
    let refreshed = refresh_seeing(&mut monitor, unlinked, &bytes);

    assert!(matches!(
        monitor.sample(refreshed),
        Err(JvmMonitorError::ProcessNotFound(999))
    ));
    // Plain reads do not look at the target and still see the latest image.
    // Long-running callers must use sample/refresh.
    assert_eq!(monitor.read_long("test.long"), 42);
}

#[test]
fn monitor_remains_send_and_sync() {
    assert_send_sync::<JvmMonitor>();
}

#[test]
fn metric_handles_cannot_be_used_with_another_monitor() {
    let bytes = fixture(true, true, 1, &[("test.long", FixtureValue::Long(42))]);
    let first = connect_as(1, 1_001, &bytes).expect("first monitor");
    let second = connect_as(2, 1_002, &bytes).expect("second monitor");
    let handle = first.metric_handle("test.long").expect("metric handle");

    assert_eq!(first.read_long_handle(handle), Some(42));
    assert_eq!(second.read_long_handle(handle), None);
}

#[test]
fn parses_linux_start_time_after_a_tricky_command_name() {
    let stat =
        "123 (name with ) a parenthesis) S 1 2 3 4 5 6 7 8 9 10 11 12 13 14 15 16 17 18 424242 0";
    assert_eq!(JvmMonitor::parse_process_start_time(stat), Some(424242));
}
