use jmon_rs::capture::{Capture, CaptureProgress};
use jmon_rs::perfdata::{parse_header, parse_index, parse_snapshot, PerfHeader};
use jmon_rs::{JvmMonitorError, PerfMemory};

const FIXTURE_LEN: usize = 4096;

#[derive(Clone, Copy)]
enum FixtureValue<'a> {
    Long(i64),
    String(&'a str),
}

fn fixture(
    is_little_endian: bool,
    accessible: bool,
    modification_timestamp: i64,
    entries: &[(&str, FixtureValue<'_>)],
) -> Vec<u8> {
    let mut bytes = vec![0_u8; 32];

    for (name, value) in entries {
        let entry_start = bytes.len();
        let name_offset = 20;
        let name_end = name_offset + name.len() + 1;
        let data_offset = match value {
            FixtureValue::Long(_) => align_absolute(entry_start, name_end, 8),
            FixtureValue::String(_) => align(name_end, 4),
        };
        let (data_type, units, vector_length, data_len) = match value {
            FixtureValue::Long(_) => (b'J', 1_u8, 0_usize, 8_usize),
            FixtureValue::String(value) => (b'B', 5_u8, value.len() + 1, value.len() + 1),
        };
        let entry_len = align(data_offset + data_len, 4);
        bytes.resize(entry_start + entry_len, 0);

        put_u32(&mut bytes, entry_start, entry_len as u32, is_little_endian);
        put_u32(&mut bytes, entry_start + 4, name_offset as u32, is_little_endian);
        put_u32(&mut bytes, entry_start + 8, vector_length as u32, is_little_endian);
        bytes[entry_start + 12] = data_type;
        bytes[entry_start + 13] = 1;
        bytes[entry_start + 14] = units;
        bytes[entry_start + 15] = 3;
        put_u32(&mut bytes, entry_start + 16, data_offset as u32, is_little_endian);
        bytes[entry_start + name_offset..entry_start + name_offset + name.len()]
            .copy_from_slice(name.as_bytes());

        let data_start = entry_start + data_offset;
        match value {
            FixtureValue::Long(value) => {
                let encoded = if is_little_endian {
                    value.to_le_bytes()
                } else {
                    value.to_be_bytes()
                };
                bytes[data_start..data_start + 8].copy_from_slice(&encoded);
            }
            FixtureValue::String(value) => {
                bytes[data_start..data_start + value.len()].copy_from_slice(value.as_bytes());
            }
        }
    }

    let used = bytes.len();
    assert!(used <= FIXTURE_LEN);
    bytes.resize(FIXTURE_LEN, 0);
    bytes[0..4].copy_from_slice(&0xcafec0c0_u32.to_be_bytes());
    bytes[4] = u8::from(is_little_endian);
    bytes[5] = 2;
    bytes[6] = 0;
    bytes[7] = u8::from(accessible);
    put_u32(&mut bytes, 8, used as u32, is_little_endian);
    put_u32(&mut bytes, 12, 0, is_little_endian);
    put_i64(&mut bytes, 16, modification_timestamp, is_little_endian);
    put_u32(&mut bytes, 24, 32, is_little_endian);
    put_u32(&mut bytes, 28, entries.len() as u32, is_little_endian);
    bytes
}

fn align(value: usize, alignment: usize) -> usize {
    (value + alignment - 1) & !(alignment - 1)
}

fn align_absolute(entry_start: usize, relative: usize, alignment: usize) -> usize {
    let absolute = align(entry_start + relative, alignment);
    absolute - entry_start
}

fn put_u32(bytes: &mut [u8], offset: usize, value: u32, is_little_endian: bool) {
    let encoded = if is_little_endian {
        value.to_le_bytes()
    } else {
        value.to_be_bytes()
    };
    bytes[offset..offset + 4].copy_from_slice(&encoded);
}

fn get_u32(bytes: &[u8], offset: usize, is_little_endian: bool) -> u32 {
    let encoded: [u8; 4] = bytes[offset..offset + 4].try_into().expect("u32 bytes");
    if is_little_endian {
        u32::from_le_bytes(encoded)
    } else {
        u32::from_be_bytes(encoded)
    }
}

fn put_i64(bytes: &mut [u8], offset: usize, value: i64, is_little_endian: bool) {
    let encoded = if is_little_endian {
        value.to_le_bytes()
    } else {
        value.to_be_bytes()
    };
    bytes[offset..offset + 8].copy_from_slice(&encoded);
}

fn reason(error: JvmMonitorError) -> String {
    match error {
        JvmMonitorError::InvalidFormat(reason) => reason,
        other => panic!("unexpected {other:?}"),
    }
}

fn rejection(bytes: &[u8]) -> String {
    match parse_snapshot(bytes) {
        Ok(_) => panic!("accepted"),
        Err(error) => reason(error),
    }
}

/// One counter: the entry spans bytes 32 to 72, its name starts at 52 and its value at 64.
fn one_counter() -> Vec<u8> {
    fixture(true, true, 1, &[("test.long", FixtureValue::Long(42))])
}

/// One string: the entry spans bytes 32 to 72, its name starts at 52 and its value at 64.
fn one_string() -> Vec<u8> {
    fixture(true, true, 1, &[("test.text", FixtureValue::String("hello"))])
}

#[test]
fn prologue_fields_are_read_in_both_byte_orders() {
    for little in [true, false] {
        let mut bytes = fixture(little, true, -5, &[("test.long", FixtureValue::Long(42))]);
        put_u32(&mut bytes, 12, 99, little);
        let expected = PerfHeader {
            is_little_endian: little,
            accessible: true,
            used: 72,
            overflow: 99,
            modification_timestamp: -5,
            entry_offset: 32,
            num_entries: 1,
        };
        assert_eq!(parse_header(&bytes).expect("prologue"), expected);
        assert_eq!(PerfMemory::new(bytes).header().expect("prologue"), expected);
    }
}

#[test]
fn malformed_prologues_say_why() {
    assert_eq!(rejection(&[0_u8; 31]), "perfdata prologue is truncated");
    assert_eq!(
        reason(PerfMemory::new(vec![0; 31]).header().expect_err("too short")),
        "could not read perfdata prologue"
    );
    let valid = one_counter();
    let mut bytes = valid.clone();
    bytes[3] = 0;
    assert_eq!(rejection(&bytes), "invalid magic number");
    let mut bytes = valid.clone();
    bytes[4] = 7;
    assert_eq!(rejection(&bytes), "invalid byte-order marker 7");
    let mut bytes = valid.clone();
    bytes[6] = 13;
    assert_eq!(rejection(&bytes), "unsupported perfdata version 2.13");
    let mut bytes = valid.clone();
    bytes[7] = 0;
    assert_eq!(rejection(&bytes), "target perfdata is not accessible");
}

#[test]
fn malformed_layouts_say_why() {
    let valid = one_counter();
    for (offset, value, expected) in [
        (8, 31, "used bytes 31 outside mapping length 4096"),
        (8, 4097, "used bytes 4097 outside mapping length 4096"),
        (24, 28, "invalid entry offset 28 for used size 72"),
        (24, 34, "invalid entry offset 34 for used size 72"),
        (24, 76, "invalid entry offset 76 for used size 72"),
        (28, 3, "entry count 3 exceeds structural maximum 2"),
        (28, 0, "parsed entries end at 32, but used data ends at 72"),
    ] {
        let mut bytes = valid.clone();
        put_u32(&mut bytes, offset, value, true);
        assert_eq!(rejection(&bytes), expected);
    }
}

#[test]
fn malformed_entries_say_why() {
    let valid = one_counter();
    for (offset, value, expected) in [
        (32, 16, "entry 0 has invalid length 16"),
        (32, 38, "entry 0 has invalid length 38"),
        (32, 44, "entry 0 extends beyond used data"),
        (36, 16, "entry 0 has invalid name/data offsets 16/32"),
        (48, 20, "entry 0 has invalid name/data offsets 20/20"),
        (48, 44, "entry 0 has invalid name/data offsets 20/44"),
        (48, 36, "long entry test.long does not contain eight data bytes"),
    ] {
        let mut bytes = valid.clone();
        put_u32(&mut bytes, offset, value, true);
        assert_eq!(rejection(&bytes), expected);
    }
    let mut bytes = valid.clone();
    bytes[52] = 0;
    assert_eq!(rejection(&bytes), "entry 0 has an empty name");
    let mut bytes = valid.clone();
    bytes[52..64].fill(b'x');
    assert_eq!(rejection(&bytes), "entry 0 name is not NUL-terminated");
    let mut bytes = valid.clone();
    bytes[53] = 0xff;
    assert_eq!(rejection(&bytes), "entry 0 name is not valid UTF-8");
    let mut bytes = valid;
    put_u32(&mut bytes, 28, 2, true);
    assert_eq!(rejection(&bytes), "entry 1 header exceeds used data");
}

#[test]
fn malformed_strings_say_why() {
    let valid = one_string();
    assert!(parse_snapshot(&valid).is_ok());
    let mut bytes = valid.clone();
    bytes[46] = 1;
    assert_eq!(rejection(&bytes), "byte-vector entry test.text does not have string units");
    let mut bytes = valid.clone();
    put_u32(&mut bytes, 40, 9, true);
    assert_eq!(rejection(&bytes), "byte-vector entry test.text exceeds its entry");
    let mut bytes = valid;
    put_u32(&mut bytes, 40, 16 * 1024 * 1024 + 1, true);
    assert_eq!(
        rejection(&bytes),
        "byte-vector entry test.text exceeds the supported string size"
    );
}

#[test]
fn a_name_must_not_occur_twice() {
    let entry = ("test.long", FixtureValue::Long(1));
    let bytes = fixture(true, true, 1, &[entry, entry]);
    assert_eq!(rejection(&bytes), "duplicate perfdata entry test.long");
}

#[test]
fn an_overlong_name_region_is_refused() {
    let mut bytes = vec![0_u8; 32 + 70_000];
    let used = bytes.len() as u32;
    bytes[0..4].copy_from_slice(&0xcafec0c0_u32.to_be_bytes());
    bytes[4] = 1;
    bytes[5] = 2;
    bytes[7] = 1;
    put_u32(&mut bytes, 8, used, true);
    put_u32(&mut bytes, 24, 32, true);
    put_u32(&mut bytes, 28, 1, true);
    put_u32(&mut bytes, 32, 70_000, true);
    put_u32(&mut bytes, 36, 20, true);
    put_u32(&mut bytes, 48, 20 + 64 * 1024 + 1, true);
    bytes[44] = b'J';
    bytes[52] = b'x';
    assert_eq!(rejection(&bytes), "entry 0 name region is too large");
    put_u32(&mut bytes, 48, 20 + 64 * 1024, true);
    assert!(parse_snapshot(&bytes).is_ok());
}

#[test]
fn entries_keep_their_place_and_their_order() {
    let bytes = fixture(
        true,
        true,
        1,
        &[
            ("second.name", FixtureValue::Long(7)),
            ("first.name", FixtureValue::String("text")),
        ],
    );
    let header = parse_header(&bytes).expect("prologue");
    let index = parse_index(&bytes, &header).expect("index");
    assert_eq!(index.len(), 2);
    assert_eq!(index.name(0), "second.name");
    assert_eq!(index.name(1), "first.name");
    let long = index.get("second.name").expect("counter");
    assert!(long.holds_long() && !long.holds_string());
    assert_eq!(long.data_offset, 64);
    let text = index.get("first.name").expect("string");
    assert!(text.holds_string() && !text.holds_long());
    assert_eq!(text.vector_length, 5);
    assert_eq!(index.get("third.name"), None);
}

#[test]
fn an_index_does_not_depend_on_values() {
    let bytes = fixture(
        true,
        true,
        1,
        &[
            ("test.long", FixtureValue::Long(7)),
            ("test.text", FixtureValue::String("text")),
        ],
    );
    let header = parse_header(&bytes).expect("prologue");
    let index = parse_index(&bytes, &header).expect("index");
    let mut later = bytes.clone();
    later[0..32].fill(0xff);
    later[header.used..].fill(0xff);
    let long = index.get("test.long").expect("counter").data_offset;
    later[long..long + 8].fill(0xff);
    let text = index.get("test.text").expect("string").data_offset;
    later[text..header.used].fill(b'x');
    let again = parse_index(&later, &header).expect("index");
    assert_eq!(again.len(), index.len());
    for position in 0..index.len() {
        assert_eq!(again.name(position), index.name(position));
        assert_eq!(again.get(index.name(position)), index.get(index.name(position)));
        assert!(!index.name(position).is_empty() && !index.name(position).contains('\0'));
    }
}

#[test]
fn memory_reads_stay_within_the_image() {
    let memory = PerfMemory::new(vec![1, 0, 0, 0, 0, 0, 0, 0x80, b'a', 0, b'b']);
    assert_eq!(memory.read_i64(0, true), Some(i64::MIN + 1));
    assert_eq!(memory.read_i64(0, false), Some(0x0100_0000_0000_0080));
    assert_eq!(memory.read_i64(4, true), None);
    assert_eq!(memory.read_i64(usize::MAX, true), None);
    assert_eq!(memory.read_string(8, 3).as_deref(), Some("a"));
    assert_eq!(memory.read_string(8, 1).as_deref(), Some("a"));
    assert_eq!(memory.read_string(9, 2).as_deref(), Some(""));
    assert_eq!(memory.read_string(9, 3), None);
    assert_eq!(memory.read_string(1, usize::MAX), None);
    assert_eq!(memory.is_accessible(), Some(true));
    assert_eq!(PerfMemory::new(vec![1; 7]).is_accessible(), None);
}

#[test]
fn text_that_is_not_utf8_is_read_lossily() {
    let memory = PerfMemory::new(vec![b'a', 0xff, b'b', 0]);
    assert_eq!(memory.read_string(0, 4).as_deref(), Some("a\u{fffd}b"));
    let memory = PerfMemory::new("héllo".as_bytes().to_vec());
    assert_eq!(memory.read_string(0, 6).as_deref(), Some("héllo"));
}

#[test]
fn sizes_outside_the_supported_range_are_refused() {
    assert!(PerfMemory::check_file_size(32).is_ok());
    assert!(PerfMemory::check_file_size(64 * 1024 * 1024).is_ok());
    assert_eq!(
        reason(PerfMemory::check_file_size(31).expect_err("too small")),
        "perfdata file size 31 is outside the supported range"
    );
    assert!(PerfMemory::check_mapping_size(4096).is_ok());
    assert_eq!(
        reason(PerfMemory::check_mapping_size(64 * 1024 * 1024 + 1).expect_err("too large")),
        "mapping size 67108865 is outside the supported range"
    );
}

/// Captures from the given images, and tells how many were looked at.
fn capture(images: &[Vec<u8>]) -> (usize, Result<(i64, usize), String>) {
    let mut capture = Capture::new();
    for (looked, bytes) in images.iter().enumerate() {
        match capture.advance(&PerfMemory::new(bytes.clone())) {
            CaptureProgress::Pending(next) => capture = next,
            CaptureProgress::Done(Ok((header, index))) => {
                return (looked + 1, Ok((header.modification_timestamp, index.len())));
            }
            CaptureProgress::Done(Err(error)) => return (looked + 1, Err(reason(error))),
        }
    }
    panic!("the capture did not end");
}

#[test]
fn still_perfdata_are_captured_after_two_looks() {
    let bytes = one_counter();
    assert_eq!(capture(&[bytes.clone(), bytes]), (2, Ok((1, 1))));
}

#[test]
fn a_capture_retries_while_the_structure_changes() {
    let first = one_counter();
    let second = fixture(true, true, 2, &[("test.long", FixtureValue::Long(42))]);
    let mut capture_of = Capture::new();
    assert!(!capture_of.is_retry());
    for bytes in [&first, &second] {
        match capture_of.advance(&PerfMemory::new(bytes.clone())) {
            CaptureProgress::Pending(next) => capture_of = next,
            CaptureProgress::Done(_) => panic!("ended early"),
        }
    }
    assert!(capture_of.is_retry());
    assert_eq!(
        capture(&[first.clone(), second.clone(), second.clone(), second.clone()]),
        (4, Ok((2, 1)))
    );
    let mut images = Vec::new();
    for _ in 0..5 {
        images.push(first.clone());
        images.push(second.clone());
    }
    assert_eq!(
        capture(&images),
        (
            10,
            Err("perfdata structure kept changing while the index was captured".to_owned())
        )
    );
}

#[test]
fn a_capture_reports_the_last_parse_error() {
    let mut bytes = one_counter();
    bytes[52] = 0;
    assert_eq!(
        capture(&vec![bytes; 10]),
        (10, Err("entry 0 has an empty name".to_owned()))
    );
}

#[test]
fn a_capture_ends_at_perfdata_that_are_not_accessible() {
    let bytes = fixture(true, false, 1, &[]);
    assert_eq!(
        capture(&[bytes]),
        (1, Err("target perfdata is not accessible".to_owned()))
    );
}

#[test]
fn overflow_does_not_count_as_a_change_of_structure() {
    let bytes = one_counter();
    let mut overflowed = bytes.clone();
    put_u32(&mut overflowed, 12, 5, true);
    assert_eq!(get_u32(&overflowed, 12, true), 5);
    assert_eq!(capture(&[bytes, overflowed]), (2, Ok((1, 1))));
}
