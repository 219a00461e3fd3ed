//! Decoding and flattening a small profile that exercises every table.

use pprof_core::decoded::{Decoded, PprofError};
use pprof_core::proto;
use pprof_core::rows::{LineRef, StackRow};

fn put_i64(tag: u32, value: i64, out: &mut Vec<u8>) {
    if value != 0 {
        prost::encoding::int64::encode(tag, &value, out);
    }
}

fn put_u64(tag: u32, value: u64, out: &mut Vec<u8>) {
    if value != 0 {
        prost::encoding::uint64::encode(tag, &value, out);
    }
}

fn put_bool(tag: u32, value: bool, out: &mut Vec<u8>) {
    if value {
        prost::encoding::bool::encode(tag, &value, out);
    }
}

fn value_type_bytes(m: &proto::ValueType) -> Vec<u8> {
    let mut out = Vec::new();
    put_i64(1, m.type_, &mut out);
    put_i64(2, m.unit, &mut out);
    out
}

fn label_bytes(m: &proto::Label) -> Vec<u8> {
    let mut out = Vec::new();
    put_i64(1, m.key, &mut out);
    put_i64(2, m.str, &mut out);
    put_i64(3, m.num, &mut out);
    put_i64(4, m.num_unit, &mut out);
    out
}

fn sample_bytes(m: &proto::Sample) -> Vec<u8> {
    let mut out = Vec::new();
    prost::encoding::uint64::encode_packed(1, &m.location_id, &mut out);
    prost::encoding::int64::encode_packed(2, &m.value, &mut out);
    for label in &m.label {
        prost::encoding::bytes::encode(3, &label_bytes(label), &mut out);
    }
    out
}

fn mapping_bytes(m: &proto::Mapping) -> Vec<u8> {
    let mut out = Vec::new();
    put_u64(1, m.id, &mut out);
    put_u64(2, m.memory_start, &mut out);
    put_u64(3, m.memory_limit, &mut out);
    put_u64(4, m.file_offset, &mut out);
    put_i64(5, m.filename, &mut out);
    put_i64(6, m.build_id, &mut out);
    put_bool(7, m.has_functions, &mut out);
    put_bool(8, m.has_filenames, &mut out);
    put_bool(9, m.has_line_numbers, &mut out);
    put_bool(10, m.has_inline_frames, &mut out);
    out
}

fn location_bytes(m: &proto::Location) -> Vec<u8> {
    let mut out = Vec::new();
    put_u64(1, m.id, &mut out);
    put_u64(2, m.mapping_id, &mut out);
    put_u64(3, m.address, &mut out);
    for line in &m.line {
        let mut bytes = Vec::new();
        put_u64(1, line.function_id, &mut bytes);
        put_i64(2, line.line, &mut bytes);
        put_i64(3, line.column, &mut bytes);
        prost::encoding::bytes::encode(4, &bytes, &mut out);
    }
    put_bool(5, m.is_folded, &mut out);
    out
}

fn function_bytes(m: &proto::Function) -> Vec<u8> {
    let mut out = Vec::new();
    put_u64(1, m.id, &mut out);
    put_i64(2, m.name, &mut out);
    put_i64(3, m.system_name, &mut out);
    put_i64(4, m.filename, &mut out);
    put_i64(5, m.start_line, &mut out);
    out
}

/// The bytes of a profile, written with prost.
fn encode(p: &proto::Profile) -> Vec<u8> {
    let mut out = Vec::new();
    for m in &p.sample_type {
        prost::encoding::bytes::encode(1, &value_type_bytes(m), &mut out);
    }
    for m in &p.sample {
        prost::encoding::bytes::encode(2, &sample_bytes(m), &mut out);
    }
    for m in &p.mapping {
        prost::encoding::bytes::encode(3, &mapping_bytes(m), &mut out);
    }
    for m in &p.location {
        prost::encoding::bytes::encode(4, &location_bytes(m), &mut out);
    }
    for m in &p.function {
        prost::encoding::bytes::encode(5, &function_bytes(m), &mut out);
    }
    prost::encoding::string::encode_repeated(6, &p.string_table, &mut out);
    put_i64(7, p.drop_frames, &mut out);
    put_i64(8, p.keep_frames, &mut out);
    put_i64(9, p.time_nanos, &mut out);
    put_i64(10, p.duration_nanos, &mut out);
    if let Some(m) = &p.period_type {
        prost::encoding::bytes::encode(11, &value_type_bytes(m), &mut out);
    }
    put_i64(12, p.period, &mut out);
    prost::encoding::int64::encode_packed(13, &p.comment, &mut out);
    put_i64(14, p.default_sample_type, &mut out);
    put_i64(15, p.doc_url, &mut out);
    out
}

fn gzip_bytes(body: &[u8]) -> Vec<u8> {
    let mut enc = flate2::write::GzEncoder::new(Vec::new(), flate2::Compression::default());
    std::io::Write::write_all(&mut enc, body).unwrap();
    enc.finish().unwrap()
}

/// One CPU sample with two inlined frames in one location, a second unsymbolized location with
/// an address, a mapping with a build id, and a label.
fn synthetic() -> proto::Profile {
    // string_table[0] must be "".
    let strings = vec![
        "".to_string(),            // 0
        "samples".to_string(),     // 1
        "count".to_string(),       // 2
        "cpu".to_string(),         // 3
        "nanoseconds".to_string(), // 4
        "main".to_string(),        // 5
        "main.go".to_string(),     // 6
        "inlined".to_string(),     // 7
        "thread".to_string(),      // 8 (label key)
        "worker".to_string(),      // 9 (label value)
        "abc123".to_string(),      // 10 (build id)
        "/bin/app".to_string(),    // 11 (mapping filename)
    ];
    proto::Profile {
        sample_type: vec![
            proto::ValueType { type_: 1, unit: 2 },
            proto::ValueType { type_: 3, unit: 4 },
        ],
        sample: vec![proto::Sample {
            location_id: vec![1, 2],
            value: vec![10, 2000],
            label: vec![proto::Label { key: 8, str: 9, num: 0, num_unit: 0 }],
        }],
        mapping: vec![proto::Mapping {
            id: 1,
            memory_start: 0x400000,
            memory_limit: 0x500000,
            file_offset: 0,
            filename: 11,
            build_id: 10,
            ..Default::default()
        }],
        location: vec![
            proto::Location {
                id: 1,
                mapping_id: 1,
                address: 0x401000,
                line: vec![
                    proto::Line { function_id: 7, line: 42, column: 0 },
                    proto::Line { function_id: 5, line: 10, column: 0 },
                ],
                is_folded: false,
            },
            proto::Location {
                id: 2,
                mapping_id: 1,
                address: 0x402000,
                line: vec![],
                is_folded: false,
            },
        ],
        function: vec![
            proto::Function { id: 5, name: 5, system_name: 5, filename: 6, start_line: 1 },
            proto::Function { id: 7, name: 7, system_name: 7, filename: 6, start_line: 40 },
        ],
        string_table: strings,
        period: 10_000_000,
        period_type: Some(proto::ValueType { type_: 3, unit: 4 }),
        duration_nanos: 1_000_000_000,
        time_nanos: 1_700_000_000_000_000_000,
        default_sample_type: 3,
        ..Default::default()
    }
}

fn gzip(profile: &proto::Profile) -> Vec<u8> {
    gzip_bytes(&encode(profile))
}

fn decoded(profile: &proto::Profile) -> Decoded {
    match Decoded::from_bytes(&encode(profile)) {
        Ok(d) => d,
        Err(e) => panic!("{}", e.to_string()),
    }
}

fn error_of(bytes: &[u8]) -> PprofError {
    match Decoded::from_bytes(bytes) {
        Ok(_) => panic!("decoded"),
        Err(e) => e,
    }
}

fn open(bytes: &[u8]) -> Decoded {
    match Decoded::from_bytes(bytes) {
        Ok(d) => d,
        Err(e) => panic!("{}", e.to_string()),
    }
}

#[test]
fn decodes_gzip_and_raw_identically() {
    let p = synthetic();
    let raw = encode(&p);
    let from_raw = open(&raw);
    let from_gz = open(&gzip(&p));
    assert_eq!(from_raw.stacks(), from_gz.stacks());
}

#[test]
fn meta_resolves_value_types() {
    let d = open(&gzip(&synthetic()));
    let m = d.meta();
    assert_eq!(m.sample_types.len(), 2);
    assert_eq!(m.sample_types[0].type_, "samples");
    assert_eq!(m.sample_types[1].unit, "nanoseconds");
    assert_eq!(m.period, 10_000_000);
    assert_eq!(m.period_type.unwrap().type_, "cpu");
    assert_eq!(m.default_sample_type.as_deref(), Some("cpu"));
}

#[test]
fn stacks_flatten_inlined_and_unsymbolized_frames() {
    let d = open(&gzip(&synthetic()));
    let stacks = d.stacks();
    assert_eq!(stacks.len(), 1);
    let s = &stacks[0];
    assert_eq!(s.sample_id, 1);
    assert_eq!(s.value, vec![10, 2000]);
    assert_eq!(s.labels, vec![("thread".to_string(), "worker".to_string())]);
    // Location 1 has two inlined lines (innermost first), location 2 is unsymbolized (address
    // only): 3 frames in total.
    assert_eq!(s.frames.len(), 3);
    assert_eq!(s.frames[0].function.as_deref(), Some("inlined"));
    assert_eq!(s.frames[0].line, Some(42));
    assert_eq!(s.frames[0].address, 0x401000);
    assert_eq!(s.frames[1].function.as_deref(), Some("main"));
    assert_eq!(s.frames[2].function, None);
    assert_eq!(s.frames[2].address, 0x402000);
}

#[test]
fn tables_pass_ids_through() {
    let d = open(&gzip(&synthetic()));
    let funcs = d.functions();
    assert_eq!(funcs.len(), 2);
    assert!(funcs
        .iter()
        .any(|f| f.function_id == 7 && f.name.as_deref() == Some("inlined")));

    let locs = d.locations();
    let l1 = locs.iter().find(|l| l.location_id == 1).unwrap();
    assert_eq!(l1.mapping_id, 1);
    assert_eq!(
        l1.lines,
        vec![
            LineRef { function_id: 7, line: 42 },
            LineRef { function_id: 5, line: 10 },
        ]
    );

    let maps = d.mappings();
    assert_eq!(maps.len(), 1);
    assert_eq!(maps[0].build_id.as_deref(), Some("abc123"));
    assert_eq!(maps[0].filename.as_deref(), Some("/bin/app"));
}

#[test]
fn empty_input_is_an_error_not_a_panic() {
    assert!(matches!(Decoded::from_bytes(&[]), Err(PprofError::Empty)));
}

#[test]
fn garbage_input_is_an_error_not_a_panic() {
    // Random non-gzip, non-proto bytes must return Err, never panic.
    let junk = [0xFFu8; 64];
    assert!(Decoded::from_bytes(&junk).is_err());
}

#[test]
fn all_rows_of_the_gzip_and_the_raw_profile_are_equal() {
    let p = synthetic();
    let a = open(&encode(&p));
    let b = open(&gzip(&p));
    assert_eq!(a.meta(), b.meta());
    assert_eq!(a.stacks(), b.stacks());
    assert_eq!(a.samples(), b.samples());
    assert_eq!(a.functions(), b.functions());
    assert_eq!(a.locations(), b.locations());
    assert_eq!(a.mappings(), b.mappings());
}

#[test]
fn gzip_of_nothing_is_an_empty_profile() {
    let d = open(&gzip_bytes(&[]));
    assert!(d.stacks().is_empty());
    assert!(d.meta().sample_types.is_empty());
    assert_eq!(d.meta().period_type, None);
    assert_eq!(d.meta().default_sample_type, None);
}

#[test]
fn gzip_is_undone_once() {
    // The inner gzip is read as a message, and is none.
    let twice = gzip_bytes(&gzip(&synthetic()));
    assert!(matches!(error_of(&twice), PprofError::Decode(_)));
}

#[test]
fn one_magic_byte_is_not_gzip() {
    assert!(matches!(error_of(&[0x1f]), PprofError::Decode(_)));
    assert!(matches!(error_of(&[0x1f, 0x8a]), PprofError::Decode(_)));
    assert!(matches!(error_of(&[0x1f, 0x8b]), PprofError::Gunzip(_)));
}

#[test]
fn bytes_after_the_gzip_member_are_ignored() {
    let mut bytes = gzip(&synthetic());
    bytes.extend_from_slice(b"tail");
    assert_eq!(open(&bytes).stacks(), open(&encode(&synthetic())).stacks());
}

#[test]
fn failures_in_words() {
    assert_eq!(error_of(&[]).to_string(), "empty profile (zero bytes)");
    let mut truncated = gzip(&synthetic());
    truncated.truncate(truncated.len() / 2);
    let read_error = {
        let mut out = Vec::new();
        let mut decoder = flate2::read::GzDecoder::new(truncated.as_slice());
        std::io::Read::read_to_end(&mut decoder, &mut out).unwrap_err()
    };
    assert_eq!(
        error_of(&truncated).to_string(),
        format!("gzip decompression failed: {}", read_error)
    );
    assert_eq!(
        error_of(&[0xff]).to_string(),
        "pprof protobuf decode failed: failed to decode Protobuf message: invalid varint"
    );
}

#[test]
fn inflated_contents_decide() {
    let p = synthetic();
    match Decoded::from_inflated(Ok(encode(&p))) {
        Ok(d) => assert_eq!(d.stacks(), decoded(&p).stacks()),
        Err(e) => panic!("{}", e.to_string()),
    }
    match Decoded::from_inflated(Err("corrupt deflate stream".to_string())) {
        Ok(_) => panic!("decoded"),
        Err(e) => {
            assert_eq!(e.to_string(), "gzip decompression failed: corrupt deflate stream")
        }
    }
}

#[test]
fn string_indices_outside_the_table_are_no_string() {
    let mut p = synthetic();
    p.string_table.push(String::new());
    let last = p.string_table.len() as i64 - 1;
    let d = decoded(&p);
    assert_eq!(d.str(-1), None);
    assert_eq!(d.str(i64::MIN), None);
    assert_eq!(d.str(0), None);
    assert_eq!(d.str(1), Some("samples"));
    assert_eq!(d.str(last - 1), Some("/bin/app"));
    assert_eq!(d.str(last), None);
    assert_eq!(d.str(last + 1), None);
    assert_eq!(d.str(i64::MAX), None);
}

#[test]
fn unknown_value_type_strings_are_empty() {
    let mut p = synthetic();
    p.sample_type = vec![proto::ValueType { type_: 99, unit: 4 }];
    let m = decoded(&p).meta();
    assert_eq!(m.sample_types[0].type_, "");
    assert_eq!(m.sample_types[0].unit, "nanoseconds");
}

fn labels_of(label: Vec<proto::Label>) -> Vec<(String, String)> {
    let mut p = synthetic();
    p.sample[0].label = label;
    let d = decoded(&p);
    let labels = d.stacks().remove(0).labels;
    assert_eq!(labels, d.samples().remove(0).labels);
    labels
}

fn pair(key: &str, value: &str) -> (String, String) {
    (key.to_string(), value.to_string())
}

#[test]
fn numeric_labels_are_written_out() {
    assert_eq!(
        labels_of(vec![
            proto::Label { key: 1, str: 0, num: 4096, num_unit: 0 },
            proto::Label { key: 2, str: 0, num: -7, num_unit: 4 },
            proto::Label { key: 3, str: 0, num: i64::MIN, num_unit: 99 },
            proto::Label { key: 4, str: 0, num: 0, num_unit: 0 },
            proto::Label { key: 5, str: 9, num: 5, num_unit: 4 },
            proto::Label { key: 6, str: 99, num: 5, num_unit: 4 },
            proto::Label { key: 7, str: 0, num: i64::MAX, num_unit: 0 },
        ]),
        vec![
            pair("samples", "4096"),
            pair("count", "-7 nanoseconds"),
            pair("cpu", "-9223372036854775808"),
            pair("nanoseconds", "0"),
            pair("main", "worker"),
            pair("main.go", ""),
            pair("inlined", "9223372036854775807"),
        ]
    );
}

#[test]
fn the_first_label_of_a_key_wins() {
    assert_eq!(
        labels_of(vec![
            proto::Label { key: 8, str: 9, num: 0, num_unit: 0 },
            proto::Label { key: 1, str: 2, num: 0, num_unit: 0 },
            proto::Label { key: 8, str: 3, num: 0, num_unit: 0 },
            // Both have no key string, so they have the same, empty key.
            proto::Label { key: 99, str: 3, num: 0, num_unit: 0 },
            proto::Label { key: 0, str: 4, num: 0, num_unit: 0 },
        ]),
        vec![pair("thread", "worker"), pair("samples", "count"), pair("", "cpu")]
    );
}

#[test]
fn dangling_ids_give_bare_frames() {
    let mut p = synthetic();
    p.sample[0].location_id = vec![77, 1];
    p.function.remove(1);
    let frames = decoded(&p).stacks().remove(0).frames;
    assert_eq!(frames.len(), 3);
    assert_eq!((frames[0].function.as_deref(), frames[0].line, frames[0].address), (None, None, 0));
    // Function 7 is gone: its line and its address stay.
    assert_eq!(frames[1].function, None);
    assert_eq!(frames[1].filename, None);
    assert_eq!(frames[1].line, Some(42));
    assert_eq!(frames[1].address, 0x401000);
    assert_eq!(frames[2].function.as_deref(), Some("main"));
}

#[test]
fn the_last_entry_of_an_id_counts() {
    let mut p = synthetic();
    p.location.push(proto::Location { id: 2, address: 0x999, ..Default::default() });
    p.function.push(proto::Function { id: 5, name: 7, ..Default::default() });
    let d = decoded(&p);
    let frames = d.stacks().remove(0).frames;
    assert_eq!(frames[2].address, 0x999);
    assert_eq!(frames[1].function.as_deref(), Some("inlined"));
    assert_eq!(frames[1].filename, None);
    assert_eq!(d.locations().len(), 3);
    assert_eq!(d.functions().len(), 3);
}

#[test]
fn sample_ids_count_from_one() {
    let mut p = synthetic();
    p.sample.push(proto::Sample { value: vec![3, 4], ..Default::default() });
    p.sample.push(proto::Sample::default());
    let d = decoded(&p);
    let stacks: Vec<StackRow> = d.stacks();
    let ids: Vec<i64> = stacks.iter().map(|s| s.sample_id).collect();
    assert_eq!(ids, vec![1, 2, 3]);
    let ids: Vec<i64> = d.samples().iter().map(|s| s.sample_id).collect();
    assert_eq!(ids, vec![1, 2, 3]);
    assert!(stacks[1].frames.is_empty());
    assert_eq!(stacks[1].value, vec![3, 4]);
    assert!(stacks[2].value.is_empty());
}

#[test]
fn frames_are_the_join_of_the_raw_tables() {
    let d = decoded(&synthetic());
    let locations = d.locations();
    let functions = d.functions();
    for (stack, sample) in d.stacks().iter().zip(d.samples()) {
        let mut joined = Vec::new();
        for id in &sample.location_ids {
            let location = locations.iter().rev().find(|l| l.location_id == *id).unwrap();
            if location.lines.is_empty() {
                joined.push((None, None, location.address));
            }
            for line in &location.lines {
                let f = functions.iter().rev().find(|f| f.function_id == line.function_id).unwrap();
                joined.push((f.name.clone(), Some(line.line), location.address));
            }
        }
        let frames: Vec<_> = stack
            .frames
            .iter()
            .map(|f| (f.function.clone(), f.line, f.address))
            .collect();
        assert_eq!(frames, joined);
    }
}

#[test]
fn functions_and_mappings_keep_their_numbers() {
    let d = decoded(&synthetic());
    let f = d.functions().remove(1);
    assert_eq!(f.system_name.as_deref(), Some("inlined"));
    assert_eq!(f.filename.as_deref(), Some("main.go"));
    assert_eq!(f.start_line, 40);
    let m = d.mappings().remove(0);
    assert_eq!((m.mapping_id, m.memory_start, m.memory_limit, m.file_offset), (1, 0x400000, 0x500000, 0));
    let meta = d.meta();
    assert_eq!(meta.duration_nanos, 1_000_000_000);
    assert_eq!(meta.time_nanos, 1_700_000_000_000_000_000);
}

#[test]
fn value_types_resolve_on_their_own() {
    let d = decoded(&synthetic());
    let v = d.value_type(&proto::ValueType { type_: 3, unit: 4 });
    assert_eq!((v.type_.as_str(), v.unit.as_str()), ("cpu", "nanoseconds"));
}

#[test]
fn frames_are_appended() {
    let d = decoded(&synthetic());
    let mut frames = Vec::new();
    d.frames_for(2, &mut frames);
    d.frames_for(1, &mut frames);
    let lines: Vec<Option<i64>> = frames.iter().map(|f| f.line).collect();
    assert_eq!(lines, vec![None, Some(42), Some(10)]);
}
