//! Profiles of several producers: their shapes, and that no damage to one makes a panic.

use pprof_core::decoded::Decoded;
use pprof_core::meta;
use pprof_core::proto;

fn put_i64(tag: u32, value: i64, out: &mut Vec<u8>) {
    if value != 0 {
        prost::encoding::int64::encode(tag, &value, out);
    }
}

fn put_u64(tag: u32, value: u64, out: &mut Vec<u8>) {
    if value != 0 {
        prost::encoding::uint64::encode(tag, &value, out);
    }
}

fn put_bool(tag: u32, value: bool, out: &mut Vec<u8>) {
    if value {
        prost::encoding::bool::encode(tag, &value, out);
    }
}

fn value_type_bytes(m: &proto::ValueType) -> Vec<u8> {
    let mut out = Vec::new();
    put_i64(1, m.type_, &mut out);
    put_i64(2, m.unit, &mut out);
    out
}

fn label_bytes(m: &proto::Label) -> Vec<u8> {
    let mut out = Vec::new();
    put_i64(1, m.key, &mut out);
    put_i64(2, m.str, &mut out);
    put_i64(3, m.num, &mut out);
    put_i64(4, m.num_unit, &mut out);
    out
}

fn sample_bytes(m: &proto::Sample) -> Vec<u8> {
    let mut out = Vec::new();
    prost::encoding::uint64::encode_packed(1, &m.location_id, &mut out);
    prost::encoding::int64::encode_packed(2, &m.value, &mut out);
    for label in &m.label {
        prost::encoding::bytes::encode(3, &label_bytes(label), &mut out);
    }
    out
}

fn mapping_bytes(m: &proto::Mapping) -> Vec<u8> {
    let mut out = Vec::new();
    put_u64(1, m.id, &mut out);
    put_u64(2, m.memory_start, &mut out);
    put_u64(3, m.memory_limit, &mut out);
    put_u64(4, m.file_offset, &mut out);
    put_i64(5, m.filename, &mut out);
    put_i64(6, m.build_id, &mut out);
    put_bool(7, m.has_functions, &mut out);
    put_bool(8, m.has_filenames, &mut out);
    put_bool(9, m.has_line_numbers, &mut out);
    put_bool(10, m.has_inline_frames, &mut out);
    out
}

fn location_bytes(m: &proto::Location) -> Vec<u8> {
    let mut out = Vec::new();
    put_u64(1, m.id, &mut out);
    put_u64(2, m.mapping_id, &mut out);
    put_u64(3, m.address, &mut out);
    for line in &m.line {
        let mut bytes = Vec::new();
        put_u64(1, line.function_id, &mut bytes);
        put_i64(2, line.line, &mut bytes);
        put_i64(3, line.column, &mut bytes);
        prost::encoding::bytes::encode(4, &bytes, &mut out);
    }
    put_bool(5, m.is_folded, &mut out);
    out
}

fn function_bytes(m: &proto::Function) -> Vec<u8> {
    let mut out = Vec::new();
    put_u64(1, m.id, &mut out);
    put_i64(2, m.name, &mut out);
    put_i64(3, m.system_name, &mut out);
    put_i64(4, m.filename, &mut out);
    put_i64(5, m.start_line, &mut out);
    out
}

/// The bytes of a profile, written with prost.
fn encode(p: &proto::Profile) -> Vec<u8> {
    let mut out = Vec::new();
    for m in &p.sample_type {
        prost::encoding::bytes::encode(1, &value_type_bytes(m), &mut out);
    }
    for m in &p.sample {
        prost::encoding::bytes::encode(2, &sample_bytes(m), &mut out);
    }
    for m in &p.mapping {
        prost::encoding::bytes::encode(3, &mapping_bytes(m), &mut out);
    }
    for m in &p.location {
        prost::encoding::bytes::encode(4, &location_bytes(m), &mut out);
    }
    for m in &p.function {
        prost::encoding::bytes::encode(5, &function_bytes(m), &mut out);
    }
    prost::encoding::string::encode_repeated(6, &p.string_table, &mut out);
    put_i64(7, p.drop_frames, &mut out);
    put_i64(8, p.keep_frames, &mut out);
    put_i64(9, p.time_nanos, &mut out);
    put_i64(10, p.duration_nanos, &mut out);
    if let Some(m) = &p.period_type {
        prost::encoding::bytes::encode(11, &value_type_bytes(m), &mut out);
    }
    put_i64(12, p.period, &mut out);
    prost::encoding::int64::encode_packed(13, &p.comment, &mut out);
    put_i64(14, p.default_sample_type, &mut out);
    put_i64(15, p.doc_url, &mut out);
    out
}

fn gzip_bytes(body: &[u8]) -> Vec<u8> {
    let mut enc = flate2::write::GzEncoder::new(Vec::new(), flate2::Compression::default());
    std::io::Write::write_all(&mut enc, body).unwrap();
    enc.finish().unwrap()
}

fn from_base64(text: &str) -> Vec<u8> {
    let mut out = Vec::new();
    let mut bits: u32 = 0;
    let mut n = 0;
    for c in text.bytes() {
        let v = match c {
            b'A'..=b'Z' => c - b'A',
            b'a'..=b'z' => c - b'a' + 26,
            b'0'..=b'9' => c - b'0' + 52,
            b'+' => 62,
            b'/' => 63,
            _ => continue,
        };
        bits = bits << 6 | v as u32;
        n += 6;
        if n >= 8 {
            n -= 8;
            out.push((bits >> n) as u8);
            bits &= (1 << n) - 1;
        }
    }
    out
}

/// A profile of allocations whose one sample has a numeric label.
fn alloc_profile() -> Vec<u8> {
    let strings = ["", "alloc_objects", "count", "alloc_space", "bytes", "size_class", "main.alloc"];
    gzip_bytes(&encode(&proto::Profile {
        sample_type: vec![
            proto::ValueType { type_: 1, unit: 2 },
            proto::ValueType { type_: 3, unit: 4 },
        ],
        sample: vec![proto::Sample {
            location_id: vec![1],
            value: vec![2048, 4_194_304],
            label: vec![proto::Label { key: 5, str: 0, num: 4096, num_unit: 0 }],
        }],
        location: vec![proto::Location {
            id: 1,
            line: vec![proto::Line { function_id: 1, line: 9, column: 0 }],
            ..Default::default()
        }],
        function: vec![proto::Function { id: 1, name: 6, ..Default::default() }],
        string_table: strings.iter().map(|s| s.to_string()).collect(),
        ..Default::default()
    }))
}

/// A CPU profile in which `main.hotLoop` takes three times as long.
fn slower_cpu_profile() -> Vec<u8> {
    let strings = ["", "samples", "count", "cpu", "nanoseconds", "main.hotLoop", "main.parse"];
    gzip_bytes(&encode(&proto::Profile {
        sample_type: vec![
            proto::ValueType { type_: 1, unit: 2 },
            proto::ValueType { type_: 3, unit: 4 },
        ],
        sample: vec![
            proto::Sample { location_id: vec![1], value: vec![9, 90_000_000], label: vec![] },
            proto::Sample { location_id: vec![2], value: vec![1, 10_000_000], label: vec![] },
        ],
        location: vec![
            proto::Location {
                id: 1,
                line: vec![proto::Line { function_id: 1, line: 10, column: 0 }],
                ..Default::default()
            },
            proto::Location {
                id: 2,
                line: vec![proto::Line { function_id: 2, line: 20, column: 0 }],
                ..Default::default()
            },
        ],
        function: vec![
            proto::Function { id: 1, name: 5, ..Default::default() },
            proto::Function { id: 2, name: 6, ..Default::default() },
        ],
        string_table: strings.iter().map(|s| s.to_string()).collect(),
        ..Default::default()
    }))
}

fn fixture(name: &str) -> Vec<u8> {
    match name {
        "go_cpu.pb.gz" => from_base64(meta::GO_CPU_B64),
        "go_heap.pb.gz" => from_base64(meta::GO_HEAP_B64),
        "native.pb.gz" => from_base64(meta::NATIVE_B64),
        "alloc.pb.gz" => alloc_profile(),
        "go_cpu2.pb.gz" => slower_cpu_profile(),
        _ => panic!("no fixture {}", name),
    }
}

fn decode(name: &str) -> Decoded {
    match Decoded::from_bytes(&fixture(name)) {
        Ok(d) => d,
        Err(e) => panic!("decode {}: {}", name, e.to_string()),
    }
}

#[test]
fn go_cpu_shapes() {
    let d = decode("go_cpu.pb.gz");
    let m = d.meta();
    assert_eq!(m.sample_types.len(), 2);
    assert_eq!(m.sample_types[0].type_, "samples");
    assert_eq!(m.sample_types[0].unit, "count");
    assert_eq!(m.sample_types[1].type_, "cpu");
    assert_eq!(m.sample_types[1].unit, "nanoseconds");
    assert_eq!(m.default_sample_type.as_deref(), Some("cpu"));
    assert_eq!(m.period, 10_000_000);
    assert_eq!(m.period_type.unwrap().type_, "cpu");

    let stacks = d.stacks();
    assert_eq!(stacks.len(), 2);
    // The busy path is hotLoop <- work <- main (leaf first).
    let busy = stacks.iter().max_by_key(|s| s.value[1]).expect("a sample");
    assert_eq!(busy.frames.len(), 3);
    assert_eq!(busy.frames[0].function.as_deref(), Some("main.hotLoop"));
    assert_eq!(busy.frames[1].function.as_deref(), Some("main.work"));
    assert_eq!(busy.frames[2].function.as_deref(), Some("main.main"));
    assert_eq!(busy.frames[0].filename.as_deref(), Some("work.go"));
    assert_eq!(busy.value[1], 30_000_000);

    // value[1] is cpu nanoseconds; both samples are aligned to the 2 sample types.
    assert!(stacks.iter().all(|s| s.value.len() == 2));

    let funcs = d.functions();
    assert_eq!(funcs.len(), 4);
    assert!(funcs
        .iter()
        .any(|f| f.name.as_deref() == Some("main.parse")));

    let maps = d.mappings();
    assert_eq!(maps.len(), 1);
    assert_eq!(maps[0].filename.as_deref(), Some("/usr/local/bin/app"));
    assert!(maps[0].build_id.is_none());
}

#[test]
fn go_heap_is_multi_value_with_inlined_frames() {
    let d = decode("go_heap.pb.gz");
    let m = d.meta();
    assert_eq!(m.sample_types.len(), 4);
    let types: Vec<&str> = m.sample_types.iter().map(|t| t.type_.as_str()).collect();
    assert_eq!(
        types,
        vec![
            "alloc_objects",
            "alloc_space",
            "inuse_objects",
            "inuse_space"
        ]
    );
    assert_eq!(m.default_sample_type.as_deref(), Some("inuse_space"));

    let stacks = d.stacks();
    assert_eq!(stacks.len(), 1);
    let s = &stacks[0];
    assert_eq!(s.value, vec![100, 1_048_576, 40, 409_600]);
    // The allocating location carries two inlined frames (makeBuf inlined into
    // allocate), then main: 3 frames, innermost first.
    assert_eq!(s.frames.len(), 3);
    assert_eq!(s.frames[0].function.as_deref(), Some("main.makeBuf"));
    assert_eq!(s.frames[1].function.as_deref(), Some("main.allocate"));
    assert_eq!(s.frames[2].function.as_deref(), Some("main.main"));
}

#[test]
fn alloc_multi_value_with_label() {
    let d = decode("alloc.pb.gz");
    let m = d.meta();
    assert_eq!(m.sample_types.len(), 2);
    assert_eq!(m.sample_types[1].type_, "alloc_space");

    let stacks = d.stacks();
    assert_eq!(stacks.len(), 1);
    assert_eq!(stacks[0].value, vec![2048, 4_194_304]);
    assert_eq!(
        stacks[0].labels,
        vec![("size_class".to_string(), "4096".to_string())]
    );
}

#[test]
fn native_is_unsymbolized_with_build_ids() {
    let d = decode("native.pb.gz");
    let maps = d.mappings();
    assert_eq!(maps.len(), 2);
    let build_ids: Vec<&str> = maps.iter().filter_map(|m| m.build_id.as_deref()).collect();
    assert!(build_ids.contains(&"a1b2c3d4e5f6"));
    assert!(build_ids.contains(&"deadbeefcafe"));

    // Locations are address-only (no line table).
    let locs = d.locations();
    assert_eq!(locs.len(), 3);
    assert!(locs.iter().all(|l| l.lines.is_empty()));
    assert!(locs.iter().all(|l| l.address != 0));

    // Stacks have address-only frames: function/filename NULL, address present.
    let stacks = d.stacks();
    assert_eq!(stacks.len(), 2);
    for s in &stacks {
        for fr in &s.frames {
            assert!(fr.function.is_none(), "native frames are unsymbolized");
            assert!(fr.address != 0, "native frames keep their address");
        }
    }
}

#[test]
fn two_profile_regression_diff() {
    // hotLoop's cpu_ns grows 3x between the baseline (go_cpu) and candidate (go_cpu2) builds.
    let leaf_ns = |name: &str| -> i64 {
        decode(name)
            .stacks()
            .into_iter()
            .filter(|s| {
                s.frames.first().and_then(|f| f.function.as_deref()) == Some("main.hotLoop")
            })
            .map(|s| s.value[1])
            .sum()
    };
    let base = leaf_ns("go_cpu.pb.gz");
    let cand = leaf_ns("go_cpu2.pb.gz");
    assert_eq!(base, 30_000_000);
    assert_eq!(cand, 90_000_000);
    assert_eq!(cand - base, 60_000_000);
}

/// Drives every flattener.
fn exercise(d: &Decoded) {
    let _ = d.meta();
    let _ = d.stacks();
    let _ = d.samples();
    let _ = d.functions();
    let _ = d.locations();
    let _ = d.mappings();
}

const NAMES: [&str; 5] =
    ["go_cpu.pb.gz", "go_heap.pb.gz", "alloc.pb.gz", "native.pb.gz", "go_cpu2.pb.gz"];

#[test]
fn truncated_profiles_do_not_panic() {
    for name in NAMES {
        let bytes = fixture(name);
        for n in 0..bytes.len() {
            if let Ok(d) = Decoded::from_bytes(&bytes[..n]) {
                exercise(&d);
            }
        }
    }
}

#[test]
fn arbitrary_bytes_do_not_panic() {
    let mut state: u64 = 0x2545F4914F6CDD1D;
    for n in 0..2000usize {
        let mut bytes = Vec::new();
        for _ in 0..n % 300 {
            state ^= state << 13;
            state ^= state >> 7;
            state ^= state << 17;
            bytes.push(state as u8);
        }
        if let Ok(d) = Decoded::from_bytes(&bytes) {
            exercise(&d);
        }
    }
}

#[test]
fn tails_and_large_inputs_do_not_panic() {
    let mut bytes = fixture("go_cpu.pb.gz");
    bytes.extend_from_slice(&[0xA5; 8000]);
    match Decoded::from_bytes(&bytes) {
        Ok(d) => exercise(&d),
        Err(e) => panic!("{}", e.to_string()),
    }
    let big = vec![0x08u8; 200_000];
    assert!(Decoded::from_bytes(&big).is_err());
}
