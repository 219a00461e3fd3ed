//! The tables: their columns, their descriptions and their rows.

use std::sync::Arc;

use arrow_array::cast::AsArray;
use arrow_array::types::{Int64Type, UInt64Type};
use arrow_array::{Array, RecordBatch};
use arrow_schema::{DataType, Schema};

use pprof_core::columns::{Column, ScalarColumn};
use pprof_core::meta;
use pprof_core::schema;
use pprof_core::schema::{ColumnField, ColumnType, ScalarType};
use pprof_core::source;
use pprof_core::source::DecodeUnit;
use pprof_core::table;
use pprof_core::table::functions::{FunctionColumns, Functions};
use pprof_core::table::locations::{LocationColumns, Locations};
use pprof_core::table::mappings::{MappingColumns, Mappings};
use pprof_core::table::meta_table::{MetaColumns, MetaTable};
use pprof_core::table::samples::{SampleColumns, Samples};
use pprof_core::table::stacks::{StackColumns, Stacks};
use pprof_core::table::{BatchError, OneShot, Table};

fn from_base64(text: &str) -> Vec<u8> {
    let mut out = Vec::new();
    let mut bits: u32 = 0;
    let mut n = 0;
    for c in text.bytes() {
        let v = match c {
            b'A'..=b'Z' => c - b'A',
            b'a'..=b'z' => c - b'a' + 26,
            b'0'..=b'9' => c - b'0' + 52,
            b'+' => 62,
            b'/' => 63,
            _ => continue,
        };
        bits = bits << 6 | v as u32;
        n += 6;
        if n >= 8 {
            n -= 8;
            out.push((bits >> n) as u8);
            bits &= (1 << n) - 1;
        }
    }
    out
}

fn some(text: &str) -> Option<String> {
    Some(text.to_string())
}

/// A CPU profile, a file that is gone, and a heap profile as inline bytes.
fn units() -> Vec<DecodeUnit> {
    vec![
        source::file_unit("cpu".to_string(), Ok(from_base64(meta::GO_CPU_B64))),
        source::file_unit("gone".to_string(), Err("not found".to_string())),
        source::blob_unit(&from_base64(meta::GO_HEAP_B64)),
    ]
}

fn rows(column: &Column) -> usize {
    match column {
        Column::Scalar(c) => items(c),
        Column::List(layout, _) => layout.valid.len(),
        Column::Struct(_, valid) => valid.len(),
        Column::ListStruct(layout, _) => layout.valid.len(),
        Column::TextMap(layout, _) => layout.valid.len(),
    }
}

fn items(column: &ScalarColumn) -> usize {
    match column {
        ScalarColumn::Int64(v) => v.len(),
        ScalarColumn::UInt64(v) => v.len(),
        ScalarColumn::Utf8(v) => v.len(),
    }
}

fn is_null(column: &Column, i: usize) -> bool {
    match column {
        Column::Scalar(ScalarColumn::Int64(v)) => v[i].is_none(),
        Column::Scalar(ScalarColumn::UInt64(v)) => v[i].is_none(),
        Column::Scalar(ScalarColumn::Utf8(v)) => v[i].is_none(),
        Column::List(layout, _) => !layout.valid[i],
        Column::Struct(_, valid) => !valid[i],
        Column::ListStruct(layout, _) => !layout.valid[i],
        Column::TextMap(layout, _) => !layout.valid[i],
    }
}

fn texts(column: &Column) -> Vec<Option<String>> {
    match column {
        Column::Scalar(ScalarColumn::Utf8(v)) => v.clone(),
        _ => panic!("not text"),
    }
}

fn scalar_type(column: &ScalarColumn) -> ScalarType {
    match column {
        ScalarColumn::Int64(_) => ScalarType::Int64,
        ScalarColumn::UInt64(_) => ScalarType::UInt64,
        ScalarColumn::Utf8(_) => ScalarType::Utf8,
    }
}

fn matches_type(column: &Column, data_type: &ColumnType) -> bool {
    match (column, data_type) {
        (Column::Scalar(c), ColumnType::Scalar(t)) => scalar_type(c) == *t,
        (Column::List(_, c), ColumnType::List(t)) => scalar_type(c) == *t,
        (Column::Struct(parts, _), ColumnType::Struct(fields))
        | (Column::ListStruct(_, parts), ColumnType::ListStruct(fields))
        | (Column::TextMap(_, parts), ColumnType::TextMap(fields)) => {
            parts.len() == fields.len()
                && parts.iter().zip(fields).all(|(p, f)| scalar_type(p) == f.data_type)
        }
        _ => false,
    }
}

/// Checks what every table has in common, with these numbers of rows per good source.
fn check<T: Table + Copy>(t: T, name: &str, names: &[&str], first: usize, last: usize) -> Vec<Column> {
    assert_eq!(t.name(), name);
    let schema: Vec<ColumnField> = t.output_schema();
    let found: Vec<&str> = schema.iter().map(|f| f.name).collect();
    let mut expected: Vec<&str> = names.to_vec();
    expected.extend(["file", "error"]);
    assert_eq!(found, expected);
    assert!(schema.iter().all(|f| !f.comment.is_empty()));

    let n = first + 1 + last;
    let mut shot = OneShot::new(t, Arc::new(table::arrow_schema(&t)), units());
    let arrow = shot.next_batch().unwrap().expect("a batch").batch;
    assert!(shot.next_batch().unwrap().is_none());
    assert!(shot.next_batch().unwrap().is_none());
    assert_eq!(arrow.num_columns(), schema.len());
    assert_eq!(arrow.num_rows(), n);

    let batch = table::build_checked::<T::Columns>(&units()).unwrap();
    assert_eq!(batch.len(), schema.len());
    for (column, field) in batch.iter().zip(&schema) {
        assert_eq!(rows(column), n, "{}", field.name);
        assert!(matches_type(column, &field.data_type), "{}", field.name);
    }
    // The error row.
    for (k, column) in batch[..batch.len() - 2].iter().enumerate() {
        assert!(is_null(column, first));
        assert!(arrow.column(k).is_null(first));
    }
    for (k, column) in batch.iter().enumerate() {
        for i in 0..n {
            assert_eq!(arrow.column(k).is_null(i), is_null(column, i));
        }
    }
    let mut files = vec![some("cpu"); first];
    files.push(some("gone"));
    files.extend(vec![None; last]);
    assert_eq!(texts(&batch[batch.len() - 2]), files);
    let mut errors = vec![None; first];
    errors.push(some("read gone: not found"));
    errors.extend(vec![None; last]);
    assert_eq!(texts(&batch[batch.len() - 1]), errors);
    batch
}

fn tag<T: Table>(t: &T, key: &str) -> String {
    let tags = t.metadata().tags;
    let found: Vec<&(String, String)> = tags.iter().filter(|t| t.0 == key).collect();
    assert_eq!(found.len(), 1, "{}", key);
    found[0].1.clone()
}

/// Checks what every table tells of itself.
fn check_metadata<T: Table>(t: T, title: &str, category: &str, columns: &[(&str, &str)]) {
    let m = t.metadata();
    let keys: Vec<&str> = m.tags.iter().map(|t| t.0.as_str()).collect();
    assert_eq!(
        keys,
        vec![
            "vgi.title",
            "vgi.doc_llm",
            "vgi.doc_md",
            "vgi.keywords",
            "vgi.category",
            "vgi.result_columns_schema",
            "vgi.executable_examples",
            "vgi.example_queries",
        ]
    );
    assert_eq!(tag(&t, "vgi.title"), title);
    assert_eq!(tag(&t, "vgi.category"), category);
    assert!(tag(&t, "vgi.keywords").starts_with("[\"pprof\","));
    let schema = tag(&t, "vgi.result_columns_schema");
    let mut at = 0;
    for (name, data_type) in columns {
        let start = format!("{{\"name\":\"{}\",\"type\":\"{}\",\"description\":\"", name, data_type);
        at += schema[at..].find(&start).unwrap_or_else(|| panic!("{} in {}", start, schema));
    }
    assert_eq!(schema.matches("\"name\":").count(), columns.len() + 2);
    assert!(tag(&t, "vgi.executable_examples").starts_with("[\n  {\n    \"description\": \""));
    let json = tag(&t, "vgi.example_queries");
    assert_eq!(json.matches("\"sql\":").count(), m.examples.len());
    for example in &m.examples {
        assert!(json.contains(&format!(
            "{{\"description\":\"{}\",\"sql\":\"{}\"}}",
            example.description, example.sql
        )));
        assert!(example.sql.contains(&format!("pprof.main.{}(", t.name())));
    }
    assert!(!m.description.is_empty());
}

#[test]
fn stacks_table() {
    let batch = check(Stacks, "stacks", &["sample_id", "value", "labels", "frame"], 2, 1);
    match &batch[0] {
        Column::Scalar(ScalarColumn::Int64(v)) => {
            assert_eq!(v, &vec![Some(1), Some(2), None, Some(1)])
        }
        _ => panic!("not numbers"),
    }
    match &batch[1] {
        Column::List(layout, ScalarColumn::Int64(v)) => {
            assert_eq!(layout.offsets, vec![0, 2, 4, 4, 8]);
            assert_eq!(v[4..], [Some(100), Some(1_048_576), Some(40), Some(409_600)]);
        }
        _ => panic!("not lists"),
    }
    match &batch[3] {
        Column::ListStruct(layout, parts) => {
            assert_eq!(layout.offsets[2], layout.offsets[3]);
            assert_eq!(parts.len(), 4);
        }
        _ => panic!("not lists of structs"),
    }
}

#[test]
fn samples_table() {
    let batch = check(Samples, "samples", &["sample_id", "location_ids", "value", "labels"], 2, 1);
    assert!(matches!(&batch[1], Column::List(_, ScalarColumn::UInt64(_))));
}

#[test]
fn functions_table() {
    let batch = check(
        Functions,
        "functions",
        &["function_id", "name", "system_name", "filename", "start_line"],
        4,
        3,
    );
    assert!(texts(&batch[1]).contains(&some("main.parse")));
}

#[test]
fn locations_table() {
    let d = source::blob_unit(&from_base64(meta::GO_CPU_B64)).result.ok().unwrap();
    let h = source::blob_unit(&from_base64(meta::GO_HEAP_B64)).result.ok().unwrap();
    check(
        Locations,
        "locations",
        &["location_id", "address", "mapping_id", "lines"],
        d.locations().len(),
        h.locations().len(),
    );
}

#[test]
fn mappings_table() {
    let batch = check(
        Mappings,
        "mappings",
        &["mapping_id", "memory_start", "memory_limit", "file_offset", "filename", "build_id"],
        1,
        source::blob_unit(&from_base64(meta::GO_HEAP_B64)).result.ok().unwrap().mappings().len(),
    );
    assert_eq!(texts(&batch[4])[0], some("/usr/local/bin/app"));
    assert_eq!(texts(&batch[5])[0], None);
}

#[test]
fn meta_rows_are_one_per_profile() {
    let batch = check(
        MetaTable,
        "meta",
        &[
            "sample_types",
            "period",
            "period_type",
            "duration_nanos",
            "time_nanos",
            "default_sample_type",
        ],
        1,
        1,
    );
    assert_eq!(texts(&batch[5]), vec![some("cpu"), None, some("inuse_space")]);
    match &batch[0] {
        Column::ListStruct(layout, _) => assert_eq!(layout.offsets, vec![0, 2, 2, 6]),
        _ => panic!("not lists of structs"),
    }
}

#[test]
fn no_sources_give_no_rows() {
    for batch in [
        table::build::<StackColumns>(&[]),
        table::build::<SampleColumns>(&[]),
        table::build::<FunctionColumns>(&[]),
        table::build::<LocationColumns>(&[]),
        table::build::<MappingColumns>(&[]),
        table::build::<MetaColumns>(&[]),
    ] {
        assert!(batch.len() >= 6);
        assert!(batch.iter().all(|c| rows(c) == 0));
    }
}

#[test]
fn rows_of_several_sources_are_appended() {
    let all = table::build::<FunctionColumns>(&units());
    let mut names = Vec::new();
    for unit in units() {
        names.extend(texts(&table::build::<FunctionColumns>(&[unit])[1]));
    }
    assert_eq!(texts(&all[1]), names);
    let checked = table::build_checked::<FunctionColumns>(&units()).unwrap();
    assert_eq!(texts(&checked[1]), names);
}

#[test]
fn tables_describe_themselves() {
    check_metadata(
        Stacks,
        "Flattened Stacks (headline)",
        "Flattened stacks",
        &[
            ("sample_id", "BIGINT"),
            ("value", "BIGINT[]"),
            ("labels", "MAP(VARCHAR,VARCHAR)"),
            ("frame", "STRUCT(function VARCHAR, filename VARCHAR, line BIGINT, address UBIGINT)[]"),
        ],
    );
    check_metadata(
        Samples,
        "Raw Samples",
        "Raw profile graph",
        &[
            ("sample_id", "BIGINT"),
            ("location_ids", "UBIGINT[]"),
            ("value", "BIGINT[]"),
            ("labels", "MAP(VARCHAR,VARCHAR)"),
        ],
    );
    check_metadata(
        Functions,
        "Functions Table",
        "Raw profile graph",
        &[
            ("function_id", "UBIGINT"),
            ("name", "VARCHAR"),
            ("system_name", "VARCHAR"),
            ("filename", "VARCHAR"),
            ("start_line", "BIGINT"),
        ],
    );
    check_metadata(
        Locations,
        "Locations Table",
        "Raw profile graph",
        &[
            ("location_id", "UBIGINT"),
            ("address", "UBIGINT"),
            ("mapping_id", "UBIGINT"),
            ("lines", "STRUCT(function_id UBIGINT, line BIGINT)[]"),
        ],
    );
    check_metadata(
        Mappings,
        "Mappings Table",
        "Raw profile graph",
        &[
            ("mapping_id", "UBIGINT"),
            ("memory_start", "UBIGINT"),
            ("memory_limit", "UBIGINT"),
            ("file_offset", "UBIGINT"),
            ("filename", "VARCHAR"),
            ("build_id", "VARCHAR"),
        ],
    );
    check_metadata(
        MetaTable,
        "Profile Metadata",
        "Profile metadata",
        &[
            ("sample_types", "STRUCT(type VARCHAR, unit VARCHAR)[]"),
            ("period", "BIGINT"),
            ("period_type", "STRUCT(type VARCHAR, unit VARCHAR)"),
            ("duration_nanos", "BIGINT"),
            ("time_nanos", "BIGINT"),
            ("default_sample_type", "VARCHAR"),
        ],
    );
}

#[test]
fn type_names_in_texts_are_code() {
    for doc in [
        tag(&Stacks, "vgi.doc_llm"),
        tag(&Stacks, "vgi.doc_md"),
        tag(&Samples, "vgi.doc_llm"),
        tag(&Samples, "vgi.doc_md"),
        tag(&Functions, "vgi.doc_llm"),
        tag(&Locations, "vgi.doc_llm"),
        tag(&Locations, "vgi.doc_md"),
        tag(&Mappings, "vgi.doc_llm"),
        tag(&MetaTable, "vgi.doc_llm"),
    ] {
        for (k, part) in doc.split('`').enumerate() {
            if k % 2 == 0 {
                for name in ["LIST", "STRUCT", "MAP", "BIGINT", "BLOB"] {
                    assert!(!part.contains(name), "{} in {}", name, doc);
                }
            }
        }
    }
}

#[test]
fn inline_examples_hold_a_profile() {
    let m = Mappings.metadata();
    assert_eq!(
        m.examples[0].sql,
        format!(
            "SELECT mapping_id, filename, build_id FROM pprof.main.mappings(from_base64('{}')) WHERE error IS NULL AND build_id IS NOT NULL;",
            meta::NATIVE_B64
        )
    );
    let m = MetaTable.metadata();
    assert_eq!(
        m.examples[0].sql,
        format!(
            "SELECT sample_types, period, duration_nanos, default_sample_type FROM pprof.main.meta(from_base64('{}')) WHERE error IS NULL;",
            meta::GO_HEAP_B64
        )
    );
    assert_eq!(Stacks.metadata().examples.len(), 2);
}

#[test]
fn nested_columns_have_named_fields() {
    let fields = |t: &ColumnType| -> Vec<(&'static str, bool)> {
        match t {
            ColumnType::Struct(f) | ColumnType::ListStruct(f) | ColumnType::TextMap(f) => {
                f.iter().map(|f| (f.name, f.nullable)).collect()
            }
            _ => vec![],
        }
    };
    assert_eq!((schema::list_field().name, schema::list_field().nullable), ("item", true));
    let entries = schema::map_entries_field();
    assert_eq!((entries.name, entries.nullable), ("entries", false));
    let stacks = Stacks.output_schema();
    assert_eq!(fields(&stacks[2].data_type), vec![("key", false), ("value", true)]);
    assert_eq!(
        fields(&stacks[3].data_type),
        vec![("function", true), ("filename", true), ("line", true), ("address", true)]
    );
    let locations = Locations.output_schema();
    assert_eq!(fields(&locations[3].data_type), vec![("function_id", true), ("line", true)]);
    let meta = MetaTable.output_schema();
    assert_eq!(fields(&meta[0].data_type), vec![("type", true), ("unit", true)]);
    assert_eq!(fields(&meta[2].data_type), vec![("type", true), ("unit", true)]);
}

fn arrow_batch<T: Table>(t: T) -> RecordBatch {
    let schema = Arc::new(table::arrow_schema(&t));
    table::build_batch(&t, &units(), schema).unwrap().batch
}

fn arrow_field(name: &str, data_type: DataType, nullable: bool) -> arrow_schema::Field {
    arrow_schema::Field::new(name, data_type, nullable)
}

fn arrow_list(inner: DataType) -> DataType {
    DataType::List(Arc::new(arrow_field("item", inner, true)))
}

fn arrow_map() -> DataType {
    let entries = DataType::Struct(
        vec![
            arrow_field("key", DataType::Utf8, false),
            arrow_field("value", DataType::Utf8, true),
        ]
        .into(),
    );
    DataType::Map(Arc::new(arrow_field("entries", entries, false)), false)
}

#[test]
fn arrow_schemas_have_the_declared_types() {
    let schema = table::arrow_schema(&Stacks);
    let types: Vec<DataType> = schema.fields().iter().map(|f| f.data_type().clone()).collect();
    let frame = DataType::Struct(
        vec![
            arrow_field("function", DataType::Utf8, true),
            arrow_field("filename", DataType::Utf8, true),
            arrow_field("line", DataType::Int64, true),
            arrow_field("address", DataType::UInt64, true),
        ]
        .into(),
    );
    assert_eq!(
        types,
        vec![
            DataType::Int64,
            arrow_list(DataType::Int64),
            arrow_map(),
            arrow_list(frame),
            DataType::Utf8,
            DataType::Utf8,
        ]
    );
    assert!(schema.fields().iter().all(|f| f.is_nullable()));
    assert_eq!(
        schema.field(0).metadata().get("comment").map(String::as_str),
        Some("1-based index of the sample within its profile; joins to pprof.samples.sample_id.")
    );
    let schema = table::arrow_schema(&MetaTable);
    let value_type = DataType::Struct(
        vec![
            arrow_field("type", DataType::Utf8, true),
            arrow_field("unit", DataType::Utf8, true),
        ]
        .into(),
    );
    assert_eq!(schema.field(0).data_type(), &arrow_list(value_type.clone()));
    assert_eq!(schema.field(2).data_type(), &value_type);
    assert_eq!(schema.field(2).name(), "period_type");
    let schema = table::arrow_schema(&Locations);
    let line = DataType::Struct(
        vec![
            arrow_field("function_id", DataType::UInt64, true),
            arrow_field("line", DataType::Int64, true),
        ]
        .into(),
    );
    assert_eq!(schema.field(3).data_type(), &arrow_list(line));
    assert_eq!(table::arrow_schema(&Samples).field(1).data_type(), &arrow_list(DataType::UInt64));
}

#[test]
fn arrow_stacks_hold_the_rows() {
    let batch = arrow_batch(Stacks);
    let ids = batch.column(0).as_primitive::<Int64Type>();
    assert_eq!(ids.iter().collect::<Vec<_>>(), vec![Some(1), Some(2), None, Some(1)]);

    let values = batch.column(1).as_list::<i32>();
    assert_eq!(
        values.value(3).as_primitive::<Int64Type>().values(),
        &[100, 1_048_576, 40, 409_600]
    );
    assert!(values.is_null(2));

    let frames = batch.column(3).as_list::<i32>();
    let last = frames.value(3);
    let last = last.as_struct();
    assert_eq!(last.len(), 3);
    let names: Vec<Option<&str>> = last.column(0).as_string::<i32>().iter().collect();
    assert_eq!(names, vec![Some("main.makeBuf"), Some("main.allocate"), Some("main.main")]);
    let lines = last.column(2).as_primitive::<Int64Type>();
    let d = source::blob_unit(&from_base64(meta::GO_HEAP_B64)).result.ok().unwrap();
    let expected = d.stacks().remove(0).frames;
    for (i, frame) in expected.iter().enumerate() {
        assert_eq!(Some(lines.value(i)), frame.line);
        assert_eq!(last.column(3).as_primitive::<UInt64Type>().value(i), frame.address);
    }

    let files: Vec<Option<&str>> = batch.column(4).as_string::<i32>().iter().collect();
    assert_eq!(files, vec![Some("cpu"), Some("cpu"), Some("gone"), None]);
    let errors: Vec<Option<&str>> = batch.column(5).as_string::<i32>().iter().collect();
    assert_eq!(errors, vec![None, None, Some("read gone: not found"), None]);
}

#[test]
fn arrow_maps_hold_the_labels() {
    // One sample with a label: key 1 is "k", value 2 is "v".
    let bytes = [
        0x12, 0x06, 0x1a, 0x04, 0x08, 0x01, 0x10, 0x02, 0x12, 0x00, 0x32, 0x00, 0x32, 0x01, b'k',
        0x32, 0x01, b'v',
    ];
    let units = [source::blob_unit(&bytes), source::blob_unit(&[])];
    let schema = Arc::new(table::arrow_schema(&Samples));
    let batch = table::build_batch(&Samples, &units, schema).unwrap().batch;
    let labels = batch.column(3).as_map();
    assert_eq!(labels.len(), 3);
    let first = labels.value(0);
    assert_eq!(first.len(), 1);
    assert_eq!(first.column(0).as_string::<i32>().value(0), "k");
    assert_eq!(first.column(1).as_string::<i32>().value(0), "v");
    assert_eq!(labels.value(1).len(), 0);
    assert!(labels.is_valid(1));
    assert!(labels.is_null(2));
}

#[test]
fn arrow_metadata_holds_the_rows() {
    let batch = arrow_batch(MetaTable);
    let types = batch.column(0).as_list::<i32>();
    let heap = types.value(2);
    let heap = heap.as_struct();
    assert_eq!(heap.column(0).as_string::<i32>().value(3), "inuse_space");
    assert_eq!(heap.column(1).as_string::<i32>().value(3), "bytes");
    let period = batch.column(2).as_struct();
    assert_eq!(period.column(0).as_string::<i32>().value(0), "cpu");
    assert!(period.is_null(1));
    let ids = arrow_batch(Functions);
    assert_eq!(ids.column(0).as_primitive::<UInt64Type>().null_count(), 1);
}

#[test]
fn arrow_locations_hold_the_lines() {
    let batch = arrow_batch(Locations);
    let d = source::blob_unit(&from_base64(meta::GO_CPU_B64)).result.ok().unwrap();
    let lines = batch.column(3).as_list::<i32>();
    for (i, location) in d.locations().iter().enumerate() {
        let row = lines.value(i);
        let row = row.as_struct();
        let ids: Vec<u64> = location.lines.iter().map(|l| l.function_id).collect();
        let numbers: Vec<i64> = location.lines.iter().map(|l| l.line).collect();
        assert_eq!(row.column(0).as_primitive::<UInt64Type>().values(), &ids[..]);
        assert_eq!(row.column(1).as_primitive::<Int64Type>().values(), &numbers[..]);
    }
    let samples = arrow_batch(Samples);
    let ids = samples.column(1).as_list::<i32>();
    assert_eq!(
        ids.value(0).as_primitive::<UInt64Type>().values(),
        &d.samples()[0].location_ids[..]
    );
}

fn refusal(schema: Schema) -> String {
    match table::build_batch(&Stacks, &units(), Arc::new(schema)) {
        Err(BatchError::Schema(words)) => words,
        _ => panic!("accepted"),
    }
}

/// The schema of the stacks with another first field.
fn with_first_field(field: arrow_schema::Field) -> Schema {
    let own = table::arrow_schema(&Stacks);
    let mut fields: Vec<arrow_schema::Field> =
        own.fields().iter().map(|f| f.as_ref().clone()).collect();
    fields[0] = field;
    Schema::new(fields)
}

#[test]
fn another_schema_is_refused() {
    assert_eq!(
        refusal(Schema::new(vec![arrow_field("sample_id", DataType::Int64, true)])),
        "Invalid argument error: number of columns(6) must match number of fields(1) in schema"
    );
    assert_eq!(
        refusal(with_first_field(arrow_field("sample_id", DataType::UInt64, true))),
        "Invalid argument error: column types must match schema types, \
         expected UInt64 but found Int64 at column index 0"
    );
    assert_eq!(
        refusal(with_first_field(arrow_field("sample_id", DataType::Int64, false))),
        "Invalid argument error: Column 'sample_id' is declared as non-nullable \
         but contains null values"
    );
}

#[test]
fn a_batch_has_the_given_schema() {
    let schema = Arc::new(with_first_field(arrow_field("renamed", DataType::Int64, true)));
    let batch = table::build_batch(&Stacks, &units(), schema.clone()).unwrap().batch;
    assert_eq!(batch.schema(), schema);
    assert_eq!(batch.num_rows(), 4);
    let own = arrow_batch(Stacks);
    assert_eq!(own.schema().as_ref(), &table::arrow_schema(&Stacks));
    assert_eq!(own.columns(), batch.columns());
}
