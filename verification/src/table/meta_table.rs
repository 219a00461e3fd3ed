//! `meta`: one row per profile, with its sample types, period, duration and time.

use vstd::prelude::*;
use vstd::string::*;

use crate::arrow::Cell;
use crate::cells;
use crate::columns;
use crate::columns::{Column, ColumnView};
use crate::decoded::Decoded;
use crate::flatten;
use crate::laws;
use crate::lists;
use crate::meta;
use crate::meta::{FunctionMetadata, FunctionMetadataView};
use crate::proto::ProfileView;
use crate::rows::{Meta, MetaView, ValueType, ValueTypeView};
use crate::schema;
use crate::schema::{ColumnField, ColumnFieldView, ColumnType, ColumnTypeView, ScalarType};
use crate::table;
use crate::table::{Columns, OutputRow, Table};

verus! {

/// The comment of the `sample_types` column.
pub const SAMPLE_TYPES_COMMENT: &'static str =
    "The value types each sample carries, in order: a LIST of STRUCT(type VARCHAR, unit \
     VARCHAR) (e.g. [(alloc_objects, count), (alloc_space, bytes)]). The Nth entry names \
     value[N] in pprof.stacks / pprof.samples.";

/// The description of the `sample_types` column.
pub const SAMPLE_TYPES_DESCRIPTION: &'static str =
    "The value types each sample carries, in order; the Nth entry names value[N] in \
     pprof.stacks / pprof.samples.";

/// The comment of the `period` column.
pub const PERIOD_COMMENT: &'static str =
    "Number of events between sampled occurrences (the sampling period), e.g. the CPU sample \
     interval in nanoseconds.";

/// The description of the `period` column.
pub const PERIOD_DESCRIPTION: &'static str =
    "Number of events between sampled occurrences (the sampling period).";

/// The comment of the `period_type` column.
pub const PERIOD_TYPE_COMMENT: &'static str =
    "The kind of event the period counts, as STRUCT(type VARCHAR, unit VARCHAR) (e.g. (cpu, \
     nanoseconds)); NULL if unset.";

/// The description of the `period_type` column.
pub const PERIOD_TYPE_DESCRIPTION: &'static str =
    "The kind of event the period counts (e.g. (cpu, nanoseconds)); NULL if unset.";

/// The comment of the `duration_nanos` column.
pub const DURATION_NANOS_COMMENT: &'static str =
    "Wall-clock duration the profile covers, in nanoseconds (0 if not meaningful).";

/// The comment of the `time_nanos` column.
pub const TIME_NANOS_COMMENT: &'static str =
    "Collection time as nanoseconds since the Unix epoch (0 if unset).";

/// The comment of the `default_sample_type` column.
pub const DEFAULT_SAMPLE_TYPE_COMMENT: &'static str =
    "The preferred sample value type's name (the `type` a viewer defaults to); NULL if unset, \
     in which case clients default to the last sample type.";

/// The description of the `default_sample_type` column.
pub const DEFAULT_SAMPLE_TYPE_DESCRIPTION: &'static str =
    "The preferred sample value type's name; NULL if unset.";

/// What the table is.
pub const DESCRIPTION: &'static str =
    "Decode a pprof profile's metadata (sample types, period, duration)";

/// The title of the table.
pub const TITLE: &'static str = "Profile Metadata";

/// What the table is, for a model.
pub const DOC_LLM: &'static str =
    "Decode a pprof profile's metadata into one row: `sample_types` (a `LIST(STRUCT(type, \
     unit))` describing each value slot), `period`, `period_type` (a `STRUCT(type, unit)`), \
     `duration_nanos`, `time_nanos`, and `default_sample_type`. Use `sample_types` to \
     interpret the `value` list in pprof.stacks / pprof.samples (the Nth type names value[N]). \
     `src` may be a path, glob, list, or `BLOB`; a bad file yields one error row.";

/// What the table is, for a reader.
pub const DOC_MD: &'static str =
    "pprof profile metadata (one row): `sample_types` (`STRUCT(type, unit)[]`), `period`, \
     `period_type` (`STRUCT(type, unit)`), `duration_nanos`, `time_nanos`, \
     `default_sample_type`. `sample_types` names the `value` slots.";

/// What the table is found by.
pub const KEYWORDS: &'static str =
    "pprof, meta, metadata, sample types, sample_type, period, period type, duration, time, \
     default sample type, value types, profiling";

/// What the table is listed under.
pub const CATEGORY: &'static str = "Profile metadata";

/// Queries that run as they stand, as JSON.
pub const EXECUTABLE_EXAMPLES: &'static str = r#"[
  {
    "description": "The sample types and duration of a profile.",
    "sql": "SELECT sample_types, duration_nanos, default_sample_type FROM pprof.main.meta('data/go_heap.pb.gz') WHERE error IS NULL"
  },
  {
    "description": "The sampling period and what it counts (read this to convert raw counts to time), plus the wall-clock duration covered.",
    "sql": "SELECT period, period_type, duration_nanos FROM pprof.main.meta('data/go_cpu.pb.gz') WHERE error IS NULL"
  }
]"#;

/// What the example shows.
pub const EXAMPLE_DESCRIPTION: &'static str =
    "Inspect a heap profile's sample value types and duration, from a profile passed inline as \
     BLOB bytes.";

/// The query of the example, up to the profile.
pub const EXAMPLE_SQL_HEAD: &'static str =
    "SELECT sample_types, period, duration_nanos, default_sample_type FROM \
     pprof.main.meta(from_base64('";

/// The query of the example, after the profile.
pub const EXAMPLE_SQL_TAIL: &'static str = "')) WHERE error IS NULL;";

/// The columns of the table, before they are laid out.
#[derive(Debug)]
pub struct MetaColumns {
    pub sample_types: Vec<Option<Vec<ValueType>>>,
    pub period: Vec<Option<i64>>,
    pub period_type: Vec<Option<ValueType>>,
    pub duration_nanos: Vec<Option<i64>>,
    pub time_nanos: Vec<Option<i64>>,
    pub default_sample_type: Vec<Option<String>>,
    pub file: Vec<Option<String>>,
    pub error: Vec<Option<String>>,
}

/// The value of a [`MetaColumns`].
#[verifier::ext_equal]
pub struct MetaColumnsView {
    pub sample_types: Seq<Option<Seq<ValueTypeView>>>,
    pub period: Seq<Option<i64>>,
    pub period_type: Seq<Option<ValueTypeView>>,
    pub duration_nanos: Seq<Option<i64>>,
    pub time_nanos: Seq<Option<i64>>,
    pub default_sample_type: Seq<Option<Seq<char>>>,
    pub file: Seq<Option<Seq<char>>>,
    pub error: Seq<Option<Seq<char>>>,
}

impl DeepView for MetaColumns {
    type V = MetaColumnsView;

    open spec fn deep_view(&self) -> MetaColumnsView {
        MetaColumnsView {
            sample_types: self.sample_types.deep_view(),
            period: self.period@,
            period_type: self.period_type.deep_view(),
            duration_nanos: self.duration_nanos@,
            time_nanos: self.time_nanos@,
            default_sample_type: self.default_sample_type.deep_view(),
            file: self.file.deep_view(),
            error: self.error.deep_view(),
        }
    }
}

impl Columns for MetaColumns {
    type Row = Meta;

    open spec fn data_rows(p: ProfileView) -> Seq<MetaView> {
        seq![flatten::meta_of(p)]
    }

    open spec fn columns_of(rows: Seq<OutputRow<MetaView>>) -> MetaColumnsView {
        MetaColumnsView {
            sample_types: Seq::new(
                rows.len(),
                |i: int|
                    match rows[i].data {
                        Some(row) => Some(row.sample_types),
                        None => None,
                    },
            ),
            period: Seq::new(
                rows.len(),
                |i: int|
                    match rows[i].data {
                        Some(row) => Some(row.period),
                        None => None,
                    },
            ),
            period_type: Seq::new(
                rows.len(),
                |i: int|
                    match rows[i].data {
                        Some(row) => row.period_type,
                        None => None,
                    },
            ),
            duration_nanos: Seq::new(
                rows.len(),
                |i: int|
                    match rows[i].data {
                        Some(row) => Some(row.duration_nanos),
                        None => None,
                    },
            ),
            time_nanos: Seq::new(
                rows.len(),
                |i: int|
                    match rows[i].data {
                        Some(row) => Some(row.time_nanos),
                        None => None,
                    },
            ),
            default_sample_type: Seq::new(
                rows.len(),
                |i: int|
                    match rows[i].data {
                        Some(row) => row.default_sample_type,
                        None => None,
                    },
            ),
            file: Seq::new(rows.len(), |i: int| rows[i].file),
            error: Seq::new(rows.len(), |i: int| rows[i].error),
        }
    }

    open spec fn columns_fit(columns: MetaColumnsView) -> bool {
        &&& columns::offsets_fit(columns::row_counts(columns.sample_types))
    }

    open spec fn batch_of(columns: MetaColumnsView) -> Seq<ColumnView> {
        seq![
            columns::list_value_type_column(columns.sample_types),
            columns::i64_column(columns.period),
            columns::value_type_struct_column(columns.period_type),
            columns::i64_column(columns.duration_nanos),
            columns::i64_column(columns.time_nanos),
            columns::str_column(columns.default_sample_type),
            columns::str_column(columns.file),
            columns::str_column(columns.error),
        ]
    }

    open spec fn schema() -> Seq<ColumnFieldView> {
        field_list()
    }

    proof fn law_batch_matches_schema(rows: Seq<OutputRow<MetaView>>) {
        let columns = MetaColumns::columns_of(rows);
        table::lemma_layout_matches(columns.sample_types);
        assert(table::batch_matches(
            MetaColumns::batch_of(columns),
            field_list(),
            rows.len() as int,
        ));
    }

    open spec fn row_cells(row: OutputRow<MetaView>) -> Seq<Cell> {
        match row.data {
            Some(data) => seq![
                cells::list_value_type_cell(Some(data.sample_types)),
                cells::i64_cell(Some(data.period)),
                cells::value_type_struct_cell(data.period_type),
                cells::i64_cell(Some(data.duration_nanos)),
                cells::i64_cell(Some(data.time_nanos)),
                cells::str_cell(data.default_sample_type),
                cells::str_cell(row.file),
                cells::str_cell(row.error),
            ],
            None => seq![
                Cell::Null,
                Cell::Null,
                Cell::Null,
                Cell::Null,
                Cell::Null,
                Cell::Null,
                cells::str_cell(row.file),
                cells::str_cell(row.error),
            ],
        }
    }

    proof fn law_batch_holds_rows(rows: Seq<OutputRow<MetaView>>, i: int) {
        let columns = MetaColumns::columns_of(rows);
        laws::cells::law_list_value_type_column_holds_its_rows(columns.sample_types, i);
        laws::cells::law_value_type_struct_column_holds_its_rows(columns.period_type, i);
    }

    proof fn law_schema_ends_alike() {
        assert(field_list().skip(field_list().len() - 2) =~= schema::trailing_field_list());
    }

    proof fn law_error_rows(rows: Seq<OutputRow<MetaView>>, i: int) {
    }

    fn read(decoded: &Decoded) -> (res: Vec<Meta>) {
        let rows = vec![decoded.meta()];
        assert(rows.deep_view() =~= seq![flatten::meta_of(decoded@)]);
        rows
    }

    fn start() -> (res: MetaColumns) {
        let res = MetaColumns {
            sample_types: Vec::new(),
            period: Vec::new(),
            period_type: Vec::new(),
            duration_nanos: Vec::new(),
            time_nanos: Vec::new(),
            default_sample_type: Vec::new(),
            file: Vec::new(),
            error: Vec::new(),
        };
        assert(res.deep_view() =~= MetaColumns::columns_of(Seq::empty()));
        res
    }

    fn add(&mut self, data: Option<Meta>, file: Option<String>, error: Option<String>) {
        let ghost row = OutputRow {
            data: data.deep_view(),
            file: file.deep_view(),
            error: error.deep_view(),
        };
        match data {
            Some(data) => {
                lists::push_value(&mut self.sample_types, Some(data.sample_types));
                self.period.push(Some(data.period));
                lists::push_value(&mut self.period_type, data.period_type);
                self.duration_nanos.push(Some(data.duration_nanos));
                self.time_nanos.push(Some(data.time_nanos));
                lists::push_value(&mut self.default_sample_type, data.default_sample_type);
            },
            None => {
                lists::push_value(&mut self.sample_types, None);
                self.period.push(None);
                lists::push_value(&mut self.period_type, None);
                self.duration_nanos.push(None);
                self.time_nanos.push(None);
                lists::push_value(&mut self.default_sample_type, None);
            },
        }
        lists::push_value(&mut self.file, file);
        lists::push_value(&mut self.error, error);
        proof {
            assert forall|rows: Seq<OutputRow<MetaView>>|
                old(self).deep_view() == MetaColumns::columns_of(rows) implies self.deep_view()
                == #[trigger] MetaColumns::columns_of(rows.push(row)) by {
                assert(self.deep_view() =~= MetaColumns::columns_of(rows.push(row)));
            }
        }
    }

    fn fits(&self) -> (res: bool) {
        columns::fit_offsets(columns::item_counts(&self.sample_types).as_slice())
    }

    fn batch(self) -> (res: Vec<Column>) {
        let batch = vec![
            columns::list_value_type_col(self.sample_types),
            columns::i64_col(self.period),
            columns::value_type_struct_col(self.period_type),
            columns::i64_col(self.duration_nanos),
            columns::i64_col(self.time_nanos),
            columns::str_col(self.default_sample_type),
            columns::str_col(self.file),
            columns::str_col(self.error),
        ];
        assert(batch.deep_view() =~= MetaColumns::batch_of(self.deep_view()));
        batch
    }
}

/// The columns of a result.
pub open spec fn field_list() -> Seq<ColumnFieldView> {
    seq![
        ColumnFieldView {
            name: "sample_types"@,
            data_type: ColumnTypeView::ListStruct(schema::value_type_field_list()),
            comment: SAMPLE_TYPES_COMMENT@,
        },
        ColumnFieldView {
            name: "period"@,
            data_type: ColumnTypeView::Scalar(ScalarType::Int64),
            comment: PERIOD_COMMENT@,
        },
        ColumnFieldView {
            name: "period_type"@,
            data_type: ColumnTypeView::Struct(schema::value_type_field_list()),
            comment: PERIOD_TYPE_COMMENT@,
        },
        ColumnFieldView {
            name: "duration_nanos"@,
            data_type: ColumnTypeView::Scalar(ScalarType::Int64),
            comment: DURATION_NANOS_COMMENT@,
        },
        ColumnFieldView {
            name: "time_nanos"@,
            data_type: ColumnTypeView::Scalar(ScalarType::Int64),
            comment: TIME_NANOS_COMMENT@,
        },
        ColumnFieldView {
            name: "default_sample_type"@,
            data_type: ColumnTypeView::Scalar(ScalarType::Utf8),
            comment: DEFAULT_SAMPLE_TYPE_COMMENT@,
        },
    ] + schema::trailing_field_list()
}

/// The columns of a result.
pub fn output_schema() -> (res: Vec<ColumnField>)
    ensures
        res.deep_view() == field_list(),
{
    let fields = vec![
        schema::commented("sample_types", schema::list_value_type_type(), SAMPLE_TYPES_COMMENT),
        schema::commented("period", ColumnType::Scalar(ScalarType::Int64), PERIOD_COMMENT),
        schema::commented(
            "period_type",
            ColumnType::Struct(schema::value_type_fields()),
            PERIOD_TYPE_COMMENT,
        ),
        schema::commented(
            "duration_nanos",
            ColumnType::Scalar(ScalarType::Int64),
            DURATION_NANOS_COMMENT,
        ),
        schema::commented("time_nanos", ColumnType::Scalar(ScalarType::Int64), TIME_NANOS_COMMENT),
        schema::commented(
            "default_sample_type",
            ColumnType::Scalar(ScalarType::Utf8),
            DEFAULT_SAMPLE_TYPE_COMMENT,
        ),
    ];
    let schema = schema::schema_with_trailing(fields);
    assert(schema.deep_view() =~= field_list());
    schema
}

/// The columns of a result by name, type and description.
pub open spec fn result_column_list() -> Seq<(Seq<char>, Seq<char>, Seq<char>)> {
    seq![
        ("sample_types"@, "STRUCT(type VARCHAR, unit VARCHAR)[]"@, SAMPLE_TYPES_DESCRIPTION@),
        ("period"@, "BIGINT"@, PERIOD_DESCRIPTION@),
        ("period_type"@, "STRUCT(type VARCHAR, unit VARCHAR)"@, PERIOD_TYPE_DESCRIPTION@),
        ("duration_nanos"@, "BIGINT"@, DURATION_NANOS_COMMENT@),
        ("time_nanos"@, "BIGINT"@, TIME_NANOS_COMMENT@),
        ("default_sample_type"@, "VARCHAR"@, DEFAULT_SAMPLE_TYPE_DESCRIPTION@),
    ] + meta::trailing_columns()
}

/// The examples by description and query.
pub open spec fn example_list() -> Seq<(Seq<char>, Seq<char>)> {
    seq![(EXAMPLE_DESCRIPTION@, EXAMPLE_SQL_HEAD@ + meta::GO_HEAP_B64@ + EXAMPLE_SQL_TAIL@)]
}

/// The description has no carriage returns and no tabs.
proof fn lemma_example_description_is_plain()
    ensures
        meta::is_plain(EXAMPLE_DESCRIPTION@),
{
    reveal_strlit(
        "Inspect a heap profile's sample value types and duration, from a profile passed inline as \
         BLOB bytes.",
    );
    reveal_with_fuel(meta::plain_up_to, 26);
    assert(meta::plain_up_to(EXAMPLE_DESCRIPTION@, 25));
    assert(meta::plain_up_to(EXAMPLE_DESCRIPTION@, 50));
    assert(meta::plain_up_to(EXAMPLE_DESCRIPTION@, 75));
    assert(meta::plain_up_to(EXAMPLE_DESCRIPTION@, 100));
    assert(meta::plain_up_to(EXAMPLE_DESCRIPTION@, 101));
    meta::lemma_plain_to_the_end(EXAMPLE_DESCRIPTION@);
}

/// The query before the profile has no carriage returns and no tabs.
proof fn lemma_example_sql_head_is_plain()
    ensures
        meta::is_plain(EXAMPLE_SQL_HEAD@),
{
    reveal_strlit(
        "SELECT sample_types, period, duration_nanos, default_sample_type FROM \
         pprof.main.meta(from_base64('",
    );
    reveal_with_fuel(meta::plain_up_to, 26);
    assert(meta::plain_up_to(EXAMPLE_SQL_HEAD@, 25));
    assert(meta::plain_up_to(EXAMPLE_SQL_HEAD@, 50));
    assert(meta::plain_up_to(EXAMPLE_SQL_HEAD@, 75));
    assert(meta::plain_up_to(EXAMPLE_SQL_HEAD@, 99));
    meta::lemma_plain_to_the_end(EXAMPLE_SQL_HEAD@);
}

/// The query after the profile has no carriage returns and no tabs.
proof fn lemma_example_sql_tail_is_plain()
    ensures
        meta::is_plain(EXAMPLE_SQL_TAIL@),
{
    reveal_strlit("')) WHERE error IS NULL;");
    reveal_with_fuel(meta::plain_up_to, 26);
    assert(meta::plain_up_to(EXAMPLE_SQL_TAIL@, 24));
    meta::lemma_plain_to_the_end(EXAMPLE_SQL_TAIL@);
}

fn examples() -> (res: Vec<(String, String)>)
    ensures
        res.deep_view() == example_list(),
{
    let mut sql = EXAMPLE_SQL_HEAD.to_owned();
    sql.append(meta::GO_HEAP_B64);
    sql.append(EXAMPLE_SQL_TAIL);
    let pairs = vec![(EXAMPLE_DESCRIPTION.to_owned(), sql)];
    assert(pairs.deep_view() =~= example_list());
    pairs
}

/// The table of profile metadata.
#[derive(Debug, Clone, Copy)]
pub struct MetaTable;

impl Table for MetaTable {
    type Columns = MetaColumns;

    open spec fn name_text() -> Seq<char> {
        "meta"@
    }

    open spec fn result_columns() -> Seq<(Seq<char>, Seq<char>, Seq<char>)> {
        result_column_list()
    }

    open spec fn metadata_value() -> FunctionMetadataView {
        table::metadata_of(
            DESCRIPTION@,
            meta::object_tag_list(TITLE@, DOC_LLM@, DOC_MD@, KEYWORDS@, CATEGORY@),
            result_column_list(),
            EXECUTABLE_EXAMPLES@,
            example_list(),
        )
    }

    proof fn law_result_columns_match_schema() {
        schema::lemma_type_texts();
    }

    open spec fn example_pairs() -> Seq<(Seq<char>, Seq<char>)> {
        example_list()
    }

    proof fn law_metadata_is_told() {
        table::lemma_metadata_tells(
            DESCRIPTION@,
            (TITLE@, DOC_LLM@, DOC_MD@, KEYWORDS@, CATEGORY@),
            result_column_list(),
            EXECUTABLE_EXAMPLES@,
            example_list(),
        );
    }

    proof fn law_examples_are_plain() {
        lemma_example_description_is_plain();
        lemma_example_sql_head_is_plain();
        meta::lemma_go_heap_is_plain();
        lemma_example_sql_tail_is_plain();
        meta::lemma_plain_joined(EXAMPLE_SQL_HEAD@, meta::GO_HEAP_B64@);
        meta::lemma_plain_joined(EXAMPLE_SQL_HEAD@ + meta::GO_HEAP_B64@, EXAMPLE_SQL_TAIL@);
    }

    fn name(&self) -> (res: &'static str) {
        "meta"
    }

    fn metadata(&self) -> (res: FunctionMetadata) {
        let mut columns: Vec<(&str, &str, &str)> = vec![
            ("sample_types", "STRUCT(type VARCHAR, unit VARCHAR)[]", SAMPLE_TYPES_DESCRIPTION),
            ("period", "BIGINT", PERIOD_DESCRIPTION),
            ("period_type", "STRUCT(type VARCHAR, unit VARCHAR)", PERIOD_TYPE_DESCRIPTION),
            ("duration_nanos", "BIGINT", DURATION_NANOS_COMMENT),
            ("time_nanos", "BIGINT", TIME_NANOS_COMMENT),
            ("default_sample_type", "VARCHAR", DEFAULT_SAMPLE_TYPE_DESCRIPTION),
        ];
        table::push_trailing(&mut columns);
        assert(columns.deep_view() =~= result_column_list());
        table::function_metadata(
            DESCRIPTION,
            meta::object_tags(TITLE, DOC_LLM, DOC_MD, KEYWORDS, CATEGORY),
            columns.as_slice(),
            EXECUTABLE_EXAMPLES,
            examples(),
        )
    }

    fn output_schema(&self) -> (res: Vec<ColumnField>) {
        output_schema()
    }
}

} // verus!
