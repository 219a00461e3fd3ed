//! `stacks`: one row per sample, with its call stack resolved.

use vstd::prelude::*;

use crate::arrow::Cell;
use crate::cells;
use crate::columns;
use crate::columns::{Column, ColumnView};
use crate::decoded::Decoded;
use crate::flatten;
use crate::laws;
use crate::lists;
use crate::meta;
use crate::meta::{FunctionMetadata, FunctionMetadataView};
use crate::proto::ProfileView;
use crate::rows::{Frame, FrameView, StackRow, StackRowView};
use crate::schema;
use crate::schema::{ColumnField, ColumnFieldView, ColumnType, ColumnTypeView, ScalarType};
use crate::table;
use crate::table::{Columns, OutputRow, Table};

verus! {

/// The comment of the `sample_id` column.
pub const SAMPLE_ID_COMMENT: &'static str =
    "1-based index of the sample within its profile; joins to pprof.samples.sample_id.";

/// The description of the `sample_id` column.
pub const SAMPLE_ID_DESCRIPTION: &'static str = "1-based sample index (joins to `samples`).";

/// The comment of the `value` column.
pub const VALUE_COMMENT: &'static str =
    "The sample's measured values, one BIGINT per entry of meta.sample_types, in the same \
     order (e.g. [alloc_objects, alloc_space] for a heap profile). Index the type you want.";

/// The description of the `value` column.
pub const VALUE_DESCRIPTION: &'static str = "One value per `meta.sample_types`, same order.";

/// The comment of the `labels` column.
pub const LABELS_COMMENT: &'static str =
    "Sample labels as a MAP(VARCHAR, VARCHAR): string labels verbatim, numeric labels rendered \
     as the number (with unit suffix when present). Duplicate keys are de-duplicated (first \
     wins).";

/// The description of the `labels` column.
pub const LABELS_DESCRIPTION: &'static str = "Sample labels.";

/// The comment of the `frame` column.
pub const FRAME_COMMENT: &'static str =
    "The call stack, leaf first: a LIST of STRUCT(function, filename, line, address). Inlined \
     frames are expanded in place; an unsymbolized frame has NULL function/filename but keeps \
     its address. frame[1] is the leaf (self) frame.";

/// The description of the `frame` column.
pub const FRAME_DESCRIPTION: &'static str = "Call stack, leaf first.";

/// What the table is.
pub const DESCRIPTION: &'static str = "Flatten a pprof profile into flamegraph-ready stack rows";

/// The title of the table.
pub const TITLE: &'static str = "Flattened Stacks (headline)";

/// What the table is, for a model.
pub const DOC_LLM: &'static str =
    "Flatten a pprof profile into one row per sample with the call stack pre-resolved: `value` \
     is a `LIST(BIGINT)` aligned to meta.sample_types, `labels` is a `MAP(VARCHAR,VARCHAR)`, \
     and `frame` is a `LIST(STRUCT(function, filename, line, address))` ordered leaf-first \
     (inlined frames expanded, unsymbolized frames keep their address). This is the 90% view: \
     a flamegraph diff across many profiles is a GROUP BY frame … SUM(value) with no manual \
     location/function join. `src` may be a file path, a glob, a `LIST` of paths, or inline \
     `BLOB` bytes; a bad file yields one error row.";

/// What the table is, for a reader.
pub const DOC_MD: &'static str =
    "Flatten a pprof profile into flamegraph-ready rows: `sample_id`, `value` (`LIST(BIGINT)` \
     aligned to the sample types), `labels` (`MAP`), and `frame` (`LIST(STRUCT(function, \
     filename, line, address))`, leaf first). Use it to diff profiles in SQL.";

/// What the table is found by.
pub const KEYWORDS: &'static str =
    "pprof, stacks, flamegraph, stack trace, profile diff, regression, self time, cpu, \
     flatten, frames, leaf, samples, profiling";

/// What the table is listed under.
pub const CATEGORY: &'static str = "Flattened stacks";

/// Queries that run as they stand, as JSON.
pub const EXECUTABLE_EXAMPLES: &'static str = r#"[
  {
    "description": "Top self-time functions across a directory of CPU profiles.",
    "sql": "SELECT s.frame[1].function AS fn, sum(s.value[2]) AS cpu_ns FROM glob('/profiles/*.pb.gz') f, pprof.main.stacks(f.path) s WHERE s.error IS NULL GROUP BY 1 ORDER BY 2 DESC LIMIT 20"
  },
  {
    "description": "Flatten one profile's stacks (leaf frame, values aligned to meta.sample_types).",
    "sql": "SELECT sample_id, frame[1].function AS leaf, value FROM pprof.main.stacks('data/go_cpu.pb.gz') WHERE error IS NULL"
  }
]"#;

/// What the example shows.
pub const EXAMPLE_DESCRIPTION: &'static str =
    "Top self-time functions across a directory of CPU profiles.";

/// The query of the example.
pub const EXAMPLE_SQL: &'static str =
    "SELECT s.frame[1].function AS fn, sum(s.value[2]) AS cpu_ns FROM \
     glob('/profiles/*.pb.gz') f, pprof.main.stacks(f.path) s WHERE s.error IS NULL GROUP BY 1 \
     ORDER BY 2 DESC LIMIT 20;";

/// What the second example shows.
pub const SECOND_EXAMPLE_DESCRIPTION: &'static str =
    "Flatten one profile's stacks (leaf frame + per-type values).";

/// The query of the second example.
pub const SECOND_EXAMPLE_SQL: &'static str =
    "SELECT sample_id, frame[1].function AS leaf, value FROM \
     pprof.main.stacks('data/go_cpu.pb.gz') WHERE error IS NULL;";

/// The columns of the table, before they are laid out.
#[derive(Debug)]
pub struct StackColumns {
    pub sample_id: Vec<Option<i64>>,
    pub value: Vec<Option<Vec<i64>>>,
    pub labels: Vec<Option<Vec<(String, String)>>>,
    pub frame: Vec<Option<Vec<Frame>>>,
    pub file: Vec<Option<String>>,
    pub error: Vec<Option<String>>,
}

/// The value of a [`StackColumns`].
#[verifier::ext_equal]
pub struct StackColumnsView {
    pub sample_id: Seq<Option<i64>>,
    pub value: Seq<Option<Seq<i64>>>,
    pub labels: Seq<Option<Seq<(Seq<char>, Seq<char>)>>>,
    pub frame: Seq<Option<Seq<FrameView>>>,
    pub file: Seq<Option<Seq<char>>>,
    pub error: Seq<Option<Seq<char>>>,
}

impl DeepView for StackColumns {
    type V = StackColumnsView;

    open spec fn deep_view(&self) -> StackColumnsView {
        StackColumnsView {
            sample_id: self.sample_id@,
            value: self.value.deep_view(),
            labels: self.labels.deep_view(),
            frame: self.frame.deep_view(),
            file: self.file.deep_view(),
            error: self.error.deep_view(),
        }
    }
}

impl Columns for StackColumns {
    type Row = StackRow;

    open spec fn data_rows(p: ProfileView) -> Seq<StackRowView> {
        flatten::stack_rows(p)
    }

    open spec fn columns_of(rows: Seq<OutputRow<StackRowView>>) -> StackColumnsView {
        StackColumnsView {
            sample_id: Seq::new(
                rows.len(),
                |i: int|
                    match rows[i].data {
                        Some(row) => Some(row.sample_id),
                        None => None,
                    },
            ),
            value: Seq::new(
                rows.len(),
                |i: int|
                    match rows[i].data {
                        Some(row) => Some(row.value),
                        None => None,
                    },
            ),
            labels: Seq::new(
                rows.len(),
                |i: int|
                    match rows[i].data {
                        Some(row) => Some(row.labels),
                        None => None,
                    },
            ),
            frame: Seq::new(
                rows.len(),
                |i: int|
                    match rows[i].data {
                        Some(row) => Some(row.frames),
                        None => None,
                    },
            ),
            file: Seq::new(rows.len(), |i: int| rows[i].file),
            error: Seq::new(rows.len(), |i: int| rows[i].error),
        }
    }

    open spec fn columns_fit(columns: StackColumnsView) -> bool {
        &&& columns::offsets_fit(columns::row_counts(columns.value))
        &&& columns::offsets_fit(columns::row_counts(columns.labels))
        &&& columns::offsets_fit(columns::row_counts(columns.frame))
    }

    open spec fn batch_of(columns: StackColumnsView) -> Seq<ColumnView> {
        seq![
            columns::i64_column(columns.sample_id),
            columns::list_i64_column(columns.value),
            columns::map_column(columns.labels),
            columns::list_frame_column(columns.frame),
            columns::str_column(columns.file),
            columns::str_column(columns.error),
        ]
    }

    open spec fn schema() -> Seq<ColumnFieldView> {
        field_list()
    }

    proof fn law_batch_matches_schema(rows: Seq<OutputRow<StackRowView>>) {
        let columns = StackColumns::columns_of(rows);
        table::lemma_layout_matches(columns.value);
        table::lemma_layout_matches(columns.labels);
        table::lemma_layout_matches(columns.frame);
        assert(table::batch_matches(
            StackColumns::batch_of(columns),
            field_list(),
            rows.len() as int,
        ));
    }

    open spec fn row_cells(row: OutputRow<StackRowView>) -> Seq<Cell> {
        match row.data {
            Some(data) => seq![
                cells::i64_cell(Some(data.sample_id)),
                cells::list_i64_cell(Some(data.value)),
                cells::map_cell(Some(data.labels)),
                cells::list_frame_cell(Some(data.frames)),
                cells::str_cell(row.file),
                cells::str_cell(row.error),
            ],
            None => seq![
                Cell::Null,
                Cell::Null,
                Cell::Null,
                Cell::Null,
                cells::str_cell(row.file),
                cells::str_cell(row.error),
            ],
        }
    }

    proof fn law_batch_holds_rows(rows: Seq<OutputRow<StackRowView>>, i: int) {
        let columns = StackColumns::columns_of(rows);
        laws::cells::law_list_i64_column_holds_its_rows(columns.value, i);
        laws::cells::law_map_column_holds_its_rows(columns.labels, i);
        laws::cells::law_list_frame_column_holds_its_rows(columns.frame, i);
    }

    proof fn law_schema_ends_alike() {
        assert(field_list().skip(field_list().len() - 2) =~= schema::trailing_field_list());
    }

    proof fn law_error_rows(rows: Seq<OutputRow<StackRowView>>, i: int) {
    }

    fn read(decoded: &Decoded) -> (res: Vec<StackRow>) {
        decoded.stacks()
    }

    fn start() -> (res: StackColumns) {
        let res = StackColumns {
            sample_id: Vec::new(),
            value: Vec::new(),
            labels: Vec::new(),
            frame: Vec::new(),
            file: Vec::new(),
            error: Vec::new(),
        };
        assert(res.deep_view() =~= StackColumns::columns_of(Seq::empty()));
        res
    }

    fn add(&mut self, data: Option<StackRow>, file: Option<String>, error: Option<String>) {
        let ghost row = OutputRow {
            data: data.deep_view(),
            file: file.deep_view(),
            error: error.deep_view(),
        };
        match data {
            Some(data) => {
                self.sample_id.push(Some(data.sample_id));
                assert(data.value.deep_view() =~= data.value@);
                lists::push_value(&mut self.value, Some(data.value));
                lists::push_value(&mut self.labels, Some(data.labels));
                lists::push_value(&mut self.frame, Some(data.frames));
            },
            None => {
                self.sample_id.push(None);
                lists::push_value(&mut self.value, None);
                lists::push_value(&mut self.labels, None);
                lists::push_value(&mut self.frame, None);
            },
        }
        lists::push_value(&mut self.file, file);
        lists::push_value(&mut self.error, error);
        proof {
            assert forall|rows: Seq<OutputRow<StackRowView>>|
                old(self).deep_view() == StackColumns::columns_of(rows) implies self.deep_view()
                == #[trigger] StackColumns::columns_of(rows.push(row)) by {
                assert(self.deep_view() =~= StackColumns::columns_of(rows.push(row)));
            }
        }
    }

    fn fits(&self) -> (res: bool) {
        columns::fit_offsets(columns::item_counts(&self.value).as_slice())
            && columns::fit_offsets(columns::item_counts(&self.labels).as_slice())
            && columns::fit_offsets(columns::item_counts(&self.frame).as_slice())
    }

    fn batch(self) -> (res: Vec<Column>) {
        let batch = vec![
            columns::i64_col(self.sample_id),
            columns::list_i64_col(self.value),
            columns::map_col(self.labels),
            columns::list_frame_col(self.frame),
            columns::str_col(self.file),
            columns::str_col(self.error),
        ];
        assert(batch.deep_view() =~= StackColumns::batch_of(self.deep_view()));
        batch
    }
}

/// The columns of a result.
pub open spec fn field_list() -> Seq<ColumnFieldView> {
    seq![
        ColumnFieldView {
            name: "sample_id"@,
            data_type: ColumnTypeView::Scalar(ScalarType::Int64),
            comment: SAMPLE_ID_COMMENT@,
        },
        ColumnFieldView {
            name: "value"@,
            data_type: ColumnTypeView::List(ScalarType::Int64),
            comment: VALUE_COMMENT@,
        },
        ColumnFieldView {
            name: "labels"@,
            data_type: ColumnTypeView::TextMap(schema::map_entry_field_list()),
            comment: LABELS_COMMENT@,
        },
        ColumnFieldView {
            name: "frame"@,
            data_type: ColumnTypeView::ListStruct(schema::frame_field_list()),
            comment: FRAME_COMMENT@,
        },
    ] + schema::trailing_field_list()
}

/// The columns of a result.
pub fn output_schema() -> (res: Vec<ColumnField>)
    ensures
        res.deep_view() == field_list(),
{
    let fields = vec![
        schema::commented("sample_id", ColumnType::Scalar(ScalarType::Int64), SAMPLE_ID_COMMENT),
        schema::commented("value", schema::list_i64_type(), VALUE_COMMENT),
        schema::commented("labels", schema::map_type(), LABELS_COMMENT),
        schema::commented("frame", schema::list_frame_type(), FRAME_COMMENT),
    ];
    let schema = schema::schema_with_trailing(fields);
    assert(schema.deep_view() =~= field_list());
    schema
}

/// The columns of a result by name, type and description.
pub open spec fn result_column_list() -> Seq<(Seq<char>, Seq<char>, Seq<char>)> {
    seq![
        ("sample_id"@, "BIGINT"@, SAMPLE_ID_DESCRIPTION@),
        ("value"@, "BIGINT[]"@, VALUE_DESCRIPTION@),
        ("labels"@, "MAP(VARCHAR,VARCHAR)"@, LABELS_DESCRIPTION@),
        (
            "frame"@,
            "STRUCT(function VARCHAR, filename VARCHAR, line BIGINT, address UBIGINT)[]"@,
            FRAME_DESCRIPTION@,
        ),
    ] + meta::trailing_columns()
}

/// The examples by description and query.
pub open spec fn example_list() -> Seq<(Seq<char>, Seq<char>)> {
    seq![(EXAMPLE_DESCRIPTION@, EXAMPLE_SQL@), (SECOND_EXAMPLE_DESCRIPTION@, SECOND_EXAMPLE_SQL@)]
}

/// The description has no carriage returns and no tabs.
proof fn lemma_example_description_is_plain()
    ensures
        meta::is_plain(EXAMPLE_DESCRIPTION@),
{
    reveal_strlit("Top self-time functions across a directory of CPU profiles.");
    reveal_with_fuel(meta::plain_up_to, 26);
    assert(meta::plain_up_to(EXAMPLE_DESCRIPTION@, 25));
    assert(meta::plain_up_to(EXAMPLE_DESCRIPTION@, 50));
    assert(meta::plain_up_to(EXAMPLE_DESCRIPTION@, 59));
    meta::lemma_plain_to_the_end(EXAMPLE_DESCRIPTION@);
}

/// The query has no carriage returns and no tabs.
proof fn lemma_example_sql_is_plain()
    ensures
        meta::is_plain(EXAMPLE_SQL@),
{
    reveal_strlit(
        "SELECT s.frame[1].function AS fn, sum(s.value[2]) AS cpu_ns FROM \
         glob('/profiles/*.pb.gz') f, pprof.main.stacks(f.path) s WHERE s.error IS NULL GROUP BY 1 \
         ORDER BY 2 DESC LIMIT 20;",
    );
    reveal_with_fuel(meta::plain_up_to, 26);
    assert(meta::plain_up_to(EXAMPLE_SQL@, 25));
    assert(meta::plain_up_to(EXAMPLE_SQL@, 50));
    assert(meta::plain_up_to(EXAMPLE_SQL@, 75));
    assert(meta::plain_up_to(EXAMPLE_SQL@, 100));
    assert(meta::plain_up_to(EXAMPLE_SQL@, 125));
    assert(meta::plain_up_to(EXAMPLE_SQL@, 150));
    assert(meta::plain_up_to(EXAMPLE_SQL@, 175));
    assert(meta::plain_up_to(EXAMPLE_SQL@, 180));
    meta::lemma_plain_to_the_end(EXAMPLE_SQL@);
}

/// The description has no carriage returns and no tabs.
proof fn lemma_second_example_description_is_plain()
    ensures
        meta::is_plain(SECOND_EXAMPLE_DESCRIPTION@),
{
    reveal_strlit("Flatten one profile's stacks (leaf frame + per-type values).");
    reveal_with_fuel(meta::plain_up_to, 26);
    assert(meta::plain_up_to(SECOND_EXAMPLE_DESCRIPTION@, 25));
    assert(meta::plain_up_to(SECOND_EXAMPLE_DESCRIPTION@, 50));
    assert(meta::plain_up_to(SECOND_EXAMPLE_DESCRIPTION@, 60));
    meta::lemma_plain_to_the_end(SECOND_EXAMPLE_DESCRIPTION@);
}

/// The query has no carriage returns and no tabs.
proof fn lemma_second_example_sql_is_plain()
    ensures
        meta::is_plain(SECOND_EXAMPLE_SQL@),
{
    reveal_strlit(
        "SELECT sample_id, frame[1].function AS leaf, value FROM \
         pprof.main.stacks('data/go_cpu.pb.gz') WHERE error IS NULL;",
    );
    reveal_with_fuel(meta::plain_up_to, 26);
    assert(meta::plain_up_to(SECOND_EXAMPLE_SQL@, 25));
    assert(meta::plain_up_to(SECOND_EXAMPLE_SQL@, 50));
    assert(meta::plain_up_to(SECOND_EXAMPLE_SQL@, 75));
    assert(meta::plain_up_to(SECOND_EXAMPLE_SQL@, 100));
    assert(meta::plain_up_to(SECOND_EXAMPLE_SQL@, 115));
    meta::lemma_plain_to_the_end(SECOND_EXAMPLE_SQL@);
}

fn examples() -> (res: Vec<(String, String)>)
    ensures
        res.deep_view() == example_list(),
{
    let pairs = vec![
        meta::tag(EXAMPLE_DESCRIPTION, EXAMPLE_SQL),
        meta::tag(SECOND_EXAMPLE_DESCRIPTION, SECOND_EXAMPLE_SQL),
    ];
    assert(pairs.deep_view() =~= example_list());
    pairs
}

/// The table of samples with their stacks resolved.
#[derive(Debug, Clone, Copy)]
pub struct Stacks;

impl Table for Stacks {
    type Columns = StackColumns;

    open spec fn name_text() -> Seq<char> {
        "stacks"@
    }

    open spec fn result_columns() -> Seq<(Seq<char>, Seq<char>, Seq<char>)> {
        result_column_list()
    }

    open spec fn metadata_value() -> FunctionMetadataView {
        table::metadata_of(
            DESCRIPTION@,
            meta::object_tag_list(TITLE@, DOC_LLM@, DOC_MD@, KEYWORDS@, CATEGORY@),
            result_column_list(),
            EXECUTABLE_EXAMPLES@,
            example_list(),
        )
    }

    proof fn law_result_columns_match_schema() {
        schema::lemma_type_texts();
    }

    open spec fn example_pairs() -> Seq<(Seq<char>, Seq<char>)> {
        example_list()
    }

    proof fn law_metadata_is_told() {
        table::lemma_metadata_tells(
            DESCRIPTION@,
            (TITLE@, DOC_LLM@, DOC_MD@, KEYWORDS@, CATEGORY@),
            result_column_list(),
            EXECUTABLE_EXAMPLES@,
            example_list(),
        );
    }

    proof fn law_examples_are_plain() {
        lemma_example_description_is_plain();
        lemma_example_sql_is_plain();
        lemma_second_example_description_is_plain();
        lemma_second_example_sql_is_plain();
    }

    fn name(&self) -> (res: &'static str) {
        "stacks"
    }

    fn metadata(&self) -> (res: FunctionMetadata) {
        let mut columns: Vec<(&str, &str, &str)> = vec![
            ("sample_id", "BIGINT", SAMPLE_ID_DESCRIPTION),
            ("value", "BIGINT[]", VALUE_DESCRIPTION),
            ("labels", "MAP(VARCHAR,VARCHAR)", LABELS_DESCRIPTION),
            (
                "frame",
                "STRUCT(function VARCHAR, filename VARCHAR, line BIGINT, address UBIGINT)[]",
                FRAME_DESCRIPTION,
            ),
        ];
        table::push_trailing(&mut columns);
        assert(columns.deep_view() =~= result_column_list());
        table::function_metadata(
            DESCRIPTION,
            meta::object_tags(TITLE, DOC_LLM, DOC_MD, KEYWORDS, CATEGORY),
            columns.as_slice(),
            EXECUTABLE_EXAMPLES,
            examples(),
        )
    }

    fn output_schema(&self) -> (res: Vec<ColumnField>) {
        output_schema()
    }
}

} // verus!
