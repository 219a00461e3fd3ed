//! `samples`: one row per sample, as the profile holds it.

use vstd::prelude::*;

use crate::arrow::Cell;
use crate::cells;
use crate::columns;
use crate::columns::{Column, ColumnView};
use crate::decoded::Decoded;
use crate::flatten;
use crate::laws;
use crate::lists;
use crate::meta;
use crate::meta::{FunctionMetadata, FunctionMetadataView};
use crate::proto::ProfileView;
use crate::rows::{SampleRow, SampleRowView};
use crate::schema;
use crate::schema::{ColumnField, ColumnFieldView, ColumnType, ColumnTypeView, ScalarType};
use crate::table;
use crate::table::{Columns, OutputRow, Table};

verus! {

/// The comment of the `sample_id` column.
pub const SAMPLE_ID_COMMENT: &'static str =
    "1-based index of the sample within its profile; joins to pprof.stacks.sample_id.";

/// The description of the `sample_id` column.
pub const SAMPLE_ID_DESCRIPTION: &'static str = "1-based sample index.";

/// The comment of the `location_ids` column.
pub const LOCATION_IDS_COMMENT: &'static str =
    "The sample's location ids, leaf first (location_ids[1] is the leaf). Each joins to \
     pprof.locations.location_id.";

/// The description of the `location_ids` column.
pub const LOCATION_IDS_DESCRIPTION: &'static str = "Location ids, leaf first.";

/// The comment of the `value` column.
pub const VALUE_COMMENT: &'static str =
    "The sample's measured values, one BIGINT per meta.sample_types entry, in order.";

/// The description of the `value` column.
pub const VALUE_DESCRIPTION: &'static str = "Values aligned to `meta.sample_types`.";

/// The comment of the `labels` column.
pub const LABELS_COMMENT: &'static str =
    "Sample labels as a MAP(VARCHAR, VARCHAR); duplicate keys de-duplicated (first wins).";

/// The description of the `labels` column.
pub const LABELS_DESCRIPTION: &'static str = "Sample labels.";

/// What the table is.
pub const DESCRIPTION: &'static str =
    "Decode a pprof profile's raw samples (location ids + values + labels)";

/// The title of the table.
pub const TITLE: &'static str = "Raw Samples";

/// What the table is, for a model.
pub const DOC_LLM: &'static str =
    "Decode a pprof profile's raw samples: one row per sample with `location_ids` \
     (`LIST(UBIGINT)`, leaf first), `value` (`LIST(BIGINT)` aligned to meta.sample_types), and \
     `labels` (`MAP`). No resolution is applied — join `location_ids` to pprof.locations and \
     onward to pprof.functions, or use pprof.stacks for the pre-resolved view. `src` may be a \
     path, glob, list, or `BLOB`; a bad file yields one error row.";

/// What the table is, for a reader.
pub const DOC_MD: &'static str =
    "Raw pprof samples: `sample_id`, `location_ids` (`UBIGINT[]`, leaf first), `value` \
     (`BIGINT[]`), and `labels` (`MAP`). Join `location_ids` to `locations`, or use `stacks` \
     for resolved frames.";

/// What the table is found by.
pub const KEYWORDS: &'static str =
    "pprof, samples, raw samples, location ids, values, labels, stack, profiling, join";

/// What the table is listed under.
pub const CATEGORY: &'static str = "Raw profile graph";

/// Queries that run as they stand, as JSON.
pub const EXECUTABLE_EXAMPLES: &'static str = r#"[
  {
    "description": "Raw samples with their leaf location id.",
    "sql": "SELECT sample_id, location_ids[1] AS leaf_loc, value FROM pprof.main.samples('data/go_cpu.pb.gz') WHERE error IS NULL"
  },
  {
    "description": "Inspect the per-sample labels (e.g. a heap profile's size_class tag) carried alongside the values.",
    "sql": "SELECT sample_id, labels, value FROM pprof.main.samples('data/alloc.pb.gz') WHERE error IS NULL LIMIT 5"
  }
]"#;

/// What the example shows.
pub const EXAMPLE_DESCRIPTION: &'static str = "Raw samples with their leaf location id.";

/// The query of the example.
pub const EXAMPLE_SQL: &'static str =
    "SELECT sample_id, location_ids[1] AS leaf_loc, value FROM \
     pprof.main.samples('data/go_cpu.pb.gz') WHERE error IS NULL;";

/// The columns of the table, before they are laid out.
#[derive(Debug)]
pub struct SampleColumns {
    pub sample_id: Vec<Option<i64>>,
    pub location_ids: Vec<Option<Vec<u64>>>,
    pub value: Vec<Option<Vec<i64>>>,
    pub labels: Vec<Option<Vec<(String, String)>>>,
    pub file: Vec<Option<String>>,
    pub error: Vec<Option<String>>,
}

/// The value of a [`SampleColumns`].
#[verifier::ext_equal]
pub struct SampleColumnsView {
    pub sample_id: Seq<Option<i64>>,
    pub location_ids: Seq<Option<Seq<u64>>>,
    pub value: Seq<Option<Seq<i64>>>,
    pub labels: Seq<Option<Seq<(Seq<char>, Seq<char>)>>>,
    pub file: Seq<Option<Seq<char>>>,
    pub error: Seq<Option<Seq<char>>>,
}

impl DeepView for SampleColumns {
    type V = SampleColumnsView;

    open spec fn deep_view(&self) -> SampleColumnsView {
        SampleColumnsView {
            sample_id: self.sample_id@,
            location_ids: self.location_ids.deep_view(),
            value: self.value.deep_view(),
            labels: self.labels.deep_view(),
            file: self.file.deep_view(),
            error: self.error.deep_view(),
        }
    }
}

impl Columns for SampleColumns {
    type Row = SampleRow;

    open spec fn data_rows(p: ProfileView) -> Seq<SampleRowView> {
        flatten::sample_rows(p)
    }

    open spec fn columns_of(rows: Seq<OutputRow<SampleRowView>>) -> SampleColumnsView {
        SampleColumnsView {
            sample_id: Seq::new(
                rows.len(),
                |i: int|
                    match rows[i].data {
                        Some(row) => Some(row.sample_id),
                        None => None,
                    },
            ),
            location_ids: Seq::new(
                rows.len(),
                |i: int|
                    match rows[i].data {
                        Some(row) => Some(row.location_ids),
                        None => None,
                    },
            ),
            value: Seq::new(
                rows.len(),
                |i: int|
                    match rows[i].data {
                        Some(row) => Some(row.value),
                        None => None,
                    },
            ),
            labels: Seq::new(
                rows.len(),
                |i: int|
                    match rows[i].data {
                        Some(row) => Some(row.labels),
                        None => None,
                    },
            ),
            file: Seq::new(rows.len(), |i: int| rows[i].file),
            error: Seq::new(rows.len(), |i: int| rows[i].error),
        }
    }

    open spec fn columns_fit(columns: SampleColumnsView) -> bool {
        &&& columns::offsets_fit(columns::row_counts(columns.location_ids))
        &&& columns::offsets_fit(columns::row_counts(columns.value))
        &&& columns::offsets_fit(columns::row_counts(columns.labels))
    }

    open spec fn batch_of(columns: SampleColumnsView) -> Seq<ColumnView> {
        seq![
            columns::i64_column(columns.sample_id),
            columns::list_u64_column(columns.location_ids),
            columns::list_i64_column(columns.value),
            columns::map_column(columns.labels),
            columns::str_column(columns.file),
            columns::str_column(columns.error),
        ]
    }

    open spec fn schema() -> Seq<ColumnFieldView> {
        field_list()
    }

    proof fn law_batch_matches_schema(rows: Seq<OutputRow<SampleRowView>>) {
        let columns = SampleColumns::columns_of(rows);
        table::lemma_layout_matches(columns.location_ids);
        table::lemma_layout_matches(columns.value);
        table::lemma_layout_matches(columns.labels);
        assert(table::batch_matches(
            SampleColumns::batch_of(columns),
            field_list(),
            rows.len() as int,
        ));
    }

    open spec fn row_cells(row: OutputRow<SampleRowView>) -> Seq<Cell> {
        match row.data {
            Some(data) => seq![
                cells::i64_cell(Some(data.sample_id)),
                cells::list_u64_cell(Some(data.location_ids)),
                cells::list_i64_cell(Some(data.value)),
                cells::map_cell(Some(data.labels)),
                cells::str_cell(row.file),
                cells::str_cell(row.error),
            ],
            None => seq![
                Cell::Null,
                Cell::Null,
                Cell::Null,
                Cell::Null,
                cells::str_cell(row.file),
                cells::str_cell(row.error),
            ],
        }
    }

    proof fn law_batch_holds_rows(rows: Seq<OutputRow<SampleRowView>>, i: int) {
        let columns = SampleColumns::columns_of(rows);
        laws::cells::law_list_u64_column_holds_its_rows(columns.location_ids, i);
        laws::cells::law_list_i64_column_holds_its_rows(columns.value, i);
        laws::cells::law_map_column_holds_its_rows(columns.labels, i);
    }

    proof fn law_schema_ends_alike() {
        assert(field_list().skip(field_list().len() - 2) =~= schema::trailing_field_list());
    }

    proof fn law_error_rows(rows: Seq<OutputRow<SampleRowView>>, i: int) {
    }

    fn read(decoded: &Decoded) -> (res: Vec<SampleRow>) {
        decoded.samples()
    }

    fn start() -> (res: SampleColumns) {
        let res = SampleColumns {
            sample_id: Vec::new(),
            location_ids: Vec::new(),
            value: Vec::new(),
            labels: Vec::new(),
            file: Vec::new(),
            error: Vec::new(),
        };
        assert(res.deep_view() =~= SampleColumns::columns_of(Seq::empty()));
        res
    }

    fn add(&mut self, data: Option<SampleRow>, file: Option<String>, error: Option<String>) {
        let ghost row = OutputRow {
            data: data.deep_view(),
            file: file.deep_view(),
            error: error.deep_view(),
        };
        match data {
            Some(data) => {
                self.sample_id.push(Some(data.sample_id));
                assert(data.location_ids.deep_view() =~= data.location_ids@);
                lists::push_value(&mut self.location_ids, Some(data.location_ids));
                assert(data.value.deep_view() =~= data.value@);
                lists::push_value(&mut self.value, Some(data.value));
                lists::push_value(&mut self.labels, Some(data.labels));
            },
            None => {
                self.sample_id.push(None);
                lists::push_value(&mut self.location_ids, None);
                lists::push_value(&mut self.value, None);
                lists::push_value(&mut self.labels, None);
            },
        }
        lists::push_value(&mut self.file, file);
        lists::push_value(&mut self.error, error);
        proof {
            assert forall|rows: Seq<OutputRow<SampleRowView>>|
                old(self).deep_view() == SampleColumns::columns_of(rows) implies self.deep_view()
                == #[trigger] SampleColumns::columns_of(rows.push(row)) by {
                assert(self.deep_view() =~= SampleColumns::columns_of(rows.push(row)));
            }
        }
    }

    fn fits(&self) -> (res: bool) {
        columns::fit_offsets(columns::item_counts(&self.location_ids).as_slice())
            && columns::fit_offsets(columns::item_counts(&self.value).as_slice())
            && columns::fit_offsets(columns::item_counts(&self.labels).as_slice())
    }

    fn batch(self) -> (res: Vec<Column>) {
        let batch = vec![
            columns::i64_col(self.sample_id),
            columns::list_u64_col(self.location_ids),
            columns::list_i64_col(self.value),
            columns::map_col(self.labels),
            columns::str_col(self.file),
            columns::str_col(self.error),
        ];
        assert(batch.deep_view() =~= SampleColumns::batch_of(self.deep_view()));
        batch
    }
}

/// The columns of a result.
pub open spec fn field_list() -> Seq<ColumnFieldView> {
    seq![
        ColumnFieldView {
            name: "sample_id"@,
            data_type: ColumnTypeView::Scalar(ScalarType::Int64),
            comment: SAMPLE_ID_COMMENT@,
        },
        ColumnFieldView {
            name: "location_ids"@,
            data_type: ColumnTypeView::List(ScalarType::UInt64),
            comment: LOCATION_IDS_COMMENT@,
        },
        ColumnFieldView {
            name: "value"@,
            data_type: ColumnTypeView::List(ScalarType::Int64),
            comment: VALUE_COMMENT@,
        },
        ColumnFieldView {
            name: "labels"@,
            data_type: ColumnTypeView::TextMap(schema::map_entry_field_list()),
            comment: LABELS_COMMENT@,
        },
    ] + schema::trailing_field_list()
}

/// The columns of a result.
pub fn output_schema() -> (res: Vec<ColumnField>)
    ensures
        res.deep_view() == field_list(),
{
    let fields = vec![
        schema::commented("sample_id", ColumnType::Scalar(ScalarType::Int64), SAMPLE_ID_COMMENT),
        schema::commented("location_ids", schema::list_u64_type(), LOCATION_IDS_COMMENT),
        schema::commented("value", schema::list_i64_type(), VALUE_COMMENT),
        schema::commented("labels", schema::map_type(), LABELS_COMMENT),
    ];
    let schema = schema::schema_with_trailing(fields);
    assert(schema.deep_view() =~= field_list());
    schema
}

/// The columns of a result by name, type and description.
pub open spec fn result_column_list() -> Seq<(Seq<char>, Seq<char>, Seq<char>)> {
    seq![
        ("sample_id"@, "BIGINT"@, SAMPLE_ID_DESCRIPTION@),
        ("location_ids"@, "UBIGINT[]"@, LOCATION_IDS_DESCRIPTION@),
        ("value"@, "BIGINT[]"@, VALUE_DESCRIPTION@),
        ("labels"@, "MAP(VARCHAR,VARCHAR)"@, LABELS_DESCRIPTION@),
    ] + meta::trailing_columns()
}

/// The examples by description and query.
pub open spec fn example_list() -> Seq<(Seq<char>, Seq<char>)> {
    seq![(EXAMPLE_DESCRIPTION@, EXAMPLE_SQL@)]
}

/// The description has no carriage returns and no tabs.
proof fn lemma_example_description_is_plain()
    ensures
        meta::is_plain(EXAMPLE_DESCRIPTION@),
{
    reveal_strlit("Raw samples with their leaf location id.");
    reveal_with_fuel(meta::plain_up_to, 26);
    assert(meta::plain_up_to(EXAMPLE_DESCRIPTION@, 25));
    assert(meta::plain_up_to(EXAMPLE_DESCRIPTION@, 40));
    meta::lemma_plain_to_the_end(EXAMPLE_DESCRIPTION@);
}

/// The query has no carriage returns and no tabs.
proof fn lemma_example_sql_is_plain()
    ensures
        meta::is_plain(EXAMPLE_SQL@),
{
    reveal_strlit(
        "SELECT sample_id, location_ids[1] AS leaf_loc, value FROM \
         pprof.main.samples('data/go_cpu.pb.gz') WHERE error IS NULL;",
    );
    reveal_with_fuel(meta::plain_up_to, 26);
    assert(meta::plain_up_to(EXAMPLE_SQL@, 25));
    assert(meta::plain_up_to(EXAMPLE_SQL@, 50));
    assert(meta::plain_up_to(EXAMPLE_SQL@, 75));
    assert(meta::plain_up_to(EXAMPLE_SQL@, 100));
    assert(meta::plain_up_to(EXAMPLE_SQL@, 118));
    meta::lemma_plain_to_the_end(EXAMPLE_SQL@);
}

fn examples() -> (res: Vec<(String, String)>)
    ensures
        res.deep_view() == example_list(),
{
    let pairs = vec![
        meta::tag(EXAMPLE_DESCRIPTION, EXAMPLE_SQL),
    ];
    assert(pairs.deep_view() =~= example_list());
    pairs
}

/// The table of samples as the profile holds them.
#[derive(Debug, Clone, Copy)]
pub struct Samples;

impl Table for Samples {
    type Columns = SampleColumns;

    open spec fn name_text() -> Seq<char> {
        "samples"@
    }

    open spec fn result_columns() -> Seq<(Seq<char>, Seq<char>, Seq<char>)> {
        result_column_list()
    }

    open spec fn metadata_value() -> FunctionMetadataView {
        table::metadata_of(
            DESCRIPTION@,
            meta::object_tag_list(TITLE@, DOC_LLM@, DOC_MD@, KEYWORDS@, CATEGORY@),
            result_column_list(),
            EXECUTABLE_EXAMPLES@,
            example_list(),
        )
    }

    proof fn law_result_columns_match_schema() {
        schema::lemma_type_texts();
    }

    open spec fn example_pairs() -> Seq<(Seq<char>, Seq<char>)> {
        example_list()
    }

    proof fn law_metadata_is_told() {
        table::lemma_metadata_tells(
            DESCRIPTION@,
            (TITLE@, DOC_LLM@, DOC_MD@, KEYWORDS@, CATEGORY@),
            result_column_list(),
            EXECUTABLE_EXAMPLES@,
            example_list(),
        );
    }

    proof fn law_examples_are_plain() {
        lemma_example_description_is_plain();
        lemma_example_sql_is_plain();
    }

    fn name(&self) -> (res: &'static str) {
        "samples"
    }

    fn metadata(&self) -> (res: FunctionMetadata) {
        let mut columns: Vec<(&str, &str, &str)> = vec![
            ("sample_id", "BIGINT", SAMPLE_ID_DESCRIPTION),
            ("location_ids", "UBIGINT[]", LOCATION_IDS_DESCRIPTION),
            ("value", "BIGINT[]", VALUE_DESCRIPTION),
            ("labels", "MAP(VARCHAR,VARCHAR)", LABELS_DESCRIPTION),
        ];
        table::push_trailing(&mut columns);
        assert(columns.deep_view() =~= result_column_list());
        table::function_metadata(
            DESCRIPTION,
            meta::object_tags(TITLE, DOC_LLM, DOC_MD, KEYWORDS, CATEGORY),
            columns.as_slice(),
            EXECUTABLE_EXAMPLES,
            examples(),
        )
    }

    fn output_schema(&self) -> (res: Vec<ColumnField>) {
        output_schema()
    }
}

} // verus!
