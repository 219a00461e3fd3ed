//! `locations`: the location table of a profile.

use vstd::prelude::*;

use crate::arrow::Cell;
use crate::cells;
use crate::columns;
use crate::columns::{Column, ColumnView};
use crate::decoded::Decoded;
use crate::flatten;
use crate::laws;
use crate::lists;
use crate::meta;
use crate::meta::{FunctionMetadata, FunctionMetadataView};
use crate::proto::ProfileView;
use crate::rows::{LineRef, LocationRow, LocationRowView};
use crate::schema;
use crate::schema::{ColumnField, ColumnFieldView, ColumnType, ColumnTypeView, ScalarType};
use crate::table;
use crate::table::{Columns, OutputRow, Table};

verus! {

/// The comment of the `location_id` column.
pub const LOCATION_ID_COMMENT: &'static str =
    "The location's unique id within the profile (verbatim); referenced by \
     pprof.samples.location_ids.";

/// The description of the `location_id` column.
pub const LOCATION_ID_DESCRIPTION: &'static str = "Location id (verbatim).";

/// The comment of the `address` column.
pub const ADDRESS_COMMENT: &'static str =
    "Instruction address for this location (0 if unavailable); within its mapping's memory \
     range.";

/// The description of the `address` column.
pub const ADDRESS_DESCRIPTION: &'static str = "Instruction address.";

/// The comment of the `mapping_id` column.
pub const MAPPING_ID_COMMENT: &'static str =
    "Id of the pprof.mappings row this location belongs to (0 if unknown).";

/// The description of the `mapping_id` column.
pub const MAPPING_ID_DESCRIPTION: &'static str = "Owning mapping id.";

/// The comment of the `lines` column.
pub const LINES_COMMENT: &'static str =
    "The line table: a LIST of STRUCT(function_id UBIGINT, line BIGINT), innermost inlined \
     frame first. function_id joins to pprof.functions.function_id. Empty for an unsymbolized \
     location.";

/// The description of the `lines` column.
pub const LINES_DESCRIPTION: &'static str = "Line table, innermost first.";

/// What the table is.
pub const DESCRIPTION: &'static str = "Decode a pprof profile's location table";

/// The title of the table.
pub const TITLE: &'static str = "Locations Table";

/// What the table is, for a model.
pub const DOC_LLM: &'static str =
    "Decode a pprof profile's location table: one row per location with `location_id` \
     (verbatim), `address`, `mapping_id`, and `lines` (`LIST(STRUCT(function_id, line))`, \
     innermost inlined frame first). Join `mapping_id` to pprof.mappings and \
     `lines[].function_id` to pprof.functions to symbolize. `src` may be a path, glob, list, \
     or `BLOB`; a bad file yields one error row.";

/// What the table is, for a reader.
pub const DOC_MD: &'static str =
    "pprof locations: `location_id`, `address`, `mapping_id`, and `lines` \
     (`STRUCT(function_id, line)[]`). Join `mapping_id` to `mappings`, `lines[].function_id` \
     to `functions`.";

/// What the table is found by.
pub const KEYWORDS: &'static str =
    "pprof, locations, location table, address, mapping id, line table, inlined frames, \
     function id, symbolization, join";

/// What the table is listed under.
pub const CATEGORY: &'static str = "Raw profile graph";

/// Queries that run as they stand, as JSON.
pub const EXECUTABLE_EXAMPLES: &'static str = r#"[
  {
    "description": "Locations with their line table (inlined frames).",
    "sql": "SELECT location_id, address, mapping_id, lines FROM pprof.main.locations('data/go_cpu.pb.gz') WHERE error IS NULL ORDER BY location_id LIMIT 10"
  }
]"#;

/// What the example shows.
pub const EXAMPLE_DESCRIPTION: &'static str = "Locations with their line table (inlined frames).";

/// The query of the example.
pub const EXAMPLE_SQL: &'static str =
    "SELECT location_id, address, mapping_id, lines FROM pprof.main.locations('cpu.pb.gz') \
     WHERE error IS NULL ORDER BY location_id;";

/// The columns of the table, before they are laid out.
#[derive(Debug)]
pub struct LocationColumns {
    pub location_id: Vec<Option<u64>>,
    pub address: Vec<Option<u64>>,
    pub mapping_id: Vec<Option<u64>>,
    pub lines: Vec<Option<Vec<LineRef>>>,
    pub file: Vec<Option<String>>,
    pub error: Vec<Option<String>>,
}

/// The value of a [`LocationColumns`].
#[verifier::ext_equal]
pub struct LocationColumnsView {
    pub location_id: Seq<Option<u64>>,
    pub address: Seq<Option<u64>>,
    pub mapping_id: Seq<Option<u64>>,
    pub lines: Seq<Option<Seq<LineRef>>>,
    pub file: Seq<Option<Seq<char>>>,
    pub error: Seq<Option<Seq<char>>>,
}

impl DeepView for LocationColumns {
    type V = LocationColumnsView;

    open spec fn deep_view(&self) -> LocationColumnsView {
        LocationColumnsView {
            location_id: self.location_id@,
            address: self.address@,
            mapping_id: self.mapping_id@,
            lines: self.lines.deep_view(),
            file: self.file.deep_view(),
            error: self.error.deep_view(),
        }
    }
}

impl Columns for LocationColumns {
    type Row = LocationRow;

    open spec fn data_rows(p: ProfileView) -> Seq<LocationRowView> {
        flatten::location_rows(p)
    }

    open spec fn columns_of(rows: Seq<OutputRow<LocationRowView>>) -> LocationColumnsView {
        LocationColumnsView {
            location_id: Seq::new(
                rows.len(),
                |i: int|
                    match rows[i].data {
                        Some(row) => Some(row.location_id),
                        None => None,
                    },
            ),
            address: Seq::new(
                rows.len(),
                |i: int|
                    match rows[i].data {
                        Some(row) => Some(row.address),
                        None => None,
                    },
            ),
            mapping_id: Seq::new(
                rows.len(),
                |i: int|
                    match rows[i].data {
                        Some(row) => Some(row.mapping_id),
                        None => None,
                    },
            ),
            lines: Seq::new(
                rows.len(),
                |i: int|
                    match rows[i].data {
                        Some(row) => Some(row.lines),
                        None => None,
                    },
            ),
            file: Seq::new(rows.len(), |i: int| rows[i].file),
            error: Seq::new(rows.len(), |i: int| rows[i].error),
        }
    }

    open spec fn columns_fit(columns: LocationColumnsView) -> bool {
        &&& columns::offsets_fit(columns::row_counts(columns.lines))
    }

    open spec fn batch_of(columns: LocationColumnsView) -> Seq<ColumnView> {
        seq![
            columns::u64_column(columns.location_id),
            columns::u64_column(columns.address),
            columns::u64_column(columns.mapping_id),
            columns::list_lineref_column(columns.lines),
            columns::str_column(columns.file),
            columns::str_column(columns.error),
        ]
    }

    open spec fn schema() -> Seq<ColumnFieldView> {
        field_list()
    }

    proof fn law_batch_matches_schema(rows: Seq<OutputRow<LocationRowView>>) {
        let columns = LocationColumns::columns_of(rows);
        table::lemma_layout_matches(columns.lines);
        assert(table::batch_matches(
            LocationColumns::batch_of(columns),
            field_list(),
            rows.len() as int,
        ));
    }

    open spec fn row_cells(row: OutputRow<LocationRowView>) -> Seq<Cell> {
        match row.data {
            Some(data) => seq![
                cells::u64_cell(Some(data.location_id)),
                cells::u64_cell(Some(data.address)),
                cells::u64_cell(Some(data.mapping_id)),
                cells::list_lineref_cell(Some(data.lines)),
                cells::str_cell(row.file),
                cells::str_cell(row.error),
            ],
            None => seq![
                Cell::Null,
                Cell::Null,
                Cell::Null,
                Cell::Null,
                cells::str_cell(row.file),
                cells::str_cell(row.error),
            ],
        }
    }

    proof fn law_batch_holds_rows(rows: Seq<OutputRow<LocationRowView>>, i: int) {
        let columns = LocationColumns::columns_of(rows);
        laws::cells::law_list_lineref_column_holds_its_rows(columns.lines, i);
    }

    proof fn law_schema_ends_alike() {
        assert(field_list().skip(field_list().len() - 2) =~= schema::trailing_field_list());
    }

    proof fn law_error_rows(rows: Seq<OutputRow<LocationRowView>>, i: int) {
    }

    fn read(decoded: &Decoded) -> (res: Vec<LocationRow>) {
        decoded.locations()
    }

    fn start() -> (res: LocationColumns) {
        let res = LocationColumns {
            location_id: Vec::new(),
            address: Vec::new(),
            mapping_id: Vec::new(),
            lines: Vec::new(),
            file: Vec::new(),
            error: Vec::new(),
        };
        assert(res.deep_view() =~= LocationColumns::columns_of(Seq::empty()));
        res
    }

    fn add(&mut self, data: Option<LocationRow>, file: Option<String>, error: Option<String>) {
        let ghost row = OutputRow {
            data: data.deep_view(),
            file: file.deep_view(),
            error: error.deep_view(),
        };
        match data {
            Some(data) => {
                self.location_id.push(Some(data.location_id));
                self.address.push(Some(data.address));
                self.mapping_id.push(Some(data.mapping_id));
                assert(data.lines.deep_view() =~= data.lines@);
                lists::push_value(&mut self.lines, Some(data.lines));
            },
            None => {
                self.location_id.push(None);
                self.address.push(None);
                self.mapping_id.push(None);
                lists::push_value(&mut self.lines, None);
            },
        }
        lists::push_value(&mut self.file, file);
        lists::push_value(&mut self.error, error);
        proof {
            assert forall|rows: Seq<OutputRow<LocationRowView>>|
                old(self).deep_view() == LocationColumns::columns_of(rows) implies self.deep_view()
                == #[trigger] LocationColumns::columns_of(rows.push(row)) by {
                assert(self.deep_view() =~= LocationColumns::columns_of(rows.push(row)));
            }
        }
    }

    fn fits(&self) -> (res: bool) {
        columns::fit_offsets(columns::item_counts(&self.lines).as_slice())
    }

    fn batch(self) -> (res: Vec<Column>) {
        let batch = vec![
            columns::u64_col(self.location_id),
            columns::u64_col(self.address),
            columns::u64_col(self.mapping_id),
            columns::list_lineref_col(self.lines),
            columns::str_col(self.file),
            columns::str_col(self.error),
        ];
        assert(batch.deep_view() =~= LocationColumns::batch_of(self.deep_view()));
        batch
    }
}

/// The columns of a result.
pub open spec fn field_list() -> Seq<ColumnFieldView> {
    seq![
        ColumnFieldView {
            name: "location_id"@,
            data_type: ColumnTypeView::Scalar(ScalarType::UInt64),
            comment: LOCATION_ID_COMMENT@,
        },
        ColumnFieldView {
            name: "address"@,
            data_type: ColumnTypeView::Scalar(ScalarType::UInt64),
            comment: ADDRESS_COMMENT@,
        },
        ColumnFieldView {
            name: "mapping_id"@,
            data_type: ColumnTypeView::Scalar(ScalarType::UInt64),
            comment: MAPPING_ID_COMMENT@,
        },
        ColumnFieldView {
            name: "lines"@,
            data_type: ColumnTypeView::ListStruct(schema::lineref_field_list()),
            comment: LINES_COMMENT@,
        },
    ] + schema::trailing_field_list()
}

/// The columns of a result.
pub fn output_schema() -> (res: Vec<ColumnField>)
    ensures
        res.deep_view() == field_list(),
{
    let fields = vec![
        schema::commented(
            "location_id",
            ColumnType::Scalar(ScalarType::UInt64),
            LOCATION_ID_COMMENT,
        ),
        schema::commented("address", ColumnType::Scalar(ScalarType::UInt64), ADDRESS_COMMENT),
        schema::commented("mapping_id", ColumnType::Scalar(ScalarType::UInt64), MAPPING_ID_COMMENT),
        schema::commented("lines", schema::list_lineref_type(), LINES_COMMENT),
    ];
    let schema = schema::schema_with_trailing(fields);
    assert(schema.deep_view() =~= field_list());
    schema
}

/// The columns of a result by name, type and description.
pub open spec fn result_column_list() -> Seq<(Seq<char>, Seq<char>, Seq<char>)> {
    seq![
        ("location_id"@, "UBIGINT"@, LOCATION_ID_DESCRIPTION@),
        ("address"@, "UBIGINT"@, ADDRESS_DESCRIPTION@),
        ("mapping_id"@, "UBIGINT"@, MAPPING_ID_DESCRIPTION@),
        ("lines"@, "STRUCT(function_id UBIGINT, line BIGINT)[]"@, LINES_DESCRIPTION@),
    ] + meta::trailing_columns()
}

/// The examples by description and query.
pub open spec fn example_list() -> Seq<(Seq<char>, Seq<char>)> {
    seq![(EXAMPLE_DESCRIPTION@, EXAMPLE_SQL@)]
}

/// The description has no carriage returns and no tabs.
proof fn lemma_example_description_is_plain()
    ensures
        meta::is_plain(EXAMPLE_DESCRIPTION@),
{
    reveal_strlit("Locations with their line table (inlined frames).");
    reveal_with_fuel(meta::plain_up_to, 26);
    assert(meta::plain_up_to(EXAMPLE_DESCRIPTION@, 25));
    assert(meta::plain_up_to(EXAMPLE_DESCRIPTION@, 49));
    meta::lemma_plain_to_the_end(EXAMPLE_DESCRIPTION@);
}

/// The query has no carriage returns and no tabs.
proof fn lemma_example_sql_is_plain()
    ensures
        meta::is_plain(EXAMPLE_SQL@),
{
    reveal_strlit(
        "SELECT location_id, address, mapping_id, lines FROM pprof.main.locations('cpu.pb.gz') \
         WHERE error IS NULL ORDER BY location_id;",
    );
    reveal_with_fuel(meta::plain_up_to, 26);
    assert(meta::plain_up_to(EXAMPLE_SQL@, 25));
    assert(meta::plain_up_to(EXAMPLE_SQL@, 50));
    assert(meta::plain_up_to(EXAMPLE_SQL@, 75));
    assert(meta::plain_up_to(EXAMPLE_SQL@, 100));
    assert(meta::plain_up_to(EXAMPLE_SQL@, 125));
    assert(meta::plain_up_to(EXAMPLE_SQL@, 127));
    meta::lemma_plain_to_the_end(EXAMPLE_SQL@);
}

fn examples() -> (res: Vec<(String, String)>)
    ensures
        res.deep_view() == example_list(),
{
    let pairs = vec![
        meta::tag(EXAMPLE_DESCRIPTION, EXAMPLE_SQL),
    ];
    assert(pairs.deep_view() =~= example_list());
    pairs
}

/// The table of locations.
#[derive(Debug, Clone, Copy)]
pub struct Locations;

impl Table for Locations {
    type Columns = LocationColumns;

    open spec fn name_text() -> Seq<char> {
        "locations"@
    }

    open spec fn result_columns() -> Seq<(Seq<char>, Seq<char>, Seq<char>)> {
        result_column_list()
    }

    open spec fn metadata_value() -> FunctionMetadataView {
        table::metadata_of(
            DESCRIPTION@,
            meta::object_tag_list(TITLE@, DOC_LLM@, DOC_MD@, KEYWORDS@, CATEGORY@),
            result_column_list(),
            EXECUTABLE_EXAMPLES@,
            example_list(),
        )
    }

    proof fn law_result_columns_match_schema() {
        schema::lemma_type_texts();
    }

    open spec fn example_pairs() -> Seq<(Seq<char>, Seq<char>)> {
        example_list()
    }

    proof fn law_metadata_is_told() {
        table::lemma_metadata_tells(
            DESCRIPTION@,
            (TITLE@, DOC_LLM@, DOC_MD@, KEYWORDS@, CATEGORY@),
            result_column_list(),
            EXECUTABLE_EXAMPLES@,
            example_list(),
        );
    }

    proof fn law_examples_are_plain() {
        lemma_example_description_is_plain();
        lemma_example_sql_is_plain();
    }

    fn name(&self) -> (res: &'static str) {
        "locations"
    }

    fn metadata(&self) -> (res: FunctionMetadata) {
        let mut columns: Vec<(&str, &str, &str)> = vec![
            ("location_id", "UBIGINT", LOCATION_ID_DESCRIPTION),
            ("address", "UBIGINT", ADDRESS_DESCRIPTION),
            ("mapping_id", "UBIGINT", MAPPING_ID_DESCRIPTION),
            ("lines", "STRUCT(function_id UBIGINT, line BIGINT)[]", LINES_DESCRIPTION),
        ];
        table::push_trailing(&mut columns);
        assert(columns.deep_view() =~= result_column_list());
        table::function_metadata(
            DESCRIPTION,
            meta::object_tags(TITLE, DOC_LLM, DOC_MD, KEYWORDS, CATEGORY),
            columns.as_slice(),
            EXECUTABLE_EXAMPLES,
            examples(),
        )
    }

    fn output_schema(&self) -> (res: Vec<ColumnField>) {
        output_schema()
    }
}

} // verus!
