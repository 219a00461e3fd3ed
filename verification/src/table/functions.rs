//! `functions`: the function table of a profile.

use vstd::prelude::*;

use crate::arrow::Cell;
use crate::cells;
use crate::columns;
use crate::columns::{Column, ColumnView};
use crate::decoded::Decoded;
use crate::flatten;
use crate::lists;
use crate::meta;
use crate::meta::{FunctionMetadata, FunctionMetadataView};
use crate::proto::ProfileView;
use crate::rows::{FunctionRow, FunctionRowView};
use crate::schema;
use crate::schema::{ColumnField, ColumnFieldView, ColumnType, ColumnTypeView, ScalarType};
use crate::table;
use crate::table::{Columns, OutputRow, Table};

verus! {

/// The comment of the `function_id` column.
pub const FUNCTION_ID_COMMENT: &'static str =
    "The function's unique id within the profile (emitted verbatim); referenced by \
     pprof.locations.lines[].function_id.";

/// The description of the `function_id` column.
pub const FUNCTION_ID_DESCRIPTION: &'static str =
    "The function's unique id within the profile (verbatim); referenced by \
     pprof.locations.lines[].function_id.";

/// The comment of the `name` column.
pub const NAME_COMMENT: &'static str = "Human-readable function name, or NULL if unset.";

/// The comment of the `system_name` column.
pub const SYSTEM_NAME_COMMENT: &'static str =
    "System/mangled function name (e.g. the C++ mangled symbol), or NULL if unset.";

/// The comment of the `filename` column.
pub const FILENAME_COMMENT: &'static str =
    "Source file that contains the function, or NULL if unset.";

/// The comment of the `start_line` column.
pub const START_LINE_COMMENT: &'static str = "First source line of the function (0 if unknown).";

/// What the table is.
pub const DESCRIPTION: &'static str = "Decode a pprof profile's function table";

/// The title of the table.
pub const TITLE: &'static str = "Functions Table";

/// What the table is, for a model.
pub const DOC_LLM: &'static str =
    "Decode a pprof profile's function table: one row per function with `function_id` \
     (verbatim), `name`, `system_name` (mangled), `filename`, and `start_line`. Join \
     `function_id` from pprof.locations.lines to symbolize raw locations. `src` may be a path, \
     glob, list, or `BLOB`; a bad file yields one error row.";

/// What the table is, for a reader.
pub const DOC_MD: &'static str =
    "pprof functions: `function_id`, `name`, `system_name`, `filename`, `start_line`. Join \
     `function_id` to `locations.lines[].function_id`.";

/// What the table is found by.
pub const KEYWORDS: &'static str =
    "pprof, functions, function table, symbol, name, mangled, system name, filename, start \
     line, symbolization, join";

/// What the table is listed under.
pub const CATEGORY: &'static str = "Raw profile graph";

/// Queries that run as they stand, as JSON.
pub const EXECUTABLE_EXAMPLES: &'static str = r#"[
  {
    "description": "List the functions in a profile.",
    "sql": "SELECT function_id, name, filename, start_line FROM pprof.main.functions('data/go_cpu.pb.gz') WHERE error IS NULL ORDER BY function_id LIMIT 10"
  },
  {
    "description": "Which source files contribute the most symbols (functions) to a profile.",
    "sql": "SELECT filename, count(*) AS fns FROM pprof.main.functions('data/go_cpu.pb.gz') WHERE error IS NULL GROUP BY filename ORDER BY fns DESC, filename LIMIT 5"
  }
]"#;

/// What the example shows.
pub const EXAMPLE_DESCRIPTION: &'static str = "List the functions defined in a profile.";

/// The query of the example.
pub const EXAMPLE_SQL: &'static str =
    "SELECT function_id, name, filename, start_line FROM \
     pprof.main.functions('data/go_cpu.pb.gz') WHERE error IS NULL ORDER BY function_id;";

/// The columns of the table, before they are laid out.
#[derive(Debug)]
pub struct FunctionColumns {
    pub function_id: Vec<Option<u64>>,
    pub name: Vec<Option<String>>,
    pub system_name: Vec<Option<String>>,
    pub filename: Vec<Option<String>>,
    pub start_line: Vec<Option<i64>>,
    pub file: Vec<Option<String>>,
    pub error: Vec<Option<String>>,
}

/// The value of a [`FunctionColumns`].
#[verifier::ext_equal]
pub struct FunctionColumnsView {
    pub function_id: Seq<Option<u64>>,
    pub name: Seq<Option<Seq<char>>>,
    pub system_name: Seq<Option<Seq<char>>>,
    pub filename: Seq<Option<Seq<char>>>,
    pub start_line: Seq<Option<i64>>,
    pub file: Seq<Option<Seq<char>>>,
    pub error: Seq<Option<Seq<char>>>,
}

impl DeepView for FunctionColumns {
    type V = FunctionColumnsView;

    open spec fn deep_view(&self) -> FunctionColumnsView {
        FunctionColumnsView {
            function_id: self.function_id@,
            name: self.name.deep_view(),
            system_name: self.system_name.deep_view(),
            filename: self.filename.deep_view(),
            start_line: self.start_line@,
            file: self.file.deep_view(),
            error: self.error.deep_view(),
        }
    }
}

impl Columns for FunctionColumns {
    type Row = FunctionRow;

    open spec fn data_rows(p: ProfileView) -> Seq<FunctionRowView> {
        flatten::function_rows(p)
    }

    open spec fn columns_of(rows: Seq<OutputRow<FunctionRowView>>) -> FunctionColumnsView {
        FunctionColumnsView {
            function_id: Seq::new(
                rows.len(),
                |i: int|
                    match rows[i].data {
                        Some(row) => Some(row.function_id),
                        None => None,
                    },
            ),
            name: Seq::new(
                rows.len(),
                |i: int|
                    match rows[i].data {
                        Some(row) => row.name,
                        None => None,
                    },
            ),
            system_name: Seq::new(
                rows.len(),
                |i: int|
                    match rows[i].data {
                        Some(row) => row.system_name,
                        None => None,
                    },
            ),
            filename: Seq::new(
                rows.len(),
                |i: int|
                    match rows[i].data {
                        Some(row) => row.filename,
                        None => None,
                    },
            ),
            start_line: Seq::new(
                rows.len(),
                |i: int|
                    match rows[i].data {
                        Some(row) => Some(row.start_line),
                        None => None,
                    },
            ),
            file: Seq::new(rows.len(), |i: int| rows[i].file),
            error: Seq::new(rows.len(), |i: int| rows[i].error),
        }
    }

    open spec fn columns_fit(columns: FunctionColumnsView) -> bool {
        true
    }

    open spec fn batch_of(columns: FunctionColumnsView) -> Seq<ColumnView> {
        seq![
            columns::u64_column(columns.function_id),
            columns::str_column(columns.name),
            columns::str_column(columns.system_name),
            columns::str_column(columns.filename),
            columns::i64_column(columns.start_line),
            columns::str_column(columns.file),
            columns::str_column(columns.error),
        ]
    }

    open spec fn schema() -> Seq<ColumnFieldView> {
        field_list()
    }

    proof fn law_batch_matches_schema(rows: Seq<OutputRow<FunctionRowView>>) {
        let columns = FunctionColumns::columns_of(rows);
        assert(table::batch_matches(
            FunctionColumns::batch_of(columns),
            field_list(),
            rows.len() as int,
        ));
    }

    open spec fn row_cells(row: OutputRow<FunctionRowView>) -> Seq<Cell> {
        match row.data {
            Some(data) => seq![
                cells::u64_cell(Some(data.function_id)),
                cells::str_cell(data.name),
                cells::str_cell(data.system_name),
                cells::str_cell(data.filename),
                cells::i64_cell(Some(data.start_line)),
                cells::str_cell(row.file),
                cells::str_cell(row.error),
            ],
            None => seq![
                Cell::Null,
                Cell::Null,
                Cell::Null,
                Cell::Null,
                Cell::Null,
                cells::str_cell(row.file),
                cells::str_cell(row.error),
            ],
        }
    }

    proof fn law_batch_holds_rows(rows: Seq<OutputRow<FunctionRowView>>, i: int) {
    }

    proof fn law_schema_ends_alike() {
        assert(field_list().skip(field_list().len() - 2) =~= schema::trailing_field_list());
    }

    proof fn law_error_rows(rows: Seq<OutputRow<FunctionRowView>>, i: int) {
    }

    fn read(decoded: &Decoded) -> (res: Vec<FunctionRow>) {
        decoded.functions()
    }

    fn start() -> (res: FunctionColumns) {
        let res = FunctionColumns {
            function_id: Vec::new(),
            name: Vec::new(),
            system_name: Vec::new(),
            filename: Vec::new(),
            start_line: Vec::new(),
            file: Vec::new(),
            error: Vec::new(),
        };
        assert(res.deep_view() =~= FunctionColumns::columns_of(Seq::empty()));
        res
    }

    fn add(&mut self, data: Option<FunctionRow>, file: Option<String>, error: Option<String>) {
        let ghost row = OutputRow {
            data: data.deep_view(),
            file: file.deep_view(),
            error: error.deep_view(),
        };
        match data {
            Some(data) => {
                self.function_id.push(Some(data.function_id));
                lists::push_value(&mut self.name, data.name);
                lists::push_value(&mut self.system_name, data.system_name);
                lists::push_value(&mut self.filename, data.filename);
                self.start_line.push(Some(data.start_line));
            },
            None => {
                self.function_id.push(None);
                lists::push_value(&mut self.name, None);
                lists::push_value(&mut self.system_name, None);
                lists::push_value(&mut self.filename, None);
                self.start_line.push(None);
            },
        }
        lists::push_value(&mut self.file, file);
        lists::push_value(&mut self.error, error);
        proof {
            assert forall|rows: Seq<OutputRow<FunctionRowView>>|
                old(self).deep_view() == FunctionColumns::columns_of(rows) implies self.deep_view()
                == #[trigger] FunctionColumns::columns_of(rows.push(row)) by {
                assert(self.deep_view() =~= FunctionColumns::columns_of(rows.push(row)));
            }
        }
    }

    fn fits(&self) -> (res: bool) {
        true
    }

    fn batch(self) -> (res: Vec<Column>) {
        let batch = vec![
            columns::u64_col(self.function_id),
            columns::str_col(self.name),
            columns::str_col(self.system_name),
            columns::str_col(self.filename),
            columns::i64_col(self.start_line),
            columns::str_col(self.file),
            columns::str_col(self.error),
        ];
        assert(batch.deep_view() =~= FunctionColumns::batch_of(self.deep_view()));
        batch
    }
}

/// The columns of a result.
pub open spec fn field_list() -> Seq<ColumnFieldView> {
    seq![
        ColumnFieldView {
            name: "function_id"@,
            data_type: ColumnTypeView::Scalar(ScalarType::UInt64),
            comment: FUNCTION_ID_COMMENT@,
        },
        ColumnFieldView {
            name: "name"@,
            data_type: ColumnTypeView::Scalar(ScalarType::Utf8),
            comment: NAME_COMMENT@,
        },
        ColumnFieldView {
            name: "system_name"@,
            data_type: ColumnTypeView::Scalar(ScalarType::Utf8),
            comment: SYSTEM_NAME_COMMENT@,
        },
        ColumnFieldView {
            name: "filename"@,
            data_type: ColumnTypeView::Scalar(ScalarType::Utf8),
            comment: FILENAME_COMMENT@,
        },
        ColumnFieldView {
            name: "start_line"@,
            data_type: ColumnTypeView::Scalar(ScalarType::Int64),
            comment: START_LINE_COMMENT@,
        },
    ] + schema::trailing_field_list()
}

/// The columns of a result.
pub fn output_schema() -> (res: Vec<ColumnField>)
    ensures
        res.deep_view() == field_list(),
{
    let fields = vec![
        schema::commented(
            "function_id",
            ColumnType::Scalar(ScalarType::UInt64),
            FUNCTION_ID_COMMENT,
        ),
        schema::commented("name", ColumnType::Scalar(ScalarType::Utf8), NAME_COMMENT),
        schema::commented("system_name", ColumnType::Scalar(ScalarType::Utf8), SYSTEM_NAME_COMMENT),
        schema::commented("filename", ColumnType::Scalar(ScalarType::Utf8), FILENAME_COMMENT),
        schema::commented("start_line", ColumnType::Scalar(ScalarType::Int64), START_LINE_COMMENT),
    ];
    let schema = schema::schema_with_trailing(fields);
    assert(schema.deep_view() =~= field_list());
    schema
}

/// The columns of a result by name, type and description.
pub open spec fn result_column_list() -> Seq<(Seq<char>, Seq<char>, Seq<char>)> {
    seq![
        ("function_id"@, "UBIGINT"@, FUNCTION_ID_DESCRIPTION@),
        ("name"@, "VARCHAR"@, NAME_COMMENT@),
        ("system_name"@, "VARCHAR"@, SYSTEM_NAME_COMMENT@),
        ("filename"@, "VARCHAR"@, FILENAME_COMMENT@),
        ("start_line"@, "BIGINT"@, START_LINE_COMMENT@),
    ] + meta::trailing_columns()
}

/// The examples by description and query.
pub open spec fn example_list() -> Seq<(Seq<char>, Seq<char>)> {
    seq![(EXAMPLE_DESCRIPTION@, EXAMPLE_SQL@)]
}

/// The description has no carriage returns and no tabs.
proof fn lemma_example_description_is_plain()
    ensures
        meta::is_plain(EXAMPLE_DESCRIPTION@),
{
    reveal_strlit("List the functions defined in a profile.");
    reveal_with_fuel(meta::plain_up_to, 26);
    assert(meta::plain_up_to(EXAMPLE_DESCRIPTION@, 25));
    assert(meta::plain_up_to(EXAMPLE_DESCRIPTION@, 40));
    meta::lemma_plain_to_the_end(EXAMPLE_DESCRIPTION@);
}

/// The query has no carriage returns and no tabs.
proof fn lemma_example_sql_is_plain()
    ensures
        meta::is_plain(EXAMPLE_SQL@),
{
    reveal_strlit(
        "SELECT function_id, name, filename, start_line FROM \
         pprof.main.functions('data/go_cpu.pb.gz') WHERE error IS NULL ORDER BY function_id;",
    );
    reveal_with_fuel(meta::plain_up_to, 26);
    assert(meta::plain_up_to(EXAMPLE_SQL@, 25));
    assert(meta::plain_up_to(EXAMPLE_SQL@, 50));
    assert(meta::plain_up_to(EXAMPLE_SQL@, 75));
    assert(meta::plain_up_to(EXAMPLE_SQL@, 100));
    assert(meta::plain_up_to(EXAMPLE_SQL@, 125));
    assert(meta::plain_up_to(EXAMPLE_SQL@, 135));
    meta::lemma_plain_to_the_end(EXAMPLE_SQL@);
}

fn examples() -> (res: Vec<(String, String)>)
    ensures
        res.deep_view() == example_list(),
{
    let pairs = vec![
        meta::tag(EXAMPLE_DESCRIPTION, EXAMPLE_SQL),
    ];
    assert(pairs.deep_view() =~= example_list());
    pairs
}

/// The table of functions.
#[derive(Debug, Clone, Copy)]
pub struct Functions;

impl Table for Functions {
    type Columns = FunctionColumns;

    open spec fn name_text() -> Seq<char> {
        "functions"@
    }

    open spec fn result_columns() -> Seq<(Seq<char>, Seq<char>, Seq<char>)> {
        result_column_list()
    }

    open spec fn metadata_value() -> FunctionMetadataView {
        table::metadata_of(
            DESCRIPTION@,
            meta::object_tag_list(TITLE@, DOC_LLM@, DOC_MD@, KEYWORDS@, CATEGORY@),
            result_column_list(),
            EXECUTABLE_EXAMPLES@,
            example_list(),
        )
    }

    proof fn law_result_columns_match_schema() {
    }

    open spec fn example_pairs() -> Seq<(Seq<char>, Seq<char>)> {
        example_list()
    }

    proof fn law_metadata_is_told() {
        table::lemma_metadata_tells(
            DESCRIPTION@,
            (TITLE@, DOC_LLM@, DOC_MD@, KEYWORDS@, CATEGORY@),
            result_column_list(),
            EXECUTABLE_EXAMPLES@,
            example_list(),
        );
    }

    proof fn law_examples_are_plain() {
        lemma_example_description_is_plain();
        lemma_example_sql_is_plain();
    }

    fn name(&self) -> (res: &'static str) {
        "functions"
    }

    fn metadata(&self) -> (res: FunctionMetadata) {
        let mut columns: Vec<(&str, &str, &str)> = vec![
            ("function_id", "UBIGINT", FUNCTION_ID_DESCRIPTION),
            ("name", "VARCHAR", NAME_COMMENT),
            ("system_name", "VARCHAR", SYSTEM_NAME_COMMENT),
            ("filename", "VARCHAR", FILENAME_COMMENT),
            ("start_line", "BIGINT", START_LINE_COMMENT),
        ];
        table::push_trailing(&mut columns);
        assert(columns.deep_view() =~= result_column_list());
        table::function_metadata(
            DESCRIPTION,
            meta::object_tags(TITLE, DOC_LLM, DOC_MD, KEYWORDS, CATEGORY),
            columns.as_slice(),
            EXECUTABLE_EXAMPLES,
            examples(),
        )
    }

    fn output_schema(&self) -> (res: Vec<ColumnField>) {
        output_schema()
    }
}

} // verus!
