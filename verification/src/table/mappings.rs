//! `mappings`: the mapping table of a profile, with the build ids that a symbolizer needs.

use vstd::prelude::*;
use vstd::string::*;

use crate::arrow::Cell;
use crate::cells;
use crate::columns;
use crate::columns::{Column, ColumnView};
use crate::decoded::Decoded;
use crate::flatten;
use crate::lists;
use crate::meta;
use crate::meta::{FunctionMetadata, FunctionMetadataView};
use crate::proto::ProfileView;
use crate::rows::{MappingRow, MappingRowView};
use crate::schema;
use crate::schema::{ColumnField, ColumnFieldView, ColumnType, ColumnTypeView, ScalarType};
use crate::table;
use crate::table::{Columns, OutputRow, Table};

verus! {

/// The comment of the `mapping_id` column.
pub const MAPPING_ID_COMMENT: &'static str =
    "The mapping's unique id within the profile (verbatim); referenced by \
     pprof.locations.mapping_id.";

/// The comment of the `memory_start` column.
pub const MEMORY_START_COMMENT: &'static str =
    "Start of the address range the binary/library is loaded at.";

/// The comment of the `memory_limit` column.
pub const MEMORY_LIMIT_COMMENT: &'static str = "Exclusive end of the loaded address range.";

/// The comment of the `file_offset` column.
pub const FILE_OFFSET_COMMENT: &'static str =
    "Offset in the object file that corresponds to memory_start.";

/// The comment of the `filename` column.
pub const FILENAME_COMMENT: &'static str =
    "Object the mapping is loaded from (a path, or a pseudo-name like '[vdso]'); NULL if unset.";

/// The comment of the `build_id` column.
pub const BUILD_ID_COMMENT: &'static str =
    "Build id (e.g. GNU .note.gnu.build-id) uniquely identifying the binary version, emitted \
     verbatim so unresolved native frames can be symbolized downstream (vgi-symbols); NULL if \
     unset.";

/// The description of the `build_id` column.
pub const BUILD_ID_DESCRIPTION: &'static str =
    "Build id uniquely identifying the binary version, emitted verbatim so unresolved native \
     frames can be symbolized downstream (vgi-symbols); NULL if unset.";

/// What the table is.
pub const DESCRIPTION: &'static str =
    "Decode a pprof profile's mapping table (build_id feeds vgi-symbols)";

/// The title of the table.
pub const TITLE: &'static str = "Mappings Table";

/// What the table is, for a model.
pub const DOC_LLM: &'static str =
    "Decode a pprof profile's mapping table: one row per loaded binary/library with \
     `mapping_id` (verbatim), the loaded address range (`memory_start`, `memory_limit`), \
     `file_offset`, `filename`, and `build_id`. The `build_id` is emitted verbatim so the \
     addresses of unsymbolized native frames flow to a symbolizer (vgi-symbols) for \
     addr→symbol resolution. `src` may be a path, glob, list, or `BLOB`; a bad file yields one \
     error row.";

/// What the table is, for a reader.
pub const DOC_MD: &'static str =
    "pprof mappings: `mapping_id`, `memory_start`, `memory_limit`, `file_offset`, `filename`, \
     `build_id`. `build_id` feeds a downstream symbolizer.";

/// What the table is found by.
pub const KEYWORDS: &'static str =
    "pprof, mappings, mapping table, build id, build_id, memory range, file offset, binary, \
     library, vdso, symbolization, vgi-symbols";

/// What the table is listed under.
pub const CATEGORY: &'static str = "Raw profile graph";

/// Queries that run as they stand, as JSON.
pub const EXECUTABLE_EXAMPLES: &'static str = r#"[
  {
    "description": "Mappings with build ids (the addresses that still need symbolizing).",
    "sql": "SELECT mapping_id, filename, build_id FROM pprof.main.mappings('data/native.pb.gz') WHERE error IS NULL AND build_id IS NOT NULL"
  },
  {
    "description": "Every loaded binary/segment in a profile with its address range (memory_start .. memory_limit).",
    "sql": "SELECT mapping_id, filename, memory_start, memory_limit FROM pprof.main.mappings('data/go_cpu.pb.gz') WHERE error IS NULL ORDER BY mapping_id"
  }
]"#;

/// What the example shows.
pub const EXAMPLE_DESCRIPTION: &'static str =
    "List the mappings that carry a build_id (the binaries still to symbolize), from a native \
     profile passed inline as BLOB bytes.";

/// The query of the example, up to the profile.
pub const EXAMPLE_SQL_HEAD: &'static str =
    "SELECT mapping_id, filename, build_id FROM pprof.main.mappings(from_base64('";

/// The query of the example, after the profile.
pub const EXAMPLE_SQL_TAIL: &'static str = "')) WHERE error IS NULL AND build_id IS NOT NULL;";

/// The columns of the table, before they are laid out.
#[derive(Debug)]
pub struct MappingColumns {
    pub mapping_id: Vec<Option<u64>>,
    pub memory_start: Vec<Option<u64>>,
    pub memory_limit: Vec<Option<u64>>,
    pub file_offset: Vec<Option<u64>>,
    pub filename: Vec<Option<String>>,
    pub build_id: Vec<Option<String>>,
    pub file: Vec<Option<String>>,
    pub error: Vec<Option<String>>,
}

/// The value of a [`MappingColumns`].
#[verifier::ext_equal]
pub struct MappingColumnsView {
    pub mapping_id: Seq<Option<u64>>,
    pub memory_start: Seq<Option<u64>>,
    pub memory_limit: Seq<Option<u64>>,
    pub file_offset: Seq<Option<u64>>,
    pub filename: Seq<Option<Seq<char>>>,
    pub build_id: Seq<Option<Seq<char>>>,
    pub file: Seq<Option<Seq<char>>>,
    pub error: Seq<Option<Seq<char>>>,
}

impl DeepView for MappingColumns {
    type V = MappingColumnsView;

    open spec fn deep_view(&self) -> MappingColumnsView {
        MappingColumnsView {
            mapping_id: self.mapping_id@,
            memory_start: self.memory_start@,
            memory_limit: self.memory_limit@,
            file_offset: self.file_offset@,
            filename: self.filename.deep_view(),
            build_id: self.build_id.deep_view(),
            file: self.file.deep_view(),
            error: self.error.deep_view(),
        }
    }
}

impl Columns for MappingColumns {
    type Row = MappingRow;

    open spec fn data_rows(p: ProfileView) -> Seq<MappingRowView> {
        flatten::mapping_rows(p)
    }

    open spec fn columns_of(rows: Seq<OutputRow<MappingRowView>>) -> MappingColumnsView {
        MappingColumnsView {
            mapping_id: Seq::new(
                rows.len(),
                |i: int|
                    match rows[i].data {
                        Some(row) => Some(row.mapping_id),
                        None => None,
                    },
            ),
            memory_start: Seq::new(
                rows.len(),
                |i: int|
                    match rows[i].data {
                        Some(row) => Some(row.memory_start),
                        None => None,
                    },
            ),
            memory_limit: Seq::new(
                rows.len(),
                |i: int|
                    match rows[i].data {
                        Some(row) => Some(row.memory_limit),
                        None => None,
                    },
            ),
            file_offset: Seq::new(
                rows.len(),
                |i: int|
                    match rows[i].data {
                        Some(row) => Some(row.file_offset),
                        None => None,
                    },
            ),
            filename: Seq::new(
                rows.len(),
                |i: int|
                    match rows[i].data {
                        Some(row) => row.filename,
                        None => None,
                    },
            ),
            build_id: Seq::new(
                rows.len(),
                |i: int|
                    match rows[i].data {
                        Some(row) => row.build_id,
                        None => None,
                    },
            ),
            file: Seq::new(rows.len(), |i: int| rows[i].file),
            error: Seq::new(rows.len(), |i: int| rows[i].error),
        }
    }

    open spec fn columns_fit(columns: MappingColumnsView) -> bool {
        true
    }

    open spec fn batch_of(columns: MappingColumnsView) -> Seq<ColumnView> {
        seq![
            columns::u64_column(columns.mapping_id),
            columns::u64_column(columns.memory_start),
            columns::u64_column(columns.memory_limit),
            columns::u64_column(columns.file_offset),
            columns::str_column(columns.filename),
            columns::str_column(columns.build_id),
            columns::str_column(columns.file),
            columns::str_column(columns.error),
        ]
    }

    open spec fn schema() -> Seq<ColumnFieldView> {
        field_list()
    }

    proof fn law_batch_matches_schema(rows: Seq<OutputRow<MappingRowView>>) {
        let columns = MappingColumns::columns_of(rows);
        assert(table::batch_matches(
            MappingColumns::batch_of(columns),
            field_list(),
            rows.len() as int,
        ));
    }

    open spec fn row_cells(row: OutputRow<MappingRowView>) -> Seq<Cell> {
        match row.data {
            Some(data) => seq![
                cells::u64_cell(Some(data.mapping_id)),
                cells::u64_cell(Some(data.memory_start)),
                cells::u64_cell(Some(data.memory_limit)),
                cells::u64_cell(Some(data.file_offset)),
                cells::str_cell(data.filename),
                cells::str_cell(data.build_id),
                cells::str_cell(row.file),
                cells::str_cell(row.error),
            ],
            None => seq![
                Cell::Null,
                Cell::Null,
                Cell::Null,
                Cell::Null,
                Cell::Null,
                Cell::Null,
                cells::str_cell(row.file),
                cells::str_cell(row.error),
            ],
        }
    }

    proof fn law_batch_holds_rows(rows: Seq<OutputRow<MappingRowView>>, i: int) {
    }

    proof fn law_schema_ends_alike() {
        assert(field_list().skip(field_list().len() - 2) =~= schema::trailing_field_list());
    }

    proof fn law_error_rows(rows: Seq<OutputRow<MappingRowView>>, i: int) {
    }

    fn read(decoded: &Decoded) -> (res: Vec<MappingRow>) {
        decoded.mappings()
    }

    fn start() -> (res: MappingColumns) {
        let res = MappingColumns {
            mapping_id: Vec::new(),
            memory_start: Vec::new(),
            memory_limit: Vec::new(),
            file_offset: Vec::new(),
            filename: Vec::new(),
            build_id: Vec::new(),
            file: Vec::new(),
            error: Vec::new(),
        };
        assert(res.deep_view() =~= MappingColumns::columns_of(Seq::empty()));
        res
    }

    fn add(&mut self, data: Option<MappingRow>, file: Option<String>, error: Option<String>) {
        let ghost row = OutputRow {
            data: data.deep_view(),
            file: file.deep_view(),
            error: error.deep_view(),
        };
        match data {
            Some(data) => {
                self.mapping_id.push(Some(data.mapping_id));
                self.memory_start.push(Some(data.memory_start));
                self.memory_limit.push(Some(data.memory_limit));
                self.file_offset.push(Some(data.file_offset));
                lists::push_value(&mut self.filename, data.filename);
                lists::push_value(&mut self.build_id, data.build_id);
            },
            None => {
                self.mapping_id.push(None);
                self.memory_start.push(None);
                self.memory_limit.push(None);
                self.file_offset.push(None);
                lists::push_value(&mut self.filename, None);
                lists::push_value(&mut self.build_id, None);
            },
        }
        lists::push_value(&mut self.file, file);
        lists::push_value(&mut self.error, error);
        proof {
            assert forall|rows: Seq<OutputRow<MappingRowView>>|
                old(self).deep_view() == MappingColumns::columns_of(rows) implies self.deep_view()
                == #[trigger] MappingColumns::columns_of(rows.push(row)) by {
                assert(self.deep_view() =~= MappingColumns::columns_of(rows.push(row)));
            }
        }
    }

    fn fits(&self) -> (res: bool) {
        true
    }

    fn batch(self) -> (res: Vec<Column>) {
        let batch = vec![
            columns::u64_col(self.mapping_id),
            columns::u64_col(self.memory_start),
            columns::u64_col(self.memory_limit),
            columns::u64_col(self.file_offset),
            columns::str_col(self.filename),
            columns::str_col(self.build_id),
            columns::str_col(self.file),
            columns::str_col(self.error),
        ];
        assert(batch.deep_view() =~= MappingColumns::batch_of(self.deep_view()));
        batch
    }
}

/// The columns of a result.
pub open spec fn field_list() -> Seq<ColumnFieldView> {
    seq![
        ColumnFieldView {
            name: "mapping_id"@,
            data_type: ColumnTypeView::Scalar(ScalarType::UInt64),
            comment: MAPPING_ID_COMMENT@,
        },
        ColumnFieldView {
            name: "memory_start"@,
            data_type: ColumnTypeView::Scalar(ScalarType::UInt64),
            comment: MEMORY_START_COMMENT@,
        },
        ColumnFieldView {
            name: "memory_limit"@,
            data_type: ColumnTypeView::Scalar(ScalarType::UInt64),
            comment: MEMORY_LIMIT_COMMENT@,
        },
        ColumnFieldView {
            name: "file_offset"@,
            data_type: ColumnTypeView::Scalar(ScalarType::UInt64),
            comment: FILE_OFFSET_COMMENT@,
        },
        ColumnFieldView {
            name: "filename"@,
            data_type: ColumnTypeView::Scalar(ScalarType::Utf8),
            comment: FILENAME_COMMENT@,
        },
        ColumnFieldView {
            name: "build_id"@,
            data_type: ColumnTypeView::Scalar(ScalarType::Utf8),
            comment: BUILD_ID_COMMENT@,
        },
    ] + schema::trailing_field_list()
}

/// The columns of a result.
pub fn output_schema() -> (res: Vec<ColumnField>)
    ensures
        res.deep_view() == field_list(),
{
    let fields = vec![
        schema::commented("mapping_id", ColumnType::Scalar(ScalarType::UInt64), MAPPING_ID_COMMENT),
        schema::commented(
            "memory_start",
            ColumnType::Scalar(ScalarType::UInt64),
            MEMORY_START_COMMENT,
        ),
        schema::commented(
            "memory_limit",
            ColumnType::Scalar(ScalarType::UInt64),
            MEMORY_LIMIT_COMMENT,
        ),
        schema::commented(
            "file_offset",
            ColumnType::Scalar(ScalarType::UInt64),
            FILE_OFFSET_COMMENT,
        ),
        schema::commented("filename", ColumnType::Scalar(ScalarType::Utf8), FILENAME_COMMENT),
        schema::commented("build_id", ColumnType::Scalar(ScalarType::Utf8), BUILD_ID_COMMENT),
    ];
    let schema = schema::schema_with_trailing(fields);
    assert(schema.deep_view() =~= field_list());
    schema
}

/// The columns of a result by name, type and description.
pub open spec fn result_column_list() -> Seq<(Seq<char>, Seq<char>, Seq<char>)> {
    seq![
        ("mapping_id"@, "UBIGINT"@, MAPPING_ID_COMMENT@),
        ("memory_start"@, "UBIGINT"@, MEMORY_START_COMMENT@),
        ("memory_limit"@, "UBIGINT"@, MEMORY_LIMIT_COMMENT@),
        ("file_offset"@, "UBIGINT"@, FILE_OFFSET_COMMENT@),
        ("filename"@, "VARCHAR"@, FILENAME_COMMENT@),
        ("build_id"@, "VARCHAR"@, BUILD_ID_DESCRIPTION@),
    ] + meta::trailing_columns()
}

/// The examples by description and query.
pub open spec fn example_list() -> Seq<(Seq<char>, Seq<char>)> {
    seq![(EXAMPLE_DESCRIPTION@, EXAMPLE_SQL_HEAD@ + meta::NATIVE_B64@ + EXAMPLE_SQL_TAIL@)]
}

/// The description has no carriage returns and no tabs.
proof fn lemma_example_description_is_plain()
    ensures
        meta::is_plain(EXAMPLE_DESCRIPTION@),
{
    reveal_strlit(
        "List the mappings that carry a build_id (the binaries still to symbolize), from a native \
         profile passed inline as BLOB bytes.",
    );
    reveal_with_fuel(meta::plain_up_to, 26);
    assert(meta::plain_up_to(EXAMPLE_DESCRIPTION@, 25));
    assert(meta::plain_up_to(EXAMPLE_DESCRIPTION@, 50));
    assert(meta::plain_up_to(EXAMPLE_DESCRIPTION@, 75));
    assert(meta::plain_up_to(EXAMPLE_DESCRIPTION@, 100));
    assert(meta::plain_up_to(EXAMPLE_DESCRIPTION@, 125));
    meta::lemma_plain_to_the_end(EXAMPLE_DESCRIPTION@);
}

/// The query before the profile has no carriage returns and no tabs.
proof fn lemma_example_sql_head_is_plain()
    ensures
        meta::is_plain(EXAMPLE_SQL_HEAD@),
{
    reveal_strlit("SELECT mapping_id, filename, build_id FROM pprof.main.mappings(from_base64('");
    reveal_with_fuel(meta::plain_up_to, 26);
    assert(meta::plain_up_to(EXAMPLE_SQL_HEAD@, 25));
    assert(meta::plain_up_to(EXAMPLE_SQL_HEAD@, 50));
    assert(meta::plain_up_to(EXAMPLE_SQL_HEAD@, 75));
    assert(meta::plain_up_to(EXAMPLE_SQL_HEAD@, 76));
    meta::lemma_plain_to_the_end(EXAMPLE_SQL_HEAD@);
}

/// The query after the profile has no carriage returns and no tabs.
proof fn lemma_example_sql_tail_is_plain()
    ensures
        meta::is_plain(EXAMPLE_SQL_TAIL@),
{
    reveal_strlit("')) WHERE error IS NULL AND build_id IS NOT NULL;");
    reveal_with_fuel(meta::plain_up_to, 26);
    assert(meta::plain_up_to(EXAMPLE_SQL_TAIL@, 25));
    assert(meta::plain_up_to(EXAMPLE_SQL_TAIL@, 49));
    meta::lemma_plain_to_the_end(EXAMPLE_SQL_TAIL@);
}

fn examples() -> (res: Vec<(String, String)>)
    ensures
        res.deep_view() == example_list(),
{
    let mut sql = EXAMPLE_SQL_HEAD.to_owned();
    sql.append(meta::NATIVE_B64);
    sql.append(EXAMPLE_SQL_TAIL);
    let pairs = vec![(EXAMPLE_DESCRIPTION.to_owned(), sql)];
    assert(pairs.deep_view() =~= example_list());
    pairs
}

/// The table of mappings.
#[derive(Debug, Clone, Copy)]
pub struct Mappings;

impl Table for Mappings {
    type Columns = MappingColumns;

    open spec fn name_text() -> Seq<char> {
        "mappings"@
    }

    open spec fn result_columns() -> Seq<(Seq<char>, Seq<char>, Seq<char>)> {
        result_column_list()
    }

    open spec fn metadata_value() -> FunctionMetadataView {
        table::metadata_of(
            DESCRIPTION@,
            meta::object_tag_list(TITLE@, DOC_LLM@, DOC_MD@, KEYWORDS@, CATEGORY@),
            result_column_list(),
            EXECUTABLE_EXAMPLES@,
            example_list(),
        )
    }

    proof fn law_result_columns_match_schema() {
    }

    open spec fn example_pairs() -> Seq<(Seq<char>, Seq<char>)> {
        example_list()
    }

    proof fn law_metadata_is_told() {
        table::lemma_metadata_tells(
            DESCRIPTION@,
            (TITLE@, DOC_LLM@, DOC_MD@, KEYWORDS@, CATEGORY@),
            result_column_list(),
            EXECUTABLE_EXAMPLES@,
            example_list(),
        );
    }

    proof fn law_examples_are_plain() {
        lemma_example_description_is_plain();
        lemma_example_sql_head_is_plain();
        meta::lemma_native_is_plain();
        lemma_example_sql_tail_is_plain();
        meta::lemma_plain_joined(EXAMPLE_SQL_HEAD@, meta::NATIVE_B64@);
        meta::lemma_plain_joined(EXAMPLE_SQL_HEAD@ + meta::NATIVE_B64@, EXAMPLE_SQL_TAIL@);
    }

    fn name(&self) -> (res: &'static str) {
        "mappings"
    }

    fn metadata(&self) -> (res: FunctionMetadata) {
        let mut columns: Vec<(&str, &str, &str)> = vec![
            ("mapping_id", "UBIGINT", MAPPING_ID_COMMENT),
            ("memory_start", "UBIGINT", MEMORY_START_COMMENT),
            ("memory_limit", "UBIGINT", MEMORY_LIMIT_COMMENT),
            ("file_offset", "UBIGINT", FILE_OFFSET_COMMENT),
            ("filename", "VARCHAR", FILENAME_COMMENT),
            ("build_id", "VARCHAR", BUILD_ID_DESCRIPTION),
        ];
        table::push_trailing(&mut columns);
        assert(columns.deep_view() =~= result_column_list());
        table::function_metadata(
            DESCRIPTION,
            meta::object_tags(TITLE, DOC_LLM, DOC_MD, KEYWORDS, CATEGORY),
            columns.as_slice(),
            EXECUTABLE_EXAMPLES,
            examples(),
        )
    }

    fn output_schema(&self) -> (res: Vec<ColumnField>) {
        output_schema()
    }
}

} // verus!
