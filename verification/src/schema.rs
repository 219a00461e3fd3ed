//! The types of the columns of a result.
//!
//! Each nested type is defined once, for the declared schema and for the columns alike.

use vstd::prelude::*;

verus! {

/// A type without parts.
#[derive(Debug, Clone, Copy, PartialEq, Eq, Structural)]
pub enum ScalarType {
    Int64,
    UInt64,
    Utf8,
}

/// A field of a struct.
#[derive(Debug, Clone, Copy)]
pub struct ScalarField {
    pub name: &'static str,
    pub data_type: ScalarType,
    pub nullable: bool,
}

/// The value of a [`ScalarField`].
pub struct ScalarFieldView {
    pub name: Seq<char>,
    pub data_type: ScalarType,
    pub nullable: bool,
}

impl DeepView for ScalarField {
    type V = ScalarFieldView;

    open spec fn deep_view(&self) -> ScalarFieldView {
        ScalarFieldView { name: self.name@, data_type: self.data_type, nullable: self.nullable }
    }
}

/// The type of a column.
#[derive(Debug, Clone)]
pub enum ColumnType {
    /// A type without parts.
    Scalar(ScalarType),
    /// A list, whose items may be null.
    List(ScalarType),
    /// A struct with these fields.
    Struct(Vec<ScalarField>),
    /// A list of structs with these fields.
    ListStruct(Vec<ScalarField>),
    /// A map. The fields are those of an entry: the key and the value.
    TextMap(Vec<ScalarField>),
}

/// The value of a [`ColumnType`].
pub enum ColumnTypeView {
    Scalar(ScalarType),
    List(ScalarType),
    Struct(Seq<ScalarFieldView>),
    ListStruct(Seq<ScalarFieldView>),
    TextMap(Seq<ScalarFieldView>),
}

impl DeepView for ColumnType {
    type V = ColumnTypeView;

    open spec fn deep_view(&self) -> ColumnTypeView {
        match self {
            ColumnType::Scalar(t) => ColumnTypeView::Scalar(*t),
            ColumnType::List(t) => ColumnTypeView::List(*t),
            ColumnType::Struct(fields) => ColumnTypeView::Struct(fields.deep_view()),
            ColumnType::ListStruct(fields) => ColumnTypeView::ListStruct(fields.deep_view()),
            ColumnType::TextMap(fields) => ColumnTypeView::TextMap(fields.deep_view()),
        }
    }
}

/// A column of a schema, with a comment. Every column may be null.
#[derive(Debug, Clone)]
pub struct ColumnField {
    pub name: &'static str,
    pub data_type: ColumnType,
    pub comment: &'static str,
}

/// The value of a [`ColumnField`].
pub struct ColumnFieldView {
    pub name: Seq<char>,
    pub data_type: ColumnTypeView,
    pub comment: Seq<char>,
}

impl DeepView for ColumnField {
    type V = ColumnFieldView;

    open spec fn deep_view(&self) -> ColumnFieldView {
        ColumnFieldView {
            name: self.name@,
            data_type: self.data_type.deep_view(),
            comment: self.comment@,
        }
    }
}

/// A field of a struct that may be null.
pub open spec fn nullable(name: Seq<char>, data_type: ScalarType) -> ScalarFieldView {
    ScalarFieldView { name, data_type, nullable: true }
}

/// The fields of a value type.
pub open spec fn value_type_field_list() -> Seq<ScalarFieldView> {
    seq![nullable("type"@, ScalarType::Utf8), nullable("unit"@, ScalarType::Utf8)]
}

/// The fields of a stack frame.
pub open spec fn frame_field_list() -> Seq<ScalarFieldView> {
    seq![
        nullable("function"@, ScalarType::Utf8),
        nullable("filename"@, ScalarType::Utf8),
        nullable("line"@, ScalarType::Int64),
        nullable("address"@, ScalarType::UInt64),
    ]
}

/// The fields of an entry of a location's line table.
pub open spec fn lineref_field_list() -> Seq<ScalarFieldView> {
    seq![nullable("function_id"@, ScalarType::UInt64), nullable("line"@, ScalarType::Int64)]
}

/// The fields of an entry of a label map. A key is never null.
pub open spec fn map_entry_field_list() -> Seq<ScalarFieldView> {
    seq![
        ScalarFieldView { name: "key"@, data_type: ScalarType::Utf8, nullable: false },
        nullable("value"@, ScalarType::Utf8),
    ]
}

fn nullable_field(name: &'static str, data_type: ScalarType) -> (res: ScalarField)
    ensures
        res.deep_view() == nullable(name@, data_type),
{
    ScalarField { name, data_type, nullable: true }
}

/// `STRUCT(type VARCHAR, unit VARCHAR)`: a resolved value type.
pub fn value_type_fields() -> (res: Vec<ScalarField>)
    ensures
        res.deep_view() == value_type_field_list(),
{
    let fields = vec![
        nullable_field("type", ScalarType::Utf8),
        nullable_field("unit", ScalarType::Utf8),
    ];
    assert(fields.deep_view() =~= value_type_field_list());
    fields
}

/// `STRUCT(function VARCHAR, filename VARCHAR, line BIGINT, address UBIGINT)`: a resolved
/// stack frame.
pub fn frame_fields() -> (res: Vec<ScalarField>)
    ensures
        res.deep_view() == frame_field_list(),
{
    let fields = vec![
        nullable_field("function", ScalarType::Utf8),
        nullable_field("filename", ScalarType::Utf8),
        nullable_field("line", ScalarType::Int64),
        nullable_field("address", ScalarType::UInt64),
    ];
    assert(fields.deep_view() =~= frame_field_list());
    fields
}

/// `STRUCT(function_id UBIGINT, line BIGINT)`: an entry of a location's line table.
pub fn lineref_fields() -> (res: Vec<ScalarField>)
    ensures
        res.deep_view() == lineref_field_list(),
{
    let fields = vec![
        nullable_field("function_id", ScalarType::UInt64),
        nullable_field("line", ScalarType::Int64),
    ];
    assert(fields.deep_view() =~= lineref_field_list());
    fields
}

/// The fields of an entry of a `MAP(VARCHAR, VARCHAR)`. A key is never null.
pub fn map_entry_fields() -> (res: Vec<ScalarField>)
    ensures
        res.deep_view() == map_entry_field_list(),
{
    let fields = vec![
        ScalarField { name: "key", data_type: ScalarType::Utf8, nullable: false },
        nullable_field("value", ScalarType::Utf8),
    ];
    assert(fields.deep_view() =~= map_entry_field_list());
    fields
}

/// What a nested type calls its inner values, and whether these may be null.
#[derive(Debug, Clone, Copy)]
pub struct NestedField {
    pub name: &'static str,
    pub nullable: bool,
}

/// The items of a list.
pub fn list_field() -> (res: NestedField)
    ensures
        res.name@ == "item"@,
        res.nullable,
{
    NestedField { name: "item", nullable: true }
}

/// The entries of a map. An entry is never null.
pub fn map_entries_field() -> (res: NestedField)
    ensures
        res.name@ == "entries"@,
        !res.nullable,
{
    NestedField { name: "entries", nullable: false }
}

/// `MAP(VARCHAR, VARCHAR)`.
pub fn map_type() -> (res: ColumnType)
    ensures
        res.deep_view() == ColumnTypeView::TextMap(map_entry_field_list()),
{
    ColumnType::TextMap(map_entry_fields())
}

/// `LIST(BIGINT)`.
pub fn list_i64_type() -> (res: ColumnType)
    ensures
        res.deep_view() == ColumnTypeView::List(ScalarType::Int64),
{
    ColumnType::List(ScalarType::Int64)
}

/// `LIST(UBIGINT)`.
pub fn list_u64_type() -> (res: ColumnType)
    ensures
        res.deep_view() == ColumnTypeView::List(ScalarType::UInt64),
{
    ColumnType::List(ScalarType::UInt64)
}

/// `LIST(STRUCT(function, filename, line, address))`.
pub fn list_frame_type() -> (res: ColumnType)
    ensures
        res.deep_view() == ColumnTypeView::ListStruct(frame_field_list()),
{
    ColumnType::ListStruct(frame_fields())
}

/// `LIST(STRUCT(function_id, line))`.
pub fn list_lineref_type() -> (res: ColumnType)
    ensures
        res.deep_view() == ColumnTypeView::ListStruct(lineref_field_list()),
{
    ColumnType::ListStruct(lineref_fields())
}

/// `LIST(STRUCT(type, unit))`.
pub fn list_value_type_type() -> (res: ColumnType)
    ensures
        res.deep_view() == ColumnTypeView::ListStruct(value_type_field_list()),
{
    ColumnType::ListStruct(value_type_fields())
}

/// A column with a comment.
pub fn commented(
    name: &'static str,
    data_type: ColumnType,
    comment: &'static str,
) -> (res: ColumnField)
    ensures
        res.deep_view() == (ColumnFieldView {
            name: name@,
            data_type: data_type.deep_view(),
            comment: comment@,
        }),
{
    ColumnField { name, data_type, comment }
}

/// The comment of the `file` column.
pub const FILE_COMMENT: &'static str =
    "Source path the row came from (NULL when the profile was passed as inline BLOB bytes). \
     Lets a multi-file glob attribute each row to its file.";

/// The comment of the `error` column.
pub const ERROR_COMMENT: &'static str =
    "NULL on success; otherwise this row is an error row for a file that could not be read \
     or decoded, with every data column NULL and the failure message here.";

/// The two columns at the end of every table: where a row came from, and why it has no data.
pub open spec fn trailing_field_list() -> Seq<ColumnFieldView> {
    seq![
        ColumnFieldView {
            name: "file"@,
            data_type: ColumnTypeView::Scalar(ScalarType::Utf8),
            comment: FILE_COMMENT@,
        },
        ColumnFieldView {
            name: "error"@,
            data_type: ColumnTypeView::Scalar(ScalarType::Utf8),
            comment: ERROR_COMMENT@,
        },
    ]
}

/// The two columns at the end of every table.
pub fn trailing_fields() -> (res: Vec<ColumnField>)
    ensures
        res.deep_view() == trailing_field_list(),
{
    let fields = vec![
        commented("file", ColumnType::Scalar(ScalarType::Utf8), FILE_COMMENT),
        commented("error", ColumnType::Scalar(ScalarType::Utf8), ERROR_COMMENT),
    ];
    assert(fields.deep_view() =~= trailing_field_list());
    fields
}

/// The schema of a table with these data columns.
pub fn schema_with_trailing(fields: Vec<ColumnField>) -> (res: Vec<ColumnField>)
    ensures
        res.deep_view() == fields.deep_view() + trailing_field_list(),
{
    let mut all = fields;
    let mut trailing = trailing_fields();
    let ghost end = trailing.deep_view();
    all.append(&mut trailing);
    assert(all.deep_view() =~= fields.deep_view() + end);
    all
}

/// The SQL name of a type without parts.
pub open spec fn scalar_type_text(data_type: ScalarType) -> Seq<char> {
    match data_type {
        ScalarType::Int64 => "BIGINT"@,
        ScalarType::UInt64 => "UBIGINT"@,
        ScalarType::Utf8 => "VARCHAR"@,
    }
}

/// Fields by name and type, with commas between them.
pub open spec fn fields_text(fields: Seq<ScalarFieldView>) -> Seq<char>
    decreases fields.len(),
{
    if fields.len() == 0 {
        seq![]
    } else {
        let last = fields.last().name + " "@ + scalar_type_text(fields.last().data_type);
        if fields.len() == 1 {
            last
        } else {
            fields_text(fields.drop_last()) + ", "@ + last
        }
    }
}

/// The SQL name of a column type.
pub open spec fn type_text(data_type: ColumnTypeView) -> Seq<char> {
    match data_type {
        ColumnTypeView::Scalar(t) => scalar_type_text(t),
        ColumnTypeView::List(t) => scalar_type_text(t) + "[]"@,
        ColumnTypeView::Struct(fields) => "STRUCT("@ + fields_text(fields) + ")"@,
        ColumnTypeView::ListStruct(fields) => "STRUCT("@ + fields_text(fields) + ")[]"@,
        ColumnTypeView::TextMap(fields) => "MAP("@ + scalar_type_text(fields[0].data_type) + ","@
            + scalar_type_text(fields[1].data_type) + ")"@,
    }
}

/// The SQL names of the nested types.
pub proof fn lemma_type_texts()
    ensures
        type_text(ColumnTypeView::List(ScalarType::Int64)) == "BIGINT[]"@,
        type_text(ColumnTypeView::List(ScalarType::UInt64)) == "UBIGINT[]"@,
        type_text(ColumnTypeView::TextMap(map_entry_field_list())) == "MAP(VARCHAR,VARCHAR)"@,
        type_text(ColumnTypeView::Struct(value_type_field_list()))
            == "STRUCT(type VARCHAR, unit VARCHAR)"@,
        type_text(ColumnTypeView::ListStruct(value_type_field_list()))
            == "STRUCT(type VARCHAR, unit VARCHAR)[]"@,
        type_text(ColumnTypeView::ListStruct(lineref_field_list()))
            == "STRUCT(function_id UBIGINT, line BIGINT)[]"@,
        type_text(ColumnTypeView::ListStruct(frame_field_list()))
            == "STRUCT(function VARCHAR, filename VARCHAR, line BIGINT, address UBIGINT)[]"@,
{
    reveal_strlit("BIGINT");
    reveal_strlit("UBIGINT");
    reveal_strlit("VARCHAR");
    reveal_strlit("[]");
    reveal_strlit("BIGINT[]");
    reveal_strlit("UBIGINT[]");
    assert("BIGINT"@ + "[]"@ =~= "BIGINT[]"@);
    assert("UBIGINT"@ + "[]"@ =~= "UBIGINT[]"@);
    reveal_strlit("MAP(");
    reveal_strlit(",");
    reveal_strlit(")");
    reveal_strlit("MAP(VARCHAR,VARCHAR)");
    assert("MAP("@ + "VARCHAR"@ + ","@ + "VARCHAR"@ + ")"@ =~= "MAP(VARCHAR,VARCHAR)"@);
    lemma_pair_texts();
    lemma_frame_text();
}

proof fn lemma_two_fields(fields: Seq<ScalarFieldView>)
    requires
        fields.len() == 2,
    ensures
        fields_text(fields) == fields[0].name + " "@ + scalar_type_text(fields[0].data_type) + ", "@
            + (fields[1].name + " "@ + scalar_type_text(fields[1].data_type)),
{
    reveal_with_fuel(fields_text, 3);
}

proof fn lemma_pair_texts()
    ensures
        type_text(ColumnTypeView::Struct(value_type_field_list()))
            == "STRUCT(type VARCHAR, unit VARCHAR)"@,
        type_text(ColumnTypeView::ListStruct(value_type_field_list()))
            == "STRUCT(type VARCHAR, unit VARCHAR)[]"@,
        type_text(ColumnTypeView::ListStruct(lineref_field_list()))
            == "STRUCT(function_id UBIGINT, line BIGINT)[]"@,
{
    reveal_strlit("BIGINT");
    reveal_strlit("UBIGINT");
    reveal_strlit("VARCHAR");
    reveal_strlit("STRUCT(");
    reveal_strlit(")");
    reveal_strlit(")[]");
    reveal_strlit(" ");
    reveal_strlit(", ");
    reveal_strlit("type");
    reveal_strlit("unit");
    reveal_strlit("line");
    reveal_strlit("function_id");
    reveal_strlit("STRUCT(type VARCHAR, unit VARCHAR)");
    reveal_strlit("STRUCT(type VARCHAR, unit VARCHAR)[]");
    reveal_strlit("STRUCT(function_id UBIGINT, line BIGINT)[]");
    lemma_two_fields(value_type_field_list());
    lemma_two_fields(lineref_field_list());
    assert(type_text(ColumnTypeView::Struct(value_type_field_list()))
        =~= "STRUCT(type VARCHAR, unit VARCHAR)"@);
    assert(type_text(ColumnTypeView::ListStruct(value_type_field_list()))
        =~= "STRUCT(type VARCHAR, unit VARCHAR)[]"@);
    assert(type_text(ColumnTypeView::ListStruct(lineref_field_list()))
        =~= "STRUCT(function_id UBIGINT, line BIGINT)[]"@);
}

proof fn lemma_frame_text()
    ensures
        type_text(ColumnTypeView::ListStruct(frame_field_list()))
            == "STRUCT(function VARCHAR, filename VARCHAR, line BIGINT, address UBIGINT)[]"@,
{
    let three = frame_field_list().drop_last();
    let two = three.drop_last();
    lemma_two_fields(two);
    let names = "function VARCHAR, filename VARCHAR"@;
    let lines = "function VARCHAR, filename VARCHAR, line BIGINT"@;
    let all = "function VARCHAR, filename VARCHAR, line BIGINT, address UBIGINT"@;
    assert(fields_text(two) == names) by {
        reveal_strlit("VARCHAR");
        reveal_strlit(" ");
        reveal_strlit(", ");
        reveal_strlit("function");
        reveal_strlit("filename");
        reveal_strlit("function VARCHAR, filename VARCHAR");
        assert("function"@ + " "@ + "VARCHAR"@ + ", "@ + ("filename"@ + " "@ + "VARCHAR"@)
            =~= names);
    }
    assert(names + ", "@ + ("line"@ + " "@ + "BIGINT"@) == lines) by {
        reveal_strlit("BIGINT");
        reveal_strlit(" ");
        reveal_strlit(", ");
        reveal_strlit("line");
        reveal_strlit("function VARCHAR, filename VARCHAR");
        reveal_strlit("function VARCHAR, filename VARCHAR, line BIGINT");
        assert(names + ", "@ + ("line"@ + " "@ + "BIGINT"@) =~= lines);
    }
    assert(lines + ", "@ + ("address"@ + " "@ + "UBIGINT"@) == all) by {
        reveal_strlit("UBIGINT");
        reveal_strlit(" ");
        reveal_strlit(", ");
        reveal_strlit("address");
        reveal_strlit("function VARCHAR, filename VARCHAR, line BIGINT");
        reveal_strlit("function VARCHAR, filename VARCHAR, line BIGINT, address UBIGINT");
        assert(lines + ", "@ + ("address"@ + " "@ + "UBIGINT"@) =~= all);
    }
    assert(fields_text(three) == lines);
    assert(fields_text(frame_field_list()) == all);
    assert("STRUCT("@ + all + ")[]"@
        == "STRUCT(function VARCHAR, filename VARCHAR, line BIGINT, address UBIGINT)[]"@) by {
        reveal_strlit("STRUCT(");
        reveal_strlit(")[]");
        reveal_strlit("function VARCHAR, filename VARCHAR, line BIGINT, address UBIGINT");
        reveal_strlit("STRUCT(function VARCHAR, filename VARCHAR, line BIGINT, address UBIGINT)[]");
        assert("STRUCT("@ + all + ")[]"@
            =~= "STRUCT(function VARCHAR, filename VARCHAR, line BIGINT, address UBIGINT)[]"@);
    }
}

} // verus!
