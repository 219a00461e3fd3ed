//! The six tables of a profile.
//!
//! Each table has its data columns and two more: `file`, where a row came from, and `error`. A
//! source that could not be decoded gives one error row: its data columns are null, and the
//! other two say which source it was and what went wrong.

pub mod functions;
pub mod locations;
pub mod mappings;
pub mod meta_table;
pub mod samples;
pub mod stacks;

use std::sync::Arc;

use arrow_schema::Schema;

use vstd::prelude::*;
use vstd::string::*;

use crate::arrow;
use crate::arrow::{ArrowBatch, Cell};
use crate::columns;
use crate::columns::{Column, ColumnView, ListLayoutView, ScalarColumnView};
use crate::decoded::Decoded;
use crate::lists;
use crate::meta;
use crate::meta::{FunctionMetadata, FunctionMetadataView};
use crate::proto::ProfileView;
use crate::schema;
use crate::schema::{ColumnField, ColumnFieldView, ColumnTypeView, ScalarFieldView, ScalarType};
use crate::source::{DecodeUnit, DecodeUnitView};

verus! {

/// A row of a result: its data, which an error row lacks, and the columns at the end.
pub struct OutputRow<R> {
    pub data: Option<R>,
    pub file: Option<Seq<char>>,
    pub error: Option<Seq<char>>,
}

/// The rows of a decoded profile, all of one source.
pub open spec fn data_rows_of<R>(rows: Seq<R>, file: Option<Seq<char>>) -> Seq<OutputRow<R>> {
    Seq::new(rows.len(), |i: int| OutputRow { data: Some(rows[i]), file, error: None })
}

/// The type of the elements of a column.
pub open spec fn scalar_type_of(column: ScalarColumnView) -> ScalarType {
    match column {
        ScalarColumnView::Int64(_) => ScalarType::Int64,
        ScalarColumnView::UInt64(_) => ScalarType::UInt64,
        ScalarColumnView::Utf8(_) => ScalarType::Utf8,
    }
}

/// The number of elements of a column.
pub open spec fn scalar_len(column: ScalarColumnView) -> nat {
    match column {
        ScalarColumnView::Int64(values) => values.len(),
        ScalarColumnView::UInt64(values) => values.len(),
        ScalarColumnView::Utf8(values) => values.len(),
    }
}

/// Whether an element of a column is null.
pub open spec fn scalar_is_null(column: ScalarColumnView, i: int) -> bool {
    match column {
        ScalarColumnView::Int64(values) => values[i] is None,
        ScalarColumnView::UInt64(values) => values[i] is None,
        ScalarColumnView::Utf8(values) => values[i] is None,
    }
}

/// Whether columns are those of `n` structs with these fields.
pub open spec fn fields_match(
    parts: Seq<ScalarColumnView>,
    fields: Seq<ScalarFieldView>,
    n: int,
) -> bool {
    &&& parts.len() == fields.len()
    &&& forall|k: int|
        0 <= k < fields.len() ==> {
            &&& scalar_type_of(#[trigger] parts[k]) == fields[k].data_type
            &&& scalar_len(parts[k]) == n
            &&& !fields[k].nullable ==> forall|i: int|
                0 <= i < n ==> !#[trigger] scalar_is_null(parts[k], i)
        }
}

/// Whether a layout is one of `n` lists: the offsets start at zero and never fall.
pub open spec fn layout_matches(layout: ListLayoutView, n: int) -> bool {
    &&& layout.valid.len() == n
    &&& layout.offsets.len() == n + 1
    &&& layout.offsets[0] == 0
    &&& forall|i: int, j: int|
        0 <= i <= j <= n ==> #[trigger] layout.offsets[i] <= #[trigger] layout.offsets[j]
}

/// The number of rows of a column.
pub open spec fn column_len(column: ColumnView) -> int {
    match column {
        ColumnView::Scalar(values) => scalar_len(values) as int,
        ColumnView::List(layout, _) => layout.valid.len() as int,
        ColumnView::Struct(_, valid) => valid.len() as int,
        ColumnView::ListStruct(layout, _) => layout.valid.len() as int,
        ColumnView::TextMap(layout, _) => layout.valid.len() as int,
    }
}

/// Whether a column has a type and `n` rows.
pub open spec fn column_matches(column: ColumnView, data_type: ColumnTypeView, n: int) -> bool {
    match (column, data_type) {
        (ColumnView::Scalar(values), ColumnTypeView::Scalar(t)) => {
            &&& scalar_type_of(values) == t
            &&& scalar_len(values) == n
        },
        (ColumnView::List(layout, items), ColumnTypeView::List(t)) => {
            &&& layout_matches(layout, n)
            &&& scalar_type_of(items) == t
            &&& scalar_len(items) == layout.offsets[n]
        },
        (ColumnView::Struct(parts, valid), ColumnTypeView::Struct(fields)) => {
            &&& valid.len() == n
            &&& fields_match(parts, fields, n)
        },
        (ColumnView::ListStruct(layout, parts), ColumnTypeView::ListStruct(fields)) => {
            &&& layout_matches(layout, n)
            &&& fields_match(parts, fields, layout.offsets[n] as int)
        },
        (ColumnView::TextMap(layout, parts), ColumnTypeView::TextMap(fields)) => {
            &&& layout_matches(layout, n)
            &&& fields_match(parts, fields, layout.offsets[n] as int)
        },
        _ => false,
    }
}

/// Whether columns are those of a schema, with `n` rows.
pub open spec fn batch_matches(
    batch: Seq<ColumnView>,
    schema: Seq<ColumnFieldView>,
    n: int,
) -> bool {
    &&& batch.len() == schema.len()
    &&& forall|k: int|
        0 <= k < schema.len() ==> column_matches(#[trigger] batch[k], schema[k].data_type, n)
}

/// Whether a row of a column is null.
pub open spec fn column_is_null(column: ColumnView, i: int) -> bool {
    match column {
        ColumnView::Scalar(values) => scalar_is_null(values, i),
        ColumnView::List(layout, _) => !layout.valid[i],
        ColumnView::Struct(_, valid) => !valid[i],
        ColumnView::ListStruct(layout, _) => !layout.valid[i],
        ColumnView::TextMap(layout, _) => !layout.valid[i],
    }
}

/// The collected columns of a table, one optional value per row.
pub trait Columns: Sized + DeepView {
    /// A row of the table.
    type Row: DeepView;

    /// The rows of a profile.
    spec fn data_rows(p: ProfileView) -> Seq<<Self::Row as DeepView>::V>;

    /// The columns of these rows.
    spec fn columns_of(rows: Seq<OutputRow<<Self::Row as DeepView>::V>>) -> Self::V;

    /// Whether the items of each list column can be counted by offsets.
    spec fn columns_fit(columns: Self::V) -> bool;

    /// The columns as they are laid out in a result.
    spec fn batch_of(columns: Self::V) -> Seq<ColumnView>;

    /// The columns that a result of this table has.
    spec fn schema() -> Seq<ColumnFieldView>;

    /// A result has the declared columns, all of the same length.
    proof fn law_batch_matches_schema(rows: Seq<OutputRow<<Self::Row as DeepView>::V>>)
        requires
            Self::columns_fit(Self::columns_of(rows)),
        ensures
            batch_matches(
                Self::batch_of(Self::columns_of(rows)),
                Self::schema(),
                rows.len() as int,
            ),
    ;

    /// A row as it stands in a batch, column by column.
    spec fn row_cells(row: OutputRow<<Self::Row as DeepView>::V>) -> Seq<Cell>;

    /// A result holds the rows.
    proof fn law_batch_holds_rows(rows: Seq<OutputRow<<Self::Row as DeepView>::V>>, i: int)
        requires
            Self::columns_fit(Self::columns_of(rows)),
            0 <= i < rows.len(),
        ensures
            Self::row_cells(rows[i]).len() == Self::batch_of(Self::columns_of(rows)).len(),
            forall|k: int|
                0 <= k < Self::row_cells(rows[i]).len() ==> arrow::column_cells(
                    Self::batch_of(Self::columns_of(rows))[k],
                )[i] == #[trigger] Self::row_cells(rows[i])[k],
    ;

    /// The last two columns are those of every table, and all of them can be laid out.
    proof fn law_schema_ends_alike()
        ensures
            arrow::is_schema(Self::schema()),
            Self::schema().len() >= 2,
            Self::schema().skip(Self::schema().len() - 2) == schema::trailing_field_list(),
    ;

    /// An error row has no data: every data column is null there. The two columns at the end
    /// hold what every row has there.
    proof fn law_error_rows(rows: Seq<OutputRow<<Self::Row as DeepView>::V>>, i: int)
        requires
            0 <= i < rows.len(),
        ensures
            Self::schema().len() >= 2,
            Self::batch_of(Self::columns_of(rows)).len() == Self::schema().len(),
            rows[i].data is None ==> forall|k: int|
                0 <= k < Self::schema().len() - 2 ==> column_is_null(
                    #[trigger] Self::batch_of(Self::columns_of(rows))[k],
                    i,
                ),
            Self::batch_of(Self::columns_of(rows))[Self::schema().len() - 2] == columns::str_column(
                Seq::new(rows.len(), |j: int| rows[j].file),
            ),
            Self::batch_of(Self::columns_of(rows))[Self::schema().len() - 1] == columns::str_column(
                Seq::new(rows.len(), |j: int| rows[j].error),
            ),
    ;

    fn read(decoded: &Decoded) -> (res: Vec<Self::Row>)
        ensures
            res.deep_view() == Self::data_rows(decoded@),
    ;

    fn start() -> (res: Self)
        ensures
            res.deep_view() == Self::columns_of(Seq::empty()),
    ;

    /// Adds a row.
    fn add(&mut self, data: Option<Self::Row>, file: Option<String>, error: Option<String>)
        ensures
            forall|rows: Seq<OutputRow<<Self::Row as DeepView>::V>>|
                old(self).deep_view() == Self::columns_of(rows) ==> final(self).deep_view()
                    == #[trigger] Self::columns_of(
                    rows.push(
                        OutputRow {
                            data: data.deep_view(),
                            file: file.deep_view(),
                            error: error.deep_view(),
                        },
                    ),
                ),
    ;

    /// Whether the items of each list column can be counted by offsets.
    fn fits(&self) -> (res: bool)
        ensures
            res == Self::columns_fit(self.deep_view()),
    ;

    /// Lays the columns out.
    fn batch(self) -> (res: Vec<Column>)
        requires
            Self::columns_fit(self.deep_view()),
        ensures
            res.deep_view() == Self::batch_of(self.deep_view()),
    ;
}

/// The rows of one source: those of its profile, or one error row.
pub open spec fn unit_rows<C: Columns>(unit: DecodeUnitView) -> Seq<
    OutputRow<<C::Row as DeepView>::V>,
> {
    match unit.result {
        Ok(p) => data_rows_of(C::data_rows(p), unit.file),
        Err(message) => seq![OutputRow { data: None, file: unit.file, error: Some(message) }],
    }
}

/// The rows of several sources, one source after the other.
pub open spec fn output_rows<C: Columns>(units: Seq<DecodeUnitView>) -> Seq<
    OutputRow<<C::Row as DeepView>::V>,
>
    decreases units.len(),
{
    if units.len() == 0 {
        Seq::empty()
    } else {
        output_rows::<C>(units.drop_last()) + unit_rows::<C>(units.last())
    }
}

fn add_rows<C: Columns>(
    columns: &mut C,
    data: Vec<C::Row>,
    file: &Option<String>,
    Ghost(before): Ghost<Seq<OutputRow<<C::Row as DeepView>::V>>>,
)
    requires
        old(columns).deep_view() == C::columns_of(before),
    ensures
        final(columns).deep_view() == C::columns_of(
            before + data_rows_of(data.deep_view(), file.deep_view()),
        ),
{
    let ghost elements = data@;
    let ghost all = data_rows_of(data.deep_view(), file.deep_view());
    assert(before + all.take(0) =~= before);
    for row in it: data
        invariant
            it.seq() == elements,
            elements.len() == all.len(),
            forall|i: int|
                0 <= i < all.len() ==> all[i] == (OutputRow {
                    data: Some((#[trigger] elements[i]).deep_view()),
                    file: file.deep_view(),
                    error: None,
                }),
            columns.deep_view() == C::columns_of(before + all.take(it.index() as int)),
    {
        proof {
            let i = it.index() as int;
            assert(before + all.take(i + 1) =~= (before + all.take(i)).push(all[i]));
        }
        columns.add(Some(row), file.clone(), None);
    }
    assert(all.take(all.len() as int) =~= all);
}

/// Collects the rows of all sources.
pub fn collect<C: Columns>(units: &[DecodeUnit]) -> (res: C)
    ensures
        res.deep_view() == C::columns_of(output_rows::<C>(units.deep_view())),
{
    let mut columns = C::start();
    let ghost all = units.deep_view();
    assert(output_rows::<C>(all.take(0)) =~= Seq::empty());
    for i in 0..units.len()
        invariant
            all == units.deep_view(),
            columns.deep_view() == C::columns_of(output_rows::<C>(all.take(i as int))),
    {
        let ghost before = output_rows::<C>(all.take(i as int));
        assert(all.take(i + 1).drop_last() =~= all.take(i as int));
        match &units[i].result {
            Ok(decoded) => {
                add_rows(&mut columns, C::read(decoded), &units[i].file, Ghost(before));
            },
            Err(message) => {
                columns.add(None, units[i].file.clone(), Some(message.clone()));
                assert(output_rows::<C>(all.take(i + 1)) =~= before.push(
                    OutputRow {
                        data: None,
                        file: all[i as int].file,
                        error: Some(all[i as int].result->Err_0),
                    },
                ));
            },
        }
    }
    assert(all.take(units.len() as int) =~= all);
    columns
}

/// Whether the result of these sources can be laid out.
pub open spec fn result_fits<C: Columns>(units: Seq<DecodeUnitView>) -> bool {
    C::columns_fit(C::columns_of(output_rows::<C>(units)))
}

/// The result of these sources.
pub open spec fn result_of<C: Columns>(units: Seq<DecodeUnitView>) -> Seq<ColumnView> {
    C::batch_of(C::columns_of(output_rows::<C>(units)))
}

/// The columns of the rows of all sources.
pub fn build<C: Columns>(units: &[DecodeUnit]) -> (res: Vec<Column>)
    requires
        result_fits::<C>(units.deep_view()),
    ensures
        res.deep_view() == result_of::<C>(units.deep_view()),
{
    collect::<C>(units).batch()
}

/// The columns of the rows of all sources, or `None` where a list column has more items than
/// offsets can count.
pub fn build_checked<C: Columns>(units: &[DecodeUnit]) -> (res: Option<Vec<Column>>)
    ensures
        match res {
            Some(batch) => result_fits::<C>(units.deep_view()) && batch.deep_view()
                == result_of::<C>(units.deep_view()),
            None => !result_fits::<C>(units.deep_view()),
        },
{
    let columns = collect::<C>(units);
    if columns.fits() {
        Some(columns.batch())
    } else {
        None
    }
}

/// The layout of lists whose items can be counted fits them, and ends where their items end.
pub proof fn lemma_layout_matches<T>(rows: Seq<Option<Seq<T>>>)
    requires
        columns::offsets_fit(columns::row_counts(rows)),
    ensures
        layout_matches(columns::layout_of(columns::row_counts(rows)), rows.len() as int),
        columns::layout_of(columns::row_counts(rows)).offsets[rows.len() as int]
            == columns::all_items(rows).len(),
{
    let counts = columns::row_counts(rows);
    let n = rows.len() as int;
    columns::lemma_all_items_len(rows);
    assert forall|i: int, j: int| 0 <= i <= j <= n implies #[trigger] columns::layout_of(
        counts,
    ).offsets[i] <= #[trigger] columns::layout_of(counts).offsets[j] by {
        columns::lemma_items_before_grows(counts, i, j);
        columns::lemma_items_before_grows(counts, j, n);
    }
}

/// What is told of a table: its tags, its columns and its examples.
pub open spec fn metadata_of(
    description: Seq<char>,
    object_tags: Seq<(Seq<char>, Seq<char>)>,
    result_columns: Seq<(Seq<char>, Seq<char>, Seq<char>)>,
    executable_examples: Seq<char>,
    examples: Seq<(Seq<char>, Seq<char>)>,
) -> FunctionMetadataView {
    FunctionMetadataView {
        description,
        examples: meta::examples_of(examples),
        tags: object_tags + seq![
            ("vgi.result_columns_schema"@, meta::result_columns_text(result_columns)),
            ("vgi.executable_examples"@, executable_examples),
            ("vgi.example_queries"@, meta::example_queries_text(examples)),
        ],
    }
}

/// Whether tags hold this value under a key, and no other one.
pub open spec fn tells(
    tags: Seq<(Seq<char>, Seq<char>)>,
    key: Seq<char>,
    value: Seq<char>,
) -> bool {
    &&& tags.contains((key, value))
    &&& forall|i: int| 0 <= i < tags.len() && (#[trigger] tags[i]).0 == key ==> tags[i].1 == value
}

/// What is told of a table has its columns and its examples as JSON.
proof fn lemma_metadata_tells(
    description: Seq<char>,
    texts: (Seq<char>, Seq<char>, Seq<char>, Seq<char>, Seq<char>),
    result_columns: Seq<(Seq<char>, Seq<char>, Seq<char>)>,
    executable_examples: Seq<char>,
    examples: Seq<(Seq<char>, Seq<char>)>,
)
    ensures
        ({
            let tags = metadata_of(
                description,
                meta::object_tag_list(texts.0, texts.1, texts.2, texts.3, texts.4),
                result_columns,
                executable_examples,
                examples,
            ).tags;
            &&& tells(
                tags,
                "vgi.result_columns_schema"@,
                meta::result_columns_text(result_columns),
            )
            &&& tells(tags, "vgi.example_queries"@, meta::example_queries_text(examples))
        }),
{
    let tags = metadata_of(
        description,
        meta::object_tag_list(texts.0, texts.1, texts.2, texts.3, texts.4),
        result_columns,
        executable_examples,
        examples,
    ).tags;
    reveal_strlit("vgi.title");
    reveal_strlit("vgi.doc_llm");
    reveal_strlit("vgi.doc_md");
    reveal_strlit("vgi.keywords");
    reveal_strlit("vgi.category");
    reveal_strlit("vgi.result_columns_schema");
    reveal_strlit("vgi.executable_examples");
    reveal_strlit("vgi.example_queries");
    let schema_key = "vgi.result_columns_schema"@;
    let queries_key = "vgi.example_queries"@;
    let keys = tags.map_values(|tag: (Seq<char>, Seq<char>)| tag.0);
    assert(keys =~= seq![
        "vgi.title"@,
        "vgi.doc_llm"@,
        "vgi.doc_md"@,
        "vgi.keywords"@,
        "vgi.category"@,
        schema_key,
        "vgi.executable_examples"@,
        queries_key,
    ]);
    assert forall|i: int| 0 <= i < tags.len() implies ((#[trigger] tags[i]).0 == schema_key ==> i
        == 5) && (tags[i].0 == queries_key ==> i == 7) by {
        assert(tags[i].0 == keys[i]);
        assert(schema_key.len() == 25 && queries_key.len() == 19);
    }
    assert(tags[5] == (schema_key, meta::result_columns_text(result_columns)));
    assert(tags[7] == (queries_key, meta::example_queries_text(examples)));
}

/// Adds the two columns at the end of every table.
fn push_trailing(columns: &mut Vec<(&'static str, &'static str, &'static str)>)
    ensures
        final(columns).deep_view() == old(columns).deep_view() + meta::trailing_columns(),
{
    let ghost before = columns.deep_view();
    let trailing = meta::trailing_result_columns();
    assert(trailing.deep_view() == meta::trailing_columns());
    columns.push(trailing[0]);
    columns.push(trailing[1]);
    assert(columns.deep_view() =~= before + trailing.deep_view());
}

/// What is told of a table: its tags, its columns and its examples.
fn function_metadata(
    description: &str,
    object_tags: Vec<(String, String)>,
    result_columns: &[(&str, &str, &str)],
    executable_examples: &str,
    examples: Vec<(String, String)>,
) -> (res: FunctionMetadata)
    ensures
        res.deep_view() == metadata_of(
            description@,
            object_tags.deep_view(),
            result_columns.deep_view(),
            executable_examples@,
            examples.deep_view(),
        ),
{
    let mut tags = object_tags;
    let ghost first = tags.deep_view();
    let columns_json = meta::result_columns_schema(result_columns);
    let (examples, queries_json) = meta::described_examples(examples);
    lists::push_value(&mut tags, ("vgi.result_columns_schema".to_owned(), columns_json));
    lists::push_value(&mut tags, meta::tag("vgi.executable_examples", executable_examples));
    lists::push_value(&mut tags, ("vgi.example_queries".to_owned(), queries_json));
    assert(tags.deep_view() =~= first + seq![
        ("vgi.result_columns_schema"@, columns_json@),
        ("vgi.executable_examples"@, executable_examples@),
        ("vgi.example_queries"@, queries_json@),
    ]);
    FunctionMetadata { description: description.to_owned(), examples, tags }
}

/// A table function.
pub trait Table: Sized {
    type Columns: Columns;

    /// The name of the table.
    spec fn name_text() -> Seq<char>;

    /// The columns of a result by name, type and description.
    spec fn result_columns() -> Seq<(Seq<char>, Seq<char>, Seq<char>)>;

    /// What is told of the table.
    spec fn metadata_value() -> FunctionMetadataView;

    /// What is told of the columns names the columns of a result, in order, each with the SQL
    /// name of its type.
    proof fn law_result_columns_match_schema()
        ensures
            Self::result_columns().len() == Self::Columns::schema().len(),
            forall|k: int|
                0 <= k < Self::result_columns().len() ==> {
                    &&& (#[trigger] Self::result_columns()[k]).0 == Self::Columns::schema()[k].name
                    &&& Self::result_columns()[k].1 == schema::type_text(
                        Self::Columns::schema()[k].data_type,
                    )
                },
    ;

    /// The descriptions and the queries of the examples.
    spec fn example_pairs() -> Seq<(Seq<char>, Seq<char>)>;

    /// What is told of the table has its columns and its examples, and its examples once more
    /// as JSON.
    proof fn law_metadata_is_told()
        ensures
            Self::metadata_value().examples == meta::examples_of(Self::example_pairs()),
            tells(
                Self::metadata_value().tags,
                "vgi.result_columns_schema"@,
                meta::result_columns_text(Self::result_columns()),
            ),
            tells(
                Self::metadata_value().tags,
                "vgi.example_queries"@,
                meta::example_queries_text(Self::example_pairs()),
            ),
    ;

    /// The examples have no carriage returns and no tabs.
    proof fn law_examples_are_plain()
        ensures
            meta::are_plain(Self::example_pairs()),
    ;

    /// The name of the table.
    fn name(&self) -> (res: &'static str)
        ensures
            res@ == Self::name_text(),
    ;

    /// What is told of the table.
    fn metadata(&self) -> (res: FunctionMetadata)
        ensures
            res.deep_view() == Self::metadata_value(),
    ;

    /// The columns of a result.
    fn output_schema(&self) -> (res: Vec<ColumnField>)
        ensures
            res.deep_view() == Self::Columns::schema(),
    ;
}

/// Why there is no batch.
#[derive(Debug, Clone, PartialEq, Eq)]
pub enum BatchError {
    /// A list column has more items than offsets can count.
    TooManyItems,
    /// A column has more text than offsets can count.
    TooMuchText,
    /// The schema does not declare the columns of the table, in Arrow's words.
    Schema(String),
}

/// Whether the columns hold these rows.
pub open spec fn holds_rows<C: Columns>(
    columns: Seq<Seq<Cell>>,
    rows: Seq<OutputRow<<C::Row as DeepView>::V>>,
) -> bool {
    &&& columns.len() == C::schema().len()
    &&& forall|k: int| 0 <= k < columns.len() ==> (#[trigger] columns[k]).len() == rows.len()
    &&& forall|i: int, k: int|
        0 <= i < rows.len() && 0 <= k < columns.len() ==> #[trigger] columns[k][i] == C::row_cells(
            rows[i],
        )[k]
}

proof fn lemma_result_holds_rows<C: Columns>(rows: Seq<OutputRow<<C::Row as DeepView>::V>>)
    requires
        C::columns_fit(C::columns_of(rows)),
    ensures
        batch_matches(C::batch_of(C::columns_of(rows)), C::schema(), rows.len() as int),
        arrow::is_schema(C::schema()),
        holds_rows::<C>(arrow::columns_cells(C::batch_of(C::columns_of(rows))), rows),
{
    let batch = C::batch_of(C::columns_of(rows));
    let columns = arrow::columns_cells(batch);
    C::law_batch_matches_schema(rows);
    C::law_schema_ends_alike();
    assert forall|k: int| 0 <= k < columns.len() implies (#[trigger] columns[k]).len()
        == rows.len() by {
        assert(column_matches(batch[k], C::schema()[k].data_type, rows.len() as int));
        arrow::lemma_column_len(batch[k], C::schema()[k].data_type, rows.len() as int);
    }
    assert forall|i: int, k: int| 0 <= i < rows.len() && 0 <= k < columns.len() implies
        #[trigger] columns[k][i] == C::row_cells(rows[i])[k] by {
        C::law_batch_holds_rows(rows, i);
        assert(C::row_cells(rows[i])[k] == arrow::column_cells(batch[k])[i]);
    }
}

/// The Arrow schema of a table.
pub fn arrow_schema<T: Table>(table: &T) -> (res: Schema)
    ensures
        arrow::schema_value(res) == arrow::fields_of(T::Columns::schema()),
{
    arrow::make_schema(&table.output_schema())
}

/// Whether a schema declares the columns of a result.
pub open spec fn is_accepted<C: Columns>(schema: Schema, units: Seq<DecodeUnitView>) -> bool {
    arrow::is_accepted(
        arrow::schema_value(schema),
        arrow::types_of(C::schema()),
        arrow::columns_cells(result_of::<C>(units)),
    )
}

/// Whether this is what becomes of the rows of these sources: a batch with this schema that
/// holds them, or the first reason why there is none.
pub open spec fn is_batch<C: Columns>(
    res: Result<ArrowBatch, BatchError>,
    schema: Schema,
    units: Seq<DecodeUnitView>,
) -> bool {
    if !result_fits::<C>(units) {
        res matches Err(BatchError::TooManyItems)
    } else if !arrow::columns_fit(result_of::<C>(units)) {
        res matches Err(BatchError::TooMuchText)
    } else if !is_accepted::<C>(schema, units) {
        res matches Err(BatchError::Schema(words)) && words@ == arrow::refusal(
            schema,
            arrow::types_of(C::schema()),
            arrow::columns_cells(result_of::<C>(units)),
        )
    } else {
        res matches Ok(batch) && arrow::batch_schema(batch) == schema && holds_rows::<C>(
            arrow::batch_cells(batch),
            output_rows::<C>(units),
        )
    }
}

/// The rows of all sources as an Arrow batch.
pub fn build_batch<T: Table>(table: &T, units: &[DecodeUnit], schema: Arc<Schema>) -> (res: Result<
    ArrowBatch,
    BatchError,
>)
    ensures
        is_batch::<T::Columns>(res, *schema, units.deep_view()),
{
    let columns = match build_checked::<T::Columns>(units) {
        Some(columns) => columns,
        None => {
            return Err(BatchError::TooManyItems);
        },
    };
    if !arrow::are_countable(&columns) {
        return Err(BatchError::TooMuchText);
    }
    let fields = table.output_schema();
    proof {
        lemma_result_holds_rows::<T::Columns>(output_rows::<T::Columns>(units.deep_view()));
    }
    match arrow::batch(columns, &fields, schema) {
        Ok(batch) => Ok(batch),
        Err(words) => Err(BatchError::Schema(words)),
    }
}

/// Hands out the whole result of a call as one batch, once.
pub struct OneShot<T: Table> {
    table: T,
    schema: Arc<Schema>,
    units: Option<Vec<DecodeUnit>>,
}

impl<T: Table> OneShot<T> {
    /// The sources whose rows are still to be handed out.
    pub closed spec fn pending(&self) -> Option<Seq<DecodeUnitView>> {
        self.units.deep_view()
    }

    /// The schema of the batch.
    pub closed spec fn schema(&self) -> Schema {
        *self.schema
    }

    /// A batch to come, of the rows of these sources, with this schema.
    pub fn new(table: T, schema: Arc<Schema>, units: Vec<DecodeUnit>) -> (res: OneShot<T>)
        ensures
            res.pending() == Some(units.deep_view()),
            res.schema() == *schema,
    {
        OneShot { table, schema, units: Some(units) }
    }

    /// The batch, the first time, and nothing after that.
    pub fn next_batch(&mut self) -> (res: Result<Option<ArrowBatch>, BatchError>)
        ensures
            final(self).pending() is None,
            final(self).schema() == old(self).schema(),
            match old(self).pending() {
                Some(units) => match res {
                    Ok(Some(batch)) => is_batch::<T::Columns>(
                        Ok(batch),
                        old(self).schema(),
                        units,
                    ),
                    Ok(None) => false,
                    Err(error) => is_batch::<T::Columns>(Err(error), old(self).schema(), units),
                },
                None => res matches Ok(None),
            },
    {
        match self.units.take() {
            Some(units) => match build_batch(&self.table, units.as_slice(), self.schema.clone()) {
                Ok(batch) => Ok(Some(batch)),
                Err(error) => Err(error),
            },
            None => Ok(None),
        }
    }
}

} // verus!
