//! Laws of the tables, over the functions of [`crate::table`] and [`crate::columns`].

use arrow_schema::Schema;

use vstd::prelude::*;

use crate::arrow;
use crate::catalog;
use crate::columns;
use crate::columns::ListLayoutView;
use crate::laws;
use crate::meta;
use crate::meta::{Escaping, FunctionExampleView};
use crate::rows::{FrameView, LineRef, ValueTypeView};
use crate::schema;
use crate::source::DecodeUnitView;
use crate::table;
use crate::table::{functions, locations, mappings, meta_table, samples, stacks};
use crate::table::{Columns, Table};

verus! {

/// Row `i` of a list column.
pub open spec fn list_row<T>(layout: ListLayoutView, items: Seq<T>, i: int) -> Option<Seq<T>> {
    if layout.valid[i] {
        Some(items.subrange(layout.offsets[i] as int, layout.offsets[i + 1] as int))
    } else {
        None
    }
}

proof fn lemma_items_of_row<T>(rows: Seq<Option<Seq<T>>>, i: int)
    requires
        0 <= i < rows.len(),
    ensures
        columns::items_before(columns::row_counts(rows), i + 1) <= columns::all_items(rows).len(),
        rows[i] matches Some(items) ==> columns::all_items(rows).subrange(
            columns::items_before(columns::row_counts(rows), i) as int,
            columns::items_before(columns::row_counts(rows), i + 1) as int,
        ) == items,
    decreases rows.len(),
{
    let counts = columns::row_counts(rows);
    let front = rows.drop_last();
    let n = front.len() as int;
    columns::lemma_all_items_len(rows);
    columns::lemma_all_items_len(front);
    columns::lemma_items_before_grows(counts, i + 1, rows.len() as int);
    assert(columns::row_counts(front) =~= counts.take(n));
    columns::lemma_items_before_prefix(counts, n, n);
    if i < n {
        lemma_items_of_row(front, i);
        columns::lemma_items_before_prefix(counts, n, i);
        columns::lemma_items_before_prefix(counts, n, i + 1);
        assert(front[i] == rows[i]);
        let from = columns::items_before(counts, i) as int;
        let to = columns::items_before(counts, i + 1) as int;
        assert(columns::all_items(rows).subrange(from, to) =~= columns::all_items(front).subrange(
            from,
            to,
        ));
    } else if let Some(items) = rows[i] {
        assert(columns::all_items(rows).subrange(
            columns::items_before(counts, i) as int,
            columns::items_before(counts, i + 1) as int,
        ) =~= items);
    }
}

/// The offsets of a row lie within the items.
proof fn lemma_offsets_are_in_range<T>(rows: Seq<Option<Seq<T>>>, i: int)
    requires
        columns::offsets_fit(columns::row_counts(rows)),
        0 <= i < rows.len(),
    ensures
        0 <= columns::layout_of(columns::row_counts(rows)).offsets[i] <= columns::layout_of(
            columns::row_counts(rows),
        ).offsets[i + 1] <= columns::all_items(rows).len(),
{
    let counts = columns::row_counts(rows);
    let n = rows.len() as int;
    lemma_items_of_row(rows, i);
    columns::lemma_items_before_grows(counts, i, i + 1);
    columns::lemma_items_before_grows(counts, i + 1, n);
}

/// The layout of a list column has one offset more than rows and starts at zero. Each row is as
/// long as its count says, and a row without a count is null and takes up nothing.
pub proof fn law_layouts_follow_the_counts(counts: Seq<Option<nat>>, i: int)
    requires
        columns::offsets_fit(counts),
        0 <= i < counts.len(),
    ensures
        ({
            let layout = columns::layout_of(counts);
            &&& layout.offsets.len() == counts.len() + 1
            &&& layout.valid.len() == counts.len()
            &&& layout.offsets[0] == 0
            &&& match counts[i] {
                Some(n) => layout.valid[i] && layout.offsets[i + 1] == layout.offsets[i] + n,
                None => !layout.valid[i] && layout.offsets[i + 1] == layout.offsets[i],
            }
        }),
{
    columns::lemma_items_before_grows(counts, i, i + 1);
    columns::lemma_items_before_grows(counts, i + 1, counts.len() as int);
}

/// A list column gives back each row: its list, or null. A null row takes up no items.
pub proof fn law_list_columns_read_back<T>(rows: Seq<Option<Seq<T>>>, i: int)
    requires
        columns::offsets_fit(columns::row_counts(rows)),
        0 <= i < rows.len(),
    ensures
        list_row(
            columns::layout_of(columns::row_counts(rows)),
            columns::all_items(rows),
            i,
        ) == rows[i],
        rows[i] is None ==> columns::layout_of(columns::row_counts(rows)).offsets[i]
            == columns::layout_of(columns::row_counts(rows)).offsets[i + 1],
{
    let counts = columns::row_counts(rows);
    let n = rows.len() as int;
    lemma_items_of_row(rows, i);
    columns::lemma_items_before_grows(counts, i, n);
    columns::lemma_items_before_grows(counts, i + 1, n);
}

/// Item `j` of row `i` stands `j` places behind the offset of the row.
pub proof fn lemma_items_stand_at_offsets<T>(rows: Seq<Option<Seq<T>>>, i: int)
    requires
        columns::offsets_fit(columns::row_counts(rows)),
        0 <= i < rows.len(),
    ensures
        rows[i] matches Some(items) ==> {
            let offsets = columns::layout_of(columns::row_counts(rows)).offsets;
            &&& 0 <= offsets[i]
            &&& offsets[i + 1] == offsets[i] + items.len()
            &&& offsets[i + 1] <= columns::all_items(rows).len()
            &&& forall|j: int|
                0 <= j < items.len() ==> #[trigger] items[j] == columns::all_items(
                    rows,
                )[offsets[i] + j]
        },
{
    let all = columns::all_items(rows);
    let offsets = columns::layout_of(columns::row_counts(rows)).offsets;
    law_list_columns_read_back(rows, i);
    lemma_offsets_are_in_range(rows, i);
    if let Some(items) = rows[i] {
        assert forall|j: int| 0 <= j < items.len() implies #[trigger] items[j] == all[offsets[i]
            + j] by {
            assert(all.subrange(offsets[i] as int, offsets[i + 1] as int)[j] == all[offsets[i]
                + j]);
        }
    }
}

/// The struct columns give back each item: frames, lines, value types and map entries.
pub proof fn law_struct_columns_read_back(
    frames: Seq<FrameView>,
    lines: Seq<LineRef>,
    value_types: Seq<ValueTypeView>,
    entries: Seq<(Seq<char>, Seq<char>)>,
    i: int,
)
    ensures
        0 <= i < frames.len() ==> {
            let parts = columns::frame_fields_of(frames);
            frames[i] == FrameView {
                function: parts[0]->Utf8_0[i],
                filename: parts[1]->Utf8_0[i],
                line: parts[2]->Int64_0[i],
                address: parts[3]->UInt64_0[i]->0,
            }
        },
        0 <= i < lines.len() ==> {
            let parts = columns::lineref_fields_of(lines);
            lines[i] == LineRef {
                function_id: parts[0]->UInt64_0[i]->0,
                line: parts[1]->Int64_0[i]->0,
            }
        },
        0 <= i < value_types.len() ==> {
            let parts = columns::value_type_fields_of(value_types);
            value_types[i] == ValueTypeView {
                type_: parts[0]->Utf8_0[i]->0,
                unit: parts[1]->Utf8_0[i]->0,
            }
        },
        0 <= i < entries.len() ==> {
            let parts = columns::entry_fields(entries);
            entries[i] == (parts[0]->Utf8_0[i]->0, parts[1]->Utf8_0[i]->0)
        },
{
}

/// The rows of several sources are those of the first ones, followed by those of the rest: no
/// source changes the rows of another.
pub proof fn law_sources_are_appended<C: Columns>(
    first: Seq<DecodeUnitView>,
    rest: Seq<DecodeUnitView>,
)
    ensures
        table::output_rows::<C>(first + rest) == table::output_rows::<C>(first)
            + table::output_rows::<C>(rest),
    decreases rest.len(),
{
    if rest.len() == 0 {
        assert(first + rest =~= first);
        assert(table::output_rows::<C>(first) + table::output_rows::<C>(rest)
            =~= table::output_rows::<C>(first));
    } else {
        law_sources_are_appended::<C>(first, rest.drop_last());
        assert((first + rest).drop_last() =~= first + rest.drop_last());
        assert(table::output_rows::<C>(first + rest) =~= table::output_rows::<C>(first)
            + table::output_rows::<C>(rest));
    }
}

/// A source that could not be decoded gives exactly one row, without data, with its file and the
/// error. A source that could be gives its rows, all with its file and without an error.
pub proof fn law_failures_are_captured<C: Columns>(unit: DecodeUnitView)
    ensures
        match unit.result {
            Err(message) => {
                let rows = table::unit_rows::<C>(unit);
                rows.len() == 1 && rows[0].data is None && rows[0].file == unit.file
                    && rows[0].error == Some(message)
            },
            Ok(p) => {
                let rows = table::unit_rows::<C>(unit);
                rows.len() == C::data_rows(p).len() && forall|i: int|
                    0 <= i < rows.len() ==> (#[trigger] rows[i]).data == Some(C::data_rows(p)[i])
                        && rows[i].file == unit.file && rows[i].error is None
            },
        },
{
}

/// A result has the declared columns, with the declared types, and one row each per row of the
/// sources.
pub proof fn law_result_matches_schema<T: Table>(units: Seq<DecodeUnitView>)
    requires
        table::result_fits::<T::Columns>(units),
    ensures
        table::batch_matches(
            table::result_of::<T::Columns>(units),
            T::Columns::schema(),
            table::output_rows::<T::Columns>(units).len() as int,
        ),
{
    T::Columns::law_batch_matches_schema(table::output_rows::<T::Columns>(units));
}

/// The schema of a table declares the columns of its results, so that a batch never fails on it.
pub proof fn law_own_schema_is_accepted<T: Table>(schema: Schema, units: Seq<DecodeUnitView>)
    requires
        arrow::schema_value(schema) == arrow::fields_of(T::Columns::schema()),
        table::result_fits::<T::Columns>(units),
    ensures
        table::is_accepted::<T::Columns>(schema, units),
{
    let batch = table::result_of::<T::Columns>(units);
    let n = table::output_rows::<T::Columns>(units).len() as int;
    law_result_matches_schema::<T>(units);
    T::Columns::law_schema_ends_alike();
    assert forall|k: int| 0 <= k < batch.len() implies arrow::columns_cells(batch)[k].len() == n
        && (#[trigger] arrow::types_of(T::Columns::schema())[k]
        == arrow::fields_of(T::Columns::schema())[k].data_type) by {
        assert(table::column_matches(batch[k], T::Columns::schema()[k].data_type, n));
        arrow::lemma_column_len(batch[k], T::Columns::schema()[k].data_type, n);
    }
}

/// In a result, every data column of an error row is null, and the two columns at the end hold
/// the file and the error of each row.
pub proof fn law_error_rows_have_no_data<T: Table>(units: Seq<DecodeUnitView>, i: int)
    requires
        0 <= i < table::output_rows::<T::Columns>(units).len(),
        table::output_rows::<T::Columns>(units)[i].data is None,
    ensures
        forall|k: int|
            0 <= k < T::Columns::schema().len() - 2 ==> table::column_is_null(
                #[trigger] table::result_of::<T::Columns>(units)[k],
                i,
            ),
        ({
            let n = T::Columns::schema().len() as int;
            let rows = table::output_rows::<T::Columns>(units);
            let result = table::result_of::<T::Columns>(units);
            &&& result[n - 2] == columns::str_column(Seq::new(rows.len(), |j: int| rows[j].file))
            &&& result[n - 1] == columns::str_column(Seq::new(rows.len(), |j: int| rows[j].error))
        }),
{
    T::Columns::law_error_rows(table::output_rows::<T::Columns>(units), i);
}

/// What is told of the columns of a table names the columns of a result, in order, each with
/// the SQL name of its type.
pub proof fn law_told_columns_are_the_columns<T: Table>(k: int)
    requires
        0 <= k < T::result_columns().len(),
    ensures
        T::result_columns().len() == T::Columns::schema().len(),
        T::result_columns()[k].0 == T::Columns::schema()[k].name,
        T::result_columns()[k].1 == schema::type_text(T::Columns::schema()[k].data_type),
{
    T::law_result_columns_match_schema();
}

/// Every table ends with the columns `file` and `error`.
pub proof fn law_tables_end_alike<T: Table>()
    ensures
        T::Columns::schema().len() >= 2,
        T::Columns::schema().skip(T::Columns::schema().len() - 2)
            == schema::trailing_field_list(),
{
    T::Columns::law_schema_ends_alike();
}

/// What is told of the columns of a result, as the members of JSON objects.
pub open spec fn told_columns<T: Table>() -> Seq<Seq<(Seq<char>, Seq<char>)>> {
    Seq::new(
        T::Columns::schema().len(),
        |k: int|
            seq![
                ("name"@, T::Columns::schema()[k].name),
                ("type"@, schema::type_text(T::Columns::schema()[k].data_type)),
                ("description"@, T::result_columns()[k].2),
            ],
    )
}

/// The tag `vgi.result_columns_schema` of a table is a JSON array with one object per column of
/// a result, in order: its name, the SQL name of its type, and a description.
pub proof fn law_told_columns_read_back<T: Table>()
    ensures
        table::tells(
            T::metadata_value().tags,
            "vgi.result_columns_schema"@,
            meta::result_columns_text(T::result_columns()),
        ),
        laws::meta::read_objects(meta::result_columns_text(T::result_columns())) == Some(
            (told_columns::<T>(), Seq::<char>::empty()),
        ),
{
    let columns = T::result_columns();
    T::law_metadata_is_told();
    T::law_result_columns_match_schema();
    laws::meta::law_result_columns_read_back(columns);
    assert(told_columns::<T>() =~= Seq::new(
        columns.len(),
        |i: int|
            seq![
                ("name"@, columns[i].0),
                ("type"@, columns[i].1),
                ("description"@, columns[i].2),
            ],
    ));
}

/// Descriptions and queries of examples, as the members of JSON objects.
pub open spec fn told_examples(examples: Seq<FunctionExampleView>) -> Seq<
    Seq<(Seq<char>, Seq<char>)>,
> {
    Seq::new(
        examples.len(),
        |i: int| seq![("description"@, examples[i].description), ("sql"@, examples[i].sql)],
    )
}

/// The tag `vgi.example_queries` of a table is a JSON array that holds the description and the
/// query of each of its examples, in order.
pub proof fn law_examples_are_described<T: Table>()
    ensures
        table::tells(
            T::metadata_value().tags,
            "vgi.example_queries"@,
            meta::example_queries_text(T::example_pairs()),
        ),
        laws::meta::read_objects(meta::example_queries_text(T::example_pairs())) == Some(
            (told_examples(T::metadata_value().examples), Seq::<char>::empty()),
        ),
{
    let pairs = T::example_pairs();
    T::law_metadata_is_told();
    T::law_examples_are_plain();
    laws::meta::law_example_queries_read_back(pairs);
    let told = told_examples(meta::examples_of(pairs));
    let read = Seq::new(
        pairs.len(),
        |i: int|
            laws::meta::kept_members(
                seq![("description"@, pairs[i].0), ("sql"@, pairs[i].1)],
                Escaping::Layout,
            ),
    );
    assert forall|i: int| 0 <= i < pairs.len() implies #[trigger] told[i] == read[i] by {
        laws::meta::law_escaping_keeps_the_text(pairs[i].0, Escaping::Layout);
        laws::meta::law_escaping_keeps_the_text(pairs[i].1, Escaping::Layout);
        assert(told[i] =~= read[i]);
    }
    assert(told =~= read);
}

/// Whether objects can be listed under a category.
pub open spec fn is_category(name: Seq<char>) -> bool {
    exists|i: int|
        0 <= i < catalog::category_list().len() && (#[trigger] catalog::category_list()[i]).0
            == name
}

/// Every table is listed under one of the categories of the schema.
pub proof fn law_tables_have_categories()
    ensures
        is_category(stacks::CATEGORY@),
        is_category(samples::CATEGORY@),
        is_category(functions::CATEGORY@),
        is_category(locations::CATEGORY@),
        is_category(mappings::CATEGORY@),
        is_category(meta_table::CATEGORY@),
{
    let categories = catalog::category_list();
    assert(categories[0].0 == stacks::CATEGORY@);
    assert(categories[1].0 == samples::CATEGORY@);
    assert(categories[2].0 == meta_table::CATEGORY@);
}

} // verus!
