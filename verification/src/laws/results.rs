//! Laws of results: which value of a row stands in which column, under which name and with
//! which type.

use arrow_schema::Schema;

use vstd::prelude::*;

use crate::arrow;
use crate::arrow::{ArrowBatch, ArrowType, Cell};
use crate::columns;
use crate::columns::{ColumnView, ScalarColumnView};
use crate::flatten;
use crate::proto::ProfileView;
use crate::rows::{
    FrameView, FunctionRowView, LocationRowView, MappingRowView, MetaView, SampleRowView,
    StackRowView, ValueTypeView,
};
use crate::schema;
use crate::schema::{ColumnFieldView, ColumnTypeView, ScalarFieldView, ScalarType};
use crate::source::DecodeUnitView;
use crate::table;
use crate::table::functions::FunctionColumns;
use crate::table::locations::LocationColumns;
use crate::table::mappings::MappingColumns;
use crate::table::meta_table::MetaColumns;
use crate::table::samples::SampleColumns;
use crate::table::stacks::StackColumns;
use crate::table::{functions, locations, mappings, meta_table, samples, stacks};
use crate::table::{BatchError, Columns, OutputRow};

verus! {

/// What stands in column `k` of row `i` of a result.
pub open spec fn cell_at<C: Columns>(
    rows: Seq<OutputRow<<C::Row as DeepView>::V>>,
    k: int,
    i: int,
) -> Cell {
    arrow::column_cells(C::batch_of(C::columns_of(rows))[k])[i]
}

/// A text, or null.
pub open spec fn text_cell(text: Option<Seq<char>>) -> Cell {
    match text {
        Some(t) => Cell::Utf8(t),
        None => Cell::Null,
    }
}

/// Whether a cell is a frame: function, file, line and address, in this order.
pub open spec fn is_frame_cell(cell: Cell, frame: FrameView) -> bool {
    cell matches Cell::Struct(fields) && fields.len() == 4 && fields[0] == text_cell(
        frame.function,
    ) && fields[1] == text_cell(frame.filename) && fields[2] == (match frame.line {
        Some(line) => Cell::Int64(line),
        None => Cell::Null,
    }) && fields[3] == Cell::UInt64(frame.address)
}

/// Whether a cell is a value type: its type and its unit, in this order.
pub open spec fn is_value_type_cell(cell: Cell, value_type: ValueTypeView) -> bool {
    cell matches Cell::Struct(fields) && fields.len() == 2 && fields[0] == Cell::Utf8(
        value_type.type_,
    ) && fields[1] == Cell::Utf8(value_type.unit)
}

/// Whether a column has a type without parts.
pub open spec fn is_scalar(data_type: ColumnTypeView, scalar: ScalarType) -> bool {
    data_type == ColumnTypeView::Scalar(scalar)
}

/// Whether a field of a struct has a name and a type, and may be null.
pub open spec fn is_field(f: ScalarFieldView, name: Seq<char>, scalar: ScalarType) -> bool {
    f.name == name && f.data_type == scalar && f.nullable
}

/// Whether fields are those of a frame.
pub open spec fn are_frame_fields(fields: Seq<ScalarFieldView>) -> bool {
    &&& fields.len() == 4
    &&& is_field(fields[0], "function"@, ScalarType::Utf8)
    &&& is_field(fields[1], "filename"@, ScalarType::Utf8)
    &&& is_field(fields[2], "line"@, ScalarType::Int64)
    &&& is_field(fields[3], "address"@, ScalarType::UInt64)
}

/// Whether fields are those of a line.
pub open spec fn are_line_fields(fields: Seq<ScalarFieldView>) -> bool {
    &&& fields.len() == 2
    &&& is_field(fields[0], "function_id"@, ScalarType::UInt64)
    &&& is_field(fields[1], "line"@, ScalarType::Int64)
}

/// Whether fields are those of a value type.
pub open spec fn are_value_type_fields(fields: Seq<ScalarFieldView>) -> bool {
    &&& fields.len() == 2
    &&& is_field(fields[0], "type"@, ScalarType::Utf8)
    &&& is_field(fields[1], "unit"@, ScalarType::Utf8)
}

/// Whether fields are those of an entry of a map, whose key is never null.
pub open spec fn are_entry_fields(fields: Seq<ScalarFieldView>) -> bool {
    &&& fields.len() == 2
    &&& fields[0].name == "key"@
    &&& fields[0].data_type == ScalarType::Utf8
    &&& !fields[0].nullable
    &&& is_field(fields[1], "value"@, ScalarType::Utf8)
}

/// One source gives its own rows, and no source gives none.
pub proof fn law_one_source_gives_its_rows<C: Columns>(unit: DecodeUnitView)
    ensures
        table::output_rows::<C>(seq![]).len() == 0,
        table::output_rows::<C>(seq![unit]) == table::unit_rows::<C>(unit),
{
    assert(seq![unit].drop_last() =~= seq![]);
    assert(table::output_rows::<C>(seq![unit].drop_last()).len() == 0);
    assert(table::output_rows::<C>(seq![unit]) =~= table::unit_rows::<C>(unit));
}

/// The result of the stacks table has these columns, in this order, and its rows are those of the
/// profile.
pub proof fn law_stacks_has_its_columns(p: ProfileView)
    ensures
        StackColumns::data_rows(p) == flatten::stack_rows(p),
        StackColumns::schema().len() == 6,
        ({
            let f = StackColumns::schema()[0];
            f.name == "sample_id"@ && f.comment == stacks::SAMPLE_ID_COMMENT@ && (
                is_scalar(f.data_type, ScalarType::Int64)
            )
        }),
        ({
            let f = StackColumns::schema()[1];
            f.name == "value"@ && f.comment == stacks::VALUE_COMMENT@ && (
                f.data_type == ColumnTypeView::List(ScalarType::Int64)
            )
        }),
        ({
            let f = StackColumns::schema()[2];
            f.name == "labels"@ && f.comment == stacks::LABELS_COMMENT@ && (
                f.data_type matches ColumnTypeView::TextMap(fields) && are_entry_fields(fields)
            )
        }),
        ({
            let f = StackColumns::schema()[3];
            f.name == "frame"@ && f.comment == stacks::FRAME_COMMENT@ && (
                f.data_type matches ColumnTypeView::ListStruct(fields) && are_frame_fields(fields)
            )
        }),
        ({
            let f = StackColumns::schema()[4];
            f.name == "file"@ && f.comment == schema::FILE_COMMENT@ && is_scalar(
                f.data_type,
                ScalarType::Utf8,
            )
        }),
        ({
            let f = StackColumns::schema()[5];
            f.name == "error"@ && f.comment == schema::ERROR_COMMENT@ && is_scalar(
                f.data_type,
                ScalarType::Utf8,
            )
        }),
{
}

/// Every column of the stacks table holds the value of the row that its name says, also in an error
/// row, where nothing but the file and the error is known.
pub proof fn law_stacks_columns_hold_their_values(rows: Seq<OutputRow<StackRowView>>, i: int)
    requires
        StackColumns::columns_fit(StackColumns::columns_of(rows)),
        0 <= i < rows.len(),
    ensures
        rows[i].data matches Some(data) ==> (
            cell_at::<StackColumns>(rows, 0, i) == Cell::Int64(data.sample_id)
        ),
        rows[i].data matches Some(data) ==> (
            cell_at::<StackColumns>(rows, 1, i) matches Cell::List(items)
                && items.len() == data.value.len() && (
                forall|j: int|
                    0 <= j < items.len() ==> #[trigger] items[j] == Cell::Int64(data.value[j])
            )
        ),
        rows[i].data matches Some(data) ==> (
            cell_at::<StackColumns>(rows, 2, i) matches Cell::Entries(items)
                && items.len() == data.labels.len() && (
                forall|j: int| 0 <= j < items.len() ==> #[trigger] items[j] == Cell::Struct(
                    seq![Cell::Utf8(data.labels[j].0), Cell::Utf8(data.labels[j].1)],
                )
            )
        ),
        rows[i].data matches Some(data) ==> (
            cell_at::<StackColumns>(rows, 3, i) matches Cell::List(items)
                && items.len() == data.frames.len() && (
                forall|j: int| 0 <= j < items.len() ==> is_frame_cell(
                    #[trigger] items[j],
                    data.frames[j],
                )
            )
        ),
        rows[i].data is None ==> {
            &&& cell_at::<StackColumns>(rows, 0, i) is Null
            &&& cell_at::<StackColumns>(rows, 1, i) is Null
            &&& cell_at::<StackColumns>(rows, 2, i) is Null
            &&& cell_at::<StackColumns>(rows, 3, i) is Null
        },
        cell_at::<StackColumns>(rows, 4, i) == text_cell(rows[i].file),
        cell_at::<StackColumns>(rows, 5, i) == text_cell(rows[i].error),
{
    let row = StackColumns::row_cells(rows[i]);
    StackColumns::law_batch_holds_rows(rows, i);
    assert(forall|k: int| 0 <= k < 6 ==> cell_at::<StackColumns>(rows, k, i) == #[trigger] row[k]);
    assert(row.len() == 6);
    assert(cell_at::<StackColumns>(rows, 0, i) == row[0]);
    assert(cell_at::<StackColumns>(rows, 1, i) == row[1]);
    assert(cell_at::<StackColumns>(rows, 2, i) == row[2]);
    assert(cell_at::<StackColumns>(rows, 3, i) == row[3]);
    assert(cell_at::<StackColumns>(rows, 4, i) == row[4]);
    assert(cell_at::<StackColumns>(rows, 5, i) == row[5]);
}

/// The result of the stacks table can be laid out exactly where offsets of 32 bits can count the
/// items of each list column.
pub proof fn law_stacks_fits_by_its_items(rows: Seq<OutputRow<StackRowView>>)
    ensures
        StackColumns::columns_fit(StackColumns::columns_of(rows)) <==> {
            &&& item_count(Seq::new(rows.len(), |i: int| match rows[i].data {
                Some(data) => data.value.len(),
                None => 0,
            })) <= i32::MAX
            &&& item_count(Seq::new(rows.len(), |i: int| match rows[i].data {
                Some(data) => data.labels.len(),
                None => 0,
            })) <= i32::MAX
            &&& item_count(Seq::new(rows.len(), |i: int| match rows[i].data {
                Some(data) => data.frames.len(),
                None => 0,
            })) <= i32::MAX
        },
{
    lemma_item_count(
        columns::row_counts(StackColumns::columns_of(rows).value),
        Seq::new(rows.len(), |i: int| match rows[i].data {
            Some(data) => data.value.len(),
            None => 0,
        }),
    );
    lemma_item_count(
        columns::row_counts(StackColumns::columns_of(rows).labels),
        Seq::new(rows.len(), |i: int| match rows[i].data {
            Some(data) => data.labels.len(),
            None => 0,
        }),
    );
    lemma_item_count(
        columns::row_counts(StackColumns::columns_of(rows).frame),
        Seq::new(rows.len(), |i: int| match rows[i].data {
            Some(data) => data.frames.len(),
            None => 0,
        }),
    );
}

/// The result of the samples table has these columns, in this order, and its rows are those of the
/// profile.
pub proof fn law_samples_has_its_columns(p: ProfileView)
    ensures
        SampleColumns::data_rows(p) == flatten::sample_rows(p),
        SampleColumns::schema().len() == 6,
        ({
            let f = SampleColumns::schema()[0];
            f.name == "sample_id"@ && f.comment == samples::SAMPLE_ID_COMMENT@ && (
                is_scalar(f.data_type, ScalarType::Int64)
            )
        }),
        ({
            let f = SampleColumns::schema()[1];
            f.name == "location_ids"@ && f.comment == samples::LOCATION_IDS_COMMENT@ && (
                f.data_type == ColumnTypeView::List(ScalarType::UInt64)
            )
        }),
        ({
            let f = SampleColumns::schema()[2];
            f.name == "value"@ && f.comment == samples::VALUE_COMMENT@ && (
                f.data_type == ColumnTypeView::List(ScalarType::Int64)
            )
        }),
        ({
            let f = SampleColumns::schema()[3];
            f.name == "labels"@ && f.comment == samples::LABELS_COMMENT@ && (
                f.data_type matches ColumnTypeView::TextMap(fields) && are_entry_fields(fields)
            )
        }),
        ({
            let f = SampleColumns::schema()[4];
            f.name == "file"@ && f.comment == schema::FILE_COMMENT@ && is_scalar(
                f.data_type,
                ScalarType::Utf8,
            )
        }),
        ({
            let f = SampleColumns::schema()[5];
            f.name == "error"@ && f.comment == schema::ERROR_COMMENT@ && is_scalar(
                f.data_type,
                ScalarType::Utf8,
            )
        }),
{
}

/// Every column of the samples table holds the value of the row that its name says, also in an
/// error row, where nothing but the file and the error is known.
pub proof fn law_samples_columns_hold_their_values(rows: Seq<OutputRow<SampleRowView>>, i: int)
    requires
        SampleColumns::columns_fit(SampleColumns::columns_of(rows)),
        0 <= i < rows.len(),
    ensures
        rows[i].data matches Some(data) ==> (
            cell_at::<SampleColumns>(rows, 0, i) == Cell::Int64(data.sample_id)
        ),
        rows[i].data matches Some(data) ==> (
            cell_at::<SampleColumns>(rows, 1, i) matches Cell::List(items)
                && items.len() == data.location_ids.len() && (
                forall|j: int| 0 <= j < items.len() ==> #[trigger] items[j] == Cell::UInt64(
                    data.location_ids[j],
                )
            )
        ),
        rows[i].data matches Some(data) ==> (
            cell_at::<SampleColumns>(rows, 2, i) matches Cell::List(items)
                && items.len() == data.value.len() && (
                forall|j: int|
                    0 <= j < items.len() ==> #[trigger] items[j] == Cell::Int64(data.value[j])
            )
        ),
        rows[i].data matches Some(data) ==> (
            cell_at::<SampleColumns>(rows, 3, i) matches Cell::Entries(items)
                && items.len() == data.labels.len() && (
                forall|j: int| 0 <= j < items.len() ==> #[trigger] items[j] == Cell::Struct(
                    seq![Cell::Utf8(data.labels[j].0), Cell::Utf8(data.labels[j].1)],
                )
            )
        ),
        rows[i].data is None ==> {
            &&& cell_at::<SampleColumns>(rows, 0, i) is Null
            &&& cell_at::<SampleColumns>(rows, 1, i) is Null
            &&& cell_at::<SampleColumns>(rows, 2, i) is Null
            &&& cell_at::<SampleColumns>(rows, 3, i) is Null
        },
        cell_at::<SampleColumns>(rows, 4, i) == text_cell(rows[i].file),
        cell_at::<SampleColumns>(rows, 5, i) == text_cell(rows[i].error),
{
    let row = SampleColumns::row_cells(rows[i]);
    SampleColumns::law_batch_holds_rows(rows, i);
    assert(forall|k: int| 0 <= k < 6 ==> cell_at::<SampleColumns>(rows, k, i) == #[trigger] row[k]);
    assert(row.len() == 6);
    assert(cell_at::<SampleColumns>(rows, 0, i) == row[0]);
    assert(cell_at::<SampleColumns>(rows, 1, i) == row[1]);
    assert(cell_at::<SampleColumns>(rows, 2, i) == row[2]);
    assert(cell_at::<SampleColumns>(rows, 3, i) == row[3]);
    assert(cell_at::<SampleColumns>(rows, 4, i) == row[4]);
    assert(cell_at::<SampleColumns>(rows, 5, i) == row[5]);
}

/// The result of the samples table can be laid out exactly where offsets of 32 bits can count the
/// items of each list column.
pub proof fn law_samples_fits_by_its_items(rows: Seq<OutputRow<SampleRowView>>)
    ensures
        SampleColumns::columns_fit(SampleColumns::columns_of(rows)) <==> {
            &&& item_count(Seq::new(rows.len(), |i: int| match rows[i].data {
                Some(data) => data.location_ids.len(),
                None => 0,
            })) <= i32::MAX
            &&& item_count(Seq::new(rows.len(), |i: int| match rows[i].data {
                Some(data) => data.value.len(),
                None => 0,
            })) <= i32::MAX
            &&& item_count(Seq::new(rows.len(), |i: int| match rows[i].data {
                Some(data) => data.labels.len(),
                None => 0,
            })) <= i32::MAX
        },
{
    lemma_item_count(
        columns::row_counts(SampleColumns::columns_of(rows).location_ids),
        Seq::new(rows.len(), |i: int| match rows[i].data {
            Some(data) => data.location_ids.len(),
            None => 0,
        }),
    );
    lemma_item_count(
        columns::row_counts(SampleColumns::columns_of(rows).value),
        Seq::new(rows.len(), |i: int| match rows[i].data {
            Some(data) => data.value.len(),
            None => 0,
        }),
    );
    lemma_item_count(
        columns::row_counts(SampleColumns::columns_of(rows).labels),
        Seq::new(rows.len(), |i: int| match rows[i].data {
            Some(data) => data.labels.len(),
            None => 0,
        }),
    );
}

/// The result of the functions table has these columns, in this order, and its rows are those of
/// the profile.
pub proof fn law_functions_has_its_columns(p: ProfileView)
    ensures
        FunctionColumns::data_rows(p) == flatten::function_rows(p),
        FunctionColumns::schema().len() == 7,
        ({
            let f = FunctionColumns::schema()[0];
            f.name == "function_id"@ && f.comment == functions::FUNCTION_ID_COMMENT@ && (
                is_scalar(f.data_type, ScalarType::UInt64)
            )
        }),
        ({
            let f = FunctionColumns::schema()[1];
            f.name == "name"@ && f.comment == functions::NAME_COMMENT@ && (
                is_scalar(f.data_type, ScalarType::Utf8)
            )
        }),
        ({
            let f = FunctionColumns::schema()[2];
            f.name == "system_name"@ && f.comment == functions::SYSTEM_NAME_COMMENT@ && (
                is_scalar(f.data_type, ScalarType::Utf8)
            )
        }),
        ({
            let f = FunctionColumns::schema()[3];
            f.name == "filename"@ && f.comment == functions::FILENAME_COMMENT@ && (
                is_scalar(f.data_type, ScalarType::Utf8)
            )
        }),
        ({
            let f = FunctionColumns::schema()[4];
            f.name == "start_line"@ && f.comment == functions::START_LINE_COMMENT@ && (
                is_scalar(f.data_type, ScalarType::Int64)
            )
        }),
        ({
            let f = FunctionColumns::schema()[5];
            f.name == "file"@ && f.comment == schema::FILE_COMMENT@ && is_scalar(
                f.data_type,
                ScalarType::Utf8,
            )
        }),
        ({
            let f = FunctionColumns::schema()[6];
            f.name == "error"@ && f.comment == schema::ERROR_COMMENT@ && is_scalar(
                f.data_type,
                ScalarType::Utf8,
            )
        }),
{
}

/// Every column of the functions table holds the value of the row that its name says, also in an
/// error row, where nothing but the file and the error is known.
pub proof fn law_functions_columns_hold_their_values(rows: Seq<OutputRow<FunctionRowView>>, i: int)
    requires
        FunctionColumns::columns_fit(FunctionColumns::columns_of(rows)),
        0 <= i < rows.len(),
    ensures
        rows[i].data matches Some(data) ==> (
            cell_at::<FunctionColumns>(rows, 0, i) == Cell::UInt64(data.function_id)
        ),
        rows[i].data matches Some(data) ==> (
            cell_at::<FunctionColumns>(rows, 1, i) == text_cell(data.name)
        ),
        rows[i].data matches Some(data) ==> (
            cell_at::<FunctionColumns>(rows, 2, i) == text_cell(data.system_name)
        ),
        rows[i].data matches Some(data) ==> (
            cell_at::<FunctionColumns>(rows, 3, i) == text_cell(data.filename)
        ),
        rows[i].data matches Some(data) ==> (
            cell_at::<FunctionColumns>(rows, 4, i) == Cell::Int64(data.start_line)
        ),
        rows[i].data is None ==> {
            &&& cell_at::<FunctionColumns>(rows, 0, i) is Null
            &&& cell_at::<FunctionColumns>(rows, 1, i) is Null
            &&& cell_at::<FunctionColumns>(rows, 2, i) is Null
            &&& cell_at::<FunctionColumns>(rows, 3, i) is Null
            &&& cell_at::<FunctionColumns>(rows, 4, i) is Null
        },
        cell_at::<FunctionColumns>(rows, 5, i) == text_cell(rows[i].file),
        cell_at::<FunctionColumns>(rows, 6, i) == text_cell(rows[i].error),
{
    let row = FunctionColumns::row_cells(rows[i]);
    FunctionColumns::law_batch_holds_rows(rows, i);
    assert(forall|k: int| 0 <= k < 7 ==> cell_at::<FunctionColumns>(rows, k, i)
        == #[trigger] row[k]);
    assert(row.len() == 7);
    assert(cell_at::<FunctionColumns>(rows, 0, i) == row[0]);
    assert(cell_at::<FunctionColumns>(rows, 1, i) == row[1]);
    assert(cell_at::<FunctionColumns>(rows, 2, i) == row[2]);
    assert(cell_at::<FunctionColumns>(rows, 3, i) == row[3]);
    assert(cell_at::<FunctionColumns>(rows, 4, i) == row[4]);
    assert(cell_at::<FunctionColumns>(rows, 5, i) == row[5]);
    assert(cell_at::<FunctionColumns>(rows, 6, i) == row[6]);
}

/// The result of the functions table can always be laid out: it has no list columns.
pub proof fn law_functions_always_fits(rows: Seq<OutputRow<FunctionRowView>>)
    ensures
        FunctionColumns::columns_fit(FunctionColumns::columns_of(rows)),
{
}

/// The result of the locations table has these columns, in this order, and its rows are those of
/// the profile.
pub proof fn law_locations_has_its_columns(p: ProfileView)
    ensures
        LocationColumns::data_rows(p) == flatten::location_rows(p),
        LocationColumns::schema().len() == 6,
        ({
            let f = LocationColumns::schema()[0];
            f.name == "location_id"@ && f.comment == locations::LOCATION_ID_COMMENT@ && (
                is_scalar(f.data_type, ScalarType::UInt64)
            )
        }),
        ({
            let f = LocationColumns::schema()[1];
            f.name == "address"@ && f.comment == locations::ADDRESS_COMMENT@ && (
                is_scalar(f.data_type, ScalarType::UInt64)
            )
        }),
        ({
            let f = LocationColumns::schema()[2];
            f.name == "mapping_id"@ && f.comment == locations::MAPPING_ID_COMMENT@ && (
                is_scalar(f.data_type, ScalarType::UInt64)
            )
        }),
        ({
            let f = LocationColumns::schema()[3];
            f.name == "lines"@ && f.comment == locations::LINES_COMMENT@ && (
                f.data_type matches ColumnTypeView::ListStruct(fields) && are_line_fields(fields)
            )
        }),
        ({
            let f = LocationColumns::schema()[4];
            f.name == "file"@ && f.comment == schema::FILE_COMMENT@ && is_scalar(
                f.data_type,
                ScalarType::Utf8,
            )
        }),
        ({
            let f = LocationColumns::schema()[5];
            f.name == "error"@ && f.comment == schema::ERROR_COMMENT@ && is_scalar(
                f.data_type,
                ScalarType::Utf8,
            )
        }),
{
}

/// Every column of the locations table holds the value of the row that its name says, also in an
/// error row, where nothing but the file and the error is known.
pub proof fn law_locations_columns_hold_their_values(rows: Seq<OutputRow<LocationRowView>>, i: int)
    requires
        LocationColumns::columns_fit(LocationColumns::columns_of(rows)),
        0 <= i < rows.len(),
    ensures
        rows[i].data matches Some(data) ==> (
            cell_at::<LocationColumns>(rows, 0, i) == Cell::UInt64(data.location_id)
        ),
        rows[i].data matches Some(data) ==> (
            cell_at::<LocationColumns>(rows, 1, i) == Cell::UInt64(data.address)
        ),
        rows[i].data matches Some(data) ==> (
            cell_at::<LocationColumns>(rows, 2, i) == Cell::UInt64(data.mapping_id)
        ),
        rows[i].data matches Some(data) ==> (
            cell_at::<LocationColumns>(rows, 3, i) matches Cell::List(items)
                && items.len() == data.lines.len() && (
                forall|j: int| 0 <= j < items.len() ==> #[trigger] items[j] == Cell::Struct(
                    seq![Cell::UInt64(data.lines[j].function_id), Cell::Int64(data.lines[j].line)],
                )
            )
        ),
        rows[i].data is None ==> {
            &&& cell_at::<LocationColumns>(rows, 0, i) is Null
            &&& cell_at::<LocationColumns>(rows, 1, i) is Null
            &&& cell_at::<LocationColumns>(rows, 2, i) is Null
            &&& cell_at::<LocationColumns>(rows, 3, i) is Null
        },
        cell_at::<LocationColumns>(rows, 4, i) == text_cell(rows[i].file),
        cell_at::<LocationColumns>(rows, 5, i) == text_cell(rows[i].error),
{
    let row = LocationColumns::row_cells(rows[i]);
    LocationColumns::law_batch_holds_rows(rows, i);
    assert(forall|k: int| 0 <= k < 6 ==> cell_at::<LocationColumns>(rows, k, i)
        == #[trigger] row[k]);
    assert(row.len() == 6);
    assert(cell_at::<LocationColumns>(rows, 0, i) == row[0]);
    assert(cell_at::<LocationColumns>(rows, 1, i) == row[1]);
    assert(cell_at::<LocationColumns>(rows, 2, i) == row[2]);
    assert(cell_at::<LocationColumns>(rows, 3, i) == row[3]);
    assert(cell_at::<LocationColumns>(rows, 4, i) == row[4]);
    assert(cell_at::<LocationColumns>(rows, 5, i) == row[5]);
}

/// The result of the locations table can be laid out exactly where offsets of 32 bits can count the
/// items of each list column.
pub proof fn law_locations_fits_by_its_items(rows: Seq<OutputRow<LocationRowView>>)
    ensures
        LocationColumns::columns_fit(LocationColumns::columns_of(rows)) <==> {
            &&& item_count(Seq::new(rows.len(), |i: int| match rows[i].data {
                Some(data) => data.lines.len(),
                None => 0,
            })) <= i32::MAX
        },
{
    lemma_item_count(
        columns::row_counts(LocationColumns::columns_of(rows).lines),
        Seq::new(rows.len(), |i: int| match rows[i].data {
            Some(data) => data.lines.len(),
            None => 0,
        }),
    );
}

/// The result of the mappings table has these columns, in this order, and its rows are those of the
/// profile.
pub proof fn law_mappings_has_its_columns(p: ProfileView)
    ensures
        MappingColumns::data_rows(p) == flatten::mapping_rows(p),
        MappingColumns::schema().len() == 8,
        ({
            let f = MappingColumns::schema()[0];
            f.name == "mapping_id"@ && f.comment == mappings::MAPPING_ID_COMMENT@ && (
                is_scalar(f.data_type, ScalarType::UInt64)
            )
        }),
        ({
            let f = MappingColumns::schema()[1];
            f.name == "memory_start"@ && f.comment == mappings::MEMORY_START_COMMENT@ && (
                is_scalar(f.data_type, ScalarType::UInt64)
            )
        }),
        ({
            let f = MappingColumns::schema()[2];
            f.name == "memory_limit"@ && f.comment == mappings::MEMORY_LIMIT_COMMENT@ && (
                is_scalar(f.data_type, ScalarType::UInt64)
            )
        }),
        ({
            let f = MappingColumns::schema()[3];
            f.name == "file_offset"@ && f.comment == mappings::FILE_OFFSET_COMMENT@ && (
                is_scalar(f.data_type, ScalarType::UInt64)
            )
        }),
        ({
            let f = MappingColumns::schema()[4];
            f.name == "filename"@ && f.comment == mappings::FILENAME_COMMENT@ && (
                is_scalar(f.data_type, ScalarType::Utf8)
            )
        }),
        ({
            let f = MappingColumns::schema()[5];
            f.name == "build_id"@ && f.comment == mappings::BUILD_ID_COMMENT@ && (
                is_scalar(f.data_type, ScalarType::Utf8)
            )
        }),
        ({
            let f = MappingColumns::schema()[6];
            f.name == "file"@ && f.comment == schema::FILE_COMMENT@ && is_scalar(
                f.data_type,
                ScalarType::Utf8,
            )
        }),
        ({
            let f = MappingColumns::schema()[7];
            f.name == "error"@ && f.comment == schema::ERROR_COMMENT@ && is_scalar(
                f.data_type,
                ScalarType::Utf8,
            )
        }),
{
}

/// Every column of the mappings table holds the value of the row that its name says, also in an
/// error row, where nothing but the file and the error is known.
pub proof fn law_mappings_columns_hold_their_values(rows: Seq<OutputRow<MappingRowView>>, i: int)
    requires
        MappingColumns::columns_fit(MappingColumns::columns_of(rows)),
        0 <= i < rows.len(),
    ensures
        rows[i].data matches Some(data) ==> (
            cell_at::<MappingColumns>(rows, 0, i) == Cell::UInt64(data.mapping_id)
        ),
        rows[i].data matches Some(data) ==> (
            cell_at::<MappingColumns>(rows, 1, i) == Cell::UInt64(data.memory_start)
        ),
        rows[i].data matches Some(data) ==> (
            cell_at::<MappingColumns>(rows, 2, i) == Cell::UInt64(data.memory_limit)
        ),
        rows[i].data matches Some(data) ==> (
            cell_at::<MappingColumns>(rows, 3, i) == Cell::UInt64(data.file_offset)
        ),
        rows[i].data matches Some(data) ==> (
            cell_at::<MappingColumns>(rows, 4, i) == text_cell(data.filename)
        ),
        rows[i].data matches Some(data) ==> (
            cell_at::<MappingColumns>(rows, 5, i) == text_cell(data.build_id)
        ),
        rows[i].data is None ==> {
            &&& cell_at::<MappingColumns>(rows, 0, i) is Null
            &&& cell_at::<MappingColumns>(rows, 1, i) is Null
            &&& cell_at::<MappingColumns>(rows, 2, i) is Null
            &&& cell_at::<MappingColumns>(rows, 3, i) is Null
            &&& cell_at::<MappingColumns>(rows, 4, i) is Null
            &&& cell_at::<MappingColumns>(rows, 5, i) is Null
        },
        cell_at::<MappingColumns>(rows, 6, i) == text_cell(rows[i].file),
        cell_at::<MappingColumns>(rows, 7, i) == text_cell(rows[i].error),
{
    let row = MappingColumns::row_cells(rows[i]);
    MappingColumns::law_batch_holds_rows(rows, i);
    assert(forall|k: int| 0 <= k < 8 ==> cell_at::<MappingColumns>(rows, k, i)
        == #[trigger] row[k]);
    assert(row.len() == 8);
    assert(cell_at::<MappingColumns>(rows, 0, i) == row[0]);
    assert(cell_at::<MappingColumns>(rows, 1, i) == row[1]);
    assert(cell_at::<MappingColumns>(rows, 2, i) == row[2]);
    assert(cell_at::<MappingColumns>(rows, 3, i) == row[3]);
    assert(cell_at::<MappingColumns>(rows, 4, i) == row[4]);
    assert(cell_at::<MappingColumns>(rows, 5, i) == row[5]);
    assert(cell_at::<MappingColumns>(rows, 6, i) == row[6]);
    assert(cell_at::<MappingColumns>(rows, 7, i) == row[7]);
}

/// The result of the mappings table can always be laid out: it has no list columns.
pub proof fn law_mappings_always_fits(rows: Seq<OutputRow<MappingRowView>>)
    ensures
        MappingColumns::columns_fit(MappingColumns::columns_of(rows)),
{
}

/// The result of the metadata table has these columns, in this order, and its rows are those of the
/// profile.
pub proof fn law_metadata_has_its_columns(p: ProfileView)
    ensures
        MetaColumns::data_rows(p) == seq![flatten::meta_of(p)],
        MetaColumns::schema().len() == 8,
        ({
            let f = MetaColumns::schema()[0];
            f.name == "sample_types"@ && f.comment == meta_table::SAMPLE_TYPES_COMMENT@ && (
                f.data_type matches ColumnTypeView::ListStruct(fields)
                    && are_value_type_fields(fields)
            )
        }),
        ({
            let f = MetaColumns::schema()[1];
            f.name == "period"@ && f.comment == meta_table::PERIOD_COMMENT@ && (
                is_scalar(f.data_type, ScalarType::Int64)
            )
        }),
        ({
            let f = MetaColumns::schema()[2];
            f.name == "period_type"@ && f.comment == meta_table::PERIOD_TYPE_COMMENT@ && (
                f.data_type matches ColumnTypeView::Struct(fields) && are_value_type_fields(fields)
            )
        }),
        ({
            let f = MetaColumns::schema()[3];
            f.name == "duration_nanos"@ && f.comment == meta_table::DURATION_NANOS_COMMENT@ && (
                is_scalar(f.data_type, ScalarType::Int64)
            )
        }),
        ({
            let f = MetaColumns::schema()[4];
            f.name == "time_nanos"@ && f.comment == meta_table::TIME_NANOS_COMMENT@ && (
                is_scalar(f.data_type, ScalarType::Int64)
            )
        }),
        ({
            let f = MetaColumns::schema()[5];
            f.name == "default_sample_type"@
                && f.comment == meta_table::DEFAULT_SAMPLE_TYPE_COMMENT@ && (
                is_scalar(f.data_type, ScalarType::Utf8)
            )
        }),
        ({
            let f = MetaColumns::schema()[6];
            f.name == "file"@ && f.comment == schema::FILE_COMMENT@ && is_scalar(
                f.data_type,
                ScalarType::Utf8,
            )
        }),
        ({
            let f = MetaColumns::schema()[7];
            f.name == "error"@ && f.comment == schema::ERROR_COMMENT@ && is_scalar(
                f.data_type,
                ScalarType::Utf8,
            )
        }),
{
}

/// Every column of the metadata table holds the value of the row that its name says, also in an
/// error row, where nothing but the file and the error is known.
pub proof fn law_metadata_columns_hold_their_values(rows: Seq<OutputRow<MetaView>>, i: int)
    requires
        MetaColumns::columns_fit(MetaColumns::columns_of(rows)),
        0 <= i < rows.len(),
    ensures
        rows[i].data matches Some(data) ==> (
            cell_at::<MetaColumns>(rows, 0, i) matches Cell::List(items)
                && items.len() == data.sample_types.len() && (
                forall|j: int| 0 <= j < items.len() ==> is_value_type_cell(
                    #[trigger] items[j],
                    data.sample_types[j],
                )
            )
        ),
        rows[i].data matches Some(data) ==> (
            cell_at::<MetaColumns>(rows, 1, i) == Cell::Int64(data.period)
        ),
        rows[i].data matches Some(data) ==> (
            match data.period_type { Some(value_type) => is_value_type_cell(
                cell_at::<MetaColumns>(rows, 2, i),
                value_type,
            ), None => cell_at::<MetaColumns>(rows, 2, i) is Null }
        ),
        rows[i].data matches Some(data) ==> (
            cell_at::<MetaColumns>(rows, 3, i) == Cell::Int64(data.duration_nanos)
        ),
        rows[i].data matches Some(data) ==> (
            cell_at::<MetaColumns>(rows, 4, i) == Cell::Int64(data.time_nanos)
        ),
        rows[i].data matches Some(data) ==> (
            cell_at::<MetaColumns>(rows, 5, i) == text_cell(data.default_sample_type)
        ),
        rows[i].data is None ==> {
            &&& cell_at::<MetaColumns>(rows, 0, i) is Null
            &&& cell_at::<MetaColumns>(rows, 1, i) is Null
            &&& cell_at::<MetaColumns>(rows, 2, i) is Null
            &&& cell_at::<MetaColumns>(rows, 3, i) is Null
            &&& cell_at::<MetaColumns>(rows, 4, i) is Null
            &&& cell_at::<MetaColumns>(rows, 5, i) is Null
        },
        cell_at::<MetaColumns>(rows, 6, i) == text_cell(rows[i].file),
        cell_at::<MetaColumns>(rows, 7, i) == text_cell(rows[i].error),
{
    let row = MetaColumns::row_cells(rows[i]);
    MetaColumns::law_batch_holds_rows(rows, i);
    assert(forall|k: int| 0 <= k < 8 ==> cell_at::<MetaColumns>(rows, k, i) == #[trigger] row[k]);
    assert(row.len() == 8);
    assert(cell_at::<MetaColumns>(rows, 0, i) == row[0]);
    assert(cell_at::<MetaColumns>(rows, 1, i) == row[1]);
    assert(cell_at::<MetaColumns>(rows, 2, i) == row[2]);
    assert(cell_at::<MetaColumns>(rows, 3, i) == row[3]);
    assert(cell_at::<MetaColumns>(rows, 4, i) == row[4]);
    assert(cell_at::<MetaColumns>(rows, 5, i) == row[5]);
    assert(cell_at::<MetaColumns>(rows, 6, i) == row[6]);
    assert(cell_at::<MetaColumns>(rows, 7, i) == row[7]);
}

/// The result of the metadata table can be laid out exactly where offsets of 32 bits can count the
/// items of each list column.
pub proof fn law_metadata_fits_by_its_items(rows: Seq<OutputRow<MetaView>>)
    ensures
        MetaColumns::columns_fit(MetaColumns::columns_of(rows)) <==> {
            &&& item_count(Seq::new(rows.len(), |i: int| match rows[i].data {
                Some(data) => data.sample_types.len(),
                None => 0,
            })) <= i32::MAX
        },
{
    lemma_item_count(
        columns::row_counts(MetaColumns::columns_of(rows).sample_types),
        Seq::new(rows.len(), |i: int| match rows[i].data {
            Some(data) => data.sample_types.len(),
            None => 0,
        }),
    );
}

/// The sum of the numbers of bytes of all texts in UTF-8.
pub open spec fn byte_count(texts: Seq<Option<Seq<char>>>) -> nat
    decreases texts.len(),
{
    if texts.len() == 0 {
        0
    } else {
        byte_count(texts.drop_first()) + match texts.first() {
            Some(t) => vstd::utf8::encode_utf8(t).len(),
            None => 0,
        }
    }
}

/// A column of texts can be laid out exactly where offsets of 32 bits can count its bytes, and a
/// column of numbers always can.
pub proof fn law_texts_fit_by_their_bytes(texts: Seq<Option<Seq<char>>>, column: ScalarColumnView)
    ensures
        arrow::scalar_fits(ScalarColumnView::Utf8(texts)) <==> byte_count(texts) <= i32::MAX,
        !(column is Utf8) ==> arrow::scalar_fits(column),
{
    lemma_byte_count(texts);
}

proof fn lemma_byte_count(texts: Seq<Option<Seq<char>>>)
    ensures
        arrow::text_bytes(texts) == byte_count(texts),
    decreases texts.len(),
{
    if texts.len() == 1 {
        assert(texts.drop_last() =~= texts.drop_first());
        lemma_byte_count(texts.drop_last());
    } else if texts.len() > 1 {
        let inner = texts.drop_first().drop_last();
        assert(texts.drop_last().drop_first() =~= inner);
        lemma_byte_count(texts.drop_last());
        lemma_byte_count(texts.drop_first());
        lemma_byte_count(inner);
    }
}

/// A column can be laid out where all the texts in it can: its own, its items' or those of its
/// fields.
pub proof fn law_columns_fit_by_their_texts(column: ColumnView)
    ensures
        arrow::column_fits(column) <==> match column {
            ColumnView::Scalar(values) => arrow::scalar_fits(values),
            ColumnView::List(_, items) => arrow::scalar_fits(items),
            ColumnView::Struct(parts, _) => forall|k: int|
                0 <= k < parts.len() ==> arrow::scalar_fits(#[trigger] parts[k]),
            ColumnView::ListStruct(_, parts) => forall|k: int|
                0 <= k < parts.len() ==> arrow::scalar_fits(#[trigger] parts[k]),
            ColumnView::TextMap(_, parts) => forall|k: int|
                0 <= k < parts.len() ==> arrow::scalar_fits(#[trigger] parts[k]),
        },
{
}

/// What becomes of sources is a batch wherever their rows can be laid out and the schema
/// declares the columns. The batch has that schema, one column per column of the table, one row
/// per row of the sources, and what the laws of each table say in every place.
pub proof fn law_batches_hold_the_rows<C: Columns>(
    res: Result<ArrowBatch, BatchError>,
    schema: Schema,
    units: Seq<DecodeUnitView>,
)
    requires
        table::is_batch::<C>(res, schema, units),
    ensures
        ({
            let rows = table::output_rows::<C>(units);
            let columns = C::batch_of(C::columns_of(rows));
            let accepted = arrow::is_accepted(
                arrow::schema_value(schema),
                arrow::types_of(C::schema()),
                arrow::columns_cells(columns),
            );
            if !C::columns_fit(C::columns_of(rows)) {
                res matches Err(BatchError::TooManyItems)
            } else if exists|k: int|
                0 <= k < columns.len() && !arrow::column_fits(#[trigger] columns[k]) {
                res matches Err(BatchError::TooMuchText)
            } else if !accepted {
                res matches Err(BatchError::Schema(_))
            } else {
                &&& res is Ok
                &&& arrow::batch_schema(res->Ok_0) == schema
                &&& arrow::batch_cells(res->Ok_0).len() == C::schema().len()
                &&& forall|k: int, i: int|
                    0 <= k < C::schema().len() && 0 <= i < rows.len()
                        ==> #[trigger] arrow::batch_cells(res->Ok_0)[k][i] == cell_at::<C>(
                        rows,
                        k,
                        i,
                    )
                &&& forall|k: int|
                    0 <= k < C::schema().len() ==> (#[trigger] arrow::batch_cells(
                        res->Ok_0,
                    )[k]).len() == rows.len()
            }
        }),
{
    let rows = table::output_rows::<C>(units);
    let columns = C::batch_of(C::columns_of(rows));
    assert(arrow::columns_fit(columns) <==> !exists|k: int|
        0 <= k < columns.len() && !arrow::column_fits(#[trigger] columns[k]));
    if C::columns_fit(C::columns_of(rows)) {
        C::law_batch_matches_schema(rows);
        assert forall|k: int, i: int|
            0 <= k < C::schema().len() && 0 <= i < rows.len() && res is Ok implies
            #[trigger] arrow::batch_cells(res->Ok_0)[k][i] == cell_at::<C>(rows, k, i) by {
            C::law_batch_holds_rows(rows, i);
            assert(C::row_cells(rows[i])[k] == cell_at::<C>(rows, k, i));
        }
    }
}

/// The Arrow types of columns: lists name their items `item` and let them be null, maps name
/// their entries `entries`, never null, in no order.
pub proof fn law_arrow_types(t: ScalarType, fields: Seq<ScalarFieldView>, k: int)
    ensures
        arrow::type_of(ColumnTypeView::Scalar(ScalarType::Int64)) is Int64,
        arrow::type_of(ColumnTypeView::Scalar(ScalarType::UInt64)) is UInt64,
        arrow::type_of(ColumnTypeView::Scalar(ScalarType::Utf8)) is Utf8,
        arrow::type_of(ColumnTypeView::List(t)) matches ArrowType::List(item) && item.name
            == "item"@ && item.nullable && item.metadata.dom().is_empty() && item.data_type
            == arrow::type_of(ColumnTypeView::Scalar(t)),
        arrow::type_of(ColumnTypeView::ListStruct(fields)) matches ArrowType::List(item)
            && item.name == "item"@ && item.nullable && item.metadata.dom().is_empty()
            && item.data_type == arrow::type_of(ColumnTypeView::Struct(fields)),
        arrow::type_of(ColumnTypeView::TextMap(fields)) matches ArrowType::Keyed(entries, sorted)
            && !sorted && entries.name == "entries"@ && !entries.nullable
            && entries.metadata.dom().is_empty() && entries.data_type == arrow::type_of(
            ColumnTypeView::Struct(fields),
        ),
        arrow::type_of(ColumnTypeView::Struct(fields)) matches ArrowType::Struct(parts)
            && parts.len() == fields.len() && (0 <= k < fields.len() ==> parts[k].name
            == fields[k].name && parts[k].nullable == fields[k].nullable
            && parts[k].metadata.dom().is_empty() && parts[k].data_type == arrow::type_of(
            ColumnTypeView::Scalar(fields[k].data_type),
        )),
{
}

/// The Arrow schema of a table has one field per column, in order, which may be null and has the
/// comment of the column as its only metadata.
pub proof fn law_arrow_schemas(fields: Seq<ColumnFieldView>, k: int)
    requires
        0 <= k < fields.len(),
    ensures
        arrow::fields_of(fields).len() == fields.len(),
        arrow::fields_of(fields)[k].name == fields[k].name,
        arrow::fields_of(fields)[k].data_type == arrow::type_of(fields[k].data_type),
        arrow::fields_of(fields)[k].nullable,
        arrow::fields_of(fields)[k].metadata == map!["comment"@ => fields[k].comment],
        arrow::types_of(fields).len() == fields.len(),
        arrow::types_of(fields)[k] == arrow::type_of(fields[k].data_type),
{
}

/// The sum of the numbers of items of all rows.
pub open spec fn item_count(counts: Seq<nat>) -> nat
    decreases counts.len(),
{
    if counts.len() == 0 {
        0
    } else {
        item_count(counts.drop_last()) + counts.last()
    }
}

proof fn lemma_item_count(counts: Seq<Option<nat>>, numbers: Seq<nat>)
    requires
        counts.len() == numbers.len(),
        forall|i: int|
            0 <= i < counts.len() ==> #[trigger] numbers[i] == match counts[i] {
                Some(n) => n,
                None => 0,
            },
    ensures
        columns::offsets_fit(counts) <==> item_count(numbers) <= i32::MAX,
{
    lemma_items_before(counts, numbers, counts.len() as int);
    assert(numbers.take(counts.len() as int) =~= numbers);
}

proof fn lemma_items_before(counts: Seq<Option<nat>>, numbers: Seq<nat>, n: int)
    requires
        0 <= n <= counts.len(),
        counts.len() == numbers.len(),
        forall|i: int|
            0 <= i < counts.len() ==> #[trigger] numbers[i] == match counts[i] {
                Some(c) => c,
                None => 0,
            },
    ensures
        columns::items_before(counts, n) == item_count(numbers.take(n)),
    decreases n,
{
    if n > 0 {
        lemma_items_before(counts, numbers, n - 1);
        assert(numbers.take(n).drop_last() =~= numbers.take(n - 1));
        assert(numbers[n - 1] == numbers.take(n).last());
    }
}

} // verus!
