//! Columns as Arrow arrays.
//!
//! The arrays, types and batches are those of the `arrow-array` and `arrow-schema` crates. What
//! they hold is told by the names below; the functions that make them are taken on trust.

use std::collections::HashMap;
use std::sync::Arc;

use arrow_array::builder::{Int64Builder, StringBuilder, UInt64Builder};
use arrow_array::cast::AsArray;
use arrow_array::{ArrayRef, ListArray, MapArray, RecordBatch, StructArray};
use arrow_buffer::{NullBuffer, OffsetBuffer, ScalarBuffer};
use arrow_schema::{DataType, Field, Schema};

use vstd::pervasive::unreached;
use vstd::prelude::*;
use vstd::string::*;

use crate::columns::{
    Column, ColumnView, ListLayout, ListLayoutView, ScalarColumn, ScalarColumnView,
};
use crate::schema;
use crate::schema::{
    ColumnField, ColumnFieldView, ColumnType, ColumnTypeView, ScalarField, ScalarFieldView,
    ScalarType,
};
use crate::table;

verus! {

/// Arrow's type of a column, carried as an opaque value.
#[verifier::external_type_specification]
#[verifier::external_body]
pub struct ExDataType(arrow_schema::DataType);

/// Arrow's field of a schema or of a nested type, carried as an opaque value.
#[verifier::external_type_specification]
#[verifier::external_body]
pub struct ExField(arrow_schema::Field);

/// Arrow's schema, carried as an opaque value.
#[verifier::external_type_specification]
#[verifier::external_body]
pub struct ExSchema(arrow_schema::Schema);

/// An Arrow array. It is a trait object, so it is held in a field that only the functions that
/// make arrays and batches touch.
#[verifier::external_body]
pub struct ArrowArray {
    array: ArrayRef,
}

/// An Arrow batch of columns, to be handed on. It refers to trait objects too, so it is held in a
/// field that nothing here reads.
#[verifier::external_body]
pub struct ArrowBatch {
    pub batch: RecordBatch,
}

/// A type of an array.
#[verifier::ext_equal]
pub enum ArrowType {
    Int64,
    UInt64,
    Utf8,
    /// A list, by the field of its items.
    List(Box<ArrowField>),
    /// A struct, by its fields.
    Struct(Seq<ArrowField>),
    /// A map, by the field of its entries and whether its keys are sorted.
    Keyed(Box<ArrowField>, bool),
    /// A type that no array here has.
    Other,
}

/// A field of a schema or of a nested type.
#[verifier::ext_equal]
pub struct ArrowField {
    pub name: Seq<char>,
    pub data_type: ArrowType,
    pub nullable: bool,
    pub metadata: Map<Seq<char>, Seq<char>>,
}

/// A value in a row of an array.
pub enum Cell {
    Null,
    Int64(i64),
    UInt64(u64),
    Utf8(Seq<char>),
    /// A list, by its items.
    List(Seq<Cell>),
    /// A struct, by its fields.
    Struct(Seq<Cell>),
    /// A map, by its entries.
    Entries(Seq<Cell>),
}

/// What an Arrow type is.
pub uninterp spec fn type_value(data_type: DataType) -> ArrowType;

/// What an Arrow field is.
pub uninterp spec fn field_value(field: Field) -> ArrowField;

/// The fields of an Arrow schema.
pub uninterp spec fn schema_value(schema: Schema) -> Seq<ArrowField>;

/// The type of an array.
pub uninterp spec fn array_type(array: ArrowArray) -> ArrowType;

/// What an array holds, row by row.
pub uninterp spec fn array_cells(array: ArrowArray) -> Seq<Cell>;

/// The schema of a batch.
pub uninterp spec fn batch_schema(batch: ArrowBatch) -> Schema;

/// What a batch holds, column by column and row by row.
pub uninterp spec fn batch_cells(batch: ArrowBatch) -> Seq<Seq<Cell>>;

/// The words in which a schema refuses columns of these types with these cells.
pub uninterp spec fn refusal(
    schema: Schema,
    types: Seq<ArrowType>,
    cells: Seq<Seq<Cell>>,
) -> Seq<char>;

/// A field without metadata.
pub open spec fn plain_field(name: Seq<char>, data_type: ArrowType, nullable: bool) -> ArrowField {
    ArrowField { name, data_type, nullable, metadata: Map::empty() }
}

/// The type of a column without parts.
pub open spec fn scalar_arrow_type(data_type: ScalarType) -> ArrowType {
    match data_type {
        ScalarType::Int64 => ArrowType::Int64,
        ScalarType::UInt64 => ArrowType::UInt64,
        ScalarType::Utf8 => ArrowType::Utf8,
    }
}

/// The fields of structs.
pub open spec fn struct_fields(fields: Seq<ScalarFieldView>) -> Seq<ArrowField> {
    Seq::new(
        fields.len(),
        |k: int|
            plain_field(
                fields[k].name,
                scalar_arrow_type(fields[k].data_type),
                fields[k].nullable,
            ),
    )
}

/// The type of lists. An item may be null.
pub open spec fn list_of(inner: ArrowType) -> ArrowType {
    ArrowType::List(Box::new(plain_field("item"@, inner, true)))
}

/// The type of maps. An entry is never null, and the keys are in no order.
pub open spec fn map_of(inner: ArrowType) -> ArrowType {
    ArrowType::Keyed(Box::new(plain_field("entries"@, inner, false)), false)
}

/// The type of a column.
pub open spec fn type_of(data_type: ColumnTypeView) -> ArrowType {
    match data_type {
        ColumnTypeView::Scalar(t) => scalar_arrow_type(t),
        ColumnTypeView::List(t) => list_of(scalar_arrow_type(t)),
        ColumnTypeView::Struct(fields) => ArrowType::Struct(struct_fields(fields)),
        ColumnTypeView::ListStruct(fields) => list_of(ArrowType::Struct(struct_fields(fields))),
        ColumnTypeView::TextMap(fields) => map_of(ArrowType::Struct(struct_fields(fields))),
    }
}

/// The types of the columns of a schema.
pub open spec fn types_of(fields: Seq<ColumnFieldView>) -> Seq<ArrowType> {
    Seq::new(fields.len(), |k: int| type_of(fields[k].data_type))
}

/// A column of a schema. It may be null, and its comment is its metadata.
pub open spec fn field_of(field: ColumnFieldView) -> ArrowField {
    ArrowField {
        name: field.name,
        data_type: type_of(field.data_type),
        nullable: true,
        metadata: map!["comment"@ => field.comment],
    }
}

/// The columns of a schema.
pub open spec fn fields_of(fields: Seq<ColumnFieldView>) -> Seq<ArrowField> {
    Seq::new(fields.len(), |k: int| field_of(fields[k]))
}

/// The cells of a column without parts.
pub open spec fn scalar_cells(column: ScalarColumnView) -> Seq<Cell> {
    match column {
        ScalarColumnView::Int64(values) => Seq::new(
            values.len(),
            |i: int|
                match values[i] {
                    Some(v) => Cell::Int64(v),
                    None => Cell::Null,
                },
        ),
        ScalarColumnView::UInt64(values) => Seq::new(
            values.len(),
            |i: int|
                match values[i] {
                    Some(v) => Cell::UInt64(v),
                    None => Cell::Null,
                },
        ),
        ScalarColumnView::Utf8(values) => Seq::new(
            values.len(),
            |i: int|
                match values[i] {
                    Some(v) => Cell::Utf8(v),
                    None => Cell::Null,
                },
        ),
    }
}

/// The cells of lists, from the items of all of them.
pub open spec fn list_cells(layout: ListLayoutView, items: Seq<Cell>) -> Seq<Cell> {
    Seq::new(
        layout.valid.len(),
        |i: int|
            if layout.valid[i] {
                Cell::List(
                    items.subrange(layout.offsets[i] as int, layout.offsets[i + 1] as int),
                )
            } else {
                Cell::Null
            },
    )
}

/// The cells of maps, from the entries of all of them.
pub open spec fn map_cells(layout: ListLayoutView, entries: Seq<Cell>) -> Seq<Cell> {
    Seq::new(
        layout.valid.len(),
        |i: int|
            if layout.valid[i] {
                Cell::Entries(
                    entries.subrange(layout.offsets[i] as int, layout.offsets[i + 1] as int),
                )
            } else {
                Cell::Null
            },
    )
}

/// The cells of `n` structs, from those of their fields. Where nothing says which are valid, all
/// of them are.
pub open spec fn struct_cells(parts: Seq<Seq<Cell>>, valid: Option<Seq<bool>>, n: nat) -> Seq<
    Cell,
> {
    Seq::new(
        n,
        |i: int|
            if valid is None || valid->0[i] {
                Cell::Struct(Seq::new(parts.len(), |k: int| parts[k][i]))
            } else {
                Cell::Null
            },
    )
}

/// The cells of the fields of structs.
pub open spec fn part_cells(parts: Seq<ScalarColumnView>) -> Seq<Seq<Cell>> {
    Seq::new(parts.len(), |k: int| scalar_cells(parts[k]))
}

/// The cells of a column.
pub open spec fn column_cells(column: ColumnView) -> Seq<Cell> {
    match column {
        ColumnView::Scalar(values) => scalar_cells(values),
        ColumnView::List(layout, items) => list_cells(layout, scalar_cells(items)),
        ColumnView::Struct(parts, valid) => struct_cells(
            part_cells(parts),
            Some(valid),
            table::scalar_len(parts[0]),
        ),
        ColumnView::ListStruct(layout, parts) => list_cells(
            layout,
            struct_cells(part_cells(parts), None, table::scalar_len(parts[0])),
        ),
        ColumnView::TextMap(layout, parts) => map_cells(
            layout,
            struct_cells(part_cells(parts), None, table::scalar_len(parts[0])),
        ),
    }
}

/// The number of bytes that texts take.
pub open spec fn text_bytes(values: Seq<Option<Seq<char>>>) -> nat
    decreases values.len(),
{
    if values.len() == 0 {
        0
    } else {
        text_bytes(values.drop_last()) + match values.last() {
            Some(text) => vstd::utf8::encode_utf8(text).len(),
            None => 0,
        }
    }
}

/// Whether the texts of a column can be counted by offsets.
pub open spec fn scalar_fits(column: ScalarColumnView) -> bool {
    match column {
        ScalarColumnView::Utf8(values) => text_bytes(values) <= i32::MAX,
        _ => true,
    }
}

/// Whether the texts of the fields of structs can be counted by offsets.
pub open spec fn parts_fit(parts: Seq<ScalarColumnView>) -> bool {
    forall|k: int| 0 <= k < parts.len() ==> scalar_fits(#[trigger] parts[k])
}

/// Whether all texts in a column can be counted by offsets.
pub open spec fn column_fits(column: ColumnView) -> bool {
    match column {
        ColumnView::Scalar(values) => scalar_fits(values),
        ColumnView::List(_, items) => scalar_fits(items),
        ColumnView::Struct(parts, _) => parts_fit(parts),
        ColumnView::ListStruct(_, parts) => parts_fit(parts),
        ColumnView::TextMap(_, parts) => parts_fit(parts),
    }
}

/// Whether no cell is null.
pub open spec fn no_nulls(cells: Seq<Cell>) -> bool {
    forall|i: int| 0 <= i < cells.len() ==> !(#[trigger] cells[i] is Null)
}

/// Whether arrays are the fields of `n` structs.
pub open spec fn parts_match(fields: Seq<ArrowField>, parts: Seq<ArrowArray>, n: nat) -> bool {
    &&& parts.len() == fields.len()
    &&& parts.len() > 0
    &&& forall|k: int|
        0 <= k < parts.len() ==> {
            &&& array_type(#[trigger] parts[k]) == fields[k].data_type
            &&& array_cells(parts[k]).len() == n
            &&& !fields[k].nullable ==> no_nulls(array_cells(parts[k]))
        }
}

/// Whether a type is that of map entries: a key that is never null, and a value.
pub open spec fn is_entry_type(inner: ArrowType) -> bool {
    inner matches ArrowType::Struct(fields) && fields.len() == 2 && !fields[0].nullable
}

/// What fields are.
pub open spec fn all_fields(fields: Seq<Field>) -> Seq<ArrowField> {
    Seq::new(fields.len(), |k: int| field_value(fields[k]))
}

/// The types of arrays.
pub open spec fn all_types(arrays: Seq<ArrowArray>) -> Seq<ArrowType> {
    Seq::new(arrays.len(), |k: int| array_type(arrays[k]))
}

/// What arrays hold.
pub open spec fn all_cells(arrays: Seq<ArrowArray>) -> Seq<Seq<Cell>> {
    Seq::new(arrays.len(), |k: int| array_cells(arrays[k]))
}

/// Whether columns of these types with these cells are those that a schema declares: there is
/// one at least, all are of one length, and where a column may not be null, no cell is.
pub open spec fn is_accepted(
    fields: Seq<ArrowField>,
    types: Seq<ArrowType>,
    cells: Seq<Seq<Cell>>,
) -> bool {
    &&& types.len() == fields.len()
    &&& types.len() > 0
    &&& forall|k: int|
        0 <= k < types.len() ==> {
            &&& #[trigger] types[k] == fields[k].data_type
            &&& cells[k].len() == cells[0].len()
            &&& !fields[k].nullable ==> no_nulls(cells[k])
        }
}

/// The variants of `arrow_schema::DataType` for types without parts.
#[verifier::external_body]
fn scalar_type(data_type: ScalarType) -> (res: DataType)
    ensures
        type_value(res) == scalar_arrow_type(data_type),
{
    match data_type {
        ScalarType::Int64 => DataType::Int64,
        ScalarType::UInt64 => DataType::UInt64,
        ScalarType::Utf8 => DataType::Utf8,
    }
}

/// The variant of `arrow_schema::DataType` for lists, with the field of the items.
#[verifier::external_body]
fn list_type(item: Field) -> (res: DataType)
    ensures
        type_value(res) == ArrowType::List(Box::new(field_value(item))),
{
    DataType::List(Arc::new(item))
}

/// The variant of `arrow_schema::DataType` for structs, with their fields in order.
#[verifier::external_body]
fn struct_type(fields: Vec<Field>) -> (res: DataType)
    ensures
        type_value(res) == ArrowType::Struct(all_fields(fields@)),
{
    DataType::Struct(arrow_schema::Fields::from(fields))
}

/// The variant of `arrow_schema::DataType` for maps, with the field of the entries and whether
/// the keys are sorted.
#[verifier::external_body]
fn map_type(entries: Field, sorted: bool) -> (res: DataType)
    ensures
        type_value(res) == ArrowType::Keyed(Box::new(field_value(entries)), sorted),
{
    DataType::Map(Arc::new(entries), sorted)
}

/// Calls `arrow_schema::Field::new`: the field has no metadata.
#[verifier::external_body]
fn new_field(name: &str, data_type: DataType, nullable: bool) -> (res: Field)
    ensures
        field_value(res) == plain_field(name@, type_value(data_type), nullable),
{
    Field::new(name, data_type, nullable)
}

/// Calls `arrow_schema::Field::with_metadata` on one pair, which becomes the whole metadata of
/// the field.
#[verifier::external_body]
fn with_metadata(field: Field, key: &str, value: &str) -> (res: Field)
    ensures
        field_value(res) == (ArrowField { metadata: map![key@ => value@], ..field_value(field) }),
{
    field.with_metadata(HashMap::from([(key.to_string(), value.to_string())]))
}

/// Calls `arrow_schema::Schema::new`: the schema has these fields in order.
#[verifier::external_body]
fn new_schema(fields: Vec<Field>) -> (res: Schema)
    ensures
        schema_value(res) == all_fields(fields@),
{
    Schema::new(fields)
}

/// Calls `arrow_array::builder::Int64Builder` and finishes it: the array has one row per value,
/// null for `None`.
#[verifier::external_body]
fn int64_array(values: Vec<Option<i64>>) -> (res: ArrowArray)
    ensures
        array_type(res) == ArrowType::Int64,
        array_cells(res) == scalar_cells(ScalarColumnView::Int64(values@)),
{
    let mut builder = Int64Builder::with_capacity(values.len());
    builder.extend(values);
    ArrowArray { array: Arc::new(builder.finish()) }
}

/// Calls `arrow_array::builder::UInt64Builder` and finishes it: the array has one row per value,
/// null for `None`.
#[verifier::external_body]
fn uint64_array(values: Vec<Option<u64>>) -> (res: ArrowArray)
    ensures
        array_type(res) == ArrowType::UInt64,
        array_cells(res) == scalar_cells(ScalarColumnView::UInt64(values@)),
{
    let mut builder = UInt64Builder::with_capacity(values.len());
    builder.extend(values);
    ArrowArray { array: Arc::new(builder.finish()) }
}

/// Calls `arrow_array::builder::StringBuilder` and finishes it: the array has one row per value,
/// null for `None`. The builder counts bytes in 32 bits and panics beyond that.
#[verifier::external_body]
fn utf8_array(values: Vec<Option<String>>) -> (res: ArrowArray)
    requires
        text_bytes(values.deep_view()) <= i32::MAX,
    ensures
        array_type(res) == ArrowType::Utf8,
        array_cells(res) == scalar_cells(ScalarColumnView::Utf8(values.deep_view())),
{
    let mut builder = StringBuilder::new();
    builder.extend(values);
    ArrowArray { array: Arc::new(builder.finish()) }
}

/// Calls `arrow_array::ListArray::new`: row `i` is the items from offset `i` up to the next
/// offset, or null where the row is not valid. It panics on offsets that fall, on ones beyond
/// the items, and on an item field that does not fit the items.
#[verifier::external_body]
fn list_array(item: Field, layout: ListLayout, items: ArrowArray) -> (res: ArrowArray)
    requires
        field_value(item).nullable,
        field_value(item).data_type == array_type(items),
        table::layout_matches(layout.deep_view(), layout.valid@.len() as int),
        layout.offsets@.last() <= array_cells(items).len(),
    ensures
        array_type(res) == ArrowType::List(Box::new(field_value(item))),
        array_cells(res) == list_cells(layout.deep_view(), array_cells(items)),
{
    let offsets = OffsetBuffer::new(ScalarBuffer::from(layout.offsets));
    let nulls = Some(NullBuffer::from(layout.valid));
    ArrowArray { array: Arc::new(ListArray::new(Arc::new(item), offsets, items.array, nulls)) }
}

/// Calls `arrow_array::StructArray::new`: row `i` is a struct of the rows `i` of the parts, or
/// null where the row is not valid. It panics where there are no parts, on parts that are not
/// of the types of the fields or of several lengths, and on a null in a field that may not be
/// null.
#[verifier::external_body]
fn struct_array(
    fields: Vec<Field>,
    parts: Vec<ArrowArray>,
    valid: Option<Vec<bool>>,
) -> (res: ArrowArray)
    requires
        parts_match(all_fields(fields@), parts@, array_cells(parts@[0]).len()),
        valid matches Some(v) ==> v@.len() == array_cells(parts@[0]).len(),
    ensures
        array_type(res) == ArrowType::Struct(all_fields(fields@)),
        array_cells(res) == struct_cells(
            all_cells(parts@),
            valid.deep_view(),
            array_cells(parts@[0]).len(),
        ),
{
    let fields = arrow_schema::Fields::from(fields);
    let arrays = parts.into_iter().map(|part| part.array).collect();
    ArrowArray { array: Arc::new(StructArray::new(fields, arrays, valid.map(NullBuffer::from))) }
}

/// Calls `arrow_array::MapArray::new`: row `i` is the entries from offset `i` up to the next
/// offset, or null where the row is not valid. It panics on offsets that fall, on ones beyond
/// the entries, on entries that may be null, and on entries that are not a key that is never
/// null and a value.
#[verifier::external_body]
fn map_array(
    entries: Field,
    layout: ListLayout,
    items: ArrowArray,
    sorted: bool,
) -> (res: ArrowArray)
    requires
        !field_value(entries).nullable,
        field_value(entries).data_type == array_type(items),
        is_entry_type(array_type(items)),
        no_nulls(array_cells(items)),
        table::layout_matches(layout.deep_view(), layout.valid@.len() as int),
        layout.offsets@.last() <= array_cells(items).len(),
    ensures
        array_type(res) == ArrowType::Keyed(Box::new(field_value(entries)), sorted),
        array_cells(res) == map_cells(layout.deep_view(), array_cells(items)),
{
    let offsets = OffsetBuffer::new(ScalarBuffer::from(layout.offsets));
    let nulls = Some(NullBuffer::from(layout.valid));
    let items = items.array.as_struct().clone();
    let array = MapArray::new(Arc::new(entries), offsets, items, nulls, sorted);
    ArrowArray { array: Arc::new(array) }
}

/// Calls `arrow_array::RecordBatch::try_new`: it succeeds exactly where the arrays are the
/// columns that the schema declares. The batch then has that schema and holds what the arrays
/// hold. What it says otherwise depends on the schema and on the arrays alone.
#[verifier::external_body]
fn record_batch(schema: Arc<Schema>, arrays: Vec<ArrowArray>) -> (res: Result<ArrowBatch, String>)
    ensures
        res is Ok <==> is_accepted(schema_value(*schema), all_types(arrays@), all_cells(arrays@)),
        res matches Ok(batch) ==> batch_schema(batch) == *schema && batch_cells(batch)
            == all_cells(arrays@),
        res matches Err(words) ==> words@ == refusal(
            *schema,
            all_types(arrays@),
            all_cells(arrays@),
        ),
{
    let columns = arrays.into_iter().map(|array| array.array).collect();
    match RecordBatch::try_new(schema, columns) {
        Ok(batch) => Ok(ArrowBatch { batch }),
        Err(error) => Err(error.to_string()),
    }
}

fn plain_fields(fields: &Vec<ScalarField>) -> (res: Vec<Field>)
    ensures
        all_fields(res@) == struct_fields(fields.deep_view()),
{
    let mut res: Vec<Field> = Vec::with_capacity(fields.len());
    for i in 0..fields.len()
        invariant
            res@.len() == i,
            forall|k: int|
                0 <= k < i ==> field_value(#[trigger] res@[k]) == struct_fields(
                    fields.deep_view(),
                )[k],
    {
        let field = &fields[i];
        res.push(new_field(field.name, scalar_type(field.data_type), field.nullable));
    }
    assert(all_fields(res@) =~= struct_fields(fields.deep_view()));
    res
}

/// The field of list items.
fn item_field(inner: DataType) -> (res: Field)
    ensures
        field_value(res) == plain_field("item"@, type_value(inner), true),
{
    let item = schema::list_field();
    new_field(item.name, inner, item.nullable)
}

/// The field of map entries.
fn entries_field(inner: DataType) -> (res: Field)
    ensures
        field_value(res) == plain_field("entries"@, type_value(inner), false),
{
    let entries = schema::map_entries_field();
    new_field(entries.name, inner, entries.nullable)
}

/// Whether a column type can be laid out: a struct has fields, and a map has a key that is never
/// null, and a value.
pub open spec fn is_column_type(data_type: ColumnTypeView) -> bool {
    match data_type {
        ColumnTypeView::Struct(fields) => fields.len() > 0,
        ColumnTypeView::ListStruct(fields) => fields.len() > 0,
        ColumnTypeView::TextMap(fields) => fields.len() == 2 && !fields[0].nullable,
        _ => true,
    }
}

/// Whether every column of a schema can be laid out.
pub open spec fn is_schema(fields: Seq<ColumnFieldView>) -> bool {
    forall|k: int| 0 <= k < fields.len() ==> is_column_type((#[trigger] fields[k]).data_type)
}

/// A column type as an Arrow type.
pub fn data_type(column_type: &ColumnType) -> (res: DataType)
    ensures
        type_value(res) == type_of(column_type.deep_view()),
{
    match column_type {
        ColumnType::Scalar(t) => scalar_type(*t),
        ColumnType::List(t) => list_type(item_field(scalar_type(*t))),
        ColumnType::Struct(fields) => struct_type(plain_fields(fields)),
        ColumnType::ListStruct(fields) => list_type(item_field(struct_type(plain_fields(fields)))),
        ColumnType::TextMap(fields) => map_type(
            entries_field(struct_type(plain_fields(fields))),
            false,
        ),
    }
}

/// A schema as an Arrow schema, with the comments as metadata.
pub fn make_schema(fields: &Vec<ColumnField>) -> (res: Schema)
    ensures
        schema_value(res) == fields_of(fields.deep_view()),
{
    let mut res: Vec<Field> = Vec::with_capacity(fields.len());
    for i in 0..fields.len()
        invariant
            res@.len() == i,
            forall|k: int|
                0 <= k < i ==> field_value(#[trigger] res@[k]) == fields_of(fields.deep_view())[k],
    {
        let field = new_field(fields[i].name, data_type(&fields[i].data_type), true);
        res.push(with_metadata(field, "comment", fields[i].comment));
    }
    assert(all_fields(res@) =~= fields_of(fields.deep_view()));
    new_schema(res)
}

fn scalar_array(column: ScalarColumn) -> (res: ArrowArray)
    requires
        scalar_fits(column.deep_view()),
    ensures
        array_type(res) == scalar_arrow_type(table::scalar_type_of(column.deep_view())),
        array_cells(res) == scalar_cells(column.deep_view()),
{
    match column {
        ScalarColumn::Int64(values) => int64_array(values),
        ScalarColumn::UInt64(values) => uint64_array(values),
        ScalarColumn::Utf8(values) => utf8_array(values),
    }
}

fn part_arrays(parts: Vec<ScalarColumn>) -> (res: Vec<ArrowArray>)
    requires
        parts_fit(parts.deep_view()),
    ensures
        res@.len() == parts@.len(),
        forall|k: int|
            0 <= k < res@.len() ==> {
                &&& array_type(#[trigger] res@[k]) == scalar_arrow_type(
                    table::scalar_type_of(parts.deep_view()[k]),
                )
                &&& array_cells(res@[k]) == scalar_cells(parts.deep_view()[k])
            },
        all_cells(res@) == part_cells(parts.deep_view()),
{
    let ghost elements = parts@;
    let ghost all = parts.deep_view();
    let mut arrays: Vec<ArrowArray> = Vec::with_capacity(parts.len());
    for part in it: parts
        invariant
            it.seq() == elements,
            elements.len() == all.len(),
            forall|k: int| 0 <= k < all.len() ==> all[k] == (#[trigger] elements[k]).deep_view(),
            parts_fit(all),
            arrays@.len() == it.index(),
            forall|k: int|
                0 <= k < arrays@.len() ==> {
                    &&& array_type(#[trigger] arrays@[k]) == scalar_arrow_type(
                        table::scalar_type_of(all[k]),
                    )
                    &&& array_cells(arrays@[k]) == scalar_cells(all[k])
                },
    {
        assert(scalar_fits(all[it.index() as int]));
        arrays.push(scalar_array(part));
    }
    assert(all_cells(arrays@) =~= part_cells(all));
    arrays
}

/// The arrays of the fields of structs as one array.
fn parts_array(parts: Vec<ScalarColumn>, fields: &Vec<ScalarField>, valid: Option<Vec<bool>>) -> (
    res: ArrowArray)
    requires
        parts@.len() > 0,
        table::fields_match(
            parts.deep_view(),
            fields.deep_view(),
            table::scalar_len(parts.deep_view()[0]) as int,
        ),
        parts_fit(parts.deep_view()),
        valid matches Some(v) ==> v@.len() == table::scalar_len(parts.deep_view()[0]),
    ensures
        array_type(res) == ArrowType::Struct(struct_fields(fields.deep_view())),
        array_cells(res) == struct_cells(
            part_cells(parts.deep_view()),
            valid.deep_view(),
            table::scalar_len(parts.deep_view()[0]),
        ),
{
    let ghost all = parts.deep_view();
    let arrays = part_arrays(parts);
    let ghost n = table::scalar_len(all[0]);
    proof {
        assert forall|k: int| 0 <= k < arrays@.len() implies {
            &&& array_type(#[trigger] arrays@[k]) == struct_fields(
                fields.deep_view(),
            )[k].data_type
            &&& array_cells(arrays@[k]).len() == n
            &&& !struct_fields(fields.deep_view())[k].nullable ==> no_nulls(
                array_cells(arrays@[k]),
            )
        } by {
            assert(table::scalar_len(all[k]) == n);
            if !fields.deep_view()[k].nullable {
                assert forall|i: int| 0 <= i < n implies !(#[trigger] scalar_cells(
                    all[k],
                )[i] is Null) by {
                    assert(!table::scalar_is_null(all[k], i));
                }
            }
        }
    }
    struct_array(plain_fields(fields), arrays, valid)
}

/// A column as an Arrow array of its type.
pub fn array(column: Column, column_type: &ColumnType) -> (res: ArrowArray)
    requires
        table::column_matches(
            column.deep_view(),
            column_type.deep_view(),
            table::column_len(column.deep_view()),
        ),
        is_column_type(column_type.deep_view()),
        column_fits(column.deep_view()),
    ensures
        array_type(res) == type_of(column_type.deep_view()),
        array_cells(res) == column_cells(column.deep_view()),
{
    match (column, column_type) {
        (Column::Scalar(values), _) => scalar_array(values),
        (Column::List(layout, items), ColumnType::List(t)) => {
            list_array(item_field(scalar_type(*t)), layout, scalar_array(items))
        },
        (Column::Struct(parts, valid), ColumnType::Struct(fields)) => {
            proof {
                lemma_parts(parts, fields.deep_view());
                assert(valid.deep_view() =~= valid@);
            }
            parts_array(parts, fields, Some(valid))
        },
        (Column::ListStruct(layout, parts), ColumnType::ListStruct(fields)) => {
            proof {
                lemma_parts(parts, fields.deep_view());
            }
            let items = parts_array(parts, fields, None);
            list_array(item_field(struct_type(plain_fields(fields))), layout, items)
        },
        (Column::TextMap(layout, parts), ColumnType::TextMap(fields)) => {
            proof {
                lemma_parts(parts, fields.deep_view());
            }
            let items = parts_array(parts, fields, None);
            map_array(entries_field(struct_type(plain_fields(fields))), layout, items, false)
        },
        _ => unreached(),
    }
}

/// The parts of a column are as long as the first of them.
proof fn lemma_parts(parts: Vec<ScalarColumn>, fields: Seq<ScalarFieldView>)
    requires
        exists|n: int| table::fields_match(parts.deep_view(), fields, n),
        fields.len() > 0,
    ensures
        parts@.len() > 0,
        table::fields_match(
            parts.deep_view(),
            fields,
            table::scalar_len(parts.deep_view()[0]) as int,
        ),
{
    let n = choose|n: int| table::fields_match(parts.deep_view(), fields, n);
    assert(table::scalar_len(parts.deep_view()[0]) == n);
}

/// Whether the texts of a column can be counted by offsets.
fn scalar_is_countable(column: &ScalarColumn) -> (res: bool)
    ensures
        res == scalar_fits(column.deep_view()),
{
    match column {
        ScalarColumn::Utf8(values) => {
            let ghost all = values.deep_view();
            let mut total: usize = 0;
            for i in 0..values.len()
                invariant
                    all == values.deep_view(),
                    column.deep_view() == ScalarColumnView::Utf8(all),
                    total == text_bytes(all.take(i as int)),
                    total <= i32::MAX,
            {
                assert(all.take(i + 1).drop_last() =~= all.take(i as int));
                if let Some(text) = &values[i] {
                    let len: usize = text.as_str().as_bytes().len();
                    if len > 2147483647 - total {
                        proof {
                            lemma_text_bytes_grow(all, i + 1, all.len() as int);
                            assert(all.take(all.len() as int) =~= all);
                        }
                        return false;
                    }
                    total += len;
                }
            }
            assert(all.take(values.len() as int) =~= all);
            true
        },
        _ => true,
    }
}

proof fn lemma_text_bytes_grow(values: Seq<Option<Seq<char>>>, m: int, n: int)
    requires
        0 <= m <= n <= values.len(),
    ensures
        text_bytes(values.take(m)) <= text_bytes(values.take(n)),
    decreases n - m,
{
    if m < n {
        lemma_text_bytes_grow(values, m, n - 1);
        assert(values.take(n).drop_last() =~= values.take(n - 1));
    }
}

fn parts_are_countable(parts: &Vec<ScalarColumn>) -> (res: bool)
    ensures
        res == parts_fit(parts.deep_view()),
{
    for i in 0..parts.len()
        invariant
            forall|k: int| 0 <= k < i ==> scalar_fits(#[trigger] parts.deep_view()[k]),
    {
        if !scalar_is_countable(&parts[i]) {
            assert(!scalar_fits(parts.deep_view()[i as int]));
            return false;
        }
    }
    true
}

/// Whether all texts in a column can be counted by offsets.
pub fn is_countable(column: &Column) -> (res: bool)
    ensures
        res == column_fits(column.deep_view()),
{
    match column {
        Column::Scalar(values) => scalar_is_countable(values),
        Column::List(_, items) => scalar_is_countable(items),
        Column::Struct(parts, _) => parts_are_countable(parts),
        Column::ListStruct(_, parts) => parts_are_countable(parts),
        Column::TextMap(_, parts) => parts_are_countable(parts),
    }
}

/// Whether all texts in all columns can be counted by offsets.
pub open spec fn columns_fit(columns: Seq<ColumnView>) -> bool {
    forall|k: int| 0 <= k < columns.len() ==> column_fits(#[trigger] columns[k])
}

/// Whether all texts in all columns can be counted by offsets.
pub fn are_countable(columns: &Vec<Column>) -> (res: bool)
    ensures
        res == columns_fit(columns.deep_view()),
{
    for i in 0..columns.len()
        invariant
            forall|k: int| 0 <= k < i ==> column_fits(#[trigger] columns.deep_view()[k]),
    {
        if !is_countable(&columns[i]) {
            assert(!column_fits(columns.deep_view()[i as int]));
            return false;
        }
    }
    true
}

/// What columns hold.
pub open spec fn columns_cells(columns: Seq<ColumnView>) -> Seq<Seq<Cell>> {
    Seq::new(columns.len(), |k: int| column_cells(columns[k]))
}

/// Columns as an Arrow batch. It fails exactly where the given schema does not declare the
/// columns.
pub fn batch(columns: Vec<Column>, fields: &Vec<ColumnField>, schema: Arc<Schema>) -> (res: Result<
    ArrowBatch,
    String,
>)
    requires
        exists|n: int| table::batch_matches(columns.deep_view(), fields.deep_view(), n),
        is_schema(fields.deep_view()),
        columns_fit(columns.deep_view()),
    ensures
        res is Ok <==> is_accepted(
            schema_value(*schema),
            types_of(fields.deep_view()),
            columns_cells(columns.deep_view()),
        ),
        res matches Ok(b) ==> batch_schema(b) == *schema && batch_cells(b) == columns_cells(
            columns.deep_view(),
        ),
        res matches Err(words) ==> words@ == refusal(
            *schema,
            types_of(fields.deep_view()),
            columns_cells(columns.deep_view()),
        ),
{
    let ghost all = columns.deep_view();
    let ghost types = fields.deep_view();
    let ghost n = choose|n: int| table::batch_matches(all, types, n);
    let ghost elements = columns@;
    let mut arrays: Vec<ArrowArray> = Vec::with_capacity(columns.len());
    let count: usize = fields.len();
    let mut i: usize = 0;
    for column in it: columns
        invariant
            count == all.len(),
            it.seq() == elements,
            elements.len() == all.len(),
            forall|k: int| 0 <= k < all.len() ==> all[k] == (#[trigger] elements[k]).deep_view(),
            types == fields.deep_view(),
            table::batch_matches(all, types, n),
            is_schema(types),
            columns_fit(all),
            i == it.index(),
            arrays@.len() == i,
            forall|k: int|
                0 <= k < i ==> {
                    &&& array_type(#[trigger] arrays@[k]) == type_of(types[k].data_type)
                    &&& array_cells(arrays@[k]) == column_cells(all[k])
                },
    {
        proof {
            lemma_column_len(all[i as int], types[i as int].data_type, n);
        }
        arrays.push(array(column, &fields[i].data_type));
        i += 1;
    }
    assert(all_cells(arrays@) =~= columns_cells(all));
    assert(all_types(arrays@) =~= types_of(types));
    record_batch(schema, arrays)
}

/// A column that matches a type has as many rows as it is said to have, and as many cells.
pub proof fn lemma_column_len(column: ColumnView, data_type: ColumnTypeView, n: int)
    requires
        table::column_matches(column, data_type, n),
        is_column_type(data_type),
    ensures
        table::column_len(column) == n,
        column_cells(column).len() == n,
{
    if let ColumnView::Struct(parts, _) = column {
        if let ColumnTypeView::Struct(fields) = data_type {
            assert(table::scalar_len(parts[0]) == n);
        }
    }
}

} // verus!
