//! Columns of a result, laid out as Arrow lays them out.
//!
//! A table collects one optional value per row, where `None` marks an error row, and turns
//! each list of values into a column. A list column holds the items of all its rows one after
//! the other, with offsets that say where each row starts.

use vstd::prelude::*;

use crate::lists;
use crate::rows::{Frame, FrameView, LineRef, ValueType, ValueTypeView};

verus! {

/// The number of items in the first `n` rows. A null row has none.
pub open spec fn items_before(counts: Seq<Option<nat>>, n: int) -> nat
    decreases n,
{
    if n <= 0 {
        0
    } else {
        items_before(counts, n - 1) + match counts[n - 1] {
            Some(count) => count,
            None => 0,
        }
    }
}

/// The number of items in all rows.
pub open spec fn total_items(counts: Seq<Option<nat>>) -> nat {
    items_before(counts, counts.len() as int)
}

/// Whether the items of a column can be counted by its offsets.
pub open spec fn offsets_fit(counts: Seq<Option<nat>>) -> bool {
    total_items(counts) <= i32::MAX
}

/// The number of items of each row.
pub open spec fn row_counts<T>(rows: Seq<Option<Seq<T>>>) -> Seq<Option<nat>> {
    Seq::new(
        rows.len(),
        |i: int|
            match rows[i] {
                Some(items) => Some(items.len()),
                None => None,
            },
    )
}

/// The items of all rows, one after the other.
pub open spec fn all_items<T>(rows: Seq<Option<Seq<T>>>) -> Seq<T>
    decreases rows.len(),
{
    if rows.len() == 0 {
        Seq::empty()
    } else {
        match rows.last() {
            Some(items) => all_items(rows.drop_last()) + items,
            None => all_items(rows.drop_last()),
        }
    }
}

/// More rows have no fewer items.
pub proof fn lemma_items_before_grows(counts: Seq<Option<nat>>, m: int, n: int)
    requires
        m <= n,
    ensures
        items_before(counts, m) <= items_before(counts, n),
    decreases n - m,
{
    if m < n {
        lemma_items_before_grows(counts, m, n - 1);
    }
}

/// The number of items of some rows is the same whatever follows them.
pub proof fn lemma_items_before_prefix(counts: Seq<Option<nat>>, m: int, n: int)
    requires
        0 <= n <= m <= counts.len(),
    ensures
        items_before(counts.take(m), n) == items_before(counts, n),
    decreases n,
{
    if n > 0 {
        lemma_items_before_prefix(counts, m, n - 1);
    }
}

/// All items together are as many as the counts add up to.
pub proof fn lemma_all_items_len<T>(rows: Seq<Option<Seq<T>>>)
    ensures
        all_items(rows).len() == total_items(row_counts(rows)),
    decreases rows.len(),
{
    if rows.len() > 0 {
        let front = rows.drop_last();
        lemma_all_items_len(front);
        let n = front.len() as int;
        assert(row_counts(front) =~= row_counts(rows).take(n));
        lemma_items_before_prefix(row_counts(rows), n, n);
    }
}

/// Where the rows of a list column start and end, and which of them are null.
#[derive(Debug, Clone)]
pub struct ListLayout {
    /// Where each row starts, and at the end where the last one ends.
    pub offsets: Vec<i32>,
    /// Whether each row is a list, not null.
    pub valid: Vec<bool>,
}

/// The value of a [`ListLayout`].
pub struct ListLayoutView {
    pub offsets: Seq<i32>,
    pub valid: Seq<bool>,
}

impl DeepView for ListLayout {
    type V = ListLayoutView;

    open spec fn deep_view(&self) -> ListLayoutView {
        ListLayoutView { offsets: self.offsets@, valid: self.valid@ }
    }
}

/// The layout of rows with these numbers of items.
pub open spec fn layout_of(counts: Seq<Option<nat>>) -> ListLayoutView {
    ListLayoutView {
        offsets: Seq::new(counts.len() + 1, |i: int| items_before(counts, i) as i32),
        valid: Seq::new(counts.len(), |i: int| counts[i] is Some),
    }
}

/// The counts as numbers without a bound.
pub open spec fn count_values(counts: Seq<Option<usize>>) -> Seq<Option<nat>> {
    Seq::new(
        counts.len(),
        |i: int|
            match counts[i] {
                Some(count) => Some(count as nat),
                None => None,
            },
    )
}

/// Offsets and validity of a list column, from the number of items of each row.
pub fn offsets_and_nulls(counts: &[Option<usize>]) -> (res: ListLayout)
    requires
        offsets_fit(count_values(counts@)),
    ensures
        res.deep_view() == layout_of(count_values(counts@)),
{
    let ghost all = count_values(counts@);
    let mut offsets: Vec<i32> = Vec::with_capacity(counts.len());
    let mut valid: Vec<bool> = Vec::with_capacity(counts.len());
    offsets.push(0);
    let mut total: i32 = 0;
    for i in 0..counts.len()
        invariant
            all == count_values(counts@),
            offsets_fit(all),
            total == items_before(all, i as int),
            offsets.len() == i + 1,
            valid.len() == i,
            forall|j: int| 0 <= j <= i ==> #[trigger] offsets@[j] == items_before(all, j),
            forall|j: int| 0 <= j < i ==> #[trigger] valid@[j] == (all[j] is Some),
    {
        proof {
            lemma_items_before_grows(all, i + 1, counts.len() as int);
        }
        if let Some(count) = counts[i] {
            total += count as i32;
            valid.push(true);
        } else {
            valid.push(false);
        }
        offsets.push(total);
    }
    proof {
        assert forall|j: int| 0 <= j <= counts.len() implies #[trigger] offsets@[j] == items_before(
            all,
            j,
        ) as i32 by {
            lemma_items_before_grows(all, j, counts.len() as int);
        }
        assert(offsets@ =~= layout_of(all).offsets);
        assert(valid@ =~= layout_of(all).valid);
    }
    ListLayout { offsets, valid }
}

/// Whether the items of a column can be counted by its offsets.
pub fn fit_offsets(counts: &[Option<usize>]) -> (res: bool)
    ensures
        res == offsets_fit(count_values(counts@)),
{
    let ghost all = count_values(counts@);
    let mut total: usize = 0;
    for i in 0..counts.len()
        invariant
            all == count_values(counts@),
            total == items_before(all, i as int),
            total <= i32::MAX,
    {
        if let Some(count) = counts[i] {
            if count > 2147483647 - total {
                proof {
                    lemma_items_before_grows(all, i + 1, counts.len() as int);
                }
                return false;
            }
            total += count;
        }
    }
    true
}

/// Optional values of one type, one per row.
#[derive(Debug, Clone)]
pub enum ScalarColumn {
    Int64(Vec<Option<i64>>),
    UInt64(Vec<Option<u64>>),
    Utf8(Vec<Option<String>>),
}

/// The value of a [`ScalarColumn`].
pub enum ScalarColumnView {
    Int64(Seq<Option<i64>>),
    UInt64(Seq<Option<u64>>),
    Utf8(Seq<Option<Seq<char>>>),
}

impl DeepView for ScalarColumn {
    type V = ScalarColumnView;

    open spec fn deep_view(&self) -> ScalarColumnView {
        match self {
            ScalarColumn::Int64(values) => ScalarColumnView::Int64(values@),
            ScalarColumn::UInt64(values) => ScalarColumnView::UInt64(values@),
            ScalarColumn::Utf8(values) => ScalarColumnView::Utf8(values.deep_view()),
        }
    }
}

/// A column of a result.
#[derive(Debug, Clone)]
pub enum Column {
    /// One value per row.
    Scalar(ScalarColumn),
    /// Lists, with the items of all rows.
    List(ListLayout, ScalarColumn),
    /// Structs, by their fields, and which of them are not null.
    Struct(Vec<ScalarColumn>, Vec<bool>),
    /// Lists of structs, with the structs of all rows by their fields.
    ListStruct(ListLayout, Vec<ScalarColumn>),
    /// Maps, with the entries of all rows: the keys and the values.
    TextMap(ListLayout, Vec<ScalarColumn>),
}

/// The value of a [`Column`].
pub enum ColumnView {
    Scalar(ScalarColumnView),
    List(ListLayoutView, ScalarColumnView),
    Struct(Seq<ScalarColumnView>, Seq<bool>),
    ListStruct(ListLayoutView, Seq<ScalarColumnView>),
    TextMap(ListLayoutView, Seq<ScalarColumnView>),
}

impl DeepView for Column {
    type V = ColumnView;

    open spec fn deep_view(&self) -> ColumnView {
        match self {
            Column::Scalar(values) => ColumnView::Scalar(values.deep_view()),
            Column::List(layout, items) => ColumnView::List(layout.deep_view(), items.deep_view()),
            Column::Struct(fields, valid) => ColumnView::Struct(fields.deep_view(), valid@),
            Column::ListStruct(layout, fields) => ColumnView::ListStruct(
                layout.deep_view(),
                fields.deep_view(),
            ),
            Column::TextMap(layout, fields) => ColumnView::TextMap(
                layout.deep_view(),
                fields.deep_view(),
            ),
        }
    }
}

/// The values as present values.
pub open spec fn all_some<T>(values: Seq<T>) -> Seq<Option<T>> {
    Seq::new(values.len(), |i: int| Some(values[i]))
}

/// A column of signed numbers.
pub open spec fn i64_column(rows: Seq<Option<i64>>) -> ColumnView {
    ColumnView::Scalar(ScalarColumnView::Int64(rows))
}

/// A column of unsigned numbers.
pub open spec fn u64_column(rows: Seq<Option<u64>>) -> ColumnView {
    ColumnView::Scalar(ScalarColumnView::UInt64(rows))
}

/// A column of strings.
pub open spec fn str_column(rows: Seq<Option<Seq<char>>>) -> ColumnView {
    ColumnView::Scalar(ScalarColumnView::Utf8(rows))
}

/// A column of lists of signed numbers.
pub open spec fn list_i64_column(rows: Seq<Option<Seq<i64>>>) -> ColumnView {
    ColumnView::List(
        layout_of(row_counts(rows)),
        ScalarColumnView::Int64(all_some(all_items(rows))),
    )
}

/// A column of lists of unsigned numbers.
pub open spec fn list_u64_column(rows: Seq<Option<Seq<u64>>>) -> ColumnView {
    ColumnView::List(
        layout_of(row_counts(rows)),
        ScalarColumnView::UInt64(all_some(all_items(rows))),
    )
}

/// Map entries by their fields.
pub open spec fn entry_fields(entries: Seq<(Seq<char>, Seq<char>)>) -> Seq<ScalarColumnView> {
    seq![
        ScalarColumnView::Utf8(Seq::new(entries.len(), |i: int| Some(entries[i].0))),
        ScalarColumnView::Utf8(Seq::new(entries.len(), |i: int| Some(entries[i].1))),
    ]
}

/// A column of maps.
pub open spec fn map_column(rows: Seq<Option<Seq<(Seq<char>, Seq<char>)>>>) -> ColumnView {
    ColumnView::TextMap(layout_of(row_counts(rows)), entry_fields(all_items(rows)))
}

/// A column of value types: the fields of a null row are null.
pub open spec fn value_type_struct_column(rows: Seq<Option<ValueTypeView>>) -> ColumnView {
    ColumnView::Struct(
        seq![
            ScalarColumnView::Utf8(
                Seq::new(
                    rows.len(),
                    |i: int|
                        match rows[i] {
                            Some(value_type) => Some(value_type.type_),
                            None => None,
                        },
                ),
            ),
            ScalarColumnView::Utf8(
                Seq::new(
                    rows.len(),
                    |i: int|
                        match rows[i] {
                            Some(value_type) => Some(value_type.unit),
                            None => None,
                        },
                ),
            ),
        ],
        Seq::new(rows.len(), |i: int| rows[i] is Some),
    )
}

/// Value types by their fields.
pub open spec fn value_type_fields_of(items: Seq<ValueTypeView>) -> Seq<ScalarColumnView> {
    seq![
        ScalarColumnView::Utf8(Seq::new(items.len(), |i: int| Some(items[i].type_))),
        ScalarColumnView::Utf8(Seq::new(items.len(), |i: int| Some(items[i].unit))),
    ]
}

/// A column of lists of value types.
pub open spec fn list_value_type_column(rows: Seq<Option<Seq<ValueTypeView>>>) -> ColumnView {
    ColumnView::ListStruct(layout_of(row_counts(rows)), value_type_fields_of(all_items(rows)))
}

/// Frames by their fields.
pub open spec fn frame_fields_of(items: Seq<FrameView>) -> Seq<ScalarColumnView> {
    seq![
        ScalarColumnView::Utf8(Seq::new(items.len(), |i: int| items[i].function)),
        ScalarColumnView::Utf8(Seq::new(items.len(), |i: int| items[i].filename)),
        ScalarColumnView::Int64(Seq::new(items.len(), |i: int| items[i].line)),
        ScalarColumnView::UInt64(Seq::new(items.len(), |i: int| Some(items[i].address))),
    ]
}

/// A column of lists of frames.
pub open spec fn list_frame_column(rows: Seq<Option<Seq<FrameView>>>) -> ColumnView {
    ColumnView::ListStruct(layout_of(row_counts(rows)), frame_fields_of(all_items(rows)))
}

/// Lines by their fields.
pub open spec fn lineref_fields_of(items: Seq<LineRef>) -> Seq<ScalarColumnView> {
    seq![
        ScalarColumnView::UInt64(Seq::new(items.len(), |i: int| Some(items[i].function_id))),
        ScalarColumnView::Int64(Seq::new(items.len(), |i: int| Some(items[i].line))),
    ]
}

/// A column of lists of lines.
pub open spec fn list_lineref_column(rows: Seq<Option<Seq<LineRef>>>) -> ColumnView {
    ColumnView::ListStruct(layout_of(row_counts(rows)), lineref_fields_of(all_items(rows)))
}

/// The number of items of each row.
pub fn item_counts<T: DeepView>(rows: &Vec<Option<Vec<T>>>) -> (res: Vec<Option<usize>>)
    ensures
        count_values(res@) == row_counts(rows.deep_view()),
{
    let mut counts: Vec<Option<usize>> = Vec::with_capacity(rows.len());
    for i in 0..rows.len()
        invariant
            counts.len() == i,
            forall|j: int|
                0 <= j < i ==> count_values(counts@)[j] == #[trigger] row_counts(
                    rows.deep_view(),
                )[j],
    {
        let count = match &rows[i] {
            Some(items) => Some(items.len()),
            None => None,
        };
        counts.push(count);
    }
    assert(count_values(counts@) =~= row_counts(rows.deep_view()));
    counts
}

fn flat<T: DeepView>(rows: Vec<Option<Vec<T>>>) -> (res: Vec<T>)
    ensures
        res.deep_view() == all_items(rows.deep_view()),
{
    let mut out: Vec<T> = Vec::new();
    let ghost all = rows.deep_view();
    let ghost lists = rows@;
    assert(out.deep_view() =~= all_items(all.take(0)));
    for row in it: rows
        invariant
            it.seq() == lists,
            lists.len() == all.len(),
            forall|i: int| 0 <= i < all.len() ==> all[i] == (#[trigger] lists[i]).deep_view(),
            out.deep_view() == all_items(all.take(it.index() as int)),
    {
        assert(all.take(it.index() + 1).drop_last() =~= all.take(it.index() as int));
        if let Some(items) = row {
            let mut items = items;
            let ghost before = out.deep_view();
            let ghost added = items.deep_view();
            out.append(&mut items);
            assert(out.deep_view() =~= before + added);
        }
    }
    assert(all.take(all.len() as int) =~= all);
    out
}

/// A column of lists of signed numbers. A `None` row is a null list.
pub fn list_i64_col(rows: Vec<Option<Vec<i64>>>) -> (res: Column)
    requires
        offsets_fit(row_counts(rows.deep_view())),
    ensures
        res.deep_view() == list_i64_column(rows.deep_view()),
{
    let layout = offsets_and_nulls(&item_counts(&rows));
    let items = flat(rows);
    let mut values: Vec<Option<i64>> = Vec::with_capacity(items.len());
    for i in 0..items.len()
        invariant
            values.len() == i,
            forall|j: int| 0 <= j < i ==> #[trigger] values@[j] == Some(items.deep_view()[j]),
    {
        values.push(Some(items[i]));
    }
    assert(values@ =~= all_some(items.deep_view()));
    Column::List(layout, ScalarColumn::Int64(values))
}

/// A column of lists of unsigned numbers. A `None` row is a null list.
pub fn list_u64_col(rows: Vec<Option<Vec<u64>>>) -> (res: Column)
    requires
        offsets_fit(row_counts(rows.deep_view())),
    ensures
        res.deep_view() == list_u64_column(rows.deep_view()),
{
    let layout = offsets_and_nulls(&item_counts(&rows));
    let items = flat(rows);
    let mut values: Vec<Option<u64>> = Vec::with_capacity(items.len());
    for i in 0..items.len()
        invariant
            values.len() == i,
            forall|j: int| 0 <= j < i ==> #[trigger] values@[j] == Some(items.deep_view()[j]),
    {
        values.push(Some(items[i]));
    }
    assert(values@ =~= all_some(items.deep_view()));
    Column::List(layout, ScalarColumn::UInt64(values))
}

fn split_entries(items: Vec<(String, String)>) -> (res: Vec<ScalarColumn>)
    ensures
        res.deep_view() == entry_fields(items.deep_view()),
{
    let ghost all = items.deep_view();
    let ghost elements = items@;
    let ghost parts = entry_fields(all);
    let mut keys: Vec<Option<String>> = Vec::with_capacity(items.len());
    let mut values: Vec<Option<String>> = Vec::with_capacity(items.len());
    for item in it: items
        invariant
            it.seq() == elements,
            elements.len() == all.len(),
            forall|i: int| 0 <= i < all.len() ==> all[i] == (#[trigger] elements[i]).deep_view(),
            parts == entry_fields(all),
            keys.deep_view() == parts[0]->Utf8_0.take(it.index() as int),
            values.deep_view() == parts[1]->Utf8_0.take(it.index() as int),
    {
        let ghost i = it.index();
        let (key, value) = item;
        lists::push_value(&mut keys, Some(key));
        assert(keys.deep_view() =~= parts[0]->Utf8_0.take(i + 1));
        lists::push_value(&mut values, Some(value));
        assert(values.deep_view() =~= parts[1]->Utf8_0.take(i + 1));
    }
    assert(keys.deep_view() =~= parts[0]->Utf8_0);
    assert(values.deep_view() =~= parts[1]->Utf8_0);
    let columns = vec![
        ScalarColumn::Utf8(keys),
        ScalarColumn::Utf8(values),
    ];
    assert(columns.deep_view() =~= parts);
    columns
}

/// A column of maps, from the key and value pairs of each row. A `None` row is a null map.
pub fn map_col(rows: Vec<Option<Vec<(String, String)>>>) -> (res: Column)
    requires
        offsets_fit(row_counts(rows.deep_view())),
    ensures
        res.deep_view() == map_column(rows.deep_view()),
{
    let layout = offsets_and_nulls(&item_counts(&rows));
    Column::TextMap(layout, split_entries(flat(rows)))
}

fn split_value_types(items: Vec<ValueType>) -> (res: Vec<ScalarColumn>)
    ensures
        res.deep_view() == value_type_fields_of(items.deep_view()),
{
    let ghost all = items.deep_view();
    let ghost elements = items@;
    let ghost parts = value_type_fields_of(all);
    let mut types: Vec<Option<String>> = Vec::with_capacity(items.len());
    let mut units: Vec<Option<String>> = Vec::with_capacity(items.len());
    for item in it: items
        invariant
            it.seq() == elements,
            elements.len() == all.len(),
            forall|i: int| 0 <= i < all.len() ==> all[i] == (#[trigger] elements[i]).deep_view(),
            parts == value_type_fields_of(all),
            types.deep_view() == parts[0]->Utf8_0.take(it.index() as int),
            units.deep_view() == parts[1]->Utf8_0.take(it.index() as int),
    {
        let ghost i = it.index();
        lists::push_value(&mut types, Some(item.type_));
        assert(types.deep_view() =~= parts[0]->Utf8_0.take(i + 1));
        lists::push_value(&mut units, Some(item.unit));
        assert(units.deep_view() =~= parts[1]->Utf8_0.take(i + 1));
    }
    assert(types.deep_view() =~= parts[0]->Utf8_0);
    assert(units.deep_view() =~= parts[1]->Utf8_0);
    let columns = vec![
        ScalarColumn::Utf8(types),
        ScalarColumn::Utf8(units),
    ];
    assert(columns.deep_view() =~= parts);
    columns
}

/// A column of lists of value types. A `None` row is a null list.
pub fn list_value_type_col(rows: Vec<Option<Vec<ValueType>>>) -> (res: Column)
    requires
        offsets_fit(row_counts(rows.deep_view())),
    ensures
        res.deep_view() == list_value_type_column(rows.deep_view()),
{
    let layout = offsets_and_nulls(&item_counts(&rows));
    Column::ListStruct(layout, split_value_types(flat(rows)))
}

fn split_frames(items: Vec<Frame>) -> (res: Vec<ScalarColumn>)
    ensures
        res.deep_view() == frame_fields_of(items.deep_view()),
{
    let ghost all = items.deep_view();
    let ghost elements = items@;
    let ghost parts = frame_fields_of(all);
    let mut functions: Vec<Option<String>> = Vec::with_capacity(items.len());
    let mut filenames: Vec<Option<String>> = Vec::with_capacity(items.len());
    let mut lines: Vec<Option<i64>> = Vec::with_capacity(items.len());
    let mut addresses: Vec<Option<u64>> = Vec::with_capacity(items.len());
    for item in it: items
        invariant
            it.seq() == elements,
            elements.len() == all.len(),
            forall|i: int| 0 <= i < all.len() ==> all[i] == (#[trigger] elements[i]).deep_view(),
            parts == frame_fields_of(all),
            functions.deep_view() == parts[0]->Utf8_0.take(it.index() as int),
            filenames.deep_view() == parts[1]->Utf8_0.take(it.index() as int),
            lines@ == parts[2]->Int64_0.take(it.index() as int),
            addresses@ == parts[3]->UInt64_0.take(it.index() as int),
    {
        let ghost i = it.index();
        lists::push_value(&mut functions, item.function);
        assert(functions.deep_view() =~= parts[0]->Utf8_0.take(i + 1));
        lists::push_value(&mut filenames, item.filename);
        assert(filenames.deep_view() =~= parts[1]->Utf8_0.take(i + 1));
        lines.push(item.line);
        assert(lines@ =~= parts[2]->Int64_0.take(i + 1));
        addresses.push(Some(item.address));
        assert(addresses@ =~= parts[3]->UInt64_0.take(i + 1));
    }
    assert(functions.deep_view() =~= parts[0]->Utf8_0);
    assert(filenames.deep_view() =~= parts[1]->Utf8_0);
    assert(lines@ =~= parts[2]->Int64_0);
    assert(addresses@ =~= parts[3]->UInt64_0);
    let columns = vec![
        ScalarColumn::Utf8(functions),
        ScalarColumn::Utf8(filenames),
        ScalarColumn::Int64(lines),
        ScalarColumn::UInt64(addresses),
    ];
    assert(columns.deep_view() =~= parts);
    columns
}

/// A column of lists of frames. A `None` row is a null list.
pub fn list_frame_col(rows: Vec<Option<Vec<Frame>>>) -> (res: Column)
    requires
        offsets_fit(row_counts(rows.deep_view())),
    ensures
        res.deep_view() == list_frame_column(rows.deep_view()),
{
    let layout = offsets_and_nulls(&item_counts(&rows));
    Column::ListStruct(layout, split_frames(flat(rows)))
}

fn split_linerefs(items: Vec<LineRef>) -> (res: Vec<ScalarColumn>)
    ensures
        res.deep_view() == lineref_fields_of(items.deep_view()),
{
    let ghost all = items.deep_view();
    let ghost elements = items@;
    let ghost parts = lineref_fields_of(all);
    let mut function_ids: Vec<Option<u64>> = Vec::with_capacity(items.len());
    let mut lines: Vec<Option<i64>> = Vec::with_capacity(items.len());
    for item in it: items
        invariant
            it.seq() == elements,
            elements.len() == all.len(),
            forall|i: int| 0 <= i < all.len() ==> all[i] == (#[trigger] elements[i]).deep_view(),
            parts == lineref_fields_of(all),
            function_ids@ == parts[0]->UInt64_0.take(it.index() as int),
            lines@ == parts[1]->Int64_0.take(it.index() as int),
    {
        let ghost i = it.index();
        function_ids.push(Some(item.function_id));
        assert(function_ids@ =~= parts[0]->UInt64_0.take(i + 1));
        lines.push(Some(item.line));
        assert(lines@ =~= parts[1]->Int64_0.take(i + 1));
    }
    assert(function_ids@ =~= parts[0]->UInt64_0);
    assert(lines@ =~= parts[1]->Int64_0);
    let columns = vec![
        ScalarColumn::UInt64(function_ids),
        ScalarColumn::Int64(lines),
    ];
    assert(columns.deep_view() =~= parts);
    columns
}

/// A column of lists of lines. A `None` row is a null list.
pub fn list_lineref_col(rows: Vec<Option<Vec<LineRef>>>) -> (res: Column)
    requires
        offsets_fit(row_counts(rows.deep_view())),
    ensures
        res.deep_view() == list_lineref_column(rows.deep_view()),
{
    let layout = offsets_and_nulls(&item_counts(&rows));
    Column::ListStruct(layout, split_linerefs(flat(rows)))
}

/// A column of value types. A `None` row is a null struct.
pub fn value_type_struct_col(rows: Vec<Option<ValueType>>) -> (res: Column)
    ensures
        res.deep_view() == value_type_struct_column(rows.deep_view()),
{
    let ghost all = rows.deep_view();
    let ghost elements = rows@;
    let ghost column = value_type_struct_column(all);
    let mut types: Vec<Option<String>> = Vec::with_capacity(rows.len());
    let mut units: Vec<Option<String>> = Vec::with_capacity(rows.len());
    let mut valid: Vec<bool> = Vec::with_capacity(rows.len());
    for row in it: rows
        invariant
            it.seq() == elements,
            elements.len() == all.len(),
            forall|i: int| 0 <= i < all.len() ==> all[i] == (#[trigger] elements[i]).deep_view(),
            column == value_type_struct_column(all),
            types.deep_view() == column->Struct_0[0]->Utf8_0.take(it.index() as int),
            units.deep_view() == column->Struct_0[1]->Utf8_0.take(it.index() as int),
            valid@ == column->Struct_1.take(it.index() as int),
    {
        let ghost i = it.index();
        match row {
            Some(value_type) => {
                lists::push_value(&mut types, Some(value_type.type_));
                lists::push_value(&mut units, Some(value_type.unit));
                valid.push(true);
            },
            None => {
                lists::push_value(&mut types, None);
                lists::push_value(&mut units, None);
                valid.push(false);
            },
        }
        assert(types.deep_view() =~= column->Struct_0[0]->Utf8_0.take(i + 1));
        assert(units.deep_view() =~= column->Struct_0[1]->Utf8_0.take(i + 1));
        assert(valid@ =~= column->Struct_1.take(i + 1));
    }
    assert(types.deep_view() =~= column->Struct_0[0]->Utf8_0);
    assert(units.deep_view() =~= column->Struct_0[1]->Utf8_0);
    assert(valid@ =~= column->Struct_1);
    let fields = vec![ScalarColumn::Utf8(types), ScalarColumn::Utf8(units)];
    assert(fields.deep_view() =~= column->Struct_0);
    Column::Struct(fields, valid)
}

/// A column of signed numbers.
pub fn i64_col(rows: Vec<Option<i64>>) -> (res: Column)
    ensures
        res.deep_view() == i64_column(rows@),
{
    Column::Scalar(ScalarColumn::Int64(rows))
}

/// A column of unsigned numbers.
pub fn u64_col(rows: Vec<Option<u64>>) -> (res: Column)
    ensures
        res.deep_view() == u64_column(rows@),
{
    Column::Scalar(ScalarColumn::UInt64(rows))
}

/// A column of strings.
pub fn str_col(rows: Vec<Option<String>>) -> (res: Column)
    ensures
        res.deep_view() == str_column(rows.deep_view()),
{
    Column::Scalar(ScalarColumn::Utf8(rows))
}

} // verus!
