//! Laws of Arrow cells, over the functions of [`crate::cells`] and [`crate::columns`]: a column
//! holds its rows.

use vstd::prelude::*;

use crate::arrow;
use crate::cells;
use crate::columns;
use crate::laws::tables;
use crate::rows::{FrameView, LineRef, ValueTypeView};

verus! {

/// A column of lists of signed numbers holds its rows.
pub proof fn law_list_i64_column_holds_its_rows(rows: Seq<Option<Seq<i64>>>, i: int)
    requires
        columns::offsets_fit(columns::row_counts(rows)),
        0 <= i < rows.len(),
    ensures
        arrow::column_cells(columns::list_i64_column(rows))[i] == cells::list_i64_cell(rows[i]),
{
    let all = columns::all_items(rows);
    let layout = columns::layout_of(columns::row_counts(rows));
    let items = arrow::scalar_cells(columns::ScalarColumnView::Int64(columns::all_some(all)));
    tables::lemma_items_stand_at_offsets(rows, i);
    if rows[i] is Some {
        assert(cells::list_i64_cell(rows[i])->List_0 =~= items.subrange(
            layout.offsets[i] as int,
            layout.offsets[i + 1] as int,
        ));
    }
}

/// A column of lists of unsigned numbers holds its rows.
pub proof fn law_list_u64_column_holds_its_rows(rows: Seq<Option<Seq<u64>>>, i: int)
    requires
        columns::offsets_fit(columns::row_counts(rows)),
        0 <= i < rows.len(),
    ensures
        arrow::column_cells(columns::list_u64_column(rows))[i] == cells::list_u64_cell(rows[i]),
{
    let all = columns::all_items(rows);
    let layout = columns::layout_of(columns::row_counts(rows));
    let items = arrow::scalar_cells(columns::ScalarColumnView::UInt64(columns::all_some(all)));
    tables::lemma_items_stand_at_offsets(rows, i);
    if rows[i] is Some {
        assert(cells::list_u64_cell(rows[i])->List_0 =~= items.subrange(
            layout.offsets[i] as int,
            layout.offsets[i + 1] as int,
        ));
    }
}

/// A column of lists of value types holds its rows.
pub proof fn law_list_value_type_column_holds_its_rows(
    rows: Seq<Option<Seq<ValueTypeView>>>,
    i: int,
)
    requires
        columns::offsets_fit(columns::row_counts(rows)),
        0 <= i < rows.len(),
    ensures
        arrow::column_cells(
            columns::list_value_type_column(rows),
        )[i] == cells::list_value_type_cell(rows[i]),
{
    let all = columns::all_items(rows);
    let layout = columns::layout_of(columns::row_counts(rows));
    let items = arrow::struct_cells(
        arrow::part_cells(columns::value_type_fields_of(all)),
        None,
        all.len(),
    );
    let parts = arrow::part_cells(columns::value_type_fields_of(all));
    assert forall|j: int| 0 <= j < all.len() implies #[trigger] items[j]
        == cells::value_type_struct(all[j]) by {
        assert(Seq::new(parts.len(), |k: int| parts[k][j])
            =~= cells::value_type_struct(all[j])->Struct_0);
    }
    tables::lemma_items_stand_at_offsets(rows, i);
    if rows[i] is Some {
        assert(cells::list_value_type_cell(rows[i])->List_0 =~= items.subrange(
            layout.offsets[i] as int,
            layout.offsets[i + 1] as int,
        ));
    }
}

/// A column of lists of frames holds its rows.
pub proof fn law_list_frame_column_holds_its_rows(rows: Seq<Option<Seq<FrameView>>>, i: int)
    requires
        columns::offsets_fit(columns::row_counts(rows)),
        0 <= i < rows.len(),
    ensures
        arrow::column_cells(columns::list_frame_column(rows))[i] == cells::list_frame_cell(rows[i]),
{
    let all = columns::all_items(rows);
    let layout = columns::layout_of(columns::row_counts(rows));
    let items = arrow::struct_cells(
        arrow::part_cells(columns::frame_fields_of(all)),
        None,
        all.len(),
    );
    let parts = arrow::part_cells(columns::frame_fields_of(all));
    assert forall|j: int| 0 <= j < all.len() implies #[trigger] items[j] == cells::frame_struct(
        all[j],
    ) by {
        assert(Seq::new(parts.len(), |k: int| parts[k][j])
            =~= cells::frame_struct(all[j])->Struct_0);
    }
    tables::lemma_items_stand_at_offsets(rows, i);
    if rows[i] is Some {
        assert(cells::list_frame_cell(rows[i])->List_0 =~= items.subrange(
            layout.offsets[i] as int,
            layout.offsets[i + 1] as int,
        ));
    }
}

/// A column of lists of lines holds its rows.
pub proof fn law_list_lineref_column_holds_its_rows(rows: Seq<Option<Seq<LineRef>>>, i: int)
    requires
        columns::offsets_fit(columns::row_counts(rows)),
        0 <= i < rows.len(),
    ensures
        arrow::column_cells(
            columns::list_lineref_column(rows),
        )[i] == cells::list_lineref_cell(rows[i]),
{
    let all = columns::all_items(rows);
    let layout = columns::layout_of(columns::row_counts(rows));
    let items = arrow::struct_cells(
        arrow::part_cells(columns::lineref_fields_of(all)),
        None,
        all.len(),
    );
    let parts = arrow::part_cells(columns::lineref_fields_of(all));
    assert forall|j: int| 0 <= j < all.len() implies #[trigger] items[j] == cells::lineref_struct(
        all[j],
    ) by {
        assert(Seq::new(parts.len(), |k: int| parts[k][j])
            =~= cells::lineref_struct(all[j])->Struct_0);
    }
    tables::lemma_items_stand_at_offsets(rows, i);
    if rows[i] is Some {
        assert(cells::list_lineref_cell(rows[i])->List_0 =~= items.subrange(
            layout.offsets[i] as int,
            layout.offsets[i + 1] as int,
        ));
    }
}

/// A column of maps holds its rows.
pub proof fn law_map_column_holds_its_rows(rows: Seq<Option<Seq<(Seq<char>, Seq<char>)>>>, i: int)
    requires
        columns::offsets_fit(columns::row_counts(rows)),
        0 <= i < rows.len(),
    ensures
        arrow::column_cells(columns::map_column(rows))[i] == cells::map_cell(rows[i]),
{
    let all = columns::all_items(rows);
    let layout = columns::layout_of(columns::row_counts(rows));
    let items = arrow::struct_cells(arrow::part_cells(columns::entry_fields(all)), None, all.len());
    let parts = arrow::part_cells(columns::entry_fields(all));
    assert forall|j: int| 0 <= j < all.len() implies #[trigger] items[j] == cells::entry_struct(
        all[j],
    ) by {
        assert(Seq::new(parts.len(), |k: int| parts[k][j])
            =~= cells::entry_struct(all[j])->Struct_0);
    }
    tables::lemma_items_stand_at_offsets(rows, i);
    if rows[i] is Some {
        assert(cells::map_cell(rows[i])->Entries_0 =~= items.subrange(
            layout.offsets[i] as int,
            layout.offsets[i + 1] as int,
        ));
    }
}

/// A column of value types holds its rows.
pub proof fn law_value_type_struct_column_holds_its_rows(
    rows: Seq<Option<ValueTypeView>>,
    i: int,
)
    requires
        0 <= i < rows.len(),
    ensures
        arrow::column_cells(columns::value_type_struct_column(rows))[i]
            == cells::value_type_struct_cell(rows[i]),
{
    let column = columns::value_type_struct_column(rows);
    let parts = arrow::part_cells(column->Struct_0);
    if let Some(value) = rows[i] {
        assert(Seq::new(parts.len(), |k: int| parts[k][i])
            =~= cells::value_type_struct(value)->Struct_0);
    }
}

} // verus!
