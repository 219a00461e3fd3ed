//! Laws of the flattened rows, over the functions of [`crate::flatten`] and
//! [`crate::decoded`].

use vstd::prelude::*;

use crate::decoded;
use crate::flatten;
use crate::gzip;
use crate::proto::{LocationView, ProfileView, SampleView};
use crate::rows::{FrameView, FunctionRowView, LineRef, LocationRowView};

verus! {

/// Gzip-wrapped bytes decode as their contents do on their own. Contents that are empty, or
/// that look gzip-wrapped again, are left out: on their own they are not read as a message.
pub proof fn law_gzip_and_raw_decode_alike(bytes: Seq<u8>, raw: Seq<u8>)
    requires
        gzip::has_gzip_magic(bytes),
        gzip::gzip_contents(bytes) == Ok::<Seq<u8>, Seq<char>>(raw),
        raw.len() > 0,
        !gzip::has_gzip_magic(raw),
    ensures
        decoded::profile_in(bytes) == decoded::profile_in(raw),
{
}

/// The resolved and the raw rows of a sample have the same id, values and labels, and ids
/// count from one. A decoded profile has no more samples than that, as
/// [`crate::decoded::Decoded::stacks`] says.
pub proof fn law_stacks_join_samples(p: ProfileView)
    requires
        p.sample.len() <= i64::MAX,
    ensures
        flatten::stack_rows(p).len() == flatten::sample_rows(p).len() == p.sample.len(),
        forall|i: int|
            #![trigger flatten::stack_rows(p)[i]]
            #![trigger flatten::sample_rows(p)[i]]
            0 <= i < p.sample.len() ==> {
                &&& flatten::stack_rows(p)[i].sample_id == i + 1
                &&& flatten::sample_rows(p)[i].sample_id == i + 1
                &&& flatten::stack_rows(p)[i].value == flatten::sample_rows(p)[i].value
                &&& flatten::stack_rows(p)[i].labels == flatten::sample_rows(p)[i].labels
            },
{
}

/// Where each sample of a profile has one value per sample type, the values of each row
/// stand beside the sample types of the metadata, in the profile's order.
pub proof fn law_values_align_with_sample_types(p: ProfileView, i: int, k: int)
    requires
        0 <= i < p.sample.len(),
        p.sample[i].value.len() == p.sample_type.len(),
        0 <= k < p.sample_type.len(),
    ensures
        flatten::stack_rows(p)[i].value.len() == flatten::meta_of(p).sample_types.len(),
        flatten::stack_rows(p)[i].value[k] == p.sample[i].value[k],
        flatten::meta_of(p).sample_types[k] == flatten::value_type_of(p, p.sample_type[k]),
{
}

/// Ids are never renumbered: every row has the ids of the profile, so the tables join.
pub proof fn law_ids_pass_through(p: ProfileView)
    ensures
        flatten::function_rows(p).len() == p.function.len(),
        forall|i: int|
            0 <= i < p.function.len() ==> (#[trigger] flatten::function_rows(p)[i]).function_id
                == p.function[i].id,
        flatten::location_rows(p).len() == p.location.len(),
        forall|i: int|
            0 <= i < p.location.len() ==> {
                let row = #[trigger] flatten::location_rows(p)[i];
                &&& row.location_id == p.location[i].id
                &&& row.mapping_id == p.location[i].mapping_id
                &&& row.lines.len() == p.location[i].line.len()
                &&& forall|j: int|
                    0 <= j < row.lines.len() ==> (#[trigger] row.lines[j]).function_id
                        == p.location[i].line[j].function_id
            },
        flatten::mapping_rows(p).len() == p.mapping.len(),
        forall|i: int|
            0 <= i < p.mapping.len() ==> (#[trigger] flatten::mapping_rows(p)[i]).mapping_id
                == p.mapping[i].id,
        forall|i: int|
            0 <= i < p.sample.len() ==> (#[trigger] flatten::sample_rows(p)[i]).location_ids
                == p.sample[i].location_id,
{
}

/// The last function row with an id.
pub open spec fn function_row_with(rows: Seq<FunctionRowView>, id: u64) -> Option<FunctionRowView>
    decreases rows.len(),
{
    if rows.len() == 0 {
        None
    } else if rows.last().function_id == id {
        Some(rows.last())
    } else {
        function_row_with(rows.drop_last(), id)
    }
}

/// The last location row with an id.
pub open spec fn location_row_with(rows: Seq<LocationRowView>, id: u64) -> Option<LocationRowView>
    decreases rows.len(),
{
    if rows.len() == 0 {
        None
    } else if rows.last().location_id == id {
        Some(rows.last())
    } else {
        location_row_with(rows.drop_last(), id)
    }
}

/// The frame of a line of a location row, with the function row that it names.
pub open spec fn joined_frame(
    functions: Seq<FunctionRowView>,
    line: LineRef,
    address: u64,
) -> FrameView {
    match function_row_with(functions, line.function_id) {
        Some(f) => FrameView {
            function: f.name,
            filename: f.filename,
            line: Some(line.line),
            address,
        },
        None => FrameView { function: None, filename: None, line: Some(line.line), address },
    }
}

/// The frames of a location id, by way of the location rows and the function rows.
pub open spec fn joined_location(
    locations: Seq<LocationRowView>,
    functions: Seq<FunctionRowView>,
    id: u64,
) -> Seq<FrameView> {
    match location_row_with(locations, id) {
        None => seq![flatten::bare_frame(0)],
        Some(row) => if row.lines.len() == 0 {
            seq![flatten::bare_frame(row.address)]
        } else {
            Seq::new(
                row.lines.len(),
                |i: int| joined_frame(functions, row.lines[i], row.address),
            )
        },
    }
}

/// The frames of a stack of location ids, by way of the location rows and the function rows.
pub open spec fn joined_stack(
    locations: Seq<LocationRowView>,
    functions: Seq<FunctionRowView>,
    ids: Seq<u64>,
) -> Seq<FrameView>
    decreases ids.len(),
{
    if ids.len() == 0 {
        Seq::empty()
    } else {
        joined_stack(locations, functions, ids.drop_last()) + joined_location(
            locations,
            functions,
            ids.last(),
        )
    }
}

proof fn lemma_function_row_with(p: ProfileView, n: int, id: u64)
    requires
        0 <= n <= p.function.len(),
    ensures
        match flatten::last_position(flatten::function_ids(p.function).take(n), id) {
            Some(i) => 0 <= i < n && function_row_with(flatten::function_rows(p).take(n), id)
                == Some(flatten::function_row(p, i)),
            None => function_row_with(flatten::function_rows(p).take(n), id) is None,
        },
    decreases n,
{
    if n > 0 {
        lemma_function_row_with(p, n - 1, id);
        assert(flatten::function_ids(p.function).take(n).drop_last() =~= flatten::function_ids(
            p.function,
        ).take(n - 1));
        assert(flatten::function_rows(p).take(n).drop_last() =~= flatten::function_rows(p).take(
            n - 1,
        ));
    }
}

proof fn lemma_location_row_with(p: ProfileView, n: int, id: u64)
    requires
        0 <= n <= p.location.len(),
    ensures
        match flatten::last_position(flatten::location_ids(p.location).take(n), id) {
            Some(i) => 0 <= i < n && location_row_with(flatten::location_rows(p).take(n), id)
                == Some(flatten::location_row(p, i)),
            None => location_row_with(flatten::location_rows(p).take(n), id) is None,
        },
    decreases n,
{
    if n > 0 {
        lemma_location_row_with(p, n - 1, id);
        assert(flatten::location_ids(p.location).take(n).drop_last() =~= flatten::location_ids(
            p.location,
        ).take(n - 1));
        assert(flatten::location_rows(p).take(n).drop_last() =~= flatten::location_rows(p).take(
            n - 1,
        ));
    }
}

proof fn lemma_joined_frame(p: ProfileView, location: LocationView, j: int)
    requires
        0 <= j < location.line.len(),
    ensures
        joined_frame(
            flatten::function_rows(p),
            flatten::line_ref(location.line[j]),
            location.address,
        ) == flatten::line_frame(p, location.line[j], location.address),
{
    lemma_function_row_with(p, p.function.len() as int, location.line[j].function_id);
    assert(flatten::function_ids(p.function).take(p.function.len() as int)
        =~= flatten::function_ids(p.function));
    assert(flatten::function_rows(p).take(p.function.len() as int) =~= flatten::function_rows(p));
}

proof fn lemma_joined_location(p: ProfileView, id: u64)
    ensures
        joined_location(flatten::location_rows(p), flatten::function_rows(p), id)
            == flatten::location_frames(p, id),
{
    lemma_location_row_with(p, p.location.len() as int, id);
    assert(flatten::location_ids(p.location).take(p.location.len() as int)
        =~= flatten::location_ids(p.location));
    assert(flatten::location_rows(p).take(p.location.len() as int) =~= flatten::location_rows(p));
    if let Some(location) = flatten::location_at(p, id) {
        assert forall|j: int| 0 <= j < location.line.len() implies #[trigger] joined_frame(
            flatten::function_rows(p),
            flatten::line_ref(location.line[j]),
            location.address,
        ) == flatten::line_frame(p, location.line[j], location.address) by {
            lemma_joined_frame(p, location, j);
        }
        assert(joined_location(flatten::location_rows(p), flatten::function_rows(p), id)
            =~= flatten::location_frames(p, id));
    }
}

proof fn lemma_joined_stack(p: ProfileView, ids: Seq<u64>)
    ensures
        joined_stack(flatten::location_rows(p), flatten::function_rows(p), ids)
            == flatten::stack_frames(p, ids),
    decreases ids.len(),
{
    if ids.len() > 0 {
        lemma_joined_stack(p, ids.drop_last());
        lemma_joined_location(p, ids.last());
    }
}

/// The frames of a resolved row are what the raw row gives when it is joined by hand with the
/// location table and the function table.
pub proof fn law_stack_frames_are_the_join(p: ProfileView, i: int)
    requires
        0 <= i < p.sample.len(),
    ensures
        flatten::stack_rows(p)[i].frames == joined_stack(
            flatten::location_rows(p),
            flatten::function_rows(p),
            flatten::sample_rows(p)[i].location_ids,
        ),
{
    lemma_joined_stack(p, p.sample[i].location_id);
}

/// Frames keep the order of the locations: the frames of a stack are those of its front part,
/// leaf first, followed by those of the rest.
pub proof fn law_frames_keep_stack_order(p: ProfileView, front: Seq<u64>, rest: Seq<u64>)
    ensures
        flatten::stack_frames(p, front + rest) == flatten::stack_frames(p, front)
            + flatten::stack_frames(p, rest),
    decreases rest.len(),
{
    if rest.len() == 0 {
        assert(front + rest =~= front);
        assert(flatten::stack_frames(p, front) + flatten::stack_frames(p, rest)
            =~= flatten::stack_frames(p, front));
    } else {
        law_frames_keep_stack_order(p, front, rest.drop_last());
        assert((front + rest).drop_last() =~= front + rest.drop_last());
        assert(flatten::stack_frames(p, front + rest) =~= flatten::stack_frames(p, front)
            + flatten::stack_frames(p, rest));
    }
}

/// Every location of a stack has at least one frame, and all its frames have its address. One
/// without lines has a single frame without function, file and line.
pub proof fn law_frames_keep_addresses(p: ProfileView, id: u64)
    ensures
        flatten::location_frames(p, id).len() >= 1,
        match flatten::location_at(p, id) {
            Some(location) => {
                &&& forall|j: int|
                    0 <= j < flatten::location_frames(p, id).len()
                        ==> (#[trigger] flatten::location_frames(p, id)[j]).address
                        == location.address
                &&& location.line.len() == 0 ==> flatten::location_frames(p, id)
                    == seq![flatten::bare_frame(location.address)]
                &&& location.line.len() > 0 ==> flatten::location_frames(p, id).len()
                    == location.line.len()
            },
            None => flatten::location_frames(p, id) == seq![flatten::bare_frame(0)],
        },
{
}

/// A resolved string is a non-empty string of the table, at the index that was asked for.
pub proof fn law_strings_come_from_the_table(p: ProfileView, index: i64)
    ensures
        flatten::text_at(p, index) is Some <==> 0 < index < p.string_table.len()
            && p.string_table[index as int].len() > 0,
        flatten::text_at(p, index) matches Some(text) ==> text == p.string_table[index as int],
{
}

proof fn lemma_first_of_each_key(pairs: Seq<(Seq<char>, Seq<char>)>)
    ensures
        forall|a: int, b: int|
            0 <= a < b < flatten::first_of_each_key(pairs).len() ==> (
            #[trigger] flatten::first_of_each_key(pairs)[a]).0 != (
            #[trigger] flatten::first_of_each_key(pairs)[b]).0,
        forall|a: int|
            0 <= a < flatten::first_of_each_key(pairs).len() ==> exists|i: int|
                0 <= i < pairs.len() && #[trigger] pairs[i] == (
                #[trigger] flatten::first_of_each_key(pairs)[a]) && !flatten::has_key(
                    pairs.take(i),
                    pairs[i].0,
                ),
        forall|i: int|
            0 <= i < pairs.len() ==> flatten::has_key(
                flatten::first_of_each_key(pairs),
                (#[trigger] pairs[i]).0,
            ),
    decreases pairs.len(),
{
    if pairs.len() > 0 {
        let front = pairs.drop_last();
        lemma_first_of_each_key(front);
        let kept = flatten::first_of_each_key(front);
        let all = flatten::first_of_each_key(pairs);
        let last = pairs.len() - 1;
        assert forall|i: int| 0 <= i < pairs.len() implies flatten::has_key(
            all,
            (#[trigger] pairs[i]).0,
        ) by {
            if i < last {
                assert(front[i] == pairs[i]);
                let a = choose|a: int| 0 <= a < kept.len() && #[trigger] kept[a].0 == pairs[i].0;
                assert(all[a].0 == pairs[i].0);
            } else if !flatten::has_key(kept, pairs.last().0) {
                assert(all[all.len() - 1].0 == pairs[i].0);
            }
        }
        assert forall|a: int| 0 <= a < all.len() implies exists|i: int|
            0 <= i < pairs.len() && #[trigger] pairs[i] == (#[trigger] all[a]) && !flatten::has_key(
                pairs.take(i),
                pairs[i].0,
            ) by {
            if a < kept.len() {
                assert(kept[a] == all[a]);
                let i = choose|i: int|
                    0 <= i < front.len() && #[trigger] front[i] == kept[a] && !flatten::has_key(
                        front.take(i),
                        front[i].0,
                    );
                assert(pairs.take(i) =~= front.take(i));
                assert(pairs[i] == all[a]);
            } else {
                assert(pairs.take(last) =~= front);
                if flatten::has_key(front, pairs[last].0) {
                    let i = choose|i: int|
                        0 <= i < front.len() && #[trigger] front[i].0 == pairs[last].0;
                    assert(flatten::has_key(kept, front[i].0));
                }
                assert(pairs[last] == all[a]);
            }
        }
    }
}

/// The labels of a row are a map: no key occurs twice, every key of the sample occurs, and
/// each pair is the first of its key.
pub proof fn law_labels_are_a_map(p: ProfileView, sample: SampleView)
    ensures
        forall|a: int, b: int|
            0 <= a < b < flatten::labels_of(p, sample).len() ==> (
            #[trigger] flatten::labels_of(p, sample)[a]).0 != (
            #[trigger] flatten::labels_of(p, sample)[b]).0,
        forall|i: int|
            0 <= i < sample.label.len() ==> flatten::has_key(
                flatten::labels_of(p, sample),
                flatten::text_or_empty(p, (#[trigger] sample.label[i]).key),
            ),
        forall|a: int|
            0 <= a < flatten::labels_of(p, sample).len() ==> exists|i: int|
                0 <= i < sample.label.len() && (#[trigger] flatten::labels_of(p, sample)[a])
                    == flatten::label_pair(p, #[trigger] sample.label[i]) && forall|k: int|
                    0 <= k < i ==> flatten::text_or_empty(p, (#[trigger] sample.label[k]).key)
                        != flatten::text_or_empty(p, sample.label[i].key),
{
    let pairs = flatten::label_pairs(p, sample.label);
    lemma_first_of_each_key(pairs);
    assert forall|i: int| 0 <= i < sample.label.len() implies flatten::has_key(
        flatten::labels_of(p, sample),
        flatten::text_or_empty(p, (#[trigger] sample.label[i]).key),
    ) by {
        assert(pairs[i].0 == flatten::text_or_empty(p, sample.label[i].key));
    }
    assert forall|a: int| 0 <= a < flatten::labels_of(p, sample).len() implies exists|i: int|
        0 <= i < sample.label.len() && (#[trigger] flatten::labels_of(p, sample)[a])
            == flatten::label_pair(p, #[trigger] sample.label[i]) && forall|k: int|
            0 <= k < i ==> flatten::text_or_empty(p, (#[trigger] sample.label[k]).key)
                != flatten::text_or_empty(p, sample.label[i].key) by {
        let i = choose|i: int|
            0 <= i < pairs.len() && #[trigger] pairs[i] == flatten::labels_of(p, sample)[a]
                && !flatten::has_key(pairs.take(i), pairs[i].0);
        assert(sample.label[i] == sample.label[i]);
        assert forall|k: int| 0 <= k < i implies flatten::text_or_empty(
            p,
            (#[trigger] sample.label[k]).key,
        ) != flatten::text_or_empty(p, sample.label[i].key) by {
            assert(pairs.take(i)[k].0 == flatten::text_or_empty(p, sample.label[k].key));
        }
    }
}

} // verus!
