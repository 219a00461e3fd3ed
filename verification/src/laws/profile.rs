//! Laws of the rows of a profile, each stated over the profile itself: its tables, its indices
//! and its string table.

use vstd::prelude::*;

use crate::flatten;
use crate::laws::rows;
use crate::proto;
use crate::proto::{Label, ProfileView, SampleView};
use crate::text;

verus! {

/// Whether this is what an index into the string table stands for: a string that is not empty,
/// or nothing where the index is zero, negative or beyond the table, or the string is empty.
pub open spec fn is_string_at(p: ProfileView, index: i64, found: Option<Seq<char>>) -> bool {
    match found {
        Some(t) => {
            &&& 0 < index < p.string_table.len()
            &&& p.string_table[index as int] == t
            &&& t.len() > 0
        },
        None => {
            ||| index <= 0
            ||| index >= p.string_table.len()
            ||| p.string_table[index as int].len() == 0
        },
    }
}

/// Whether this is the string at an index, or the empty text where there is none.
pub open spec fn is_text_at(p: ProfileView, index: i64, found: Seq<char>) -> bool {
    if 0 < index < p.string_table.len() {
        found == p.string_table[index as int]
    } else {
        found.len() == 0
    }
}

/// Every row of the function table has the id and the start line of its function, and the
/// strings at its three indices: the human-readable name, the name in the binary and the file.
pub proof fn law_function_rows_hold_the_functions(p: ProfileView, i: int)
    requires
        0 <= i < p.function.len(),
    ensures
        flatten::function_rows(p).len() == p.function.len(),
        flatten::function_rows(p)[i].function_id == p.function[i].id,
        is_string_at(p, p.function[i].name, flatten::function_rows(p)[i].name),
        is_string_at(p, p.function[i].system_name, flatten::function_rows(p)[i].system_name),
        is_string_at(p, p.function[i].filename, flatten::function_rows(p)[i].filename),
        flatten::function_rows(p)[i].start_line == p.function[i].start_line,
{
}

/// Every row of the location table has the id, the address and the mapping of its location, and
/// the function id and the number of each of its lines, in order.
pub proof fn law_location_rows_hold_the_locations(p: ProfileView, i: int)
    requires
        0 <= i < p.location.len(),
    ensures
        flatten::location_rows(p).len() == p.location.len(),
        flatten::location_rows(p)[i].location_id == p.location[i].id,
        flatten::location_rows(p)[i].address == p.location[i].address,
        flatten::location_rows(p)[i].mapping_id == p.location[i].mapping_id,
        flatten::location_rows(p)[i].lines.len() == p.location[i].line.len(),
        forall|j: int|
            0 <= j < p.location[i].line.len() ==> {
                let line = #[trigger] flatten::location_rows(p)[i].lines[j];
                &&& line.function_id == p.location[i].line[j].function_id
                &&& line.line == p.location[i].line[j].line
            },
{
}

/// Every row of the mapping table has the id, the addresses and the offset of its mapping, and
/// the strings at its two indices: the file, and the build id as it stands in the table.
pub proof fn law_mapping_rows_hold_the_mappings(p: ProfileView, i: int)
    requires
        0 <= i < p.mapping.len(),
    ensures
        flatten::mapping_rows(p).len() == p.mapping.len(),
        flatten::mapping_rows(p)[i].mapping_id == p.mapping[i].id,
        flatten::mapping_rows(p)[i].memory_start == p.mapping[i].memory_start,
        flatten::mapping_rows(p)[i].memory_limit == p.mapping[i].memory_limit,
        flatten::mapping_rows(p)[i].file_offset == p.mapping[i].file_offset,
        is_string_at(p, p.mapping[i].filename, flatten::mapping_rows(p)[i].filename),
        is_string_at(p, p.mapping[i].build_id, flatten::mapping_rows(p)[i].build_id),
{
}

/// Every raw row has the location ids and the values of its sample, unchanged and in order, and
/// so has every resolved row its values.
pub proof fn law_sample_rows_hold_the_samples(p: ProfileView, i: int)
    requires
        0 <= i < p.sample.len() <= i64::MAX,
    ensures
        flatten::sample_rows(p).len() == p.sample.len(),
        flatten::stack_rows(p).len() == p.sample.len(),
        flatten::sample_rows(p)[i].sample_id == i + 1,
        flatten::stack_rows(p)[i].sample_id == i + 1,
        flatten::sample_rows(p)[i].location_ids == p.sample[i].location_id,
        flatten::sample_rows(p)[i].value == p.sample[i].value,
        flatten::stack_rows(p)[i].value == p.sample[i].value,
{
}

/// The metadata has the numbers of the profile, and the strings at its indices: those of each
/// sample type, in order, those of the period type where there is one, and the default sample
/// type.
pub proof fn law_metadata_is_that_of_the_profile(p: ProfileView)
    ensures
        flatten::meta_of(p).period == p.period,
        flatten::meta_of(p).duration_nanos == p.duration_nanos,
        flatten::meta_of(p).time_nanos == p.time_nanos,
        is_string_at(p, p.default_sample_type, flatten::meta_of(p).default_sample_type),
        match (p.period_type, flatten::meta_of(p).period_type) {
            (Some(indices), Some(found)) => {
                &&& is_text_at(p, indices.type_, found.type_)
                &&& is_text_at(p, indices.unit, found.unit)
            },
            (None, None) => true,
            _ => false,
        },
        flatten::meta_of(p).sample_types.len() == p.sample_type.len(),
        forall|i: int|
            0 <= i < p.sample_type.len() ==> {
                let found = #[trigger] flatten::meta_of(p).sample_types[i];
                &&& is_text_at(p, p.sample_type[i].type_, found.type_)
                &&& is_text_at(p, p.sample_type[i].unit, found.unit)
            },
{
    lemma_texts(p);
    assert forall|i: int| 0 <= i < p.sample_type.len() implies {
        let found = #[trigger] flatten::meta_of(p).sample_types[i];
        &&& is_text_at(p, p.sample_type[i].type_, found.type_)
        &&& is_text_at(p, p.sample_type[i].unit, found.unit)
    } by {
        let found = flatten::meta_of(p).sample_types[i];
        assert(is_text_at(p, p.sample_type[i].type_, found.type_));
        assert(is_text_at(p, p.sample_type[i].unit, found.unit));
    }
}

proof fn lemma_texts(p: ProfileView)
    ensures
        forall|index: i64| is_text_at(p, index, #[trigger] flatten::text_or_empty(p, index)),
{
    assert forall|index: i64| is_text_at(p, index, #[trigger] flatten::text_or_empty(p, index)) by {
        if 0 < index < p.string_table.len() && p.string_table[index as int].len() == 0 {
            assert(p.string_table[index as int] =~= Seq::<char>::empty());
        }
    }
}

/// A value type has the strings at its two indices, each empty where the table has none.
pub proof fn law_value_types_have_their_strings(p: ProfileView, indices: proto::ValueType)
    ensures
        is_text_at(p, indices.type_, flatten::value_type_of(p, indices).type_),
        is_text_at(p, indices.unit, flatten::value_type_of(p, indices).unit),
{
    lemma_texts(p);
}

/// A location that the table lacks gives one frame of which nothing is known.
pub proof fn law_unknown_locations_have_one_frame(p: ProfileView, id: u64)
    requires
        forall|k: int| 0 <= k < p.location.len() ==> (#[trigger] p.location[k]).id != id,
    ensures
        flatten::location_frames(p, id).len() == 1,
        flatten::location_frames(p, id)[0].function is None,
        flatten::location_frames(p, id)[0].filename is None,
        flatten::location_frames(p, id)[0].line is None,
        flatten::location_frames(p, id)[0].address == 0,
{
    lemma_no_position(flatten::location_ids(p.location), id);
}

/// A location without lines gives one frame with its address. Where an id occurs again in the
/// table, the last location counts.
pub proof fn law_locations_without_lines_have_one_frame(p: ProfileView, at: int)
    requires
        0 <= at < p.location.len(),
        forall|k: int|
            at < k < p.location.len() ==> (#[trigger] p.location[k]).id != p.location[at].id,
        p.location[at].line.len() == 0,
    ensures
        ({
            let frames = flatten::location_frames(p, p.location[at].id);
            &&& frames.len() == 1
            &&& frames[0].function is None
            &&& frames[0].filename is None
            &&& frames[0].line is None
            &&& frames[0].address == p.location[at].address
        }),
{
    lemma_position(flatten::location_ids(p.location), at);
}

/// A location with lines gives one frame per line, in order, each with the number of the line
/// and the address of the location.
pub proof fn law_locations_have_a_frame_per_line(p: ProfileView, at: int, j: int)
    requires
        0 <= at < p.location.len(),
        forall|k: int|
            at < k < p.location.len() ==> (#[trigger] p.location[k]).id != p.location[at].id,
        0 <= j < p.location[at].line.len(),
    ensures
        ({
            let frames = flatten::location_frames(p, p.location[at].id);
            &&& frames.len() == p.location[at].line.len()
            &&& frames[j].line == Some(p.location[at].line[j].line)
            &&& frames[j].address == p.location[at].address
        }),
{
    lemma_position(flatten::location_ids(p.location), at);
}

/// The frame of a line has the human-readable name and the file of the function that the line
/// names. Where an id occurs again in the table, the last function counts.
pub proof fn law_frames_name_their_function(p: ProfileView, at: int, j: int, f: int)
    requires
        0 <= at < p.location.len(),
        forall|k: int|
            at < k < p.location.len() ==> (#[trigger] p.location[k]).id != p.location[at].id,
        0 <= j < p.location[at].line.len(),
        0 <= f < p.function.len(),
        p.function[f].id == p.location[at].line[j].function_id,
        forall|k: int|
            f < k < p.function.len() ==> (#[trigger] p.function[k]).id != p.function[f].id,
    ensures
        ({
            let frames = flatten::location_frames(p, p.location[at].id);
            &&& is_string_at(p, p.function[f].name, frames[j].function)
            &&& is_string_at(p, p.function[f].filename, frames[j].filename)
        }),
{
    lemma_position(flatten::location_ids(p.location), at);
    lemma_position(flatten::function_ids(p.function), f);
}

/// The frame of a line whose function the table lacks has no name and no file.
pub proof fn law_frames_of_unknown_functions_are_nameless(p: ProfileView, at: int, j: int)
    requires
        0 <= at < p.location.len(),
        forall|k: int|
            at < k < p.location.len() ==> (#[trigger] p.location[k]).id != p.location[at].id,
        0 <= j < p.location[at].line.len(),
        forall|k: int|
            0 <= k < p.function.len() ==> (#[trigger] p.function[k]).id
                != p.location[at].line[j].function_id,
    ensures
        flatten::location_frames(p, p.location[at].id)[j].function is None,
        flatten::location_frames(p, p.location[at].id)[j].filename is None,
{
    lemma_position(flatten::location_ids(p.location), at);
    lemma_no_position(flatten::function_ids(p.function), p.location[at].line[j].function_id);
}

proof fn lemma_no_position(ids: Seq<u64>, id: u64)
    requires
        forall|k: int| 0 <= k < ids.len() ==> #[trigger] ids[k] != id,
    ensures
        flatten::last_position(ids, id) is None,
    decreases ids.len(),
{
    if ids.len() > 0 {
        lemma_no_position(ids.drop_last(), id);
    }
}

proof fn lemma_position(ids: Seq<u64>, at: int)
    requires
        0 <= at < ids.len(),
        forall|k: int| at < k < ids.len() ==> #[trigger] ids[k] != ids[at],
    ensures
        flatten::last_position(ids, ids[at]) == Some(at),
    decreases ids.len(),
{
    if at < ids.len() - 1 {
        lemma_position(ids.drop_last(), at);
    }
}

/// How many frames the locations of a stack have.
pub open spec fn frame_count(p: ProfileView, ids: Seq<u64>) -> nat
    decreases ids.len(),
{
    if ids.len() == 0 {
        0
    } else {
        frame_count(p, ids.drop_last()) + flatten::location_frames(p, ids.last()).len()
    }
}

/// The frames of a resolved row are those of the locations of its sample, one location after
/// the other, leaf first: frame `j` of the location at `k` stands behind all frames of the
/// locations before it, and no other frames stand there.
pub proof fn law_stacks_are_their_locations(p: ProfileView, i: int, k: int, j: int)
    requires
        0 <= i < p.sample.len(),
    ensures
        flatten::stack_rows(p)[i].frames.len() == frame_count(p, p.sample[i].location_id),
        ({
            let ids = p.sample[i].location_id;
            0 <= k < ids.len() && 0 <= j < flatten::location_frames(p, ids[k]).len()
                ==> flatten::stack_rows(p)[i].frames[frame_count(p, ids.take(k)) + j]
                == flatten::location_frames(p, ids[k])[j]
        }),
{
    let ids = p.sample[i].location_id;
    lemma_frame_count(p, ids);
    if 0 <= k < ids.len() {
        let front = ids.take(k);
        let back = ids.skip(k + 1);
        assert(ids =~= front.push(ids[k]) + back);
        rows::law_frames_keep_stack_order(p, front.push(ids[k]), back);
        assert(front.push(ids[k]).drop_last() =~= front);
        lemma_frame_count(p, front);
    }
}

proof fn lemma_frame_count(p: ProfileView, ids: Seq<u64>)
    ensures
        flatten::stack_frames(p, ids).len() == frame_count(p, ids),
    decreases ids.len(),
{
    if ids.len() > 0 {
        lemma_frame_count(p, ids.drop_last());
    }
}

/// The text of a label with a string is that string, or empty where the table has none.
pub proof fn law_string_labels(p: ProfileView, label: Label)
    requires
        label.str != 0,
    ensures
        is_text_at(p, label.key, flatten::label_pair(p, label).0),
        is_text_at(p, label.str, flatten::label_pair(p, label).1),
{
    lemma_texts(p);
}

/// The text of a label with a number is the number in decimal, followed by one space and the
/// unit where the table has one, whatever the number is.
pub proof fn law_numeric_labels(p: ProfileView, label: Label)
    requires
        label.str == 0,
    ensures
        is_text_at(p, label.key, flatten::label_pair(p, label).0),
        ({
            let u = label.num_unit;
            let digits = text::decimal(label.num as int);
            if 0 < u < p.string_table.len() && p.string_table[u as int].len() > 0 {
                flatten::label_pair(p, label).1 == digits.push(' ') + p.string_table[u as int]
            } else {
                flatten::label_pair(p, label).1 == digits
            }
        }),
{
    lemma_texts(p);
    reveal_strlit(" ");
    assert(text::decimal(label.num as int) + " "@ =~= text::decimal(label.num as int).push(' '));
}

/// The number that decimal digits give.
pub open spec fn digits_value(s: Seq<char>) -> int
    decreases s.len(),
{
    if s.len() == 0 {
        0
    } else {
        10 * digits_value(s.drop_last()) + (s.last() as int - '0' as int)
    }
}

/// Whether a text is a number in decimal: digits only, at least one, and no zero before others.
pub open spec fn are_digits(s: Seq<char>) -> bool {
    &&& s.len() > 0
    &&& forall|i: int| 0 <= i < s.len() ==> '0' <= #[trigger] s[i] <= '9'
    &&& s.len() > 1 ==> s[0] != '0'
}

/// A number in decimal reads back as the number: it is digits without leading zeros, behind a
/// minus sign where the number is negative.
pub proof fn law_decimals_read_back(n: int)
    ensures
        n >= 0 ==> are_digits(text::decimal(n)) && digits_value(text::decimal(n)) == n,
        n < 0 ==> {
            &&& text::decimal(n).len() > 1
            &&& text::decimal(n)[0] == '-'
            &&& are_digits(text::decimal(n).skip(1))
            &&& digits_value(text::decimal(n).skip(1)) == -n
        },
{
    if n >= 0 {
        lemma_decimal_nat(n as nat);
    } else {
        lemma_decimal_nat((-n) as nat);
        assert(text::decimal(n).skip(1) =~= text::decimal_nat((-n) as nat));
    }
}

proof fn lemma_decimal_nat(n: nat)
    ensures
        are_digits(text::decimal_nat(n)),
        digits_value(text::decimal_nat(n)) == n,
        n > 0 ==> text::decimal_nat(n)[0] != '0',
    decreases n,
{
    let s = text::decimal_nat(n);
    if n < 10 {
        assert(s.drop_last() =~= seq![]);
        assert(digits_value(s.drop_last()) == 0);
    } else {
        lemma_decimal_nat(n / 10);
        assert(s.drop_last() =~= text::decimal_nat(n / 10));
        assert(s[0] == text::decimal_nat(n / 10)[0]);
    }
}

/// Whether no label before the one at `k` has its key.
pub open spec fn is_first_label(p: ProfileView, labels: Seq<Label>, k: int) -> bool {
    forall|m: int|
        0 <= m < k ==> flatten::label_pair(p, #[trigger] labels[m]).0 != flatten::label_pair(
            p,
            labels[k],
        ).0
}

/// Whether `at` are the positions of the labels that are kept, in order: the first label of
/// each key, and no other one.
pub open spec fn are_first_labels(p: ProfileView, labels: Seq<Label>, at: Seq<int>) -> bool {
    &&& forall|a: int| 0 <= a < at.len() ==> 0 <= #[trigger] at[a] < labels.len()
    &&& forall|a: int, b: int| 0 <= a < b < at.len() ==> #[trigger] at[a] < #[trigger] at[b]
    &&& forall|k: int|
        0 <= k < labels.len() ==> (#[trigger] is_first_label(p, labels, k) <==> at.contains(k))
}

/// Raw and resolved rows have the labels of their own sample.
pub proof fn law_rows_have_the_labels_of_their_sample(p: ProfileView, i: int)
    requires
        0 <= i < p.sample.len(),
    ensures
        flatten::stack_rows(p)[i].labels == flatten::labels_of(p, p.sample[i]),
        flatten::sample_rows(p)[i].labels == flatten::labels_of(p, p.sample[i]),
{
}

/// The labels of a sample are the first label of each key, in the sample's order, each with its
/// key and its text.
pub proof fn law_labels_are_the_first_of_each_key(p: ProfileView, sample: SampleView)
    ensures
        exists|at: Seq<int>|
            {
                &&& #[trigger] are_first_labels(p, sample.label, at)
                &&& at.len() == flatten::labels_of(p, sample).len()
                &&& forall|a: int|
                    0 <= a < at.len() ==> #[trigger] flatten::labels_of(p, sample)[a]
                        == flatten::label_pair(p, sample.label[at[a]])
            },
{
    let labels = sample.label;
    let pairs = flatten::label_pairs(p, labels);
    let at = first_positions(pairs);
    lemma_first_positions(pairs);
    assert forall|k: int| 0 <= k < labels.len() implies (#[trigger] is_first_label(p, labels, k)
        <==> at.contains(k)) by {
        assert(is_first(pairs, k) <==> at.contains(k));
        if is_first(pairs, k) {
            assert forall|m: int| 0 <= m < k implies flatten::label_pair(p, #[trigger] labels[m]).0
                != flatten::label_pair(p, labels[k]).0 by {
                assert(pairs[m].0 != pairs[k].0);
            }
        } else {
            let m = choose|m: int| 0 <= m < k && #[trigger] pairs[m].0 == pairs[k].0;
            assert(flatten::label_pair(p, labels[m]).0 == flatten::label_pair(p, labels[k]).0);
        }
    }
    assert(are_first_labels(p, labels, at));
}

/// Whether no earlier pair has the key of the pair at `k`.
spec fn is_first(pairs: Seq<(Seq<char>, Seq<char>)>, k: int) -> bool {
    forall|m: int| 0 <= m < k ==> #[trigger] pairs[m].0 != pairs[k].0
}

/// The positions of the first pair of each key.
spec fn first_positions(pairs: Seq<(Seq<char>, Seq<char>)>) -> Seq<int>
    decreases pairs.len(),
{
    if pairs.len() == 0 {
        seq![]
    } else if is_first(pairs, pairs.len() - 1) {
        first_positions(pairs.drop_last()).push(pairs.len() - 1)
    } else {
        first_positions(pairs.drop_last())
    }
}

proof fn lemma_first_positions(pairs: Seq<(Seq<char>, Seq<char>)>)
    ensures
        ({
            let at = first_positions(pairs);
            let kept = flatten::first_of_each_key(pairs);
            &&& forall|a: int| 0 <= a < at.len() ==> 0 <= #[trigger] at[a] < pairs.len()
            &&& forall|a: int, b: int| 0 <= a < b < at.len() ==> #[trigger] at[a] < #[trigger] at[b]
            &&& forall|k: int|
                0 <= k < pairs.len() ==> (#[trigger] is_first(pairs, k) <==> at.contains(k))
            &&& at.len() == kept.len()
            &&& forall|a: int| 0 <= a < at.len() ==> #[trigger] kept[a] == pairs[at[a]]
        }),
    decreases pairs.len(),
{
    if pairs.len() > 0 {
        let front = pairs.drop_last();
        let last = pairs.len() - 1;
        let before = first_positions(front);
        let at = first_positions(pairs);
        let kept = flatten::first_of_each_key(front);
        lemma_first_positions(front);
        assert(is_first(pairs, last) <==> !flatten::has_key(kept, pairs[last].0)) by {
            if flatten::has_key(kept, pairs[last].0) {
                let a = choose|a: int| 0 <= a < kept.len() && #[trigger] kept[a].0 == pairs[last].0;
                assert(pairs[before[a]].0 == pairs[last].0);
            } else if !is_first(pairs, last) {
                let m = choose|m: int| 0 <= m < last && #[trigger] pairs[m].0 == pairs[last].0;
                lemma_first_exists(front, m);
                let f = choose|f: int|
                    0 <= f <= m && #[trigger] is_first(front, f) && front[f].0 == front[m].0;
                assert(before.contains(f));
                let a = choose|a: int| 0 <= a < before.len() && before[a] == f;
                assert(kept[a].0 == pairs[last].0);
            }
        }
        assert forall|k: int| 0 <= k < pairs.len() implies (#[trigger] is_first(pairs, k)
            <==> at.contains(k)) by {
            if k < last {
                assert(is_first(front, k) <==> is_first(pairs, k)) by {
                    if is_first(front, k) {
                        assert forall|m: int| 0 <= m < k implies #[trigger] pairs[m].0
                            != pairs[k].0 by {
                            assert(front[m].0 != front[k].0);
                        }
                    }
                    if is_first(pairs, k) {
                        assert forall|m: int| 0 <= m < k implies #[trigger] front[m].0
                            != front[k].0 by {
                            assert(pairs[m].0 != pairs[k].0);
                        }
                    }
                }
                if before.contains(k) {
                    let a = choose|a: int| 0 <= a < before.len() && before[a] == k;
                    assert(at[a] == k);
                }
                if at.contains(k) {
                    let a = choose|a: int| 0 <= a < at.len() && at[a] == k;
                    assert(before[a] == k);
                }
            } else if is_first(pairs, last) {
                assert(at[at.len() - 1] == last);
            } else if at.contains(k) {
                let a = choose|a: int| 0 <= a < at.len() && at[a] == k;
                assert(before[a] == k);
            }
        }
    }
}

proof fn lemma_first_exists(pairs: Seq<(Seq<char>, Seq<char>)>, m: int)
    requires
        0 <= m < pairs.len(),
    ensures
        exists|f: int| 0 <= f <= m && #[trigger] is_first(pairs, f) && pairs[f].0 == pairs[m].0,
    decreases m,
{
    if is_first(pairs, m) {
        assert(is_first(pairs, m) && pairs[m].0 == pairs[m].0);
    } else {
        let k = choose|k: int| 0 <= k < m && #[trigger] pairs[k].0 == pairs[m].0;
        lemma_first_exists(pairs, k);
        let f = choose|f: int| 0 <= f <= k && #[trigger] is_first(pairs, f) && pairs[f].0
            == pairs[k].0;
        assert(is_first(pairs, f) && pairs[f].0 == pairs[m].0);
    }
}

} // verus!
