//! Laws of source resolution, over the functions of [`crate::source`].

use vstd::prelude::*;

use crate::decoded;
use crate::decoded::PprofErrorView;
use crate::proto::ProfileView;
use crate::source;
use crate::source::{ActionView, DecodeUnitView, ResolverView, SourceArgView, SourceError};
use crate::text;

verus! {

/// What each glob would match.
pub type Globs = spec_fn(Seq<char>) -> Option<Seq<Option<Seq<char>>>>;

/// What reading each file would give.
pub type Files = spec_fn(Seq<char>) -> Result<Seq<u8>, Seq<char>>;

/// One unit per path, in order.
pub open spec fn path_units(paths: Seq<Seq<char>>, files: Files) -> Seq<DecodeUnitView> {
    Seq::new(paths.len(), |i: int| source::file_unit_of(paths[i], files(paths[i])))
}

/// The files that a path spec stands for.
pub open spec fn spec_paths(spec_text: Seq<char>, globs: Globs) -> Seq<Seq<char>> {
    if source::has_glob_char(spec_text) {
        source::expand_of(spec_text, globs(spec_text))
    } else {
        seq![spec_text]
    }
}

/// The units of path specs: those of the files of each, in order.
pub open spec fn spec_units(specs: Seq<Seq<char>>, globs: Globs, files: Files) -> Seq<
    DecodeUnitView,
>
    decreases specs.len(),
{
    if specs.len() == 0 {
        Seq::empty()
    } else {
        path_units(spec_paths(specs.first(), globs), files) + spec_units(
            specs.drop_first(),
            globs,
            files,
        )
    }
}

/// The units that a state has and will have.
pub open spec fn outcome(state: ResolverView, globs: Globs, files: Files) -> Seq<DecodeUnitView> {
    state.units + path_units(state.paths, files) + spec_units(state.specs, globs, files)
}

/// Driving a resolver leads to the units of all files of all path specs, in order: at the start
/// exactly those are to come, no step changes what a state has and will have, and once nothing
/// is asked for the units are complete.
pub proof fn law_resolution_is_in_order(state: ResolverView, globs: Globs, files: Files)
    ensures
        state.paths.len() == 0 && state.units.len() == 0 ==> outcome(state, globs, files)
            == spec_units(state.specs, globs, files),
        match source::next_action(state) {
            ActionView::Glob(spec_text) => outcome(
                source::after_matches(state, globs(spec_text)),
                globs,
                files,
            ) == outcome(state, globs, files),
            ActionView::Read(path) => outcome(
                source::after_read(state, files(path)),
                globs,
                files,
            ) == outcome(state, globs, files),
            ActionView::Finish => outcome(state, globs, files) == state.units,
        },
{
    if state.paths.len() == 0 && state.units.len() == 0 {
        assert(outcome(state, globs, files) =~= spec_units(state.specs, globs, files));
    }
    match source::next_action(state) {
        ActionView::Glob(spec_text) => {
            assert(outcome(source::after_matches(state, globs(spec_text)), globs, files)
                =~= outcome(state, globs, files));
        },
        ActionView::Read(path) => {
            assert(outcome(source::after_read(state, files(path)), globs, files) =~= outcome(
                state,
                globs,
                files,
            ));
        },
        ActionView::Finish => {
            assert(outcome(state, globs, files) =~= state.units);
        },
    }
}

/// Every answer brings a resolver closer to its end, whatever the answer is: it has fewer path
/// specs to come, or as many and fewer files.
pub proof fn law_resolution_ends(
    state: ResolverView,
    matches: Option<Seq<Option<Seq<char>>>>,
    contents: Result<Seq<u8>, Seq<char>>,
)
    ensures
        match source::next_action(state) {
            ActionView::Glob(_) => source::after_matches(state, matches).specs.len()
                < state.specs.len(),
            ActionView::Read(_) => {
                let next = source::after_read(state, contents);
                ||| next.specs.len() < state.specs.len()
                ||| next.specs.len() == state.specs.len() && next.paths.len() < state.paths.len()
            },
            ActionView::Finish => state.specs.len() == 0 && state.paths.len() == 0,
        },
{
}

/// Each source is decoded on its own: what a path gives depends on that path and its own
/// contents, and a file that cannot be read or decoded gives one unit with an error and leaves
/// all others as they are.
pub proof fn law_sources_are_independent(
    paths: Seq<Seq<char>>,
    files: Files,
    other_files: Files,
    i: int,
)
    requires
        0 <= i < paths.len(),
        files(paths[i]) == other_files(paths[i]),
    ensures
        path_units(paths, files).len() == paths.len(),
        path_units(paths, files)[i] == path_units(paths, other_files)[i],
        path_units(paths, files)[i].file == Some(paths[i]),
        files(paths[i]) is Err ==> path_units(paths, files)[i].result is Err,
{
}

/// A glob stands for its readable matches, each as often as it matched, in sorted order.
pub proof fn law_glob_matches_are_sorted(spec_text: Seq<char>, matches: Seq<Option<Seq<char>>>)
    ensures
        vstd::relations::sorted_by(
            source::expand_of(spec_text, Some(matches)),
            text::text_relation(),
        ),
        source::expand_of(spec_text, Some(matches)).to_multiset() == source::present(
            matches,
        ).to_multiset(),
{
    text::lemma_text_relation_is_total();
    source::present(matches).lemma_sort_by_ensures(text::text_relation());
}

/// A path without glob characters always gives exactly one unit, whether the file is there or
/// not, and so do inline bytes.
pub proof fn law_literal_sources_never_vanish(
    spec_text: Seq<char>,
    bytes: Seq<u8>,
    globs: Globs,
    files: Files,
)
    requires
        !source::has_glob_char(spec_text),
    ensures
        source::start_of(SourceArgView::Text(spec_text)) matches Ok(state) && outcome(
            state,
            globs,
            files,
        ) == seq![source::file_unit_of(spec_text, files(spec_text))],
        source::start_of(SourceArgView::Blob(Some(bytes))) matches Ok(state)
            && source::next_action(state) is Finish && state.units.len() == 1
            && state.units[0].file is None,
{
    if let Ok(state) = source::start_of(SourceArgView::Text(spec_text)) {
        assert(state.specs.drop_first() =~= Seq::empty());
        assert(spec_units(state.specs.drop_first(), globs, files) =~= Seq::empty());
        assert(outcome(state, globs, files)
            =~= seq![source::file_unit_of(spec_text, files(spec_text))]);
    }
}

/// Whether one of the three characters of a glob stands at a position.
pub open spec fn is_glob_at(s: Seq<char>, i: int) -> bool {
    0 <= i < s.len() && (s[i] == '*' || s[i] == '?' || s[i] == '[')
}

/// A path spec with a glob character at any place is looked up as a glob.
pub proof fn law_globs_are_looked_up(state: ResolverView, i: int)
    requires
        state.paths.len() == 0,
        state.specs.len() > 0,
        is_glob_at(state.specs[0], i),
    ensures
        source::has_glob_char(state.specs[0]),
        source::next_action(state) == ActionView::Glob(state.specs[0]),
{
    assert(source::is_glob_char(state.specs[0][i]));
}

/// A path spec without glob characters is read as it is, and so is a file that a glob stands
/// for, whatever its characters.
pub proof fn law_files_are_read(state: ResolverView)
    ensures
        state.paths.len() > 0 ==> source::next_action(state) == ActionView::Read(state.paths[0]),
        state.paths.len() == 0 && state.specs.len() > 0 && (forall|i: int|
            !#[trigger] is_glob_at(state.specs[0], i)) ==> {
            &&& !source::has_glob_char(state.specs[0])
            &&& source::next_action(state) == ActionView::Read(state.specs[0])
        },
        state.paths.len() == 0 && state.specs.len() == 0 ==> source::next_action(state) is Finish,
{
    if state.paths.len() == 0 && state.specs.len() > 0 && (forall|i: int|
        !#[trigger] is_glob_at(state.specs[0], i)) {
        assert forall|i: int| 0 <= i < state.specs[0].len() implies !source::is_glob_char(
            #[trigger] state.specs[0][i],
        ) by {
            assert(!is_glob_at(state.specs[0], i));
        }
    }
}

/// A text argument is one path spec. With a glob character anywhere it is looked up, and once
/// its matches are known the readable ones are read; without one the file itself is read.
pub proof fn law_text_arguments_are_paths_or_globs(
    s: Seq<char>,
    matches: Seq<Option<Seq<char>>>,
    contents: Result<Seq<u8>, Seq<char>>,
)
    ensures
        source::start_of(SourceArgView::Text(s)) matches Ok(state) && {
            &&& state.units.len() == 0
            &&& (exists|i: int| #[trigger] is_glob_at(s, i)) ==> {
                let found = source::after_matches(state, Some(matches));
                let malformed = source::after_matches(state, None);
                &&& source::next_action(state) == ActionView::Glob(s)
                &&& is_sorted(found.paths)
                &&& found.paths.to_multiset() == source::present(matches).to_multiset()
                &&& found.specs.len() == 0
                &&& found.units.len() == 0
                &&& malformed.paths == seq![s]
                &&& malformed.specs.len() == 0
                &&& malformed.units.len() == 0
            }
            &&& (forall|i: int| !#[trigger] is_glob_at(s, i)) ==> {
                let read = source::after_read(state, contents);
                &&& source::next_action(state) == ActionView::Read(s)
                &&& read.units == seq![source::file_unit_of(s, contents)]
                &&& source::next_action(read) is Finish
            }
        },
{
    let state = source::start_of(SourceArgView::Text(s))->Ok_0;
    law_files_are_read(state);
    if exists|i: int| #[trigger] is_glob_at(s, i) {
        law_globs_are_looked_up(state, choose|i: int| #[trigger] is_glob_at(s, i));
    }
    law_matches_are_read_in_order(state, matches);
    assert(source::after_read(state, contents).units
        =~= seq![source::file_unit_of(s, contents)]);
}

/// Whether one text stands before another or is equal to it: it is the start of the other, or
/// has the smaller character where they first differ.
pub open spec fn is_not_after(a: Seq<char>, b: Seq<char>) -> bool {
    exists|k: int|
        {
            &&& 0 <= k <= a.len()
            &&& k <= b.len()
            &&& #[trigger] a.take(k) == b.take(k)
            &&& k == a.len() || (k < b.len() && a[k] < b[k])
        }
}

/// Whether texts are in order.
pub open spec fn is_sorted(texts: Seq<Seq<char>>) -> bool {
    forall|i: int, j: int|
        0 <= i < j < texts.len() ==> is_not_after(#[trigger] texts[i], #[trigger] texts[j])
}

/// The order of texts is by the first character in which they differ.
pub proof fn law_texts_are_ordered_by_their_first_difference(a: Seq<char>, b: Seq<char>)
    ensures
        text::text_order(a, b) <==> is_not_after(a, b),
    decreases a.len(),
{
    if text::text_order(a, b) {
        lemma_order_has_a_difference(a, b);
    }
    if is_not_after(a, b) {
        let k = choose|k: int|
            {
                &&& 0 <= k <= a.len()
                &&& k <= b.len()
                &&& #[trigger] a.take(k) == b.take(k)
                &&& k == a.len() || (k < b.len() && a[k] < b[k])
            };
        lemma_difference_orders(a, b, k);
    }
}

proof fn lemma_order_has_a_difference(a: Seq<char>, b: Seq<char>)
    requires
        text::text_order(a, b),
    ensures
        is_not_after(a, b),
    decreases a.len(),
{
    if a.len() == 0 || a[0] != b[0] {
        assert(a.take(0) =~= b.take(0));
    } else {
        let a1 = a.drop_first();
        let b1 = b.drop_first();
        lemma_order_has_a_difference(a1, b1);
        let k = choose|k: int|
            {
                &&& 0 <= k <= a1.len()
                &&& k <= b1.len()
                &&& #[trigger] a1.take(k) == b1.take(k)
                &&& k == a1.len() || (k < b1.len() && a1[k] < b1[k])
            };
        assert(a.take(k + 1) =~= b.take(k + 1)) by {
            assert forall|i: int| 0 <= i < k + 1 implies a[i] == b[i] by {
                if i > 0 {
                    assert(a1.take(k)[i - 1] == b1.take(k)[i - 1]);
                }
            }
        }
    }
}

proof fn lemma_difference_orders(a: Seq<char>, b: Seq<char>, k: int)
    requires
        0 <= k <= a.len(),
        k <= b.len(),
        a.take(k) == b.take(k),
        k == a.len() || (k < b.len() && a[k] < b[k]),
    ensures
        text::text_order(a, b),
    decreases a.len(),
{
    if a.len() > 0 && k > 0 {
        let a1 = a.drop_first();
        let b1 = b.drop_first();
        assert(a.take(k)[0] == a[0] && b.take(k)[0] == b[0]);
        assert(a1.take(k - 1) =~= b1.take(k - 1)) by {
            assert forall|i: int| 0 <= i < k - 1 implies a1[i] == b1[i] by {
                assert(a.take(k)[i + 1] == a[i + 1] && b.take(k)[i + 1] == b[i + 1]);
            }
        }
        lemma_difference_orders(a1, b1, k - 1);
    }
}

/// The readable matches of a glob are read in sorted order, each as often as it matched, and
/// before any path spec that follows.
pub proof fn law_matches_are_read_in_order(
    state: ResolverView,
    matches: Seq<Option<Seq<char>>>,
)
    requires
        state.specs.len() > 0,
    ensures
        ({
            let next = source::after_matches(state, Some(matches));
            &&& is_sorted(next.paths)
            &&& next.paths.to_multiset() == source::present(matches).to_multiset()
            &&& next.specs == state.specs.skip(1)
            &&& next.units == state.units
        }),
        ({
            let next = source::after_matches(state, None);
            &&& next.paths == seq![state.specs[0]]
            &&& next.specs == state.specs.skip(1)
            &&& next.units == state.units
        }),
{
    let next = source::after_matches(state, Some(matches));
    law_glob_matches_are_sorted(state.specs[0], matches);
    assert forall|i: int, j: int| 0 <= i < j < next.paths.len() implies is_not_after(
        #[trigger] next.paths[i],
        #[trigger] next.paths[j],
    ) by {
        law_texts_are_ordered_by_their_first_difference(next.paths[i], next.paths[j]);
        assert((text::text_relation())(next.paths[i], next.paths[j]));
    }
    assert(state.specs.drop_first() =~= state.specs.skip(1));
}

/// Exactly the texts that are there are kept, in order.
pub proof fn law_nulls_are_left_out(
    front: Seq<Option<Seq<char>>>,
    back: Seq<Option<Seq<char>>>,
    s: Seq<char>,
)
    ensures
        source::present(seq![]).len() == 0,
        source::present(seq![None]).len() == 0,
        source::present(seq![Some(s)]) == seq![s],
        source::present(front + back) == source::present(front) + source::present(back),
    decreases back.len(),
{
    let none: Seq<Option<Seq<char>>> = seq![None];
    let one = seq![Some(s)];
    assert(none.drop_last() =~= seq![]);
    assert(one.drop_last() =~= seq![]);
    assert(source::present(one.drop_last()).len() == 0);
    assert(source::present(none.drop_last()).len() == 0);
    assert(source::present(one) =~= seq![s]);
    if back.len() == 0 {
        assert(front + back =~= front);
        assert(source::present(front) + source::present(back) =~= source::present(front));
    } else {
        law_nulls_are_left_out(front, back.drop_last(), s);
        assert((front + back).drop_last() =~= front + back.drop_last());
        assert(source::present(front + back) =~= source::present(front) + source::present(back));
    }
}

/// A list of texts is its texts, one path spec each; bytes are their own source, which nothing
/// has to be looked up for; all other arguments are refused, each with its reason.
pub proof fn law_arguments_name_their_sources(
    texts: Seq<Option<Seq<char>>>,
    bytes: Seq<u8>,
    s: Seq<char>,
)
    ensures
        source::path_specs_of(SourceArgView::Text(s)) == Ok::<
            Option<Seq<Seq<char>>>,
            SourceError,
        >(Some(seq![s])),
        source::path_specs_of(SourceArgView::Missing) == Err::<
            Option<Seq<Seq<char>>>,
            SourceError,
        >(SourceError::Missing),
        source::path_specs_of(SourceArgView::Other) == Err::<
            Option<Seq<Seq<char>>>,
            SourceError,
        >(SourceError::WrongType),
        source::path_specs_of(SourceArgView::OtherList) == Err::<
            Option<Seq<Seq<char>>>,
            SourceError,
        >(SourceError::WrongElementType),
        source::path_specs_of(SourceArgView::Blob(None)) == Ok::<
            Option<Seq<Seq<char>>>,
            SourceError,
        >(None),
        source::start_of(SourceArgView::TextList(texts)) matches Ok(state) && state.specs
            == source::present(texts) && state.paths.len() == 0 && state.units.len() == 0,
        source::start_of(SourceArgView::Blob(Some(bytes))) matches Ok(state) && state.specs.len()
            == 0 && state.paths.len() == 0 && state.units.len() == 1 && state.units[0].file is None
            && state.units[0].result == told(decoded::profile_in(bytes)),
        source::start_of(SourceArgView::Blob(None)) == Err::<ResolverView, SourceError>(
            SourceError::NullBlob,
        ),
        source::start_of(SourceArgView::Missing) == Err::<ResolverView, SourceError>(
            SourceError::Missing,
        ),
        source::start_of(SourceArgView::Other) == Err::<ResolverView, SourceError>(
            SourceError::WrongType,
        ),
        source::start_of(SourceArgView::OtherList) == Err::<ResolverView, SourceError>(
            SourceError::WrongElementType,
        ),
        source::path_specs_of(SourceArgView::TextList(texts)) == Ok::<
            Option<Seq<Seq<char>>>,
            SourceError,
        >(Some(source::present(texts))),
        source::path_specs_of(SourceArgView::Blob(Some(bytes))) == Ok::<
            Option<Seq<Seq<char>>>,
            SourceError,
        >(None),
{
}

/// A profile, or why there is none in words.
pub open spec fn told(profile: Result<ProfileView, PprofErrorView>) -> Result<
    ProfileView,
    Seq<char>,
> {
    match profile {
        Ok(p) => Ok(p),
        Err(error) => Err(decoded::pprof_error_text(error)),
    }
}

/// A file gives one unit that names it. It holds the profile in the bytes of the file, or why
/// there is none; of a file that cannot be read it says so, with its name and the reason.
pub proof fn law_files_give_one_unit(
    state: ResolverView,
    contents: Result<Seq<u8>, Seq<char>>,
)
    requires
        state.paths.len() > 0 || state.specs.len() > 0,
    ensures
        ({
            let next = source::after_read(state, contents);
            let path = if state.paths.len() > 0 {
                state.paths[0]
            } else {
                state.specs[0]
            };
            &&& next.units.len() == state.units.len() + 1
            &&& next.units.take(state.units.len() as int) == state.units
            &&& next.units.last().file == Some(path)
            &&& next.units.last().result == match contents {
                Ok(bytes) => told(decoded::profile_in(bytes)),
                Err(reason) => Err("read "@ + path + ": "@ + reason),
            }
            &&& next.units.last() == source::file_unit_of(path, contents)
            &&& state.paths.len() > 0 ==> next.paths == state.paths.skip(1) && next.specs
                == state.specs
            &&& state.paths.len() == 0 ==> next.paths.len() == 0 && next.specs
                == state.specs.skip(1)
        }),
{
    let next = source::after_read(state, contents);
    assert(next.units.take(state.units.len() as int) =~= state.units);
    assert(state.paths.len() > 0 ==> state.paths.drop_first() =~= state.paths.skip(1));
    assert(state.specs.len() > 0 ==> state.specs.drop_first() =~= state.specs.skip(1));
}

/// A refused argument is told why.
pub proof fn law_refusals_are_told()
    ensures
        source::source_error_text(SourceError::Missing)
            == "a profile source (path, list of paths, or BLOB) is required"@,
        source::source_error_text(SourceError::WrongType)
            == "profile source must be a VARCHAR path, a LIST(VARCHAR), or a BLOB"@,
        source::source_error_text(SourceError::WrongElementType)
            == "path list elements must be VARCHAR"@,
        source::source_error_text(SourceError::NullBlob)
            == "profile source BLOB was NULL or empty"@,
{
}

} // verus!
