//! Where profiles come from.
//!
//! A source argument is a path, a list of paths, or the bytes of a profile. A path may be a
//! glob, which stands for its matches in sorted order. Each source is decoded on its own, and
//! a failure stays with the source it belongs to.
//!
//! [`Resolver`] decides what to look up next and what to make of the answer; whoever drives it
//! does the looking up.

use vstd::prelude::*;
use vstd::string::*;

use crate::decoded;
use crate::decoded::{Decoded, PprofError, PprofErrorView};
use crate::proto::ProfileView;
use crate::text;

verus! {

/// The source argument of a call, as far as its type tells.
#[derive(Debug)]
pub enum SourceArg {
    /// There is no argument.
    Missing,
    /// A string: a path or a glob.
    Text(String),
    /// Bytes, `None` for a null value.
    Blob(Option<Vec<u8>>),
    /// A list of strings, with `None` for a null element.
    TextList(Vec<Option<String>>),
    /// A list of something else.
    OtherList,
    /// A null string, or a value of another type.
    Other,
}

/// The value of a [`SourceArg`].
pub enum SourceArgView {
    Missing,
    Text(Seq<char>),
    Blob(Option<Seq<u8>>),
    TextList(Seq<Option<Seq<char>>>),
    OtherList,
    Other,
}

impl DeepView for SourceArg {
    type V = SourceArgView;

    open spec fn deep_view(&self) -> SourceArgView {
        match self {
            SourceArg::Missing => SourceArgView::Missing,
            SourceArg::Text(text) => SourceArgView::Text(text@),
            SourceArg::Blob(Some(bytes)) => SourceArgView::Blob(Some(bytes@)),
            SourceArg::Blob(None) => SourceArgView::Blob(None),
            SourceArg::TextList(texts) => SourceArgView::TextList(texts.deep_view()),
            SourceArg::OtherList => SourceArgView::OtherList,
            SourceArg::Other => SourceArgView::Other,
        }
    }
}

/// Why an argument names no profile.
#[derive(Debug, Clone, Copy, PartialEq, Eq, Structural)]
pub enum SourceError {
    Missing,
    WrongType,
    WrongElementType,
    NullBlob,
}

/// The refusal in words.
pub open spec fn source_error_text(error: SourceError) -> Seq<char> {
    match error {
        SourceError::Missing => "a profile source (path, list of paths, or BLOB) is required"@,
        SourceError::WrongType =>
            "profile source must be a VARCHAR path, a LIST(VARCHAR), or a BLOB"@,
        SourceError::WrongElementType => "path list elements must be VARCHAR"@,
        SourceError::NullBlob => "profile source BLOB was NULL or empty"@,
    }
}

impl SourceError {
    /// The refusal in words.
    pub fn to_string(&self) -> (res: String)
        ensures
            res@ == source_error_text(*self),
    {
        match self {
            SourceError::Missing =>
                "a profile source (path, list of paths, or BLOB) is required".to_owned(),
            SourceError::WrongType =>
                "profile source must be a VARCHAR path, a LIST(VARCHAR), or a BLOB".to_owned(),
            SourceError::WrongElementType => "path list elements must be VARCHAR".to_owned(),
            SourceError::NullBlob => "profile source BLOB was NULL or empty".to_owned(),
        }
    }
}

/// The strings of a list, without its null elements.
pub open spec fn present(texts: Seq<Option<Seq<char>>>) -> Seq<Seq<char>>
    decreases texts.len(),
{
    if texts.len() == 0 {
        Seq::empty()
    } else {
        match texts.last() {
            Some(text) => present(texts.drop_last()).push(text),
            None => present(texts.drop_last()),
        }
    }
}

fn keep_present(texts: &Vec<Option<String>>) -> (res: Vec<String>)
    ensures
        res.deep_view() == present(texts.deep_view()),
{
    let mut out: Vec<String> = Vec::with_capacity(texts.len());
    let ghost all = texts.deep_view();
    assert(out.deep_view() =~= present(all.take(0)));
    for i in 0..texts.len()
        invariant
            all == texts.deep_view(),
            out.deep_view() == present(all.take(i as int)),
    {
        assert(all.take(i + 1).drop_last() =~= all.take(i as int));
        if let Some(text) = &texts[i] {
            let ghost before = out.deep_view();
            out.push(text.clone());
            assert(out.deep_view() =~= before.push(all[i as int]->0));
        }
    }
    assert(all.take(texts.len() as int) =~= all);
    out
}

/// The path specs that an argument names: one for a string, the strings of a list, and none
/// for bytes, which are their own source.
pub open spec fn path_specs_of(arg: SourceArgView) -> Result<
    Option<Seq<Seq<char>>>,
    SourceError,
> {
    match arg {
        SourceArgView::Text(text) => Ok(Some(seq![text])),
        SourceArgView::Missing => Err(SourceError::Missing),
        SourceArgView::Blob(_) => Ok(None),
        SourceArgView::TextList(texts) => Ok(Some(present(texts))),
        SourceArgView::OtherList => Err(SourceError::WrongElementType),
        SourceArgView::Other => Err(SourceError::WrongType),
    }
}

/// The path specs that an argument names, or `None` for bytes.
pub fn path_specs(arg: &SourceArg) -> (res: Result<Option<Vec<String>>, SourceError>)
    ensures
        match path_specs_of(arg.deep_view()) {
            Ok(specs) => res matches Ok(s) && s.deep_view() == specs,
            Err(error) => res == Err::<Option<Vec<String>>, SourceError>(error),
        },
{
    match arg {
        SourceArg::Text(text) => {
            let specs = vec![text.clone()];
            assert(specs.deep_view() =~= seq![text@]);
            Ok(Some(specs))
        },
        SourceArg::Missing => Err(SourceError::Missing),
        SourceArg::Blob(_) => Ok(None),
        SourceArg::TextList(texts) => Ok(Some(keep_present(texts))),
        SourceArg::OtherList => Err(SourceError::WrongElementType),
        SourceArg::Other => Err(SourceError::WrongType),
    }
}

/// Whether a character makes a path spec a glob.
pub open spec fn is_glob_char(c: char) -> bool {
    c == '*' || c == '?' || c == '['
}

/// Whether a path spec has a glob character.
pub open spec fn has_glob_char(spec_text: Seq<char>) -> bool {
    exists|i: int| 0 <= i < spec_text.len() && is_glob_char(#[trigger] spec_text[i])
}

/// Whether a path spec is a glob.
pub fn is_glob(spec_text: &str) -> (res: bool)
    ensures
        res == has_glob_char(spec_text@),
{
    let chars = text::chars_of(spec_text);
    for i in 0..chars.len()
        invariant
            chars@ == spec_text@,
            forall|j: int| 0 <= j < i ==> !is_glob_char(#[trigger] spec_text@[j]),
    {
        let c = chars[i];
        if c == '*' || c == '?' || c == '[' {
            assert(is_glob_char(spec_text@[i as int]));
            return true;
        }
    }
    false
}

/// What the lookup of a glob gave: `None` for a malformed pattern, and otherwise each match,
/// itself `None` where it could not be read.
pub type Matches = Option<Vec<Option<String>>>;

/// The files that a glob stands for: its readable matches in sorted order. A malformed pattern
/// stands for the file of that name.
pub open spec fn expand_of(spec_text: Seq<char>, matches: Option<Seq<Option<Seq<char>>>>) -> Seq<
    Seq<char>,
> {
    match matches {
        Some(paths) => present(paths).sort_by(text::text_relation()),
        None => seq![spec_text],
    }
}

/// The files that a glob stands for, after it was looked up.
pub fn expand(spec_text: &String, matches: Matches) -> (res: Vec<String>)
    ensures
        res.deep_view() == expand_of(spec_text@, matches.deep_view()),
{
    match matches {
        Some(paths) => text::sorted(keep_present(&paths)),
        None => {
            let literal = vec![spec_text.clone()];
            assert(literal.deep_view() =~= seq![spec_text@]);
            literal
        },
    }
}

/// One source: its path, `None` for inline bytes, and its profile, or why there is none.
pub struct DecodeUnit {
    pub file: Option<String>,
    pub result: Result<Decoded, String>,
}

/// The value of a [`DecodeUnit`].
pub struct DecodeUnitView {
    pub file: Option<Seq<char>>,
    pub result: Result<ProfileView, Seq<char>>,
}

impl DeepView for DecodeUnit {
    type V = DecodeUnitView;

    open spec fn deep_view(&self) -> DecodeUnitView {
        DecodeUnitView {
            file: self.file.deep_view(),
            result: match self.result {
                Ok(decoded) => Ok(decoded@),
                Err(message) => Err(message@),
            },
        }
    }
}

/// The unit of a source that was decoded, a failure in words.
pub open spec fn unit_of(
    file: Option<Seq<char>>,
    profile: Result<ProfileView, PprofErrorView>,
) -> DecodeUnitView {
    DecodeUnitView {
        file,
        result: match profile {
            Ok(p) => Ok(p),
            Err(error) => Err(decoded::pprof_error_text(error)),
        },
    }
}

/// The value of an attempt to decode.
pub open spec fn attempt_value(attempt: Result<Decoded, PprofError>) -> Result<
    ProfileView,
    PprofErrorView,
> {
    match attempt {
        Ok(decoded) => Ok(decoded@),
        Err(error) => Err(error.deep_view()),
    }
}

/// The unit of a source that was decoded.
pub fn decoded_unit(file: Option<String>, attempt: Result<Decoded, PprofError>) -> (res:
    DecodeUnit)
    ensures
        res.deep_view() == unit_of(file.deep_view(), attempt_value(attempt)),
{
    match attempt {
        Ok(decoded) => DecodeUnit { file, result: Ok(decoded) },
        Err(error) => DecodeUnit { file, result: Err(error.to_string()) },
    }
}

/// The unit of inline bytes.
pub fn blob_unit(bytes: &[u8]) -> (res: DecodeUnit)
    ensures
        res.deep_view() == unit_of(None, decoded::profile_in(bytes@)),
{
    decoded_unit(None, Decoded::from_bytes(bytes))
}

/// The value of an attempt to read a file: its bytes, or the reason in words.
pub open spec fn contents_of(contents: Result<Vec<u8>, String>) -> Result<Seq<u8>, Seq<char>> {
    match contents {
        Ok(bytes) => Ok(bytes@),
        Err(reason) => Err(reason@),
    }
}

/// The unit of a file that was read, or could not be.
pub open spec fn file_unit_of(
    path: Seq<char>,
    contents: Result<Seq<u8>, Seq<char>>,
) -> DecodeUnitView {
    match contents {
        Ok(bytes) => unit_of(Some(path), decoded::profile_in(bytes)),
        Err(reason) => DecodeUnitView {
            file: Some(path),
            result: Err("read "@ + path + ": "@ + reason),
        },
    }
}

/// The unit of a file that was read, or could not be.
pub fn file_unit(path: String, contents: Result<Vec<u8>, String>) -> (res: DecodeUnit)
    ensures
        res.deep_view() == file_unit_of(path@, contents_of(contents)),
{
    match contents {
        Ok(bytes) => {
            let attempt = Decoded::from_bytes(bytes.as_slice());
            decoded_unit(Some(path), attempt)
        },
        Err(reason) => {
            let mut message = "read ".to_owned();
            message.append(path.as_str());
            message.append(": ");
            message.append(reason.as_str());
            DecodeUnit { file: Some(path), result: Err(message) }
        },
    }
}

/// What a [`Resolver`] asks for next.
#[derive(Debug)]
pub enum Action {
    /// Look up a glob and hand its matches to [`Resolver::matched`].
    Glob(String),
    /// Read a file and hand its contents to [`Resolver::read`].
    Read(String),
    /// All sources are resolved.
    Finish,
}

/// The value of an [`Action`].
pub enum ActionView {
    Glob(Seq<char>),
    Read(Seq<char>),
    Finish,
}

impl DeepView for Action {
    type V = ActionView;

    open spec fn deep_view(&self) -> ActionView {
        match self {
            Action::Glob(spec_text) => ActionView::Glob(spec_text@),
            Action::Read(path) => ActionView::Read(path@),
            Action::Finish => ActionView::Finish,
        }
    }
}

/// The state of a [`Resolver`]: the path specs to come, the files of the current glob to come,
/// and the units so far.
pub struct ResolverView {
    pub specs: Seq<Seq<char>>,
    pub paths: Seq<Seq<char>>,
    pub units: Seq<DecodeUnitView>,
}

/// What a state asks for: the files of the current glob first, then the next path spec.
pub open spec fn next_action(state: ResolverView) -> ActionView {
    if state.paths.len() > 0 {
        ActionView::Read(state.paths.first())
    } else if state.specs.len() > 0 {
        if has_glob_char(state.specs.first()) {
            ActionView::Glob(state.specs.first())
        } else {
            ActionView::Read(state.specs.first())
        }
    } else {
        ActionView::Finish
    }
}

/// The state after the next path spec was looked up as a glob.
pub open spec fn after_matches(
    state: ResolverView,
    matches: Option<Seq<Option<Seq<char>>>>,
) -> ResolverView {
    ResolverView {
        specs: state.specs.drop_first(),
        paths: expand_of(state.specs.first(), matches),
        units: state.units,
    }
}

/// The state after the file that it asked for was read, or could not be.
pub open spec fn after_read(
    state: ResolverView,
    contents: Result<Seq<u8>, Seq<char>>,
) -> ResolverView {
    if state.paths.len() > 0 {
        ResolverView {
            specs: state.specs,
            paths: state.paths.drop_first(),
            units: state.units.push(file_unit_of(state.paths.first(), contents)),
        }
    } else {
        ResolverView {
            specs: state.specs.drop_first(),
            paths: state.paths,
            units: state.units.push(file_unit_of(state.specs.first(), contents)),
        }
    }
}

/// The state at the start: all path specs to come, or the unit of the inline bytes.
pub open spec fn start_of(arg: SourceArgView) -> Result<ResolverView, SourceError> {
    match path_specs_of(arg) {
        Err(error) => Err(error),
        Ok(Some(specs)) => Ok(ResolverView { specs, paths: Seq::empty(), units: Seq::empty() }),
        Ok(None) => match arg {
            SourceArgView::Blob(Some(bytes)) => Ok(
                ResolverView {
                    specs: Seq::empty(),
                    paths: Seq::empty(),
                    units: seq![unit_of(None, decoded::profile_in(bytes))],
                },
            ),
            _ => Err(SourceError::NullBlob),
        },
    }
}

/// Resolves a source argument into one unit per source.
pub struct Resolver {
    specs: Vec<String>,
    next_spec: usize,
    paths: Vec<String>,
    next_path: usize,
    units: Vec<DecodeUnit>,
}

impl View for Resolver {
    type V = ResolverView;

    closed spec fn view(&self) -> ResolverView {
        ResolverView {
            specs: self.specs.deep_view().skip(self.next_spec as int),
            paths: self.paths.deep_view().skip(self.next_path as int),
            units: self.units.deep_view(),
        }
    }
}

impl Resolver {
    #[verifier::type_invariant]
    spec fn well_formed(&self) -> bool {
        &&& self.next_spec <= self.specs.len()
        &&& self.next_path <= self.paths.len()
    }

    /// Starts on a source argument.
    pub fn start(arg: &SourceArg) -> (res: Result<Resolver, SourceError>)
        ensures
            match start_of(arg.deep_view()) {
                Ok(state) => res matches Ok(r) && r@ == state,
                Err(error) => res matches Err(e) && e == error,
            },
    {
        match path_specs(arg) {
            Err(error) => Err(error),
            Ok(Some(specs)) => {
                let r = Resolver {
                    specs,
                    next_spec: 0,
                    paths: Vec::new(),
                    next_path: 0,
                    units: Vec::new(),
                };
                assert(r@.specs =~= specs.deep_view());
                assert(r@.paths =~= Seq::empty());
                assert(r@.units =~= Seq::empty());
                Ok(r)
            },
            Ok(None) => match arg {
                SourceArg::Blob(Some(bytes)) => {
                    let units = vec![blob_unit(bytes.as_slice())];
                    assert(units.deep_view() =~= seq![unit_of(None, decoded::profile_in(bytes@))]);
                    let r = Resolver {
                        specs: Vec::new(),
                        next_spec: 0,
                        paths: Vec::new(),
                        next_path: 0,
                        units,
                    };
                    assert(r@.specs =~= Seq::empty());
                    assert(r@.paths =~= Seq::empty());
                    Ok(r)
                },
                _ => Err(SourceError::NullBlob),
            },
        }
    }

    /// What to look up next.
    pub fn action(&self) -> (res: Action)
        ensures
            res.deep_view() == next_action(self@),
    {
        proof {
            use_type_invariant(self);
        }
        if self.next_path < self.paths.len() {
            Action::Read(self.paths[self.next_path].clone())
        } else if self.next_spec < self.specs.len() {
            let spec_text = &self.specs[self.next_spec];
            if is_glob(spec_text.as_str()) {
                Action::Glob(spec_text.clone())
            } else {
                Action::Read(spec_text.clone())
            }
        } else {
            Action::Finish
        }
    }

    /// Takes what the glob that was asked for matched.
    pub fn matched(self, matches: Matches) -> (res: Resolver)
        requires
            next_action(self@) is Glob,
        ensures
            res@ == after_matches(self@, matches.deep_view()),
    {
        proof {
            use_type_invariant(&self);
        }
        let paths = expand(&self.specs[self.next_spec], matches);
        let res = Resolver {
            specs: self.specs,
            next_spec: self.next_spec + 1,
            paths,
            next_path: 0,
            units: self.units,
        };
        assert(res@.specs =~= self@.specs.drop_first());
        assert(res@.paths =~= paths.deep_view());
        res
    }

    /// Takes the contents of the file that was asked for, or the reason why there are none.
    pub fn read(self, contents: Result<Vec<u8>, String>) -> (res: Resolver)
        requires
            next_action(self@) is Read,
        ensures
            res@ == after_read(self@, contents_of(contents)),
    {
        proof {
            use_type_invariant(&self);
        }
        let mut units = self.units;
        let ghost before = units.deep_view();
        if self.next_path < self.paths.len() {
            let unit = file_unit(self.paths[self.next_path].clone(), contents);
            units.push(unit);
            assert(units.deep_view() =~= before.push(unit.deep_view()));
            let res = Resolver {
                specs: self.specs,
                next_spec: self.next_spec,
                paths: self.paths,
                next_path: self.next_path + 1,
                units,
            };
            assert(res@.paths =~= self@.paths.drop_first());
            res
        } else {
            let unit = file_unit(self.specs[self.next_spec].clone(), contents);
            units.push(unit);
            assert(units.deep_view() =~= before.push(unit.deep_view()));
            let res = Resolver {
                specs: self.specs,
                next_spec: self.next_spec + 1,
                paths: self.paths,
                next_path: self.next_path,
                units,
            };
            assert(res@.specs =~= self@.specs.drop_first());
            res
        }
    }

    /// The units, one per source.
    pub fn finish(self) -> (res: Vec<DecodeUnit>)
        ensures
            res.deep_view() == self@.units,
    {
        self.units
    }
}

/// What the source argument is.
pub const SRC_DOC: &'static str =
    "The profile source: a VARCHAR path to a pprof file (gzip-wrapped or raw `profile.proto`), \
     which may be a glob like '/profiles/*.pb.gz' (matches are read in sorted order); a \
     LIST(VARCHAR) of paths/globs; or a BLOB of profile bytes read inline. Each file is \
     decoded independently — a missing, empty, or malformed profile yields one error row (data \
     columns NULL, `file` set, `error` set) rather than failing the scan.";

/// A bind-time argument of a table function.
#[derive(Debug, Clone, Copy)]
pub struct ArgSpec {
    pub name: &'static str,
    pub position: i32,
    pub data_type: &'static str,
    pub doc: &'static str,
}

/// The source argument that every table function takes.
pub fn src_arg_spec() -> (res: ArgSpec)
    ensures
        res.name@ == "src"@,
        res.position == 0,
        res.data_type@ == "any"@,
        res.doc@ == SRC_DOC@,
{
    ArgSpec { name: "src", position: 0, data_type: "any", doc: SRC_DOC }
}

} // verus!
