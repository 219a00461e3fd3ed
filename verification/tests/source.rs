//! Resolving source arguments.

use pprof_core::meta;
use pprof_core::source;
use pprof_core::source::{Action, DecodeUnit, Resolver, SourceArg, SourceError};
use pprof_core::text;

fn some(text: &str) -> Option<String> {
    Some(text.to_string())
}

fn strings(texts: &[&str]) -> Vec<String> {
    texts.iter().map(|t| t.to_string()).collect()
}

fn from_base64(text: &str) -> Vec<u8> {
    let mut out = Vec::new();
    let mut bits: u32 = 0;
    let mut n = 0;
    for c in text.bytes() {
        let v = match c {
            b'A'..=b'Z' => c - b'A',
            b'a'..=b'z' => c - b'a' + 26,
            b'0'..=b'9' => c - b'0' + 52,
            b'+' => 62,
            b'/' => 63,
            _ => continue,
        };
        bits = bits << 6 | v as u32;
        n += 6;
        if n >= 8 {
            n -= 8;
            out.push((bits >> n) as u8);
            bits &= (1 << n) - 1;
        }
    }
    out
}

/// A world with a few files.
fn read(path: &str) -> Result<Vec<u8>, String> {
    match path {
        "a.pb.gz" | "dir/one.pb.gz" => Ok(from_base64(meta::GO_CPU_B64)),
        "dir/two.pb.gz" => Ok(from_base64(meta::GO_HEAP_B64)),
        "empty" => Ok(Vec::new()),
        "junk" => Ok(vec![0xff]),
        _ => Err("No such file or directory (os error 2)".to_string()),
    }
}

fn lookup(pattern: &str) -> Option<Vec<Option<String>>> {
    match pattern {
        "dir/*.pb.gz" => Some(vec![some("dir/two.pb.gz"), None, some("dir/one.pb.gz")]),
        "none/*" => Some(vec![]),
        _ => None,
    }
}

/// Runs a resolver to its end.
fn resolve(arg: &SourceArg) -> Result<Vec<DecodeUnit>, SourceError> {
    let mut resolver = Resolver::start(arg)?;
    loop {
        resolver = match resolver.action() {
            Action::Glob(pattern) => resolver.matched(lookup(&pattern)),
            Action::Read(path) => resolver.read(read(&path)),
            Action::Finish => return Ok(resolver.finish()),
        };
    }
}

fn outcomes(arg: &SourceArg) -> Vec<(Option<String>, Result<usize, String>)> {
    match resolve(arg) {
        Ok(units) => units
            .into_iter()
            .map(|u| (u.file, u.result.map(|d| d.stacks().len())))
            .collect(),
        Err(e) => panic!("{}", e.to_string()),
    }
}

fn refusal(arg: &SourceArg) -> SourceError {
    match resolve(arg) {
        Ok(_) => panic!("resolved"),
        Err(e) => e,
    }
}

#[test]
fn a_path_is_one_source() {
    assert_eq!(
        outcomes(&SourceArg::Text("a.pb.gz".to_string())),
        vec![(some("a.pb.gz"), Ok(2))]
    );
}

#[test]
fn a_missing_file_is_an_error_of_its_own() {
    assert_eq!(
        outcomes(&SourceArg::Text("gone".to_string())),
        vec![(
            some("gone"),
            Err("read gone: No such file or directory (os error 2)".to_string())
        )]
    );
}

#[test]
fn empty_and_malformed_files_are_errors_of_their_own() {
    assert_eq!(
        outcomes(&SourceArg::TextList(vec![some("empty"), some("a.pb.gz"), some("junk")])),
        vec![
            (some("empty"), Err("empty profile (zero bytes)".to_string())),
            (some("a.pb.gz"), Ok(2)),
            (
                some("junk"),
                Err(
                    "pprof protobuf decode failed: failed to decode Protobuf message: invalid varint"
                        .to_string()
                )
            ),
        ]
    );
}

#[test]
fn a_glob_stands_for_its_matches_in_order() {
    assert_eq!(
        outcomes(&SourceArg::Text("dir/*.pb.gz".to_string())),
        vec![(some("dir/one.pb.gz"), Ok(2)), (some("dir/two.pb.gz"), Ok(1))]
    );
    assert_eq!(outcomes(&SourceArg::Text("none/*".to_string())), vec![]);
}

#[test]
fn a_malformed_glob_is_a_path() {
    assert_eq!(
        outcomes(&SourceArg::Text("a[".to_string())),
        vec![(some("a["), Err("read a[: No such file or directory (os error 2)".to_string()))]
    );
}

#[test]
fn a_list_keeps_its_order_and_drops_nulls() {
    assert_eq!(
        outcomes(&SourceArg::TextList(vec![
            some("junk"),
            None,
            some("dir/*.pb.gz"),
            some("a.pb.gz"),
        ]))
        .into_iter()
        .map(|o| o.0)
        .collect::<Vec<_>>(),
        vec![some("junk"), some("dir/one.pb.gz"), some("dir/two.pb.gz"), some("a.pb.gz")]
    );
    assert_eq!(outcomes(&SourceArg::TextList(vec![])), vec![]);
}

#[test]
fn inline_bytes_have_no_file() {
    let bytes = from_base64(meta::GO_CPU_B64);
    assert_eq!(outcomes(&SourceArg::Blob(Some(bytes))), vec![(None, Ok(2))]);
    assert_eq!(
        outcomes(&SourceArg::Blob(Some(vec![]))),
        vec![(None, Err("empty profile (zero bytes)".to_string()))]
    );
}

#[test]
fn refusals_say_what_is_wrong() {
    assert_eq!(
        refusal(&SourceArg::Missing).to_string(),
        "a profile source (path, list of paths, or BLOB) is required"
    );
    assert_eq!(
        refusal(&SourceArg::Other).to_string(),
        "profile source must be a VARCHAR path, a LIST(VARCHAR), or a BLOB"
    );
    assert_eq!(refusal(&SourceArg::OtherList).to_string(), "path list elements must be VARCHAR");
    assert_eq!(
        refusal(&SourceArg::Blob(None)).to_string(),
        "profile source BLOB was NULL or empty"
    );
}

#[test]
fn bytes_have_no_path_specs() {
    assert_eq!(source::path_specs(&SourceArg::Blob(None)), Ok(None));
    assert_eq!(
        source::path_specs(&SourceArg::Text("x".to_string())),
        Ok(Some(strings(&["x"])))
    );
    assert_eq!(source::path_specs(&SourceArg::Missing), Err(SourceError::Missing));
}

#[test]
fn glob_characters_make_a_glob() {
    assert!(source::is_glob("*.pb"));
    assert!(source::is_glob("a?"));
    assert!(source::is_glob("x[0-9]"));
    assert!(!source::is_glob("plain]{}.pb.gz"));
    assert!(!source::is_glob(""));
}

#[test]
fn matches_are_sorted_as_std_sorts_them() {
    let mut paths = strings(&["b", "a/b", "a", "B", "\u{e9}", "z", "a/", "", "a b", "\u{1F980}", "\u{FFFD}", "b", "a-"]);
    let matches = Some(paths.iter().map(|p| Some(p.clone())).collect());
    let expanded = source::expand(&"*".to_string(), matches);
    paths.sort();
    assert_eq!(expanded, paths);
    assert_eq!(source::expand(&"[".to_string(), None), strings(&["["]));
}

#[test]
fn order_is_lexicographic() {
    assert!(text::stands_before("", ""));
    assert!(text::stands_before("", "a"));
    assert!(!text::stands_before("a", ""));
    assert!(text::stands_before("a", "ab"));
    assert!(!text::stands_before("b", "ab"));
}

#[test]
fn what_is_asked_for_follows_the_answers() {
    let arg = SourceArg::TextList(vec![some("dir/*.pb.gz"), some("a.pb.gz")]);
    let r = Resolver::start(&arg).ok().unwrap();
    assert!(matches!(r.action(), Action::Glob(p) if p == "dir/*.pb.gz"));
    let r = r.matched(Some(vec![some("y"), some("x")]));
    assert!(matches!(r.action(), Action::Read(p) if p == "x"));
    let r = r.read(Err("denied".to_string()));
    assert!(matches!(r.action(), Action::Read(p) if p == "y"));
    let r = r.read(Err("denied".to_string()));
    assert!(matches!(r.action(), Action::Read(p) if p == "a.pb.gz"));
    let r = r.read(Err("denied".to_string()));
    assert!(matches!(r.action(), Action::Finish));
    let files: Vec<Option<String>> = r.finish().into_iter().map(|u| u.file).collect();
    assert_eq!(files, vec![some("x"), some("y"), some("a.pb.gz")]);
}

#[test]
fn the_argument_is_described() {
    let spec = source::src_arg_spec();
    assert_eq!((spec.name, spec.position, spec.data_type), ("src", 0, "any"));
    assert!(spec.doc.starts_with("The profile source: a VARCHAR path to a pprof file"));
    assert!(spec.doc.contains("(matches are read in sorted order)"));
    assert!(spec.doc.ends_with("`error` set) rather than failing the scan."));
}
