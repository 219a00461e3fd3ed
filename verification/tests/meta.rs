//! Tags, keywords and JSON texts.

use pprof_core::meta;

fn pair(a: &str, b: &str) -> (String, String) {
    (a.to_string(), b.to_string())
}

#[test]
fn keywords_are_trimmed_and_quoted() {
    assert_eq!(
        meta::keywords_json("fixed-width, unpack,copybook"),
        r#"["fixed-width","unpack","copybook"]"#
    );
    assert_eq!(meta::keywords_json(""), "[]");
    assert_eq!(meta::keywords_json(" , ,,\t\n,"), "[]");
    assert_eq!(meta::keywords_json("a"), r#"["a"]"#);
    assert_eq!(meta::keywords_json(" two words ,\u{a0}\u{3000}x\u{2003}"), r#"["two words","x"]"#);
    assert_eq!(meta::keywords_json(r#"say "hi",back\slash"#), r#"["say \"hi\"","back\\slash"]"#);
    assert_eq!(meta::keywords_json("caf\u{e9}, \u{200b}z"), "[\"caf\u{e9}\",\"\u{200b}z\"]");
}

#[test]
fn keywords_escape_control_characters() {
    assert_eq!(meta::keywords_json("a\tb"), r#"["a\tb"]"#);
    assert_eq!(meta::keywords_json("a\nb, c\rd"), r#"["a\nb","c\rd"]"#);
    assert_eq!(meta::keywords_json("\u{0}a\u{8},b\u{1f}"), r#"["\u0000a\u0008","b\u001f"]"#);
    assert_eq!(meta::keywords_json("a\u{b}b,a\u{1a}b"), r#"["a\u000bb","a\u001ab"]"#);
    assert_eq!(meta::keywords_json("a\u{7f}b"), "[\"a\u{7f}b\"]");
}

#[test]
fn no_json_text_holds_a_control_character() {
    for u in 0..0x20u8 {
        let text = format!("x{}y", u as char);
        let texts = [
            meta::keywords_json(&text),
            meta::example_queries_json(&[pair(&text, &text)]),
            meta::agent_test_tasks_json(&[(&text, &text, &text)]),
            meta::result_columns_schema(&[(&text, &text, &text)]),
        ];
        for json in &texts {
            assert!(json.chars().all(|c| c >= ' '), "{:x}", u);
        }
    }
}

#[test]
fn white_space_is_what_std_says_it_is() {
    // A term of one character vanishes exactly where the character is white space.
    for u in 0..=0x10FFFFu32 {
        if u >= 0x3100 && u % 101 != 0 {
            continue;
        }
        if let Some(c) = char::from_u32(u) {
            if c == ',' {
                continue;
            }
            let text = c.to_string();
            assert_eq!(meta::keywords_json(&text) == "[]", c.is_whitespace(), "{:x}", u);
        }
    }
}

#[test]
fn examples_are_json_objects() {
    assert_eq!(meta::example_queries_json(&[]), "[]");
    assert_eq!(
        meta::example_queries_json(&[
            pair("First \"one\"", "SELECT\n\t'a\\b'\r\n"),
            pair("Second", "SELECT 2"),
        ]),
        r#"[{"description":"First \"one\"","sql":"SELECT\n 'a\\b'\n"},{"description":"Second","sql":"SELECT 2"}]"#
    );
    assert_eq!(
        meta::example_queries_json(&[pair("a\tb\rc", "d\u{1b}e\u{c}")]),
        r#"[{"description":"a bc","sql":"d\u001be\u000c"}]"#
    );
}

#[test]
fn tasks_are_json_objects() {
    assert_eq!(meta::agent_test_tasks_json(&[]), "[]");
    assert_eq!(
        meta::agent_test_tasks_json(&[("n", "a\n\"b\"", "c\\d\t\r\u{1}")]),
        r#"[{"name":"n","prompt":"a\n\"b\"","reference_sql":"c\\d\t\r\u0001"}]"#
    );
}

#[test]
fn result_columns_are_json_objects() {
    assert_eq!(
        meta::result_columns_schema(&[("id", "BIGINT", "The \"id\"\n"), ("x", "VARCHAR", "")]),
        r#"[{"name":"id","type":"BIGINT","description":"The \"id\"\n"},{"name":"x","type":"VARCHAR","description":""}]"#
    );
}

#[test]
fn trailing_columns_are_file_and_error() {
    let columns = meta::trailing_result_columns();
    assert_eq!(columns[0].0, "file");
    assert_eq!(columns[1].0, "error");
    assert_eq!(columns[0].1, "VARCHAR");
    assert_eq!(
        columns[0].2,
        "Source path the row came from (NULL when the profile was passed as inline BLOB bytes)."
    );
    assert_eq!(
        columns[1].2,
        "NULL on success; otherwise this is an error row for a file that could not be read or decoded, with every data column NULL and the failure message here."
    );
}

#[test]
fn object_tags_have_five_keys() {
    assert_eq!(
        meta::object_tags("T", "llm", "md", "a, b", "C"),
        vec![
            pair("vgi.title", "T"),
            pair("vgi.doc_llm", "llm"),
            pair("vgi.doc_md", "md"),
            pair("vgi.keywords", r#"["a","b"]"#),
            pair("vgi.category", "C"),
        ]
    );
}

#[test]
fn examples_and_their_json_come_from_one_list() {
    let (examples, json) = meta::described_examples(vec![pair("What", "SELECT 1;")]);
    assert_eq!(examples.len(), 1);
    assert_eq!(examples[0].description, "What");
    assert_eq!(examples[0].sql, "SELECT 1;");
    assert_eq!(examples[0].expected_output, None);
    assert_eq!(json, r#"[{"description":"What","sql":"SELECT 1;"}]"#);
}
