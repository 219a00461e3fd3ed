//! The catalog.

use pprof_core::catalog;

fn tag<'a>(tags: &'a [(String, String)], key: &str) -> &'a str {
    let found: Vec<&(String, String)> = tags.iter().filter(|t| t.0 == key).collect();
    assert_eq!(found.len(), 1, "{}", key);
    &found[0].1
}

#[test]
fn the_version_is_published() {
    assert_eq!(catalog::version(), "0.1.1");
    let model = catalog::catalog_metadata("pprof");
    assert_eq!(model.implementation_version.as_deref(), Some("0.1.1"));
}

#[test]
fn the_catalog_has_the_given_name() {
    assert_eq!(catalog::catalog_metadata("pprof").name, "pprof");
    assert_eq!(catalog::catalog_metadata("other").name, "other");
}

#[test]
fn the_catalog_is_described() {
    let model = catalog::catalog_metadata("pprof");
    assert_eq!(
        model.comment.as_deref(),
        Some("Decode pprof (profile.proto) CPU/heap/alloc/mutex profiles into SQL rows for bulk profile diffing and CI performance-regression gates.")
    );
    assert_eq!(model.source_url.as_deref(), Some("https://github.com/Query-farm/vgi-pprof"));
    let keys: Vec<&str> = model.tags.iter().map(|t| t.0.as_str()).collect();
    assert_eq!(
        keys,
        vec![
            "vgi.title",
            "vgi.keywords",
            "vgi.doc_llm",
            "vgi.doc_md",
            "vgi.agent_test_tasks",
            "vgi.example_queries",
            "vgi.author",
            "vgi.copyright",
            "vgi.license",
            "vgi.support_contact",
            "vgi.support_policy_url",
        ]
    );
    assert_eq!(tag(&model.tags, "vgi.title"), "pprof Profile Decoder");
    assert_eq!(tag(&model.tags, "vgi.author"), "Query.Farm");
    assert_eq!(tag(&model.tags, "vgi.license"), "MIT");
    assert!(tag(&model.tags, "vgi.keywords").starts_with("[\"pprof\",\"profile\",\"profile.proto\","));
    assert!(tag(&model.tags, "vgi.keywords").ends_with(",\"observability\",\"SRE\"]"));
    assert!(tag(&model.tags, "vgi.doc_md").starts_with("# pprof\n\nDecode **pprof** profiles \u{2014} the gzip-wrapped"));
    assert!(tag(&model.tags, "vgi.doc_md").contains("ask \"which function regressed across this deploy?\"\n\n"));
    let tasks = tag(&model.tags, "vgi.agent_test_tasks");
    assert!(tasks.starts_with("[{\"name\":\"top_cpu_function\",\"prompt\":\"The file data/go_cpu.pb.gz is a Go CPU profile."));
    assert_eq!(tasks.matches("\"reference_sql\":").count(), 8);
    assert!(tasks.ends_with("AND unit = 'nanoseconds'\"}]"));
    assert_eq!(tag(&model.tags, "vgi.example_queries").lines().count(), 4);
}

#[test]
fn the_schema_is_described() {
    let model = catalog::catalog_metadata("pprof");
    assert_eq!(model.schemas.len(), 1);
    let schema = &model.schemas[0];
    assert_eq!(schema.name, "main");
    let keys: Vec<&str> = schema.tags.iter().map(|t| t.0.as_str()).collect();
    assert_eq!(
        keys,
        vec![
            "vgi.title",
            "vgi.keywords",
            "domain",
            "category",
            "topic",
            "vgi.categories",
            "vgi.doc_llm",
            "vgi.doc_md",
            "vgi.example_queries",
        ]
    );
    assert_eq!(tag(&schema.tags, "vgi.title"), "pprof \u{2014} main");
    assert_eq!(
        tag(&schema.tags, "vgi.categories"),
        "[{\"name\":\"Flattened stacks\",\"description\":\"The headline view: flamegraph-ready rows with each sample's call stack pre-resolved, for diffing profiles in SQL without a manual join.\"},{\"name\":\"Raw profile graph\",\"description\":\"The raw profile.proto graph \u{2014} samples and the location, function, and mapping tables they reference \u{2014} with original ids passed through verbatim for ad-hoc joins.\"},{\"name\":\"Profile metadata\",\"description\":\"Profile-level summary and worker introspection: the sample value types, sampling period and duration, and the running worker version.\"}]"
    );
    let examples = tag(&schema.tags, "vgi.example_queries");
    assert!(examples.starts_with("[{\"description\":\"Top self-time functions across a directory of CPU profiles.\",\"sql\":\"SELECT s.frame[1].function AS fn"));
    assert_eq!(examples.matches("\"sql\":").count(), 3);
}

#[test]
fn the_guide_is_a_view() {
    let view = catalog::sample_type_guide_view();
    assert_eq!(view.name, "sample_type_guide");
    assert!(view.definition.starts_with("SELECT * FROM (VALUES ('Go', 'cpu', 1, 'samples', 'count', "));
    assert!(view.definition.ends_with("AS t(producer, profile_kind, value_index, sample_type, unit, meaning)"));
    assert_eq!(view.definition.matches("('Go', ").count(), 12);
    let columns: Vec<&str> = view.column_comments.iter().map(|c| c.0.as_str()).collect();
    assert_eq!(
        columns,
        vec!["producer", "profile_kind", "value_index", "sample_type", "unit", "meaning"]
    );
    assert_eq!(view.tags.len(), 8);
    assert_eq!(tag(&view.tags, "vgi.category"), "Profile metadata");
    assert_eq!(tag(&view.tags, "domain"), "observability");
    assert_eq!(
        tag(&view.tags, "vgi.example_queries"),
        "[{\"description\":\"Look up which value slot holds CPU time for a Go CPU profile (and in what unit).\",\"sql\":\"SELECT value_index, sample_type, unit FROM pprof.main.sample_type_guide WHERE producer = 'Go' AND profile_kind = 'cpu' ORDER BY value_index\"}]"
    );
    assert_eq!(catalog::catalog_metadata("p").schemas[0].views[0].name, "sample_type_guide");
}
