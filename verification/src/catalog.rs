//! The catalog that the tables are found in, and what is told of it.

use vstd::prelude::*;
use vstd::string::*;

use crate::lists;
use crate::meta;
use crate::meta::Escaping;

verus! {

/// The version of the library, published with the catalog.
pub const VERSION: &'static str = "0.1.1";

/// The comment of the catalog.
pub const CATALOG_COMMENT: &'static str =
    "Decode pprof (profile.proto) CPU/heap/alloc/mutex profiles into SQL rows for bulk profile \
     diffing and CI performance-regression gates.";

/// The title of the catalog.
pub const CATALOG_TITLE: &'static str = "pprof Profile Decoder";

/// What the catalog is found by.
pub const CATALOG_KEYWORDS: &'static str =
    "pprof, profile, profile.proto, profiling, flamegraph, CPU profile, heap profile, alloc, \
     allocation, mutex, contention, Go pprof, gperftools, Parca, Pyroscope, py-spy, perf \
     regression, stack trace, samples, build id, symbolization, observability, SRE";

/// What the catalog is, for a model.
pub const CATALOG_DOC_LLM: &'static str =
    "Decode pprof profiles — the gzip-wrapped profile.proto emitted by Go, gperftools, Parca, \
     Pyroscope, and py-spy — into SQL rows over Arrow so you can bulk-diff many profiles at \
     once and gate CI on performance regressions, which the interactive, single-file `go tool \
     pprof` can't do. The headline is a flattened, flamegraph-ready view: one row per sample \
     carrying its per-type measured values (a list of BIGINTs aligned to the profile's sample \
     value types), its labels as a `MAP`, and its call stack pre-resolved leaf-first as a list \
     of frame structs (inlined frames expanded, unsymbolized frames keeping their raw address) \
     — so a flamegraph diff becomes a GROUP BY over frames with a SUM and no manual join. The \
     underlying protobuf graph is also exposed with the profile's original ids passed through \
     verbatim so rows join cleanly, plus a one-row profile summary (sample value types, \
     sampling period, duration). Build ids are emitted verbatim so the addresses of \
     unsymbolized native frames can be resolved downstream by a symbolizer. Reach for this \
     whenever you need to compare, aggregate, or regression-gate profiles across a fleet, a \
     deploy, or a CI run rather than eyeballing one at a time. Each source is decoded \
     independently — a path (which may be a glob), a list of paths, or inline profile bytes — \
     and a missing, empty, or malformed profile becomes one error row (data columns NULL) \
     instead of aborting the scan.";

/// What the catalog is, for a reader.
pub const CATALOG_DOC_MD: &'static str =
    "# pprof\n\nDecode **pprof** profiles — the gzip-wrapped `profile.proto` produced by Go, \
     gperftools, Parca, Pyroscope, py-spy, and friends — into rows so SRE and performance \
     teams can **bulk-diff profiles in SQL** and wire up CI performance-regression gates. `go \
     tool pprof` is interactive and single-file; this worker lets you load hundreds of \
     profiles at once and ask \"which function regressed across this deploy?\"\n\nThe headline \
     is a **flattened, flamegraph-ready view**: one row per sample with its call stack already \
     resolved — the per-type measured values (a `BIGINT[]` aligned to the profile's sample \
     value types), the sample labels as a `MAP`, and the call stack as a leaf-first list of \
     `(function, filename, line, address)` frames, with inlined frames expanded and \
     unsymbolized frames keeping their raw address. A flamegraph diff across many profiles \
     then needs no manual join.\n\nThe underlying `profile.proto` graph is also exposed for \
     ad-hoc joins, with the profile's original ids passed through verbatim, alongside a \
     one-row profile summary (sample value types, sampling period, duration). A loaded \
     binary's build id is emitted verbatim so the addresses of unsymbolized native frames can \
     be resolved by a downstream symbolizer.\n\nReach for this worker whenever you need to \
     **compare or aggregate profiles at scale** — across a fleet, a deploy, or a CI run — \
     rather than inspecting one at a time. Each source is decoded independently — a **path** \
     (which may be a glob like `/profiles/*.pb.gz`), a **list of paths**, or **inline profile \
     bytes** — so a malformed or zero-byte profile produces a single **error row** (every data \
     column NULL) rather than failing the whole scan.";

/// The prompt of the task `top_cpu_function`.
pub const TOP_CPU_FUNCTION_PROMPT: &'static str =
    "The file data/go_cpu.pb.gz is a Go CPU profile. Which leaf function has the most total \
     CPU time? CPU nanoseconds is the second sample value. Return one row with a column named \
     fn and a column named cpu_ns.";

/// The reference query of the task `top_cpu_function`.
pub const TOP_CPU_FUNCTION_SQL: &'static str =
    "SELECT frame[1].function AS fn, sum(value[2]) AS cpu_ns FROM \
     pprof.main.stacks('data/go_cpu.pb.gz') WHERE error IS NULL GROUP BY 1 ORDER BY 2 DESC \
     LIMIT 1";

/// The prompt of the task `heap_sample_types`.
pub const HEAP_SAMPLE_TYPES_PROMPT: &'static str =
    "data/go_heap.pb.gz is a Go heap profile. How many distinct sample value types does it \
     carry? Return one row with a single column named n.";

/// The reference query of the task `heap_sample_types`.
pub const HEAP_SAMPLE_TYPES_SQL: &'static str =
    "SELECT len(sample_types) AS n FROM pprof.main.meta('data/go_heap.pb.gz') WHERE error IS \
     NULL";

/// The prompt of the task `native_build_ids`.
pub const NATIVE_BUILD_IDS_PROMPT: &'static str =
    "data/native.pb.gz is an unsymbolized native profile. List the build ids of its mappings \
     that have one, so they can be symbolized. Return a column named build_id.";

/// The reference query of the task `native_build_ids`.
pub const NATIVE_BUILD_IDS_SQL: &'static str =
    "SELECT build_id FROM pprof.main.mappings('data/native.pb.gz') WHERE error IS NULL AND \
     build_id IS NOT NULL ORDER BY build_id";

/// The prompt of the task `regression_diff`.
pub const REGRESSION_DIFF_PROMPT: &'static str =
    "Compare two CPU profiles data/go_cpu.pb.gz (baseline) and data/go_cpu2.pb.gz (candidate): \
     for the busiest leaf function in the candidate, return its name and the CPU-nanosecond \
     delta (candidate minus baseline). Return columns fn and delta.";

/// The reference query of the task `regression_diff`.
pub const REGRESSION_DIFF_SQL: &'static str =
    "WITH b AS (SELECT frame[1].function AS fn, sum(value[2]) AS ns FROM \
     pprof.main.stacks('data/go_cpu.pb.gz') WHERE error IS NULL GROUP BY 1), c AS (SELECT \
     frame[1].function AS fn, sum(value[2]) AS ns FROM pprof.main.stacks('data/go_cpu2.pb.gz') \
     WHERE error IS NULL GROUP BY 1) SELECT c.fn AS fn, c.ns - COALESCE(b.ns, 0) AS delta FROM \
     c LEFT JOIN b USING (fn) ORDER BY c.ns DESC LIMIT 1";

/// The prompt of the task `sample_count`.
pub const SAMPLE_COUNT_PROMPT: &'static str =
    "data/go_cpu.pb.gz is a Go CPU profile. How many samples (recorded stack traces) does it \
     contain? Return one row with a single column named n.";

/// The reference query of the task `sample_count`.
pub const SAMPLE_COUNT_SQL: &'static str =
    "SELECT count(*) AS n FROM pprof.main.samples('data/go_cpu.pb.gz') WHERE error IS NULL";

/// The prompt of the task `function_table_size`.
pub const FUNCTION_TABLE_SIZE_PROMPT: &'static str =
    "How many rows does the function table of data/go_cpu.pb.gz have (the number of distinct \
     symbolized functions in the profile)? Return one row with a single column named n.";

/// The reference query of the task `function_table_size`.
pub const FUNCTION_TABLE_SIZE_SQL: &'static str =
    "SELECT count(*) AS n FROM pprof.main.functions('data/go_cpu.pb.gz') WHERE error IS NULL";

/// The prompt of the task `deepest_inlining`.
pub const DEEPEST_INLINING_PROMPT: &'static str =
    "In data/go_cpu.pb.gz, across all locations, what is the greatest number of line-table \
     entries on any single location (the deepest inlining the compiler folded into one \
     instruction address)? Return one row with a single column named max_inline.";

/// The reference query of the task `deepest_inlining`.
pub const DEEPEST_INLINING_SQL: &'static str =
    "SELECT max(len(lines)) AS max_inline FROM pprof.main.locations('data/go_cpu.pb.gz') WHERE \
     error IS NULL";

/// The prompt of the task `cpu_value_index`.
pub const CPU_VALUE_INDEX_PROMPT: &'static str =
    "Using the worker's built-in reference guide of pprof sample value types, which value \
     index carries CPU time measured in nanoseconds for a Go 'cpu' profile? Return one row \
     with a single column named value_index.";

/// The reference query of the task `cpu_value_index`.
pub const CPU_VALUE_INDEX_SQL: &'static str =
    "SELECT value_index FROM pprof.main.sample_type_guide WHERE producer = 'Go' AND \
     profile_kind = 'cpu' AND unit = 'nanoseconds'";

/// Queries that show what the catalog is for.
pub const CATALOG_EXAMPLES: &'static str =
    "SELECT s.frame[1].function AS fn, sum(s.value[2]) AS cpu_ns FROM \
     glob('/profiles/*.pb.gz') f, pprof.main.stacks(f.path) s WHERE s.error IS NULL GROUP BY 1 \
     ORDER BY 2 DESC LIMIT 20;\nSELECT * FROM pprof.main.meta('cpu.pb.gz');\nSELECT sample_id, \
     frame[1].function AS leaf, value FROM pprof.main.stacks('cpu.pb.gz') WHERE error IS \
     NULL;\nSELECT mapping_id, filename, build_id FROM pprof.main.mappings('native.pb.gz') \
     WHERE build_id IS NOT NULL;";

/// Who holds the copyright.
pub const COPYRIGHT: &'static str = "Copyright 2026 Query Farm LLC - https://query.farm";

/// Where to ask.
pub const SUPPORT_CONTACT: &'static str = "https://github.com/Query-farm/vgi-pprof/issues";

/// Where to read what is supported.
pub const SUPPORT_POLICY_URL: &'static str =
    "https://github.com/Query-farm/vgi-pprof/blob/main/README.md";

/// Where the source is.
pub const SOURCE_URL: &'static str = "https://github.com/Query-farm/vgi-pprof";

/// The comment of the schema.
pub const SCHEMA_COMMENT: &'static str =
    "Decode pprof profiles into SQL rows: flattened flamegraph-ready stacks, the raw \
     profile.proto graph, and profile metadata.";

/// The title of the schema.
pub const SCHEMA_TITLE: &'static str = "pprof — main";

/// What the schema is found by.
pub const SCHEMA_KEYWORDS: &'static str =
    "pprof, stacks, samples, functions, locations, mappings, meta, profile, flamegraph, \
     profiling, regression, build id, symbolization";

/// The category `Flattened stacks`.
pub const FLATTENED_STACKS_CATEGORY: &'static str = "Flattened stacks";

/// What is listed under `Flattened stacks`.
pub const FLATTENED_STACKS_ABOUT: &'static str =
    "The headline view: flamegraph-ready rows with each sample's call stack pre-resolved, for \
     diffing profiles in SQL without a manual join.";

/// The category `Raw profile graph`.
pub const RAW_PROFILE_GRAPH_CATEGORY: &'static str = "Raw profile graph";

/// What is listed under `Raw profile graph`.
pub const RAW_PROFILE_GRAPH_ABOUT: &'static str =
    "The raw profile.proto graph — samples and the location, function, and mapping tables they \
     reference — with original ids passed through verbatim for ad-hoc joins.";

/// The category `Profile metadata`.
pub const PROFILE_METADATA_CATEGORY: &'static str = "Profile metadata";

/// What is listed under `Profile metadata`.
pub const PROFILE_METADATA_ABOUT: &'static str =
    "Profile-level summary and worker introspection: the sample value types, sampling period \
     and duration, and the running worker version.";

/// What the schema is, for a model.
pub const SCHEMA_DOC_LLM: &'static str =
    "Decode a pprof profile into SQL rows. The headline is a flattened, flamegraph-ready view \
     — one row per sample with its per-type values (a list of BIGINTs aligned to the profile's \
     sample value types), its labels as a `MAP`, and its call stack pre-resolved leaf-first as \
     frame structs — so a flamegraph diff is a GROUP BY over frames with a SUM and no join. \
     The underlying protobuf graph is also exposed for ad-hoc joins with the profile's \
     original ids passed through verbatim, alongside a one-row summary of the sample value \
     types, sampling period, and duration. The profile source is a path, a glob, a list of \
     paths, or inline bytes; a bad file becomes one error row rather than aborting the scan.";

/// What the schema is, for a reader.
pub const SCHEMA_DOC_MD: &'static str =
    "## pprof · main\n\nThe single schema for the `pprof` worker — the catalog name matches \
     the `ATTACH` name, so calls qualify as `pprof.main.<fn>(...)`.\n\nIt decodes a pprof \
     profile into SQL rows across three groups: a flattened, flamegraph-ready view of samples \
     with their call stacks pre-resolved (the headline), the raw `profile.proto` graph for \
     ad-hoc joins, and a one-row profile summary of the sample value types, sampling period, \
     and duration.\n\nEvery table takes the same overloaded profile source — a path, a glob, a \
     list of paths, or inline bytes — and appends `file` and `error` columns for per-file \
     provenance and error capture, so a bad file in a glob becomes one error row instead of \
     aborting the scan.";

/// What an example of the schema shows.
pub const TOP_FUNCTIONS_DESCRIPTION: &'static str =
    "Top self-time functions across a directory of CPU profiles.";

/// The query of that example.
pub const TOP_FUNCTIONS_SQL: &'static str =
    "SELECT s.frame[1].function AS fn, sum(s.value[2]) AS cpu_ns FROM \
     glob('/profiles/*.pb.gz') f, pprof.main.stacks(f.path) s WHERE s.error IS NULL GROUP BY 1 \
     ORDER BY 2 DESC LIMIT 20";

/// What an example of the schema shows.
pub const HEAP_TYPES_DESCRIPTION: &'static str =
    "A heap profile's sample value types, sampling period, and duration.";

/// The query of that example.
pub const HEAP_TYPES_SQL: &'static str =
    "SELECT sample_types, period, duration_nanos FROM pprof.main.meta('data/go_heap.pb.gz') \
     WHERE error IS NULL";

/// What an example of the schema shows.
pub const BUILD_IDS_DESCRIPTION: &'static str =
    "Mappings that carry a build id (the binaries still to symbolize).";

/// The query of that example.
pub const BUILD_IDS_SQL: &'static str =
    "SELECT mapping_id, filename, build_id FROM pprof.main.mappings('data/native.pb.gz') WHERE \
     error IS NULL AND build_id IS NOT NULL";

/// The query behind the sample type guide.
pub const GUIDE_DEFINITION: &'static str =
    "SELECT * FROM (VALUES ('Go', 'cpu', 1, 'samples', 'count', 'Number of CPU samples that \
     landed on this stack'), ('Go', 'cpu', 2, 'cpu', 'nanoseconds', 'CPU time attributed to \
     this stack'), ('Go', 'heap', 1, 'alloc_objects', 'count', 'Objects allocated since the \
     process started'), ('Go', 'heap', 2, 'alloc_space', 'bytes', 'Bytes allocated since the \
     process started'), ('Go', 'heap', 3, 'inuse_objects', 'count', 'Objects still live at \
     profile time'), ('Go', 'heap', 4, 'inuse_space', 'bytes', 'Bytes still live at profile \
     time'), ('Go', 'allocs', 1, 'alloc_objects', 'count', 'Objects allocated since the \
     process started'), ('Go', 'allocs', 2, 'alloc_space', 'bytes', 'Bytes allocated since the \
     process started'), ('Go', 'block', 1, 'contentions', 'count', 'Blocking events \
     observed'), ('Go', 'block', 2, 'delay', 'nanoseconds', 'Time spent blocked'), ('Go', \
     'mutex', 1, 'contentions', 'count', 'Mutex contention events observed'), ('Go', 'mutex', \
     2, 'delay', 'nanoseconds', 'Time spent waiting on the mutex')) AS t(producer, \
     profile_kind, value_index, sample_type, unit, meaning)";

/// Queries that show what the guide is for, as JSON.
pub const GUIDE_EXAMPLES: &'static str =
    "[{\"description\":\"Look up which value slot holds CPU time for a Go CPU profile (and in \
     what unit).\",\"sql\":\"SELECT value_index, sample_type, unit FROM \
     pprof.main.sample_type_guide WHERE producer = 'Go' AND profile_kind = 'cpu' ORDER BY \
     value_index\"}]";

/// The title of the guide.
pub const GUIDE_TITLE: &'static str = "pprof Value-Slot Reference";

/// What the guide is, for a model.
pub const GUIDE_DOC_LLM: &'static str =
    "A browsable reference table mapping common pprof `(producer, profile_kind, value_index)` \
     conventions to the `sample_type` and `unit` that each `value[N]` slot carries — e.g. for \
     a Go 'cpu' profile value[1] is samples/count and value[2] is cpu/nanoseconds. Read it to \
     know which `value` index to sum in pprof.stacks / pprof.samples without decoding a file \
     first; the authoritative per-profile answer is pprof.meta(src).sample_types. Backed by a \
     VALUES list, so it scans with no file, network, or credential.";

/// What the guide is, for a reader.
pub const GUIDE_DOC_MD: &'static str =
    "Reference table of common pprof sample value-type conventions: `producer`, \
     `profile_kind`, `value_index`, `sample_type`, `unit`, `meaning`. Tells you which \
     `value[N]` slot to read (e.g. Go CPU time is value[2], nanoseconds).";

/// What the guide is found by.
pub const GUIDE_KEYWORDS: &'static str =
    "pprof, sample type, sample_type, value index, cpu, nanoseconds, alloc, heap, inuse, \
     mutex, block, contentions, delay, units, reference, guide, conventions";

/// The comment of the guide.
pub const GUIDE_COMMENT: &'static str =
    "Reference table of common pprof sample value-type conventions: which sample_type and unit \
     each value[N] slot carries per (producer, profile_kind). VALUES-backed, so it scans with \
     no file or credential.";

/// The comment of the column `producer` of the guide.
pub const GUIDE_PRODUCER: &'static str =
    "The profiler/runtime that emitted the profile (e.g. 'Go').";

/// The comment of the column `profile_kind` of the guide.
pub const GUIDE_PROFILE_KIND: &'static str =
    "The kind of profile within that producer (e.g. 'cpu', 'heap', 'allocs', 'mutex', 'block').";

/// The comment of the column `value_index` of the guide.
pub const GUIDE_VALUE_INDEX: &'static str =
    "1-based position of this value in the sample's `value` list (value[value_index] in \
     pprof.stacks / pprof.samples).";

/// The comment of the column `sample_type` of the guide.
pub const GUIDE_SAMPLE_TYPE: &'static str =
    "The value type's name at this index, matching meta.sample_types[value_index].type.";

/// The comment of the column `unit` of the guide.
pub const GUIDE_UNIT: &'static str =
    "The unit the value is measured in (e.g. 'count', 'bytes', 'nanoseconds').";

/// The comment of the column `meaning` of the guide.
pub const GUIDE_MEANING: &'static str =
    "A plain-language description of what this value slot counts.";

/// The version of the library.
pub fn version() -> (res: &'static str)
    ensures
        res@ == VERSION@,
{
    VERSION
}

/// A view of a schema.
#[derive(Debug, Clone)]
pub struct CatView {
    pub name: String,
    pub definition: String,
    pub comment: Option<String>,
    pub tags: Vec<(String, String)>,
    pub column_comments: Vec<(String, String)>,
}

/// The value of a [`CatView`].
#[verifier::ext_equal]
pub struct CatViewValue {
    pub name: Seq<char>,
    pub definition: Seq<char>,
    pub comment: Option<Seq<char>>,
    pub tags: Seq<(Seq<char>, Seq<char>)>,
    pub column_comments: Seq<(Seq<char>, Seq<char>)>,
}

impl DeepView for CatView {
    type V = CatViewValue;

    open spec fn deep_view(&self) -> CatViewValue {
        CatViewValue {
            name: self.name@,
            definition: self.definition@,
            comment: self.comment.deep_view(),
            tags: self.tags.deep_view(),
            column_comments: self.column_comments.deep_view(),
        }
    }
}

/// A schema of a catalog.
#[derive(Debug, Clone)]
pub struct CatSchema {
    pub name: String,
    pub comment: Option<String>,
    pub tags: Vec<(String, String)>,
    pub views: Vec<CatView>,
}

/// The value of a [`CatSchema`].
#[verifier::ext_equal]
pub struct CatSchemaValue {
    pub name: Seq<char>,
    pub comment: Option<Seq<char>>,
    pub tags: Seq<(Seq<char>, Seq<char>)>,
    pub views: Seq<CatViewValue>,
}

impl DeepView for CatSchema {
    type V = CatSchemaValue;

    open spec fn deep_view(&self) -> CatSchemaValue {
        CatSchemaValue {
            name: self.name@,
            comment: self.comment.deep_view(),
            tags: self.tags.deep_view(),
            views: self.views.deep_view(),
        }
    }
}

/// A catalog.
#[derive(Debug, Clone)]
pub struct CatalogModel {
    pub name: String,
    pub comment: Option<String>,
    pub tags: Vec<(String, String)>,
    pub source_url: Option<String>,
    pub implementation_version: Option<String>,
    pub schemas: Vec<CatSchema>,
}

/// The value of a [`CatalogModel`].
#[verifier::ext_equal]
pub struct CatalogModelValue {
    pub name: Seq<char>,
    pub comment: Option<Seq<char>>,
    pub tags: Seq<(Seq<char>, Seq<char>)>,
    pub source_url: Option<Seq<char>>,
    pub implementation_version: Option<Seq<char>>,
    pub schemas: Seq<CatSchemaValue>,
}

impl DeepView for CatalogModel {
    type V = CatalogModelValue;

    open spec fn deep_view(&self) -> CatalogModelValue {
        CatalogModelValue {
            name: self.name@,
            comment: self.comment.deep_view(),
            tags: self.tags.deep_view(),
            source_url: self.source_url.deep_view(),
            implementation_version: self.implementation_version.deep_view(),
            schemas: self.schemas.deep_view(),
        }
    }
}

/// The tags of the sample type guide.
pub open spec fn guide_tags() -> Seq<(Seq<char>, Seq<char>)> {
    meta::object_tag_list(
        GUIDE_TITLE@,
        GUIDE_DOC_LLM@,
        GUIDE_DOC_MD@,
        GUIDE_KEYWORDS@,
        PROFILE_METADATA_CATEGORY@,
    ) + seq![
        ("domain"@, "observability"@),
        ("topic"@, "pprof-profiles"@),
        ("vgi.example_queries"@, GUIDE_EXAMPLES@),
    ]
}

/// The sample type guide.
pub open spec fn guide_value() -> CatViewValue {
    CatViewValue {
        name: "sample_type_guide"@,
        definition: GUIDE_DEFINITION@,
        comment: Some(GUIDE_COMMENT@),
        tags: guide_tags(),
        column_comments: seq![
            ("producer"@, GUIDE_PRODUCER@),
            ("profile_kind"@, GUIDE_PROFILE_KIND@),
            ("value_index"@, GUIDE_VALUE_INDEX@),
            ("sample_type"@, GUIDE_SAMPLE_TYPE@),
            ("unit"@, GUIDE_UNIT@),
            ("meaning"@, GUIDE_MEANING@),
        ],
    }
}

/// The sample type guide: a view that says which value of a sample is what, for the usual
/// producers and kinds of profile.
pub fn sample_type_guide_view() -> (res: CatView)
    ensures
        res.deep_view() == guide_value(),
{
    let mut tags = meta::object_tags(
        GUIDE_TITLE,
        GUIDE_DOC_LLM,
        GUIDE_DOC_MD,
        GUIDE_KEYWORDS,
        PROFILE_METADATA_CATEGORY,
    );
    lists::push_value(&mut tags, meta::tag("domain", "observability"));
    lists::push_value(&mut tags, meta::tag("topic", "pprof-profiles"));
    lists::push_value(&mut tags, meta::tag("vgi.example_queries", GUIDE_EXAMPLES));
    assert(tags.deep_view() =~= guide_tags());
    let column_comments = vec![
        meta::tag("producer", GUIDE_PRODUCER),
        meta::tag("profile_kind", GUIDE_PROFILE_KIND),
        meta::tag("value_index", GUIDE_VALUE_INDEX),
        meta::tag("sample_type", GUIDE_SAMPLE_TYPE),
        meta::tag("unit", GUIDE_UNIT),
        meta::tag("meaning", GUIDE_MEANING),
    ];
    let view = CatView {
        name: "sample_type_guide".to_owned(),
        definition: GUIDE_DEFINITION.to_owned(),
        comment: Some(GUIDE_COMMENT.to_owned()),
        tags,
        column_comments,
    };
    assert(view.deep_view() =~= guide_value());
    view
}

/// The categories that objects are listed under, with what they are about.
pub open spec fn category_list() -> Seq<(Seq<char>, Seq<char>)> {
    seq![
        (FLATTENED_STACKS_CATEGORY@, FLATTENED_STACKS_ABOUT@),
        (RAW_PROFILE_GRAPH_CATEGORY@, RAW_PROFILE_GRAPH_ABOUT@),
        (PROFILE_METADATA_CATEGORY@, PROFILE_METADATA_ABOUT@),
    ]
}

/// A category as a JSON object.
pub open spec fn category_object(category: (Seq<char>, Seq<char>)) -> Seq<char> {
    meta::json_object(
        seq![("name"@, category.0), ("description"@, category.1)],
        Escaping::Exact,
    )
}

/// The categories as a JSON array.
pub open spec fn categories_text() -> Seq<char> {
    meta::json_array(Seq::new(category_list().len(), |i: int| category_object(category_list()[i])))
}

fn category_json(name: &str, about: &str) -> (res: String)
    ensures
        res@ == category_object((name@, about@)),
{
    let members = vec![("name", name), ("description", about)];
    assert(members.deep_view() =~= seq![("name"@, name@), ("description"@, about@)]);
    meta::object_json(&members, Escaping::Exact)
}

fn categories_json() -> (res: String)
    ensures
        res@ == categories_text(),
{
    let items = vec![
        category_json(FLATTENED_STACKS_CATEGORY, FLATTENED_STACKS_ABOUT),
        category_json(RAW_PROFILE_GRAPH_CATEGORY, RAW_PROFILE_GRAPH_ABOUT),
        category_json(PROFILE_METADATA_CATEGORY, PROFILE_METADATA_ABOUT),
    ];
    assert(items.deep_view() =~= Seq::new(
        category_list().len(),
        |i: int| category_object(category_list()[i]),
    ));
    meta::array_json(&items)
}

/// The examples of the schema by description and query.
pub open spec fn schema_example_list() -> Seq<(Seq<char>, Seq<char>)> {
    seq![
        (TOP_FUNCTIONS_DESCRIPTION@, TOP_FUNCTIONS_SQL@),
        (HEAP_TYPES_DESCRIPTION@, HEAP_TYPES_SQL@),
        (BUILD_IDS_DESCRIPTION@, BUILD_IDS_SQL@),
    ]
}

/// The tags of the schema.
pub open spec fn schema_tags() -> Seq<(Seq<char>, Seq<char>)> {
    seq![
        ("vgi.title"@, SCHEMA_TITLE@),
        ("vgi.keywords"@, meta::keywords_text(SCHEMA_KEYWORDS@)),
        ("domain"@, "observability"@),
        ("category"@, "profiling"@),
        ("topic"@, "pprof-profiles"@),
        ("vgi.categories"@, categories_text()),
        ("vgi.doc_llm"@, SCHEMA_DOC_LLM@),
        ("vgi.doc_md"@, SCHEMA_DOC_MD@),
        ("vgi.example_queries"@, meta::example_queries_text(schema_example_list())),
    ]
}

/// The schema of all tables.
pub open spec fn schema_value() -> CatSchemaValue {
    CatSchemaValue {
        name: "main"@,
        comment: Some(SCHEMA_COMMENT@),
        tags: schema_tags(),
        views: seq![guide_value()],
    }
}

fn main_schema() -> (res: CatSchema)
    ensures
        res.deep_view() == schema_value(),
{
    let examples = vec![
        meta::tag(TOP_FUNCTIONS_DESCRIPTION, TOP_FUNCTIONS_SQL),
        meta::tag(HEAP_TYPES_DESCRIPTION, HEAP_TYPES_SQL),
        meta::tag(BUILD_IDS_DESCRIPTION, BUILD_IDS_SQL),
    ];
    assert(examples.deep_view() =~= schema_example_list());
    let tags = vec![
        meta::tag("vgi.title", SCHEMA_TITLE),
        ("vgi.keywords".to_owned(), meta::keywords_json(SCHEMA_KEYWORDS)),
        meta::tag("domain", "observability"),
        meta::tag("category", "profiling"),
        meta::tag("topic", "pprof-profiles"),
        ("vgi.categories".to_owned(), categories_json()),
        meta::tag("vgi.doc_llm", SCHEMA_DOC_LLM),
        meta::tag("vgi.doc_md", SCHEMA_DOC_MD),
        ("vgi.example_queries".to_owned(), meta::example_queries_json(examples.as_slice())),
    ];
    assert(tags.deep_view() =~= schema_tags());
    let views = vec![sample_type_guide_view()];
    assert(views.deep_view() =~= seq![guide_value()]);
    CatSchema {
        name: "main".to_owned(),
        comment: Some(SCHEMA_COMMENT.to_owned()),
        tags,
        views,
    }
}

/// Tasks that an analyst should be able to solve, by name, prompt and reference query.
pub open spec fn task_list() -> Seq<(Seq<char>, Seq<char>, Seq<char>)> {
    seq![
        ("top_cpu_function"@, TOP_CPU_FUNCTION_PROMPT@, TOP_CPU_FUNCTION_SQL@),
        ("heap_sample_types"@, HEAP_SAMPLE_TYPES_PROMPT@, HEAP_SAMPLE_TYPES_SQL@),
        ("native_build_ids"@, NATIVE_BUILD_IDS_PROMPT@, NATIVE_BUILD_IDS_SQL@),
        ("regression_diff"@, REGRESSION_DIFF_PROMPT@, REGRESSION_DIFF_SQL@),
        ("sample_count"@, SAMPLE_COUNT_PROMPT@, SAMPLE_COUNT_SQL@),
        ("function_table_size"@, FUNCTION_TABLE_SIZE_PROMPT@, FUNCTION_TABLE_SIZE_SQL@),
        ("deepest_inlining"@, DEEPEST_INLINING_PROMPT@, DEEPEST_INLINING_SQL@),
        ("cpu_value_index"@, CPU_VALUE_INDEX_PROMPT@, CPU_VALUE_INDEX_SQL@),
    ]
}

fn tasks_json() -> (res: String)
    ensures
        res@ == meta::agent_test_tasks_text(task_list()),
{
    let tasks = vec![
        ("top_cpu_function", TOP_CPU_FUNCTION_PROMPT, TOP_CPU_FUNCTION_SQL),
        ("heap_sample_types", HEAP_SAMPLE_TYPES_PROMPT, HEAP_SAMPLE_TYPES_SQL),
        ("native_build_ids", NATIVE_BUILD_IDS_PROMPT, NATIVE_BUILD_IDS_SQL),
        ("regression_diff", REGRESSION_DIFF_PROMPT, REGRESSION_DIFF_SQL),
        ("sample_count", SAMPLE_COUNT_PROMPT, SAMPLE_COUNT_SQL),
        ("function_table_size", FUNCTION_TABLE_SIZE_PROMPT, FUNCTION_TABLE_SIZE_SQL),
        ("deepest_inlining", DEEPEST_INLINING_PROMPT, DEEPEST_INLINING_SQL),
        ("cpu_value_index", CPU_VALUE_INDEX_PROMPT, CPU_VALUE_INDEX_SQL),
    ];
    assert(tasks.deep_view() =~= task_list());
    meta::agent_test_tasks_json(tasks.as_slice())
}

/// The tags of the catalog.
pub open spec fn catalog_tags() -> Seq<(Seq<char>, Seq<char>)> {
    seq![
        ("vgi.title"@, CATALOG_TITLE@),
        ("vgi.keywords"@, meta::keywords_text(CATALOG_KEYWORDS@)),
        ("vgi.doc_llm"@, CATALOG_DOC_LLM@),
        ("vgi.doc_md"@, CATALOG_DOC_MD@),
        ("vgi.agent_test_tasks"@, meta::agent_test_tasks_text(task_list())),
        ("vgi.example_queries"@, CATALOG_EXAMPLES@),
        ("vgi.author"@, "Query.Farm"@),
        ("vgi.copyright"@, COPYRIGHT@),
        ("vgi.license"@, "MIT"@),
        ("vgi.support_contact"@, SUPPORT_CONTACT@),
        ("vgi.support_policy_url"@, SUPPORT_POLICY_URL@),
    ]
}

/// The catalog under a name.
pub open spec fn catalog_value(name: Seq<char>) -> CatalogModelValue {
    CatalogModelValue {
        name,
        comment: Some(CATALOG_COMMENT@),
        tags: catalog_tags(),
        source_url: Some(SOURCE_URL@),
        implementation_version: Some(VERSION@),
        schemas: seq![schema_value()],
    }
}

/// The catalog under a name: what is told of it, its one schema, and the version as the
/// implementation version.
pub fn catalog_metadata(name: &str) -> (res: CatalogModel)
    ensures
        res.deep_view() == catalog_value(name@),
{
    let tags = vec![
        meta::tag("vgi.title", CATALOG_TITLE),
        ("vgi.keywords".to_owned(), meta::keywords_json(CATALOG_KEYWORDS)),
        meta::tag("vgi.doc_llm", CATALOG_DOC_LLM),
        meta::tag("vgi.doc_md", CATALOG_DOC_MD),
        ("vgi.agent_test_tasks".to_owned(), tasks_json()),
        meta::tag("vgi.example_queries", CATALOG_EXAMPLES),
        meta::tag("vgi.author", "Query.Farm"),
        meta::tag("vgi.copyright", COPYRIGHT),
        meta::tag("vgi.license", "MIT"),
        meta::tag("vgi.support_contact", SUPPORT_CONTACT),
        meta::tag("vgi.support_policy_url", SUPPORT_POLICY_URL),
    ];
    assert(tags.deep_view() =~= catalog_tags());
    let schemas = vec![main_schema()];
    assert(schemas.deep_view() =~= seq![schema_value()]);
    CatalogModel {
        name: name.to_owned(),
        comment: Some(CATALOG_COMMENT.to_owned()),
        tags,
        source_url: Some(SOURCE_URL.to_owned()),
        implementation_version: Some(version().to_owned()),
        schemas,
    }
}

} // verus!
