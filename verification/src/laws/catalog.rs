//! Laws of what is told of the catalog, its schema and its tables: which text stands under which
//! key.

use vstd::prelude::*;

use crate::catalog;
use crate::laws::meta as json;
use crate::meta;
use crate::schema;
use crate::schema::{ColumnTypeView, ScalarType};
use crate::table::functions::Functions;
use crate::table::locations::Locations;
use crate::table::mappings::Mappings;
use crate::table::meta_table::MetaTable;
use crate::table::samples::Samples;
use crate::table::stacks::Stacks;
use crate::table::{functions, locations, mappings, meta_table, samples, stacks, Table};

verus! {

/// The catalog has the name that it is asked for, the version as its implementation version, and
/// one schema with one view. Its texts stand under their keys.
pub proof fn law_the_catalog_has_its_name(name: Seq<char>)
    ensures
        ({
            let c = catalog::catalog_value(name);
            &&& c.name == name
            &&& c.comment == Some(catalog::CATALOG_COMMENT@)
            &&& c.source_url == Some(catalog::SOURCE_URL@)
            &&& c.implementation_version == Some(catalog::VERSION@)
            &&& c.schemas.len() == 1
            &&& c.schemas[0].name == "main"@
            &&& c.schemas[0].comment == Some(catalog::SCHEMA_COMMENT@)
            &&& c.schemas[0].views.len() == 1
            &&& c.schemas[0].views[0].name == "sample_type_guide"@
            &&& c.schemas[0].views[0].definition == catalog::GUIDE_DEFINITION@
            &&& c.schemas[0].views[0].comment == Some(catalog::GUIDE_COMMENT@)
            &&& c.tags.len() == 11
            &&& c.tags[0] == ("vgi.title"@, catalog::CATALOG_TITLE@)
            &&& c.tags[1].0 == "vgi.keywords"@
            &&& c.tags[2] == ("vgi.doc_llm"@, catalog::CATALOG_DOC_LLM@)
            &&& c.tags[3] == ("vgi.doc_md"@, catalog::CATALOG_DOC_MD@)
            &&& c.tags[4].0 == "vgi.agent_test_tasks"@
            &&& c.tags[5] == ("vgi.example_queries"@, catalog::CATALOG_EXAMPLES@)
            &&& c.tags[6] == ("vgi.author"@, "Query.Farm"@)
            &&& c.tags[7] == ("vgi.copyright"@, catalog::COPYRIGHT@)
            &&& c.tags[8] == ("vgi.license"@, "MIT"@)
            &&& c.tags[9] == ("vgi.support_contact"@, catalog::SUPPORT_CONTACT@)
            &&& c.tags[10] == ("vgi.support_policy_url"@, catalog::SUPPORT_POLICY_URL@)
        }),
{
}

/// The tasks and the keywords of the catalog are JSON arrays of all of them, in order.
#[verifier::spinoff_prover]
pub proof fn law_the_catalog_tells_its_tasks(name: Seq<char>)
    ensures
        json::read_objects(catalog::catalog_value(name).tags[4].1) == Some(
            (task_members(), Seq::<char>::empty()),
        ),
        json::read_strings(catalog::catalog_value(name).tags[1].1) == Some(
            (meta::keyword_terms(catalog::CATALOG_KEYWORDS@), Seq::<char>::empty()),
        ),
{
    lemma_task_members();
    lemma_tasks_read_back(catalog::task_list());
    json::law_keywords_read_back(catalog::CATALOG_KEYWORDS@);
}

/// Tasks as the members of JSON objects.
pub open spec fn told_tasks(tasks: Seq<(Seq<char>, Seq<char>, Seq<char>)>) -> Seq<
    Seq<(Seq<char>, Seq<char>)>,
> {
    Seq::new(tasks.len(), |i: int| task(tasks[i].0, tasks[i].1, tasks[i].2))
}

proof fn lemma_tasks_read_back(tasks: Seq<(Seq<char>, Seq<char>, Seq<char>)>)
    ensures
        json::read_objects(meta::agent_test_tasks_text(tasks)) == Some(
            (told_tasks(tasks), Seq::<char>::empty()),
        ),
{
    json::law_tasks_read_back(tasks);
    assert(told_tasks(tasks) =~= Seq::new(
        tasks.len(),
        |i: int|
            seq![("name"@, tasks[i].0), ("prompt"@, tasks[i].1), ("reference_sql"@, tasks[i].2)],
    ));
}

proof fn lemma_task_members()
    ensures
        told_tasks(catalog::task_list()) == task_members(),
{
    assert(told_tasks(catalog::task_list()) =~= task_members());
}

/// A task as the members of a JSON object.
pub open spec fn task(name: Seq<char>, prompt: Seq<char>, sql: Seq<char>) -> Seq<
    (Seq<char>, Seq<char>),
> {
    seq![("name"@, name), ("prompt"@, prompt), ("reference_sql"@, sql)]
}

/// All tasks, in order.
pub open spec fn task_members() -> Seq<Seq<(Seq<char>, Seq<char>)>> {
    seq![
        task(
            "top_cpu_function"@,
            catalog::TOP_CPU_FUNCTION_PROMPT@,
            catalog::TOP_CPU_FUNCTION_SQL@,
        ),
        task(
            "heap_sample_types"@,
            catalog::HEAP_SAMPLE_TYPES_PROMPT@,
            catalog::HEAP_SAMPLE_TYPES_SQL@,
        ),
        task(
            "native_build_ids"@,
            catalog::NATIVE_BUILD_IDS_PROMPT@,
            catalog::NATIVE_BUILD_IDS_SQL@,
        ),
        task("regression_diff"@, catalog::REGRESSION_DIFF_PROMPT@, catalog::REGRESSION_DIFF_SQL@),
        task("sample_count"@, catalog::SAMPLE_COUNT_PROMPT@, catalog::SAMPLE_COUNT_SQL@),
        task(
            "function_table_size"@,
            catalog::FUNCTION_TABLE_SIZE_PROMPT@,
            catalog::FUNCTION_TABLE_SIZE_SQL@,
        ),
        task(
            "deepest_inlining"@,
            catalog::DEEPEST_INLINING_PROMPT@,
            catalog::DEEPEST_INLINING_SQL@,
        ),
        task("cpu_value_index"@, catalog::CPU_VALUE_INDEX_PROMPT@, catalog::CPU_VALUE_INDEX_SQL@),
    ]
}

/// The schema is told with its categories and its examples as JSON, and the guide stands under
/// one of the categories.
pub proof fn law_the_schema_is_told()
    ensures
        ({
            let s = catalog::schema_value();
            &&& s.tags.contains(("vgi.title"@, catalog::SCHEMA_TITLE@))
            &&& s.tags.contains(("vgi.doc_llm"@, catalog::SCHEMA_DOC_LLM@))
            &&& s.tags.contains(("vgi.doc_md"@, catalog::SCHEMA_DOC_MD@))
            &&& s.tags.contains(("domain"@, "observability"@))
            &&& s.tags.contains(("category"@, "profiling"@))
            &&& s.tags.contains(("topic"@, "pprof-profiles"@))
            &&& s.tags.contains(("vgi.categories"@, catalog::categories_text()))
            &&& s.tags.contains(
                ("vgi.example_queries"@, meta::example_queries_text(schema_examples())),
            )
            &&& s.views[0].tags.contains(("vgi.title"@, catalog::GUIDE_TITLE@))
            &&& s.views[0].tags.contains(("vgi.doc_llm"@, catalog::GUIDE_DOC_LLM@))
            &&& s.views[0].tags.contains(("vgi.doc_md"@, catalog::GUIDE_DOC_MD@))
            &&& s.views[0].tags.contains(("vgi.example_queries"@, catalog::GUIDE_EXAMPLES@))
            &&& s.views[0].tags.contains(
                ("vgi.category"@, catalog::PROFILE_METADATA_CATEGORY@),
            )
            &&& catalog::category_list().len() == 3
            &&& catalog::category_list()[0] == (
                catalog::FLATTENED_STACKS_CATEGORY@,
                catalog::FLATTENED_STACKS_ABOUT@
            )
            &&& catalog::category_list()[1] == (
                catalog::RAW_PROFILE_GRAPH_CATEGORY@,
                catalog::RAW_PROFILE_GRAPH_ABOUT@
            )
            &&& catalog::category_list()[2] == (
                catalog::PROFILE_METADATA_CATEGORY@,
                catalog::PROFILE_METADATA_ABOUT@
            )
            &&& s.views[0].column_comments == seq![
                ("producer"@, catalog::GUIDE_PRODUCER@),
                ("profile_kind"@, catalog::GUIDE_PROFILE_KIND@),
                ("value_index"@, catalog::GUIDE_VALUE_INDEX@),
                ("sample_type"@, catalog::GUIDE_SAMPLE_TYPE@),
                ("unit"@, catalog::GUIDE_UNIT@),
                ("meaning"@, catalog::GUIDE_MEANING@),
            ]
        }),
{
    let s = catalog::schema_value();
    let guide = s.views[0].tags;
    assert(schema_examples() =~= catalog::schema_example_list());
    assert(s.tags[0] == ("vgi.title"@, catalog::SCHEMA_TITLE@));
    assert(s.tags[2] == ("domain"@, "observability"@));
    assert(s.tags[3] == ("category"@, "profiling"@));
    assert(s.tags[4] == ("topic"@, "pprof-profiles"@));
    assert(s.tags[5] == ("vgi.categories"@, catalog::categories_text()));
    assert(s.tags[6] == ("vgi.doc_llm"@, catalog::SCHEMA_DOC_LLM@));
    assert(s.tags[7] == ("vgi.doc_md"@, catalog::SCHEMA_DOC_MD@));
    assert(s.tags[8] == ("vgi.example_queries"@, meta::example_queries_text(schema_examples())));
    assert(guide[0] == ("vgi.title"@, catalog::GUIDE_TITLE@));
    assert(guide[1] == ("vgi.doc_llm"@, catalog::GUIDE_DOC_LLM@));
    assert(guide[2] == ("vgi.doc_md"@, catalog::GUIDE_DOC_MD@));
    assert(guide[4] == ("vgi.category"@, catalog::PROFILE_METADATA_CATEGORY@));
    assert(guide[7] == ("vgi.example_queries"@, catalog::GUIDE_EXAMPLES@));
}

/// The keywords of the schema and of the sample type guide are JSON arrays of all of them, and
/// neither has a tag besides those that are told.
pub proof fn law_the_schema_tells_its_keywords()
    ensures
        ({
            let schema = catalog::schema_value().tags;
            let guide = catalog::schema_value().views[0].tags;
            &&& schema.len() == 9
            &&& schema[1].0 == "vgi.keywords"@
            &&& json::read_strings(schema[1].1) == Some(
                (meta::keyword_terms(catalog::SCHEMA_KEYWORDS@), Seq::<char>::empty()),
            )
            &&& guide.len() == 8
            &&& guide[3].0 == "vgi.keywords"@
            &&& json::read_strings(guide[3].1) == Some(
                (meta::keyword_terms(catalog::GUIDE_KEYWORDS@), Seq::<char>::empty()),
            )
            &&& guide[5] == ("domain"@, "observability"@)
            &&& guide[6] == ("topic"@, "pprof-profiles"@)
        }),
{
    json::law_keywords_read_back(catalog::SCHEMA_KEYWORDS@);
    json::law_keywords_read_back(catalog::GUIDE_KEYWORDS@);
}

/// The examples of the schema.
pub open spec fn schema_examples() -> Seq<(Seq<char>, Seq<char>)> {
    seq![
        (catalog::TOP_FUNCTIONS_DESCRIPTION@, catalog::TOP_FUNCTIONS_SQL@),
        (catalog::HEAP_TYPES_DESCRIPTION@, catalog::HEAP_TYPES_SQL@),
        (catalog::BUILD_IDS_DESCRIPTION@, catalog::BUILD_IDS_SQL@),
    ]
}

/// Whether a table is told by these texts, each under its own key.
pub open spec fn is_told_by<T: Table>(
    name: Seq<char>,
    description: Seq<char>,
    title: Seq<char>,
    llm: Seq<char>,
    md: Seq<char>,
    keywords: Seq<char>,
    category: Seq<char>,
    examples: Seq<char>,
) -> bool {
    let tags = T::metadata_value().tags;
    &&& T::name_text() == name
    &&& T::metadata_value().description == description
    &&& tags.len() == 8
    &&& tags[0] == ("vgi.title"@, title)
    &&& tags[1] == ("vgi.doc_llm"@, llm)
    &&& tags[2] == ("vgi.doc_md"@, md)
    &&& tags[3].0 == "vgi.keywords"@
    &&& json::read_strings(tags[3].1) == Some((meta::keyword_terms(keywords), Seq::<char>::empty()))
    &&& tags[4] == ("vgi.category"@, category)
    &&& tags[5].0 == "vgi.result_columns_schema"@
    &&& tags[6] == ("vgi.executable_examples"@, examples)
    &&& tags[7].0 == "vgi.example_queries"@
}

/// Every table is told by its own texts.
pub proof fn law_tables_are_told_by_their_texts()
    ensures
        is_told_by::<Stacks>(
            "stacks"@,
            stacks::DESCRIPTION@,
            stacks::TITLE@,
            stacks::DOC_LLM@,
            stacks::DOC_MD@,
            stacks::KEYWORDS@,
            catalog::FLATTENED_STACKS_CATEGORY@,
            stacks::EXECUTABLE_EXAMPLES@,
        ),
        is_told_by::<Samples>(
            "samples"@,
            samples::DESCRIPTION@,
            samples::TITLE@,
            samples::DOC_LLM@,
            samples::DOC_MD@,
            samples::KEYWORDS@,
            catalog::RAW_PROFILE_GRAPH_CATEGORY@,
            samples::EXECUTABLE_EXAMPLES@,
        ),
        is_told_by::<Functions>(
            "functions"@,
            functions::DESCRIPTION@,
            functions::TITLE@,
            functions::DOC_LLM@,
            functions::DOC_MD@,
            functions::KEYWORDS@,
            catalog::RAW_PROFILE_GRAPH_CATEGORY@,
            functions::EXECUTABLE_EXAMPLES@,
        ),
        is_told_by::<Locations>(
            "locations"@,
            locations::DESCRIPTION@,
            locations::TITLE@,
            locations::DOC_LLM@,
            locations::DOC_MD@,
            locations::KEYWORDS@,
            catalog::RAW_PROFILE_GRAPH_CATEGORY@,
            locations::EXECUTABLE_EXAMPLES@,
        ),
        is_told_by::<Mappings>(
            "mappings"@,
            mappings::DESCRIPTION@,
            mappings::TITLE@,
            mappings::DOC_LLM@,
            mappings::DOC_MD@,
            mappings::KEYWORDS@,
            catalog::RAW_PROFILE_GRAPH_CATEGORY@,
            mappings::EXECUTABLE_EXAMPLES@,
        ),
        is_told_by::<MetaTable>(
            "meta"@,
            meta_table::DESCRIPTION@,
            meta_table::TITLE@,
            meta_table::DOC_LLM@,
            meta_table::DOC_MD@,
            meta_table::KEYWORDS@,
            catalog::PROFILE_METADATA_CATEGORY@,
            meta_table::EXECUTABLE_EXAMPLES@,
        ),
{
    json::law_keywords_read_back(stacks::KEYWORDS@);
    json::law_keywords_read_back(samples::KEYWORDS@);
    json::law_keywords_read_back(functions::KEYWORDS@);
    json::law_keywords_read_back(locations::KEYWORDS@);
    json::law_keywords_read_back(mappings::KEYWORDS@);
    json::law_keywords_read_back(meta_table::KEYWORDS@);
}

/// Every column of every table is told by its own description, behind the SQL name of its type.
pub proof fn law_columns_are_told_by_their_texts()
    ensures
        Stacks::result_columns().len() == 6,
        Stacks::result_columns()[0] == ("sample_id"@, "BIGINT"@, stacks::SAMPLE_ID_DESCRIPTION@),
        Stacks::result_columns()[1] == ("value"@, "BIGINT[]"@, stacks::VALUE_DESCRIPTION@),
        Stacks::result_columns()[2] == (
            "labels"@,
            "MAP(VARCHAR,VARCHAR)"@,
            stacks::LABELS_DESCRIPTION@
        ),
        Stacks::result_columns()[3] == (
            "frame"@,
            "STRUCT(function VARCHAR, filename VARCHAR, line BIGINT, address UBIGINT)[]"@,
            stacks::FRAME_DESCRIPTION@
        ),
        Stacks::result_columns()[4] == ("file"@, "VARCHAR"@, meta::FILE_DESCRIPTION@),
        Stacks::result_columns()[5] == ("error"@, "VARCHAR"@, meta::ERROR_DESCRIPTION@),
        Samples::result_columns().len() == 6,
        Samples::result_columns()[0] == ("sample_id"@, "BIGINT"@, samples::SAMPLE_ID_DESCRIPTION@),
        Samples::result_columns()[1] == (
            "location_ids"@,
            "UBIGINT[]"@,
            samples::LOCATION_IDS_DESCRIPTION@
        ),
        Samples::result_columns()[2] == ("value"@, "BIGINT[]"@, samples::VALUE_DESCRIPTION@),
        Samples::result_columns()[3] == (
            "labels"@,
            "MAP(VARCHAR,VARCHAR)"@,
            samples::LABELS_DESCRIPTION@
        ),
        Samples::result_columns()[4] == ("file"@, "VARCHAR"@, meta::FILE_DESCRIPTION@),
        Samples::result_columns()[5] == ("error"@, "VARCHAR"@, meta::ERROR_DESCRIPTION@),
        Functions::result_columns().len() == 7,
        Functions::result_columns()[0] == (
            "function_id"@,
            "UBIGINT"@,
            functions::FUNCTION_ID_DESCRIPTION@
        ),
        Functions::result_columns()[1] == ("name"@, "VARCHAR"@, functions::NAME_COMMENT@),
        Functions::result_columns()[2] == (
            "system_name"@,
            "VARCHAR"@,
            functions::SYSTEM_NAME_COMMENT@
        ),
        Functions::result_columns()[3] == ("filename"@, "VARCHAR"@, functions::FILENAME_COMMENT@),
        Functions::result_columns()[4] == (
            "start_line"@,
            "BIGINT"@,
            functions::START_LINE_COMMENT@
        ),
        Functions::result_columns()[5] == ("file"@, "VARCHAR"@, meta::FILE_DESCRIPTION@),
        Functions::result_columns()[6] == ("error"@, "VARCHAR"@, meta::ERROR_DESCRIPTION@),
        Locations::result_columns().len() == 6,
        Locations::result_columns()[0] == (
            "location_id"@,
            "UBIGINT"@,
            locations::LOCATION_ID_DESCRIPTION@
        ),
        Locations::result_columns()[1] == ("address"@, "UBIGINT"@, locations::ADDRESS_DESCRIPTION@),
        Locations::result_columns()[2] == (
            "mapping_id"@,
            "UBIGINT"@,
            locations::MAPPING_ID_DESCRIPTION@
        ),
        Locations::result_columns()[3] == (
            "lines"@,
            "STRUCT(function_id UBIGINT, line BIGINT)[]"@,
            locations::LINES_DESCRIPTION@
        ),
        Locations::result_columns()[4] == ("file"@, "VARCHAR"@, meta::FILE_DESCRIPTION@),
        Locations::result_columns()[5] == ("error"@, "VARCHAR"@, meta::ERROR_DESCRIPTION@),
        Mappings::result_columns().len() == 8,
        Mappings::result_columns()[0] == ("mapping_id"@, "UBIGINT"@, mappings::MAPPING_ID_COMMENT@),
        Mappings::result_columns()[1] == (
            "memory_start"@,
            "UBIGINT"@,
            mappings::MEMORY_START_COMMENT@
        ),
        Mappings::result_columns()[2] == (
            "memory_limit"@,
            "UBIGINT"@,
            mappings::MEMORY_LIMIT_COMMENT@
        ),
        Mappings::result_columns()[3] == (
            "file_offset"@,
            "UBIGINT"@,
            mappings::FILE_OFFSET_COMMENT@
        ),
        Mappings::result_columns()[4] == ("filename"@, "VARCHAR"@, mappings::FILENAME_COMMENT@),
        Mappings::result_columns()[5] == ("build_id"@, "VARCHAR"@, mappings::BUILD_ID_DESCRIPTION@),
        Mappings::result_columns()[6] == ("file"@, "VARCHAR"@, meta::FILE_DESCRIPTION@),
        Mappings::result_columns()[7] == ("error"@, "VARCHAR"@, meta::ERROR_DESCRIPTION@),
        MetaTable::result_columns().len() == 8,
        MetaTable::result_columns()[0] == (
            "sample_types"@,
            "STRUCT(type VARCHAR, unit VARCHAR)[]"@,
            meta_table::SAMPLE_TYPES_DESCRIPTION@
        ),
        MetaTable::result_columns()[1] == ("period"@, "BIGINT"@, meta_table::PERIOD_DESCRIPTION@),
        MetaTable::result_columns()[2] == (
            "period_type"@,
            "STRUCT(type VARCHAR, unit VARCHAR)"@,
            meta_table::PERIOD_TYPE_DESCRIPTION@
        ),
        MetaTable::result_columns()[3] == (
            "duration_nanos"@,
            "BIGINT"@,
            meta_table::DURATION_NANOS_COMMENT@
        ),
        MetaTable::result_columns()[4] == (
            "time_nanos"@,
            "BIGINT"@,
            meta_table::TIME_NANOS_COMMENT@
        ),
        MetaTable::result_columns()[5] == (
            "default_sample_type"@,
            "VARCHAR"@,
            meta_table::DEFAULT_SAMPLE_TYPE_DESCRIPTION@
        ),
        MetaTable::result_columns()[6] == ("file"@, "VARCHAR"@, meta::FILE_DESCRIPTION@),
        MetaTable::result_columns()[7] == ("error"@, "VARCHAR"@, meta::ERROR_DESCRIPTION@),
{
}

/// The examples of every table are its own.
pub proof fn law_tables_have_their_examples()
    ensures
        Stacks::example_pairs() == seq![(stacks::EXAMPLE_DESCRIPTION@, stacks::EXAMPLE_SQL@), (
            stacks::SECOND_EXAMPLE_DESCRIPTION@,
            stacks::SECOND_EXAMPLE_SQL@,
        )],
        Samples::example_pairs() == seq![(samples::EXAMPLE_DESCRIPTION@, samples::EXAMPLE_SQL@)],
        Functions::example_pairs() == seq![(
            functions::EXAMPLE_DESCRIPTION@,
            functions::EXAMPLE_SQL@,
        )],
        Locations::example_pairs() == seq![(
            locations::EXAMPLE_DESCRIPTION@,
            locations::EXAMPLE_SQL@,
        )],
        Mappings::example_pairs() == seq![
            (
                mappings::EXAMPLE_DESCRIPTION@,
                mappings::EXAMPLE_SQL_HEAD@ + meta::NATIVE_B64@ + mappings::EXAMPLE_SQL_TAIL@,
            ),
        ],
        MetaTable::example_pairs() == seq![
            (
                meta_table::EXAMPLE_DESCRIPTION@,
                meta_table::EXAMPLE_SQL_HEAD@ + meta::GO_HEAP_B64@ + meta_table::EXAMPLE_SQL_TAIL@,
            ),
        ],
{
}

/// The SQL names of the types without parts.
pub proof fn law_types_have_their_sql_names(t: ScalarType)
    ensures
        schema::type_text(ColumnTypeView::Scalar(ScalarType::Int64)) == "BIGINT"@,
        schema::type_text(ColumnTypeView::Scalar(ScalarType::UInt64)) == "UBIGINT"@,
        schema::type_text(ColumnTypeView::Scalar(ScalarType::Utf8)) == "VARCHAR"@,
        schema::type_text(ColumnTypeView::List(t)) == schema::type_text(ColumnTypeView::Scalar(t))
            + "[]"@,
{
}

} // verus!
