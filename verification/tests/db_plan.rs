use ultime::db::{generate_db_folder, DbPlan, GeneratedModule, SourceFile};

fn source(stem: &str, text: &str) -> SourceFile {
    SourceFile { stem: stem.to_string(), text: text.to_string() }
}

fn module_names(modules: &Vec<GeneratedModule>) -> Vec<String> {
    modules.iter().map(|m| m.name.clone()).collect()
}

fn script_migration_schema() -> SourceFile {
    source(
        "script_migration",
        "DEFINE TABLE script_migration SCHEMAFULL;
DEFINE FIELD script_name ON script_migration TYPE string;
DEFINE FIELD executed_at ON script_migration TYPE datetime;",
    )
}

fn post_schema() -> SourceFile {
    source(
        "post",
        "DEFINE TABLE post SCHEMAFULL;
DEFINE FIELD title ON post TYPE string;
DEFINE FIELD content ON post TYPE string;",
    )
}

fn publish_post_event() -> SourceFile {
    source(
        "publish_post",
        "DEFINE TABLE publish_post SCHEMALESS;
DEFINE FIELD post_id ON publish_post TYPE record<post> VALUE $value;
DEFINE EVENT publish_post ON TABLE publish_post WHEN $event = \"CREATE\" THEN (
    UPDATE post SET status = \"PUBLISHED\" WHERE id = $after.post_id
);",
    )
}

fn generate(
    queries: &Vec<SourceFile>,
    mutations: &Vec<SourceFile>,
    schemas: &Vec<SourceFile>,
    events: &Vec<SourceFile>,
) -> DbPlan {
    generate_db_folder(queries, mutations, schemas, events).unwrap()
}

#[test]
fn generate_db_module_from_empty_template() {
    let none: Vec<SourceFile> = vec![];
    let schemas = vec![script_migration_schema()];

    let plan = generate(&none, &none, &schemas, &none);

    assert_eq!(plan.top_index, Some("pub mod crud;".to_string()));
    assert_eq!(module_names(&plan.crud.modules), vec!["script_migration".to_string()]);
    assert_eq!(plan.crud.index_content, "pub mod script_migration;");
    assert!(plan.queries.modules.is_empty());
    assert!(plan.mutations.modules.is_empty());
    assert!(plan.events.modules.is_empty());
}

#[test]
fn generate_db_module_from_blog_template() {
    let queries = vec![
        source("posts", "SELECT * FROM post WHERE status = \"PUBLISHED\";"),
        source("post_by_id", "// $post_id: String\n\nSELECT * FROM post WHERE id = $post_id;"),
    ];
    let mutations = vec![source(
        "comment",
        "// $user_id: String
// $post_id: Option<String>
// $comment_id: Option<String>
// $content: String

CREATE comment SET content = $content, author = $user_id;",
    )];
    let schemas = vec![
        source(
            "user",
            "DEFINE TABLE user SCHEMAFULL;
DEFINE FIELD username ON user TYPE string;
DEFINE FIELD email ON user TYPE string;",
        ),
        source(
            "comment",
            "DEFINE TABLE comment SCHEMAFULL;
DEFINE FIELD content ON comment TYPE string;
DEFINE FIELD author ON comment TYPE record<user>;",
        ),
        script_migration_schema(),
        post_schema(),
    ];
    let events = vec![
        source(
            "unpublish_post",
            "DEFINE TABLE unpublish_post SCHEMALESS;
DEFINE FIELD post_id ON unpublish_post TYPE record<post> VALUE $value;
DEFINE EVENT unpublish_post ON TABLE unpublish_post WHEN $event = \"CREATE\" THEN (
    UPDATE post SET status = \"DRAFT\" WHERE id = $after.post_id
);",
        ),
        publish_post_event(),
    ];

    let plan = generate(&queries, &mutations, &schemas, &events);

    assert_eq!(
        plan.top_index,
        Some("pub mod crud;\npub mod events;\npub mod mutations;\npub mod queries;".to_string())
    );
    assert_eq!(
        module_names(&plan.crud.modules),
        vec![
            "user".to_string(),
            "comment".to_string(),
            "script_migration".to_string(),
            "post".to_string(),
        ]
    );
    assert_eq!(
        module_names(&plan.events.modules),
        vec!["unpublish_post".to_string(), "publish_post".to_string()]
    );
    assert_eq!(module_names(&plan.mutations.modules), vec!["comment".to_string()]);
    assert_eq!(
        module_names(&plan.queries.modules),
        vec!["posts".to_string(), "post_by_id".to_string()]
    );
    assert_eq!(
        plan.crud.index_content,
        "pub mod user;\npub mod comment;\npub mod script_migration;\npub mod post;"
    );
    assert_eq!(
        plan.events.index_content,
        "pub mod unpublish_post;\npub mod publish_post;"
    );
    assert_eq!(plan.mutations.index_content, "pub mod comment;");
    assert_eq!(plan.queries.index_content, "pub mod posts;\npub mod post_by_id;");
}

#[test]
fn generation_is_idempotent() {
    let queries = vec![source(
        "post_by_id",
        "// $post_id: String\n\nSELECT * FROM post WHERE id = $post_id;",
    )];
    let none: Vec<SourceFile> = vec![];
    let schemas = vec![post_schema()];
    let events = vec![publish_post_event()];

    let first = generate(&queries, &none, &schemas, &events);
    let second = generate(&queries, &none, &schemas, &events);

    assert_eq!(first.top_index, second.top_index);
    for (a, b) in [
        (&first.queries, &second.queries),
        (&first.mutations, &second.mutations),
        (&first.crud, &second.crud),
        (&first.events, &second.events),
    ] {
        assert_eq!(a.index_content, b.index_content);
        assert_eq!(a.modules.len(), b.modules.len());
        for (ma, mb) in a.modules.iter().zip(b.modules.iter()) {
            assert_eq!(ma.name, mb.name);
            assert_eq!(ma.content, mb.content);
        }
    }
}

#[test]
fn tolerates_every_absent_category() {
    let none: Vec<SourceFile> = vec![];

    let plan = generate(&none, &none, &none, &none);

    assert_eq!(plan.top_index, None);
    assert!(plan.queries.modules.is_empty());
    assert!(plan.mutations.modules.is_empty());
    assert!(plan.crud.modules.is_empty());
    assert!(plan.events.modules.is_empty());
}

#[test]
fn top_index_lists_only_nonempty_categories_in_priority_order() {
    let none: Vec<SourceFile> = vec![];
    let queries = vec![source("posts", "SELECT * FROM post;")];
    let events = vec![publish_post_event()];

    let queries_only = generate(&queries, &none, &none, &none);
    assert_eq!(queries_only.top_index, Some("pub mod queries;".to_string()));

    let events_and_queries = generate(&queries, &none, &none, &events);
    assert_eq!(
        events_and_queries.top_index,
        Some("pub mod events;\npub mod queries;".to_string())
    );
}

#[test]
fn event_without_matching_table_is_skipped() {
    let none: Vec<SourceFile> = vec![];
    let events = vec![source(
        "orphan",
        "DEFINE EVENT orphan ON TABLE somewhere WHEN true THEN (
    UPDATE post SET status = \"DRAFT\"
);",
    )];

    let plan = generate(&none, &none, &none, &events);

    assert!(plan.events.modules.is_empty());
    assert_eq!(plan.top_index, None);
}

#[test]
fn event_without_value_referencing_field_is_skipped() {
    let none: Vec<SourceFile> = vec![];
    let events = vec![
        source(
            "ping",
            "DEFINE TABLE ping SCHEMALESS;
DEFINE FIELD flag ON ping VALUE true;
DEFINE EVENT ping ON TABLE ping WHEN true THEN (
    UPDATE post SET status = \"X\"
);",
        ),
        source(
            "empty_evt",
            "DEFINE TABLE empty_evt SCHEMALESS;
DEFINE EVENT empty_evt ON TABLE empty_evt WHEN true THEN (
    UPDATE post SET status = \"X\"
);",
        ),
    ];

    let plan = generate(&none, &none, &none, &events);

    assert!(plan.events.modules.is_empty());
    assert_eq!(plan.top_index, None);
}

#[test]
fn parse_failure_aborts_the_pass() {
    let none: Vec<SourceFile> = vec![];
    let schemas = vec![source("broken", "DEFINE TABLE")];

    let result = generate_db_folder(&none, &none, &schemas, &none);

    assert!(result.is_err());
    assert_eq!(result.err().unwrap().message(), "Cannot parse file 'broken'");
}

#[test]
fn event_fields_follow_value_usage() {
    let none: Vec<SourceFile> = vec![];
    let events = vec![source(
        "audit",
        "DEFINE TABLE audit SCHEMALESS;
DEFINE FIELD flag ON audit VALUE true;
DEFINE FIELD plain ON audit VALUE $other;
DEFINE FIELD who ON audit VALUE $value;
DEFINE FIELD wrapped ON audit VALUE <string> $value;
DEFINE FIELD called ON audit VALUE string::lowercase($value);
DEFINE FIELD combined ON audit VALUE $value + 1;
DEFINE EVENT audit ON TABLE audit WHEN true THEN (
    UPDATE post SET status = \"X\"
);",
    )];

    let plan = generate(&none, &none, &none, &events);

    assert_eq!(plan.events.modules.len(), 1);
    let content = &plan.events.modules[0].content;
    assert!(!content.contains("pub flag:"));
    assert!(!content.contains("pub plain:"));
    assert!(content.contains("pub who: String,"));
    assert!(content.contains("pub wrapped: String,"));
    assert!(content.contains("pub called: String,"));
    assert!(content.contains("pub combined: String,"));
}

#[test]
fn crud_synthesis_adds_id_and_ignores_declaration_order() {
    let none: Vec<SourceFile> = vec![];

    let schemas = vec![post_schema()];
    let plan = generate(&none, &none, &schemas, &none);
    let content = &plan.crud.modules[0].content;
    assert!(content.contains("pub struct Post {\n    pub id: Thing,\n    pub title: String,\n    pub content: String,\n}"));

    let reversed = vec![source(
        "post",
        "DEFINE TABLE post SCHEMAFULL;
DEFINE FIELD content ON post TYPE string;
DEFINE FIELD title ON post TYPE string;",
    )];
    let plan2 = generate(&none, &none, &reversed, &none);
    let content2 = &plan2.crud.modules[0].content;
    for line in ["    pub id: Thing,", "    pub title: String,", "    pub content: String,"] {
        assert!(content.contains(line));
        assert!(content2.contains(line));
    }
}

#[test]
fn duplicate_field_names_keep_last_kind() {
    let none: Vec<SourceFile> = vec![];
    let schemas = vec![source(
        "post",
        "DEFINE TABLE post SCHEMAFULL;
DEFINE FIELD author ON post TYPE string;
DEFINE FIELD author ON post TYPE record<user>;",
    )];

    let plan = generate(&none, &none, &schemas, &none);

    let content = &plan.crud.modules[0].content;
    assert!(content.contains("pub author: Thing,"));
    assert!(!content.contains("pub author: String,"));
}

#[test]
fn query_module_binds_declared_parameters() {
    let none: Vec<SourceFile> = vec![];
    let queries = vec![source(
        "post_by_id",
        "// $post_id: String\n\nSELECT * FROM post WHERE id = $post_id;",
    )];

    let plan = generate(&queries, &none, &none, &none);

    assert_eq!(module_names(&plan.queries.modules), vec!["post_by_id".to_string()]);
    assert_eq!(plan.queries.index_content, "pub mod post_by_id;");
    assert_eq!(
        plan.queries.modules[0].content,
        "use surrealdb::{Surreal, Connection, Result};

use crate::models::queries::PostByIdQuery;

pub async fn query_post_by_id<C: Connection>(
    db: &'_ Surreal<C>,
    post_id: String
) -> Result<PostByIdQuery> {
    const QUERY: &str = include_str!(\"../../../queries/post_by_id.surql\");

    let result: PostByIdQuery = db
        .query(QUERY)
        .bind((\"post_id\", post_id))
        .await?
        .take(0)?;

    Ok(result)
}"
    );
}

#[test]
fn mutation_module_uses_mutation_paths() {
    let none: Vec<SourceFile> = vec![];
    let mutations = vec![source(
        "comment",
        "// $content: String\n\nCREATE comment SET content = $content;",
    )];

    let plan = generate(&none, &mutations, &none, &none);

    assert_eq!(
        plan.mutations.modules[0].content,
        "use surrealdb::{Surreal, Connection, Result};

use crate::models::mutations::CommentMutation;

pub async fn mutate_comment<C: Connection>(
    db: &'_ Surreal<C>,
    content: String
) -> Result<CommentMutation> {
    const QUERY: &str = include_str!(\"../../../mutations/comment.surql\");

    let result: CommentMutation = db
        .query(QUERY)
        .bind((\"content\", content))
        .await?
        .take(0)?;

    Ok(result)
}"
    );
}

#[test]
fn event_module_matches_event_template() {
    let none: Vec<SourceFile> = vec![];
    let events = vec![publish_post_event()];

    let plan = generate(&none, &none, &none, &events);

    assert_eq!(
        plan.events.modules[0].content,
        "use serde::{Deserialize, Serialize};
use surrealdb::{sql::Thing, Connection, Result, Surreal};

#[derive(Debug, Clone, PartialEq, Serialize, Deserialize)]
pub struct PublishPostData {
    pub post_id: Thing,
}

pub async fn publish_post<C: Connection>(db: &'_ Surreal<C>, data: PublishPostData) -> Result<PublishPostData> {
    let record: PublishPostData = db.create(\"publish_post\").content(data).await?;
    Ok(record)
}"
    );
}
