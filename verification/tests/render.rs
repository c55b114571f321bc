use ultime::fields::StructField;
use ultime::render::{
    generate_from_crud_template, generate_from_event_template, generate_from_query_template,
};

fn field(name: &str, type_str: &str) -> StructField {
    StructField { name: name.to_string(), type_str: type_str.to_string() }
}

#[test]
fn generate_post_crud_content() {
    let struct_fields = vec![
        field("id", "Thing"),
        field("title", "String"),
        field("content", "String"),
    ];

    let result = generate_from_crud_template("post", "Post", &struct_fields).unwrap();

    assert_eq!(
        result,
        "use serde::{Deserialize, Serialize};
use surrealdb::{sql::Thing, Connection, Result, Surreal};

#[derive(Debug, Clone, PartialEq, Serialize, Deserialize)]
pub struct Post {
    pub id: Thing,
    pub title: String,
    pub content: String,
}

pub async fn get_all_post<C: Connection>(db: &'_ Surreal<C>) -> Result<Vec<Post>> {
    let result = db.select(\"post\").await?;
    Ok(result)
}

pub async fn get_post<C: Connection>(db: &'_ Surreal<C>, id: &str) -> Result<Post> {
    let result = db.select((\"post\", id)).await?;
    Ok(result)
}

pub async fn find_post<C: Connection>(db: &'_ Surreal<C>, id: &str) -> Result<Option<Post>> {
    let result = db.select((\"post\", id)).await?;
    Ok(result)
}

pub async fn create_post<C: Connection>(db: &'_ Surreal<C>, data: Post) -> Result<Post> {
    let result = db.create(\"post\").content(data).await?;
    Ok(result)
}

pub async fn update_post<C: Connection>(db: &'_ Surreal<C>, id: &str, data: Post) -> Result<Option<Post>> {
    let result = db.update((\"post\", id)).content(data).await?;
    Ok(result)
}

pub async fn delete_all_post<C: Connection>(db: &'_ Surreal<C>) -> Result<Vec<Post>> {
    let result = db.delete(\"post\").await?;
    Ok(result)
}

pub async fn delete_post<C: Connection>(db: &'_ Surreal<C>, id: &str) -> Result<Option<Post>> {
    let result = db.delete((\"post\", id)).await?;
    Ok(result)
}"
    );
}

#[test]
fn generate_script_migration_crud_content() {
    let struct_fields = vec![
        field("id", "Thing"),
        field("script_name", "String"),
        field("executed_at", "String"),
    ];

    let result =
        generate_from_crud_template("script_migration", "ScriptMigration", &struct_fields)
            .unwrap();

    assert_eq!(
        result,
        "use serde::{Deserialize, Serialize};
use surrealdb::{sql::Thing, Connection, Result, Surreal};

#[derive(Debug, Clone, PartialEq, Serialize, Deserialize)]
pub struct ScriptMigration {
    pub id: Thing,
    pub script_name: String,
    pub executed_at: String,
}

pub async fn get_all_script_migration<C: Connection>(db: &'_ Surreal<C>) -> Result<Vec<ScriptMigration>> {
    let result = db.select(\"script_migration\").await?;
    Ok(result)
}

pub async fn get_script_migration<C: Connection>(db: &'_ Surreal<C>, id: &str) -> Result<ScriptMigration> {
    let result = db.select((\"script_migration\", id)).await?;
    Ok(result)
}

pub async fn find_script_migration<C: Connection>(db: &'_ Surreal<C>, id: &str) -> Result<Option<ScriptMigration>> {
    let result = db.select((\"script_migration\", id)).await?;
    Ok(result)
}"
    );
}

#[test]
fn generate_publish_post_mutation_content() {
    let struct_fields = vec![field("post_id", "Thing")];

    let result = generate_from_event_template(
        "publish_post",
        "publish_post",
        "PublishPostData",
        &struct_fields,
    )
    .unwrap();

    assert_eq!(
        result,
        "use serde::{Deserialize, Serialize};
use surrealdb::{sql::Thing, Connection, Result, Surreal};

#[derive(Debug, Clone, PartialEq, Serialize, Deserialize)]
pub struct PublishPostData {
    pub post_id: Thing,
}

pub async fn publish_post<C: Connection>(db: &'_ Surreal<C>, data: PublishPostData) -> Result<PublishPostData> {
    let record: PublishPostData = db.create(\"publish_post\").content(data).await?;
    Ok(record)
}"
    );
}

#[test]
fn generate_posts_query_content() {
    let variables = vec![];

    let result = generate_from_query_template("posts", &variables, "PostsQuery").unwrap();

    assert_eq!(
        result,
        "use surrealdb::{Surreal, Connection, Result};

use crate::models::queries::PostsQuery;

pub async fn query_posts<C: Connection>(
    db: &'_ Surreal<C>
) -> Result<PostsQuery> {
    const QUERY: &str = include_str!(\"../../../queries/posts.surql\");

    let result: PostsQuery = db
        .query(QUERY)
        .await?
        .take(0)?;

    Ok(result)
}"
    );
}
