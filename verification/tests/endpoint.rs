use ultime::cli::GenerateEndpointFromSchemaMethod;
use ultime::endpoint::{generate_endpoint, GenerateEndpointArgs};

fn args(name: &str) -> GenerateEndpointArgs {
    GenerateEndpointArgs {
        name: name.to_string(),
        from_query: None,
        from_mutation: None,
        from_event: None,
        from_schema: None,
        method: None,
    }
}

const POSTS_QUERY: &str = "SELECT * FROM post WHERE status == \"PUBLISHED\";";
const POST_BY_ID_QUERY: &str = "// $post_id: String\n\nSELECT * FROM post WHERE id == $post_id;";
const COMMENT_MUTATION: &str = "// $user_id: String\n// $post_id: Option<String>\n// $comment_id: Option<String>\n// $content: String\n\nCREATE comment;";

#[test]
fn generate_new_leptos_endpoint() {
    let plan =
        generate_endpoint(&args("fetchBlogPosts"), &None, &None, false, false).unwrap();

    assert_eq!(plan.file_name, "fetch_blog_posts.rs");
    assert_eq!(
        plan.content,
        r#"use leptos::*;

#[server(FetchBlogPosts, "/api")]
pub async fn fetch_blog_posts() -> Result<(), ServerFnError> {
    Ok(())
}"#
    );
}

#[test]
fn fails_to_generate_endpoint_if_query_does_not_exist() {
    let mut a = args("fetchBlogPosts");
    a.from_query = Some("non-existing-query".to_string());

    let err = generate_endpoint(&a, &None, &None, false, false).err().unwrap();

    assert_eq!(err.message(), "Query 'non-existing-query.surql' does not exist");
}

#[test]
fn generate_new_leptos_endpoint_from_query() {
    let mut a = args("fetchBlogPosts");
    a.from_query = Some("posts".to_string());

    let plan =
        generate_endpoint(&a, &Some(POSTS_QUERY.to_string()), &None, false, false).unwrap();

    assert_eq!(plan.file_name, "fetch_blog_posts.rs");
    assert_eq!(
        plan.content,
        r#"use leptos::*;

use crate::models::queries::PostsQuery;

#[server(FetchBlogPosts, "/api")]
pub async fn fetch_blog_posts() -> Result<PostsQuery, ServerFnError> {
    use surrealdb::{engine::remote::ws::Ws, Surreal, opt::auth::Root};

    use crate::db::queries::posts::query_posts;

    let db = Surreal::new::<Ws>("localhost:8000")
        .await
        .map_err(|_| ServerFnError::ServerError("Cannot open connection to SurrealDB".to_string()))?;

    db
        .signin(Root {
            username: "root",
            password: "root",
        })
        .await
        .map_err(|_| ServerFnError::ServerError("Cannot signin to SurrealDB".to_string()))?;

    db
        .use_ns("test")
        .use_db("test")
        .await
        .map_err(|_| ServerFnError::ServerError("Cannot use namespace and database".to_string()))?;

    let result = query_posts(&db)
        .await
        .map_err(|_| ServerFnError::ServerError("Cannot apply query posts".to_string()))?;

    Ok(result)
}"#
    );
}

#[test]
fn generate_new_leptos_endpoint_from_query_with_params() {
    let mut a = args("fetchPostDetails");
    a.from_query = Some("post_by_id".to_string());

    let plan = generate_endpoint(&a, &Some(POST_BY_ID_QUERY.to_string()), &None, false, false)
        .unwrap();

    assert_eq!(plan.file_name, "fetch_post_details.rs");
    assert_eq!(
        plan.content,
        r#"use leptos::*;

use crate::models::queries::PostByIdQuery;

#[server(FetchPostDetails, "/api")]
pub async fn fetch_post_details(
    post_id: String,
) -> Result<PostByIdQuery, ServerFnError> {
    use surrealdb::{engine::remote::ws::Ws, Surreal, opt::auth::Root};

    use crate::db::queries::post_by_id::query_post_by_id;

    let db = Surreal::new::<Ws>("localhost:8000")
        .await
        .map_err(|_| ServerFnError::ServerError("Cannot open connection to SurrealDB".to_string()))?;

    db
        .signin(Root {
            username: "root",
            password: "root",
        })
        .await
        .map_err(|_| ServerFnError::ServerError("Cannot signin to SurrealDB".to_string()))?;

    db
        .use_ns("test")
        .use_db("test")
        .await
        .map_err(|_| ServerFnError::ServerError("Cannot use namespace and database".to_string()))?;

    let result = query_post_by_id(&db, post_id)
        .await
        .map_err(|_| ServerFnError::ServerError("Cannot apply query post_by_id".to_string()))?;

    Ok(result)
}"#
    );
}

#[test]
fn generate_new_leptos_endpoint_from_query_using_rs_file_extension() {
    let mut a = args("fetchBlogPosts");
    a.from_query = Some("posts.rs".to_string());

    let plan =
        generate_endpoint(&a, &Some(POSTS_QUERY.to_string()), &None, false, false).unwrap();

    assert_eq!(plan.file_name, "fetch_blog_posts.rs");
    assert!(plan.content.contains("use crate::db::queries::posts::query_posts;"));
    assert!(plan.content.contains("let result = query_posts(&db)"));
}

#[test]
fn generate_new_leptos_endpoint_from_query_using_surql_file_extension() {
    let mut a = args("fetchBlogPosts");
    a.from_query = Some("posts.surql".to_string());

    let plan =
        generate_endpoint(&a, &Some(POSTS_QUERY.to_string()), &None, false, false).unwrap();

    assert_eq!(plan.file_name, "fetch_blog_posts.rs");
    assert!(plan.content.contains("use crate::db::queries::posts::query_posts;"));
    assert!(plan.content.contains("let result = query_posts(&db)"));
}

#[test]
fn fails_to_generate_endpoint_if_mutation_does_not_exist() {
    let mut a = args("comment");
    a.from_mutation = Some("non-existing-mutation".to_string());

    let err = generate_endpoint(&a, &None, &None, false, false).err().unwrap();

    assert_eq!(err.message(), "Mutation 'non-existing-mutation.surql' does not exist");
}

#[test]
fn generate_new_leptos_endpoint_from_mutation() {
    let mut a = args("comment");
    a.from_mutation = Some("comment".to_string());

    let plan = generate_endpoint(&a, &None, &Some(COMMENT_MUTATION.to_string()), false, false)
        .unwrap();

    assert_eq!(plan.file_name, "comment.rs");
    assert_eq!(
        plan.content,
        r#"use leptos::*;

use crate::models::mutations::CommentMutation;

#[server(Comment, "/api")]
pub async fn comment(
    user_id: String,
    post_id: Option<String>,
    comment_id: Option<String>,
    content: String,
) -> Result<CommentMutation, ServerFnError> {
    use surrealdb::{engine::remote::ws::Ws, Surreal, opt::auth::Root};

    use crate::db::mutations::comment::mutate_comment;

    let db = Surreal::new::<Ws>("localhost:8000")
        .await
        .map_err(|_| ServerFnError::ServerError("Cannot open connection to SurrealDB".to_string()))?;

    db
        .signin(Root {
            username: "root",
            password: "root",
        })
        .await
        .map_err(|_| ServerFnError::ServerError("Cannot signin to SurrealDB".to_string()))?;

    db
        .use_ns("test")
        .use_db("test")
        .await
        .map_err(|_| ServerFnError::ServerError("Cannot use namespace and database".to_string()))?;

    let result = mutate_comment(&db, user_id, post_id, comment_id, content)
        .await
        .map_err(|_| ServerFnError::ServerError("Cannot apply mutation comment".to_string()))?;

    Ok(result)
}"#
    );
}

#[test]
fn fails_to_generate_endpoint_if_event_does_not_exist() {
    let mut a = args("publishPost");
    a.from_event = Some("non-existing-event".to_string());

    let err = generate_endpoint(&a, &None, &None, false, false).err().unwrap();

    assert_eq!(err.message(), "Event 'non-existing-event.surql' does not exist");
}

#[test]
fn generate_new_leptos_endpoint_from_event() {
    let mut a = args("publishPost");
    a.from_event = Some("publish_post".to_string());

    let plan = generate_endpoint(&a, &None, &None, true, false).unwrap();

    assert_eq!(plan.file_name, "publish_post.rs");
    assert_eq!(
        plan.content,
        r#"use leptos::*;

use crate::db::events::publish_post::PublishPostData;

#[server(PublishPost, "/api")]
pub async fn publish_post(
    data: PublishPostData,
) -> Result<(), ServerFnError> {
    use surrealdb::{engine::remote::ws::Ws, Surreal, opt::auth::Root};

    let db = Surreal::new::<Ws>("localhost:8000")
        .await
        .map_err(|_| ServerFnError::ServerError("Cannot open connection to SurrealDB".to_string()))?;

    db
        .signin(Root {
            username: "root",
            password: "root",
        })
        .await
        .map_err(|_| ServerFnError::ServerError("Cannot signin to SurrealDB".to_string()))?;

    db
        .use_ns("test")
        .use_db("test")
        .await
        .map_err(|_| ServerFnError::ServerError("Cannot use namespace and database".to_string()))?;

    crate::db::events::publish_post::publish_post(&db, data)
        .await
        .map_err(|_| ServerFnError::ServerError("Cannot apply event publish_post".to_string()))?;

    Ok(())
}"#
    );
}

#[test]
fn fails_to_generate_endpoint_if_schema_does_not_exist() {
    let mut a = args("publishPost");
    a.from_schema = Some("non-existing-schema".to_string());

    let err = generate_endpoint(&a, &None, &None, false, false).err().unwrap();

    assert_eq!(err.message(), "Schema 'non-existing-schema.surql' does not exist");
}

fn schema_args(name: &str, method: GenerateEndpointFromSchemaMethod) -> GenerateEndpointArgs {
    let mut a = args(name);
    a.from_schema = Some("post".to_string());
    a.method = Some(method);
    a
}

#[test]
fn generate_new_leptos_endpoint_from_schema_with_list_method() {
    let a = schema_args("listPosts", GenerateEndpointFromSchemaMethod::List);

    let plan = generate_endpoint(&a, &None, &None, false, true).unwrap();

    assert_eq!(plan.file_name, "list_posts.rs");
    assert_eq!(
        plan.content,
        r#"use leptos::*;

use crate::db::crud::post::Post;

#[server(ListPosts, "/api")]
pub async fn list_posts() -> Result<Vec<Post>, ServerFnError> {
    use surrealdb::{engine::remote::ws::Ws, Surreal, opt::auth::Root};

    use crate::db::crud::post::get_all_post;

    let db = Surreal::new::<Ws>("localhost:8000")
        .await
        .map_err(|_| ServerFnError::ServerError("Cannot open connection to SurrealDB".to_string()))?;

    db
        .signin(Root {
            username: "root",
            password: "root",
        })
        .await
        .map_err(|_| ServerFnError::ServerError("Cannot signin to SurrealDB".to_string()))?;

    db
        .use_ns("test")
        .use_db("test")
        .await
        .map_err(|_| ServerFnError::ServerError("Cannot use namespace and database".to_string()))?;

    get_all_post(&db)
        .await
        .map_err(|_| ServerFnError::ServerError("Cannot apply function get_all_post".to_string()))?;

    Ok(())
}"#
    );
}

#[test]
fn generate_new_leptos_endpoint_from_schema_with_get_method() {
    let a = schema_args("getPost", GenerateEndpointFromSchemaMethod::Get);

    let plan = generate_endpoint(&a, &None, &None, false, true).unwrap();

    assert_eq!(plan.file_name, "get_post.rs");
    assert_eq!(
        plan.content,
        r#"use leptos::*;

use crate::db::crud::post::Post;

#[server(GetPost, "/api")]
pub async fn get_post(
    id: &'static str,
) -> Result<Post, ServerFnError> {
    use surrealdb::{engine::remote::ws::Ws, Surreal, opt::auth::Root};

    use crate::db::crud::post::get_post;

    let db = Surreal::new::<Ws>("localhost:8000")
        .await
        .map_err(|_| ServerFnError::ServerError("Cannot open connection to SurrealDB".to_string()))?;

    db
        .signin(Root {
            username: "root",
            password: "root",
        })
        .await
        .map_err(|_| ServerFnError::ServerError("Cannot signin to SurrealDB".to_string()))?;

    db
        .use_ns("test")
        .use_db("test")
        .await
        .map_err(|_| ServerFnError::ServerError("Cannot use namespace and database".to_string()))?;

    get_post(&db, id)
        .await
        .map_err(|_| ServerFnError::ServerError("Cannot apply function get_post".to_string()))?;

    Ok(())
}"#
    );
}

#[test]
fn generate_new_leptos_endpoint_from_schema_with_find_method() {
    let a = schema_args("findPost", GenerateEndpointFromSchemaMethod::Find);

    let plan = generate_endpoint(&a, &None, &None, false, true).unwrap();

    assert_eq!(plan.file_name, "find_post.rs");
    assert_eq!(
        plan.content,
        r#"use leptos::*;

use crate::db::crud::post::Post;

#[server(FindPost, "/api")]
pub async fn find_post(
    id: &'static str,
) -> Result<Option<Post>, ServerFnError> {
    use surrealdb::{engine::remote::ws::Ws, Surreal, opt::auth::Root};

    use crate::db::crud::post::find_post;

    let db = Surreal::new::<Ws>("localhost:8000")
        .await
        .map_err(|_| ServerFnError::ServerError("Cannot open connection to SurrealDB".to_string()))?;

    db
        .signin(Root {
            username: "root",
            password: "root",
        })
        .await
        .map_err(|_| ServerFnError::ServerError("Cannot signin to SurrealDB".to_string()))?;

    db
        .use_ns("test")
        .use_db("test")
        .await
        .map_err(|_| ServerFnError::ServerError("Cannot use namespace and database".to_string()))?;

    find_post(&db, id)
        .await
        .map_err(|_| ServerFnError::ServerError("Cannot apply function find_post".to_string()))?;

    Ok(())
}"#
    );
}

#[test]
fn generate_new_leptos_endpoint_from_schema_with_create_method() {
    let a = schema_args("createPost", GenerateEndpointFromSchemaMethod::Create);

    let plan = generate_endpoint(&a, &None, &None, false, true).unwrap();

    assert_eq!(plan.file_name, "create_post.rs");
    assert_eq!(
        plan.content,
        r#"use leptos::*;

use crate::db::crud::post::Post;

#[server(CreatePost, "/api")]
pub async fn create_post(
    data: Post,
) -> Result<Post, ServerFnError> {
    use surrealdb::{engine::remote::ws::Ws, Surreal, opt::auth::Root};

    use crate::db::crud::post::create_post;

    let db = Surreal::new::<Ws>("localhost:8000")
        .await
        .map_err(|_| ServerFnError::ServerError("Cannot open connection to SurrealDB".to_string()))?;

    db
        .signin(Root {
            username: "root",
            password: "root",
        })
        .await
        .map_err(|_| ServerFnError::ServerError("Cannot signin to SurrealDB".to_string()))?;

    db
        .use_ns("test")
        .use_db("test")
        .await
        .map_err(|_| ServerFnError::ServerError("Cannot use namespace and database".to_string()))?;

    create_post(&db, data)
        .await
        .map_err(|_| ServerFnError::ServerError("Cannot apply function create_post".to_string()))?;

    Ok(())
}"#
    );
}

#[test]
fn generate_new_leptos_endpoint_from_schema_with_update_method() {
    let a = schema_args("updatePost", GenerateEndpointFromSchemaMethod::Update);

    let plan = generate_endpoint(&a, &None, &None, false, true).unwrap();

    assert_eq!(plan.file_name, "update_post.rs");
    assert_eq!(
        plan.content,
        r#"use leptos::*;

use crate::db::crud::post::Post;

#[server(UpdatePost, "/api")]
pub async fn update_post(
    data: Post,
) -> Result<Post, ServerFnError> {
    use surrealdb::{engine::remote::ws::Ws, Surreal, opt::auth::Root};

    use crate::db::crud::post::update_post;

    let db = Surreal::new::<Ws>("localhost:8000")
        .await
        .map_err(|_| ServerFnError::ServerError("Cannot open connection to SurrealDB".to_string()))?;

    db
        .signin(Root {
            username: "root",
            password: "root",
        })
        .await
        .map_err(|_| ServerFnError::ServerError("Cannot signin to SurrealDB".to_string()))?;

    db
        .use_ns("test")
        .use_db("test")
        .await
        .map_err(|_| ServerFnError::ServerError("Cannot use namespace and database".to_string()))?;

    update_post(&db, data)
        .await
        .map_err(|_| ServerFnError::ServerError("Cannot apply function update_post".to_string()))?;

    Ok(())
}"#
    );
}

#[test]
fn generate_new_leptos_endpoint_from_schema_with_delete_method() {
    let a = schema_args("deletePost", GenerateEndpointFromSchemaMethod::Delete);

    let plan = generate_endpoint(&a, &None, &None, false, true).unwrap();

    assert_eq!(plan.file_name, "delete_post.rs");
    assert_eq!(
        plan.content,
        r#"use leptos::*;

use crate::db::crud::post::Post;

#[server(DeletePost, "/api")]
pub async fn delete_post(
    data: Post,
) -> Result<Post, ServerFnError> {
    use surrealdb::{engine::remote::ws::Ws, Surreal, opt::auth::Root};

    use crate::db::crud::post::delete_post;

    let db = Surreal::new::<Ws>("localhost:8000")
        .await
        .map_err(|_| ServerFnError::ServerError("Cannot open connection to SurrealDB".to_string()))?;

    db
        .signin(Root {
            username: "root",
            password: "root",
        })
        .await
        .map_err(|_| ServerFnError::ServerError("Cannot signin to SurrealDB".to_string()))?;

    db
        .use_ns("test")
        .use_db("test")
        .await
        .map_err(|_| ServerFnError::ServerError("Cannot use namespace and database".to_string()))?;

    delete_post(&db, data)
        .await
        .map_err(|_| ServerFnError::ServerError("Cannot apply function delete_post".to_string()))?;

    Ok(())
}"#
    );
}

#[test]
fn generate_new_leptos_endpoint_from_schema_with_delete_all_method() {
    let a = schema_args("deleteAllPosts", GenerateEndpointFromSchemaMethod::DeleteAll);

    let plan = generate_endpoint(&a, &None, &None, false, true).unwrap();

    assert_eq!(plan.file_name, "delete_all_posts.rs");
    assert_eq!(
        plan.content,
        r#"use leptos::*;

use crate::db::crud::post::Post;

#[server(DeleteAllPosts, "/api")]
pub async fn delete_all_posts() -> Result<Vec<Post>, ServerFnError> {
    use surrealdb::{engine::remote::ws::Ws, Surreal, opt::auth::Root};

    use crate::db::crud::post::delete_all_post;

    let db = Surreal::new::<Ws>("localhost:8000")
        .await
        .map_err(|_| ServerFnError::ServerError("Cannot open connection to SurrealDB".to_string()))?;

    db
        .signin(Root {
            username: "root",
            password: "root",
        })
        .await
        .map_err(|_| ServerFnError::ServerError("Cannot signin to SurrealDB".to_string()))?;

    db
        .use_ns("test")
        .use_db("test")
        .await
        .map_err(|_| ServerFnError::ServerError("Cannot use namespace and database".to_string()))?;

    delete_all_post(&db)
        .await
        .map_err(|_| ServerFnError::ServerError("Cannot apply function delete_all_post".to_string()))?;

    Ok(())
}"#
    );
}
