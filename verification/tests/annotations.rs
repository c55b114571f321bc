use ultime::common::extract_query_variables;

#[test]
fn should_extract_no_variable_from_posts_query() {
    let query_content = "SELECT
    id,
    title,
    content,
    status,
    count(<-comment) as number_of_comments
FROM post
WHERE status == \"PUBLISHED\";";

    let variables = extract_query_variables(query_content).unwrap();

    assert!(variables.is_empty());
}

#[test]
fn should_extract_post_id_variable_from_post_by_id_query() {
    let query_content = "// $post_id: String

SELECT * FROM post WHERE id == $post_id;";

    let variables = extract_query_variables(query_content).unwrap();

    assert_eq!(variables.len(), 1);
    assert_eq!(variables[0].name, "post_id".to_string());
    assert_eq!(variables[0].type_, "String".to_string());
}

#[test]
fn should_extract_multiple_variables_from_comment_mutation() {
    let query_content = "// $user_id: String
// $post_id: Option<String>
// $comment_id: Option<String>
// $content: String

CREATE comment SET
    content = $content,
    author = $user_id,
    post = $post_id,
    comment = $comment_id;";

    let variables = extract_query_variables(query_content).unwrap();

    let expected = vec![
        ("user_id", "String"),
        ("post_id", "Option<String>"),
        ("comment_id", "Option<String>"),
        ("content", "String"),
    ];
    assert_eq!(variables.len(), expected.len());
    for (v, (name, type_)) in variables.iter().zip(expected.iter()) {
        assert_eq!(v.name, name.to_string());
        assert_eq!(v.type_, type_.to_string());
    }
}

#[test]
fn extracts_slash_and_hash_annotations_in_file_order() {
    let text = "some preamble
// $post_id: String
SELECT * FROM post;
# $count: Int
-- not an annotation
// not one either";

    let variables = extract_query_variables(text).unwrap();

    assert_eq!(variables.len(), 2);
    assert_eq!(variables[0].name, "post_id".to_string());
    assert_eq!(variables[0].type_, "String".to_string());
    assert_eq!(variables[1].name, "count".to_string());
    assert_eq!(variables[1].type_, "Int".to_string());
}

#[test]
fn tolerates_flexible_spacing_and_markers() {
    let text = "///   $a :  Ty  \n#$b:U\n  ## $c_3: V";

    let variables = extract_query_variables(text).unwrap();

    assert_eq!(variables.len(), 3);
    assert_eq!(variables[0].name, "a".to_string());
    assert_eq!(variables[0].type_, "Ty".to_string());
    assert_eq!(variables[1].name, "b".to_string());
    assert_eq!(variables[1].type_, "U".to_string());
    assert_eq!(variables[2].name, "c_3".to_string());
    assert_eq!(variables[2].type_, "V".to_string());
}

#[test]
fn extracts_unicode_annotation_names() {
    let text = "// $h\u{e9}llo: Str\u{ef}ng\n# $\u{43f}\u{430}\u{440}\u{430}\u{43c}: T\n// $x\u{a0}:\u{a0}T";

    let variables = extract_query_variables(text).unwrap();

    assert_eq!(variables.len(), 3);
    assert_eq!(variables[0].name, "h\u{e9}llo".to_string());
    assert_eq!(variables[0].type_, "Str\u{ef}ng".to_string());
    assert_eq!(variables[1].name, "\u{43f}\u{430}\u{440}\u{430}\u{43c}".to_string());
    assert_eq!(variables[1].type_, "T".to_string());
    assert_eq!(variables[2].name, "x".to_string());
    assert_eq!(variables[2].type_, "T".to_string());
}

#[test]
fn rejects_malformed_annotation_lines() {
    let text = "/ $one_slash: T
// $missing_colon String
// $: NoName
// $two: To Kens
// trailing $x: T";

    let variables = extract_query_variables(text).unwrap();

    assert!(variables.is_empty());
}

#[test]
fn keeps_duplicate_annotations() {
    let text = "// $x: A\n// $x: B";

    let variables = extract_query_variables(text).unwrap();

    assert_eq!(variables.len(), 2);
    assert_eq!(variables[0].type_, "A".to_string());
    assert_eq!(variables[1].type_, "B".to_string());
}
