use turnslate::extract::extract;
use turnslate::parse::{generate_types, parse_ftl};

#[test]
fn parse_nodes_works() {
    let ftl = r#"
# Simple things are simple.
hello-user = Hello, {$userName}!"#;

    let tree = parse_ftl(ftl).expect("Failed to parse FTL");
    let actual = extract(&tree);

    assert_eq!(actual.len(), 1);
    assert_eq!(actual[0].name, "hello-user");
    assert_eq!(actual[0].variables, vec!["userName".to_string()]);
}

#[test]
fn parse_nodes_works_with_complex_message() {
    let ftl = r#"
# Complex things are possible.
shared-photos =
    {$userName} {$photoCount ->
        [one] added a new photo
        *[other] added {$photoCount} new photos
    } to {$userGender ->
        [male] his stream
        [female] her stream
        *[other] their stream
    }."#;

    let tree = parse_ftl(ftl).expect("Failed to parse FTL");
    let actual = extract(&tree);

    assert_eq!(actual.len(), 1);
    assert_eq!(actual[0].name, "shared-photos");
    assert_eq!(actual[0].variables.len(), 3);
    assert!(actual[0].variables.contains(&"userName".to_string()));
    assert!(actual[0].variables.contains(&"photoCount".to_string()));
    assert!(actual[0].variables.contains(&"userGender".to_string()));
}

#[test]
fn variables_keep_first_appearance_order() {
    let ftl = "greet = {$b} and {$a} and {$b}";
    let tree = parse_ftl(ftl).expect("Failed to parse FTL");
    let actual = extract(&tree);

    assert_eq!(actual.len(), 1);
    assert_eq!(
        actual[0].variables,
        vec!["b".to_string(), "a".to_string()]
    );
}

#[test]
fn select_union_dedups_across_branches() {
    let ftl = r#"
shared-photos =
    {$userName} {$photoCount ->
        [one] added a new photo
        *[other] added {$photoCount} new photos
    }."#;

    let tree = parse_ftl(ftl).expect("Failed to parse FTL");
    let actual = extract(&tree);

    assert_eq!(actual.len(), 1);
    assert_eq!(
        actual[0].variables,
        vec!["userName".to_string(), "photoCount".to_string()]
    );
}

#[test]
fn nested_selects_are_walked() {
    let ftl = r#"
deep = {$outer ->
    [a] {$inner ->
        [x] {$leaf}
        *[y] nothing
    }
    *[b] plain
}"#;

    let tree = parse_ftl(ftl).expect("Failed to parse FTL");
    let actual = extract(&tree);

    assert_eq!(actual.len(), 1);
    assert_eq!(
        actual[0].variables,
        vec!["outer".to_string(), "inner".to_string(), "leaf".to_string()]
    );
}

#[test]
fn non_message_entries_are_skipped() {
    let ftl = r#"
# A standalone comment.
-brand-name = Acme
hello = Hello, {$name}!"#;

    let tree = parse_ftl(ftl).expect("Failed to parse FTL");
    let actual = extract(&tree);

    assert_eq!(actual.len(), 1);
    assert_eq!(actual[0].name, "hello");
    assert_eq!(actual[0].variables, vec!["name".to_string()]);
}

#[test]
fn message_without_value_yields_empty_variables() {
    let ftl = "hello-user =\n    .title = A title";
    let tree = parse_ftl(ftl).expect("Failed to parse FTL");
    let actual = extract(&tree);

    assert_eq!(actual.len(), 1);
    assert_eq!(actual[0].name, "hello-user");
    assert!(actual[0].variables.is_empty());
}

#[test]
fn messages_without_placeables_get_empty_variable_sets() {
    let ftl = "one = plain text\ntwo = more text";
    let tree = parse_ftl(ftl).expect("Failed to parse FTL");
    let actual = extract(&tree);

    assert_eq!(actual.len(), 2);
    assert_eq!(actual[0].name, "one");
    assert!(actual[0].variables.is_empty());
    assert_eq!(actual[1].name, "two");
    assert!(actual[1].variables.is_empty());
}

#[test]
fn generated_schema_for_simple_message() {
    let ftl = "hello-user = Hello, {$userName}!";
    let generated = generate_types(ftl).expect("Failed to parse FTL");

    assert_eq!(
        generated,
        "\nexport type LocalizedMessage = {\n  'hello-user': [Vars<'userName'>],\n}\n\ntype Vars<T extends string> = Record<T, string | number>\n        "
    );
}

#[test]
fn generated_schema_for_comment_only_resource() {
    let ftl = "# Only a comment lives here.";
    let tree = parse_ftl(ftl).expect("Failed to parse FTL");
    assert!(extract(&tree).is_empty());

    let generated = generate_types(ftl).expect("Failed to parse FTL");
    assert_eq!(
        generated,
        "\nexport type LocalizedMessage = {\n  \n}\n\ntype Vars<T extends string> = Record<T, string | number>\n        "
    );
}

#[test]
fn generated_schema_quotes_hyphenated_names() {
    let ftl = "a-b-c = {$x-y}";
    let generated = generate_types(ftl).expect("Failed to parse FTL");
    assert!(generated.contains("'a-b-c': [Vars<'x-y'>],"));
}

#[test]
fn invalid_text_is_rejected() {
    assert!(parse_ftl("this is no entry").is_none());
    assert!(generate_types("this is no entry").is_none());
}
