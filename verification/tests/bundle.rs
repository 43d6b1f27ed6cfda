use turnslate::compose::{build_output, compose, Bundle, BuildError};

#[test]
fn output_document_embeds_every_locale() {
    let en = "hello-user = Hello, {$userName}!";
    let fr = "hello-user = Bonjour, {$userName} !";
    let bundle = Bundle {
        main: "en".to_string(),
        langs: vec![
            ("en".to_string(), en.to_string()),
            ("fr".to_string(), fr.to_string()),
        ],
    };

    let output = build_output(&bundle).expect("expected an output document");

    assert!(output.contains("'en': `hello-user = Hello, {$userName}!`"));
    assert!(output.contains("'fr': `hello-user = Bonjour, {$userName} !`"));
    assert!(output.contains("'hello-user': [Vars<'userName'>],"));
    assert!(output.starts_with("import { FluentBundle, FluentResource } from '@fluent/bundle'"));
    assert!(output.ends_with("\n} as const"));
}

#[test]
fn schema_comes_from_main_locale_alone() {
    let en = "from-main = {$mainVar}";
    let fr = "from-other = {$otherVar}";
    let bundle = Bundle {
        main: "en".to_string(),
        langs: vec![
            ("en".to_string(), en.to_string()),
            ("fr".to_string(), fr.to_string()),
        ],
    };

    let output = build_output(&bundle).expect("expected an output document");

    assert!(output.contains("'from-main': [Vars<'mainVar'>],"));
    assert!(!output.contains("'from-other':"));
    // The other locale's raw text still passes through verbatim.
    assert!(output.contains("'fr': `from-other = {$otherVar}`"));
}

#[test]
fn missing_main_locale_is_fatal() {
    let bundle = Bundle {
        main: "de".to_string(),
        langs: vec![("en".to_string(), "hello = Hi".to_string())],
    };

    let result = build_output(&bundle);
    assert_eq!(result, Err(BuildError::MissingMainLocale));
}

#[test]
fn unparseable_main_locale_is_fatal() {
    let bundle = Bundle {
        main: "en".to_string(),
        langs: vec![
            ("en".to_string(), "this is no entry".to_string()),
            ("fr".to_string(), "hello = Salut".to_string()),
        ],
    };

    let result = build_output(&bundle);
    assert_eq!(result, Err(BuildError::Parse));
}

#[test]
fn broken_non_main_locale_passes_through() {
    let bundle = Bundle {
        main: "en".to_string(),
        langs: vec![
            ("en".to_string(), "hello = Hi".to_string()),
            ("fr".to_string(), "this is no entry".to_string()),
        ],
    };

    let output = build_output(&bundle).expect("expected an output document");
    assert!(output.contains("'fr': `this is no entry`"));
}

#[test]
fn compose_emits_one_entry_per_locale_in_order() {
    let langs = vec![
        ("aa".to_string(), "x = 1".to_string()),
        ("bb".to_string(), "y = 2".to_string()),
        ("cc".to_string(), "z = 3".to_string()),
    ];

    let document = compose("SCHEMA", &langs);

    let table_start = document.find("export const langs = {").expect("missing locale table");
    let table = &document[table_start..];
    assert_eq!(
        table,
        "export const langs = {\n  'aa': `x = 1`,\n  'bb': `y = 2`,\n  'cc': `z = 3`\n} as const"
    );
    assert!(document.contains("\n\nSCHEMA\n\n"));
}

#[test]
fn first_matching_locale_supplies_the_schema() {
    let bundle = Bundle {
        main: "en".to_string(),
        langs: vec![
            ("en".to_string(), "first = {$a}".to_string()),
            ("en".to_string(), "second = {$b}".to_string()),
        ],
    };

    let output = build_output(&bundle).expect("expected an output document");
    assert!(output.contains("'first': [Vars<'a'>],"));
    assert!(!output.contains("'second':"));
}

#[test]
fn document_sections_are_separated() {
    let langs = vec![("en".to_string(), "a = b".to_string())];
    let document = compose("S", &langs);
    let preamble_end = document.find("\n\nS\n\n").expect("schema not framed");
    assert!(preamble_end > 0);
    assert!(document.ends_with("export const langs = {\n  'en': `a = b`\n} as const"));
}
