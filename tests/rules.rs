use ensure_no_default_features::{
    classify, parse_document, validate_dependency, validate_document, validate_workspace_dependencies, Node,
    ValidateError, Violation,
};

const MIXED: &str = r#"
[workspace]
members = ["a"]

[workspace.dependencies]
serde = "1.0"
regex = { version = "1.0" }
clap = { version = "4.0", default-features = true }
anyhow = { version = "1.0", default-features = false }
"#;

fn table(entries: Vec<(&str, Node)>) -> Node {
    Node::Table(entries.into_iter().map(|(k, v)| (k.to_string(), v)).collect())
}

#[test]
fn classify_gives_each_outcome() {
    assert_eq!(classify(&Node::Str("1".to_string())), Some(Violation::SimpleVersion));
    assert_eq!(classify(&Node::Integer(3)), Some(Violation::NotATable));
    assert_eq!(classify(&Node::Boolean(false)), Some(Violation::NotATable));
    assert_eq!(classify(&table(vec![])), Some(Violation::MissingDefaultFeatures));
    assert_eq!(classify(&table(vec![("default-features", Node::Boolean(true))])), Some(Violation::DefaultFeaturesTrue));
    assert_eq!(classify(&table(vec![("default-features", Node::Boolean(false))])), None);
}

#[test]
fn default_features_false_passes_in_any_position() {
    let first = table(vec![
        ("default-features", Node::Boolean(false)),
        ("version", Node::Str("1".to_string())),
        ("optional", Node::Boolean(true)),
    ]);
    let last = table(vec![
        ("package", Node::Str("other".to_string())),
        ("features", Node::Array(vec![Node::Str("x".to_string())])),
        ("default-features", Node::Boolean(false)),
    ]);
    assert_eq!(classify(&first), None);
    assert_eq!(classify(&last), None);
}

#[test]
fn non_boolean_default_features_is_unexpected() {
    for v in [
        Node::Str("false".to_string()),
        Node::Integer(0),
        Node::Array(vec![]),
        table(vec![]),
        Node::Float,
        Node::Datetime,
    ] {
        assert_eq!(classify(&table(vec![("default-features", v)])), Some(Violation::UnexpectedValue));
    }
}

#[test]
fn report_lines_are_exact() {
    let cases = [
        (Node::Str("1.0".to_string()), "  - 'serde': uses simple version string, should be a table with default-features = false"),
        (Node::Integer(1), "  - 'serde': dependency is not a table"),
        (table(vec![]), "  - 'serde': missing default-features = false"),
        (table(vec![("default-features", Node::Boolean(true))]), "  - 'serde': has default-features = true (must be false)"),
        (
            table(vec![("default-features", Node::Integer(0))]),
            "  - 'serde': default-features has unexpected value (must be boolean false)",
        ),
    ];
    for (value, line) in cases {
        assert_eq!(validate_dependency("serde", &value), Err(line.to_string()));
    }
}

#[test]
fn single_simple_version_entry() {
    let content = "[workspace.dependencies]\nserde = \"1.0\"\n";
    let (violations, found) = validate_workspace_dependencies(content, &[]).unwrap();
    assert_eq!(violations.len(), 1);
    assert!(violations[0].contains("serde"));
    assert!(violations[0].contains("simple version string"));
    assert_eq!(found, vec!["serde".to_string()]);
}

#[test]
fn mixed_table_gives_three_violations_in_order() {
    let (violations, found) = validate_workspace_dependencies(MIXED, &[]).unwrap();
    assert_eq!(violations.len(), 3);
    assert!(violations[0].contains("'serde'"));
    assert!(violations[1].contains("'regex'"));
    assert!(violations[2].contains("'clap'"));
    assert!(violations.iter().all(|v| !v.contains("anyhow")));
    assert_eq!(found, vec!["serde", "regex", "clap", "anyhow"]);
}

#[test]
fn absent_exception_changes_nothing() {
    let exceptions = vec!["tokio".to_string()];
    let (violations, found) = validate_workspace_dependencies(MIXED, &exceptions).unwrap();
    assert_eq!(violations.len(), 3);
    assert_eq!(found.len(), 4);
    assert!(!found.contains(&"tokio".to_string()));
}

#[test]
fn exempt_entries_are_found_but_not_reported() {
    let exceptions = vec!["serde".to_string(), "clap".to_string(), "serde".to_string()];
    let (violations, found) = validate_workspace_dependencies(MIXED, &exceptions).unwrap();
    assert_eq!(violations, vec!["  - 'regex': missing default-features = false".to_string()]);
    assert_eq!(found, vec!["serde", "regex", "clap", "anyhow"]);
}

#[test]
fn empty_table_succeeds_with_nothing() {
    let content = "[workspace]\n[workspace.dependencies]\n";
    let exceptions = vec!["x".to_string()];
    let (violations, found) = validate_workspace_dependencies(content, &exceptions).unwrap();
    assert!(violations.is_empty());
    assert!(found.is_empty());
}

#[test]
fn each_error_has_its_input() {
    assert!(matches!(validate_workspace_dependencies("[workspace\n", &[]), Err(ValidateError::Parse(_))));
    assert!(matches!(validate_workspace_dependencies("a = 1\n", &[]), Err(ValidateError::NoWorkspace)));
    assert!(matches!(validate_workspace_dependencies("workspace = 3\n", &[]), Err(ValidateError::NoDependencies)));
    assert!(matches!(
        validate_workspace_dependencies("[workspace]\ndependencies = [1]\n", &[]),
        Err(ValidateError::DependenciesNotTable)
    ));
    let err = validate_workspace_dependencies("[workspace]\ndependencies = \"x\"\n", &[]).unwrap_err();
    assert_eq!(err.message(), "[workspace.dependencies] is not a table");
    let err = validate_workspace_dependencies("= =", &[]).unwrap_err();
    assert_eq!(err.message(), "Failed to parse Cargo.toml");
}

#[test]
fn parse_keeps_text_order_and_kinds() {
    let doc = parse_document("zeta = \"s\"\nalpha = 1\nmid = 1.5\nwhen = 1979-05-27\nflag = true\nlist = [1]\n[sub]\nk = false\n").unwrap();
    let Node::Table(entries) = doc else { panic!("a document is a table") };
    let names: Vec<&str> = entries.iter().map(|(k, _)| k.as_str()).collect();
    assert_eq!(names, vec!["zeta", "alpha", "mid", "when", "flag", "list", "sub"]);
    assert!(matches!(&entries[0].1, Node::Str(s) if s == "s"));
    assert!(matches!(entries[1].1, Node::Integer(1)));
    assert!(matches!(entries[2].1, Node::Float));
    assert!(matches!(entries[3].1, Node::Datetime));
    assert!(matches!(entries[4].1, Node::Boolean(true)));
    assert!(matches!(&entries[5].1, Node::Array(a) if a.len() == 1));
    assert!(matches!(&entries[6].1, Node::Table(t) if t.len() == 1 && t[0].0 == "k"));
}

#[test]
fn document_lookup_and_validation() {
    let doc = table(vec![(
        "workspace",
        table(vec![(
            "dependencies",
            table(vec![("b", Node::Str("1".to_string())), ("a", table(vec![("default-features", Node::Boolean(false))]))]),
        )]),
    )]);
    assert!(doc.get("workspace").is_some());
    assert!(doc.get("missing").is_none());
    assert!(Node::Integer(1).get("workspace").is_none());
    let (violations, found) = validate_document(&doc, &[]).unwrap();
    assert_eq!(violations.len(), 1);
    assert_eq!(found, vec!["b", "a"]);
}
