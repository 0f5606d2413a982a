use file_sorter::json::{find_member, load_rules, parse_json, rules_from_json, Json};
use file_sorter::rules::{define_default_rules, RuleMap};

fn text(s: &str) -> Json {
    Json::Text(s.to_string())
}

fn object(members: Vec<(&str, Json)>) -> Json {
    Json::Object(members.into_iter().map(|(k, v)| (k.to_string(), v)).collect())
}

fn lookup(rules: &RuleMap, key: &str) -> Option<String> {
    rules.get(key).cloned()
}

fn assert_is_default(rules: &RuleMap) {
    assert_eq!(lookup(rules, ".txt"), Some("TextFiles".to_string()));
    assert_eq!(lookup(rules, ".jpg"), Some("Images".to_string()));
    assert_eq!(lookup(rules, ".png"), Some("Images".to_string()));
    assert_eq!(lookup(rules, ".rs"), Some("RustCode".to_string()));
    for key in ["txt", ".TXT", ".jpeg", ".md", ".pdf", "", "."] {
        assert_eq!(lookup(rules, key), None);
    }
}

#[test]
fn default_rules_are_the_four_built_in() {
    assert_is_default(&define_default_rules());
}

#[test]
fn empty_table_has_no_rule() {
    let rules = RuleMap::new();
    assert_eq!(lookup(&rules, ".txt"), None);
    assert_eq!(lookup(&rules, ""), None);
}

#[test]
fn insert_adds_a_rule() {
    let mut rules = RuleMap::new();
    rules.insert(".log".to_string(), "Logs".to_string());
    assert_eq!(lookup(&rules, ".log"), Some("Logs".to_string()));
    assert_eq!(lookup(&rules, ".txt"), None);
}

#[test]
fn insert_replaces_a_rule() {
    let mut rules = define_default_rules();
    rules.insert(".jpg".to_string(), "Photos".to_string());
    assert_eq!(lookup(&rules, ".jpg"), Some("Photos".to_string()));
    assert_eq!(lookup(&rules, ".png"), Some("Images".to_string()));
    rules.insert(".jpg".to_string(), "Pictures".to_string());
    assert_eq!(lookup(&rules, ".jpg"), Some("Pictures".to_string()));
}

#[test]
fn keys_are_case_sensitive() {
    let mut rules = RuleMap::new();
    rules.insert(".JPG".to_string(), "Upper".to_string());
    rules.insert(".jpg".to_string(), "Lower".to_string());
    assert_eq!(lookup(&rules, ".JPG"), Some("Upper".to_string()));
    assert_eq!(lookup(&rules, ".jpg"), Some("Lower".to_string()));
    assert_eq!(lookup(&rules, ".Jpg"), None);
}

#[test]
fn missing_rule_file_gives_the_defaults() {
    assert_is_default(&load_rules(None));
}

#[test]
fn garbled_rule_file_gives_the_defaults() {
    for contents in [
        "",
        "not json at all",
        "{",
        "{\"rules\": {\".md\": \"Docs\"}",
        "{\"rules\": {\".md\": \"Docs\"}} trailing",
        "{'rules': {'.md': 'Docs'}}",
    ] {
        let rules = load_rules(Some(contents));
        assert_is_default(&rules);
    }
}

#[test]
fn rule_file_of_another_shape_gives_the_defaults() {
    for contents in [
        "null",
        "3",
        "\"rules\"",
        "[]",
        "{}",
        "{\"Rules\": {\".md\": \"Docs\"}}",
        "{\"rules\": null}",
        "{\"rules\": [\".md\", \"Docs\"]}",
        "{\"rules\": \".md\"}",
        "{\"rules\": {\".md\": 1}}",
        "{\"rules\": {\".md\": \"Docs\", \".log\": null}}",
        "{\"rules\": {\".md\": {\"to\": \"Docs\"}}}",
    ] {
        let rules = load_rules(Some(contents));
        assert_is_default(&rules);
    }
}

#[test]
fn rule_file_replaces_the_defaults() {
    let rules = load_rules(Some("{\"rules\": {\".md\": \"Docs\", \".jpg\": \"Photos\"}}"));
    assert_eq!(lookup(&rules, ".md"), Some("Docs".to_string()));
    assert_eq!(lookup(&rules, ".jpg"), Some("Photos".to_string()));
    assert_eq!(lookup(&rules, ".png"), None);
    assert_eq!(lookup(&rules, ".txt"), None);
}

#[test]
fn rule_file_may_hold_no_rule() {
    let rules = load_rules(Some("{\"rules\": {}}"));
    assert_eq!(lookup(&rules, ".txt"), None);
    assert_eq!(lookup(&rules, ".jpg"), None);
}

#[test]
fn rule_file_may_hold_other_members() {
    let rules = load_rules(Some(
        "{\"version\": 2, \"rules\": {\".md\": \"Docs\"}, \"notes\": [1, 2.5, true, null]}",
    ));
    assert_eq!(lookup(&rules, ".md"), Some("Docs".to_string()));
    assert_eq!(lookup(&rules, ".txt"), None);
}

#[test]
fn rule_file_keeps_escapes_and_letters() {
    let rules = load_rules(Some("{\"rules\": {\".t\\u00e9\": \"Caf\\u00e9 \\\"A\\\"\"}}"));
    assert_eq!(lookup(&rules, ".té"), Some("Café \"A\"".to_string()));
}

#[test]
fn later_duplicate_in_rule_file_counts() {
    let rules = load_rules(Some("{\"rules\": {\".md\": \"First\", \".md\": \"Second\"}}"));
    assert_eq!(lookup(&rules, ".md"), Some("Second".to_string()));
}

#[test]
fn parse_json_reads_each_kind_of_value() {
    assert!(matches!(parse_json("null"), Some(Json::Null)));
    assert!(matches!(parse_json("true"), Some(Json::Bool(true))));
    assert!(matches!(parse_json("false"), Some(Json::Bool(false))));
    assert!(matches!(parse_json("12"), Some(Json::Number)));
    assert!(matches!(parse_json("-1.5e3"), Some(Json::Number)));
    match parse_json("\"a\\nb\"") {
        Some(Json::Text(t)) => assert_eq!(t, "a\nb"),
        other => panic!("unexpected {:?}", other),
    }
    match parse_json("[1, \"x\", []]") {
        Some(Json::Array(items)) => {
            assert_eq!(items.len(), 3);
            assert!(matches!(items[0], Json::Number));
            assert!(matches!(&items[1], Json::Text(t) if t == "x"));
            assert!(matches!(&items[2], Json::Array(inner) if inner.is_empty()));
        }
        other => panic!("unexpected {:?}", other),
    }
    match parse_json(" {\"k\": {\"n\": null}} ") {
        Some(Json::Object(members)) => {
            assert_eq!(members.len(), 1);
            assert_eq!(members[0].0, "k");
            match &members[0].1 {
                Json::Object(inner) => {
                    assert_eq!(inner.len(), 1);
                    assert_eq!(inner[0].0, "n");
                    assert!(matches!(inner[0].1, Json::Null));
                }
                other => panic!("unexpected {:?}", other),
            }
        }
        other => panic!("unexpected {:?}", other),
    }
}

#[test]
fn parse_json_refuses_what_is_not_json() {
    for bad in ["", "nul", "{", "[1,]", "{\"a\" 1}", "1 2", "'a'"] {
        assert!(parse_json(bad).is_none());
    }
}

#[test]
fn find_member_takes_the_last_of_a_name() {
    let members = vec![
        ("a".to_string(), Json::Null),
        ("b".to_string(), Json::Bool(true)),
        ("a".to_string(), Json::Number),
    ];
    assert!(matches!(find_member(&members, "a"), Some(Json::Number)));
    assert!(matches!(find_member(&members, "b"), Some(Json::Bool(true))));
    assert!(find_member(&members, "c").is_none());
    assert!(find_member(&Vec::new(), "a").is_none());
}

#[test]
fn rules_from_json_reads_the_rules_member() {
    let document = object(vec![
        ("rules", object(vec![(".md", text("Docs")), (".log", text("Logs"))])),
    ]);
    let rules = rules_from_json(&document).expect("a table");
    assert_eq!(lookup(&rules, ".md"), Some("Docs".to_string()));
    assert_eq!(lookup(&rules, ".log"), Some("Logs".to_string()));
    assert_eq!(lookup(&rules, ".jpg"), None);
}

#[test]
fn rules_from_json_lets_the_later_pair_count() {
    let document = object(vec![
        ("rules", object(vec![(".md", text("First")), (".md", text("Second"))])),
    ]);
    let rules = rules_from_json(&document).expect("a table");
    assert_eq!(lookup(&rules, ".md"), Some("Second".to_string()));
}

#[test]
fn rules_from_json_refuses_other_shapes() {
    assert!(rules_from_json(&Json::Null).is_none());
    assert!(rules_from_json(&Json::Bool(true)).is_none());
    assert!(rules_from_json(&Json::Number).is_none());
    assert!(rules_from_json(&text("rules")).is_none());
    assert!(rules_from_json(&Json::Array(Vec::new())).is_none());
    assert!(rules_from_json(&object(Vec::new())).is_none());
    assert!(rules_from_json(&object(vec![("other", object(Vec::new()))])).is_none());
    assert!(rules_from_json(&object(vec![("rules", Json::Array(Vec::new()))])).is_none());
    assert!(rules_from_json(&object(vec![("rules", text("x"))])).is_none());
    let mixed = object(vec![("rules", object(vec![(".a", text("A")), (".b", Json::Number)]))]);
    assert!(rules_from_json(&mixed).is_none());
}

#[test]
fn rules_from_json_takes_the_last_rules_member() {
    let document = object(vec![
        ("rules", object(vec![(".md", text("Docs"))])),
        ("rules", text("shadow")),
    ]);
    assert!(rules_from_json(&document).is_none());
}
