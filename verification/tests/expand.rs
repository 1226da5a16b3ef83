use pinnacle::expand::{expand_envs, keep_expanded, lookup_var};

fn pairs(items: &[(&str, &str)]) -> Vec<(String, String)> {
    items.iter().map(|(k, v)| (k.to_string(), v.to_string())).collect()
}

fn table(items: &[(&str, toml::Value)]) -> toml::Table {
    let mut table = toml::Table::new();
    for (key, value) in items {
        table.insert(key.to_string(), value.clone());
    }
    table
}

fn text(s: &str) -> toml::Value {
    toml::Value::String(s.to_string())
}

#[test]
fn lookup_finds_the_value() {
    let vars = pairs(&[("A", "1"), ("B", "2")]);
    assert_eq!(lookup_var(&vars, "A"), "1");
    assert_eq!(lookup_var(&vars, "B"), "2");
}

#[test]
fn lookup_of_an_undefined_variable_is_empty() {
    let vars = pairs(&[("A", "1")]);
    assert_eq!(lookup_var(&vars, "C"), "");
    assert_eq!(lookup_var(&Vec::new(), "A"), "");
}

#[test]
fn lookup_takes_the_first_definition() {
    let vars = pairs(&[("A", "first"), ("A", "second")]);
    assert_eq!(lookup_var(&vars, "A"), "first");
}

#[test]
fn lookup_tells_names_apart_exactly() {
    let vars = pairs(&[("AB", "long"), ("a", "lower")]);
    assert_eq!(lookup_var(&vars, "A"), "");
    assert_eq!(lookup_var(&vars, "AB"), "long");
}

#[test]
fn entries_without_a_value_are_dropped() {
    let entries = vec![
        ("A".to_string(), Some("1".to_string())),
        ("B".to_string(), None),
        ("C".to_string(), Some("3".to_string())),
    ];
    assert_eq!(keep_expanded(entries), pairs(&[("A", "1"), ("C", "3")]));
}

#[test]
fn keeping_nothing_of_nothing() {
    assert_eq!(keep_expanded(Vec::new()), Vec::new());
    assert_eq!(keep_expanded(vec![("A".to_string(), None)]), Vec::new());
}

#[test]
fn undefined_variable_expands_to_nothing() {
    let envs = table(&[("KEY", text("prefix-${UNDEFINED_VAR}-suffix"))]);
    let expanded = expand_envs(&envs, &None, &Vec::new());
    assert_eq!(expanded, pairs(&[("KEY", "prefix--suffix")]));
}

#[test]
fn undefined_variable_without_braces_expands_to_nothing() {
    let envs = table(&[("KEY", text("a/$NOPE/b"))]);
    let expanded = expand_envs(&envs, &None, &Vec::new());
    assert_eq!(expanded, pairs(&[("KEY", "a//b")]));
}

#[test]
fn defined_variables_are_substituted() {
    let envs = table(&[("PATH_PLUS", text("$BASE/bin:${EXTRA}"))]);
    let vars = pairs(&[("BASE", "/opt/x"), ("EXTRA", "/usr/bin")]);
    let expanded = expand_envs(&envs, &None, &vars);
    assert_eq!(expanded, pairs(&[("PATH_PLUS", "/opt/x/bin:/usr/bin")]));
}

#[test]
fn value_without_references_stays_as_it_is() {
    let envs = table(&[("PLAIN", text("just text"))]);
    let expanded = expand_envs(&envs, &Some("/home/u".to_string()), &pairs(&[("A", "1")]));
    assert_eq!(expanded, pairs(&[("PLAIN", "just text")]));
}

#[test]
fn leading_tilde_becomes_the_home_directory() {
    let envs = table(&[("DIR", text("~/config"))]);
    let expanded = expand_envs(&envs, &Some("/home/u".to_string()), &Vec::new());
    assert_eq!(expanded, pairs(&[("DIR", "/home/u/config")]));
}

#[test]
fn tilde_stays_without_a_home_directory() {
    let envs = table(&[("DIR", text("~/config"))]);
    let expanded = expand_envs(&envs, &None, &Vec::new());
    assert_eq!(expanded, pairs(&[("DIR", "~/config")]));
}

#[test]
fn values_that_are_no_strings_are_left_out() {
    let envs = table(&[
        ("FLAG", toml::Value::Boolean(true)),
        ("NAME", text("x")),
        ("COUNT", toml::Value::Integer(3)),
    ]);
    let expanded = expand_envs(&envs, &None, &Vec::new());
    assert_eq!(expanded, pairs(&[("NAME", "x")]));
}

#[test]
fn entries_come_in_the_order_of_the_table() {
    let envs = table(&[("B", text("2")), ("A", text("1")), ("C", text("3"))]);
    let expanded = expand_envs(&envs, &None, &Vec::new());
    let expected: Vec<(String, String)> = envs
        .iter()
        .map(|(k, v)| (k.clone(), v.as_str().unwrap().to_string()))
        .collect();
    assert_eq!(expanded, expected);
    assert_eq!(expanded.len(), 3);
}

#[test]
fn empty_table_gives_no_variables() {
    let expanded = expand_envs(&toml::Table::new(), &None, &Vec::new());
    assert!(expanded.is_empty());
}

#[test]
fn expansion_uses_the_first_definition_of_a_variable() {
    let envs = table(&[("K", text("${V}"))]);
    let vars = pairs(&[("V", "one"), ("V", "two")]);
    assert_eq!(expand_envs(&envs, &None, &vars), pairs(&[("K", "one")]));
}
