use konfctl::template::{find_unresolved_variables, substitute_variables};

fn vars(pairs: &[(&str, &str)]) -> Vec<(String, String)> {
    pairs
        .iter()
        .map(|(k, v)| ((*k).to_string(), (*v).to_string()))
        .collect()
}

#[test]
fn substitute_single_variable() {
    let v = vars(&[("SPONSOR_NAME", "Acme Corp")]);
    assert_eq!(
        substitute_variables("Hello {{{SPONSOR_NAME}}}!", &v),
        "Hello Acme Corp!"
    );
}

#[test]
fn substitute_multiple_variables() {
    let v = vars(&[
        ("CONTACT_NAMES", "Jane and Bob"),
        ("CONFERENCE_TITLE", "CloudDays 2026"),
    ]);
    let text = "Dear {{{CONTACT_NAMES}}}, join {{{CONFERENCE_TITLE}}}!";
    assert_eq!(
        substitute_variables(text, &v),
        "Dear Jane and Bob, join CloudDays 2026!"
    );
}

#[test]
fn substitute_repeated_variable() {
    let v = vars(&[("NAME", "Acme")]);
    assert_eq!(
        substitute_variables("{{{NAME}}} is {{{NAME}}}", &v),
        "Acme is Acme"
    );
}

#[test]
fn substitute_no_match() {
    let v = vars(&[("OTHER", "value")]);
    assert_eq!(
        substitute_variables("Hello {{{SPONSOR_NAME}}}!", &v),
        "Hello {{{SPONSOR_NAME}}}!"
    );
}

#[test]
fn substitute_empty_map() {
    let v: Vec<(String, String)> = Vec::new();
    assert_eq!(
        substitute_variables("Hello {{{NAME}}}!", &v),
        "Hello {{{NAME}}}!"
    );
}

#[test]
fn substitute_preserves_markdown() {
    let v = vars(&[
        ("CONTACT_NAMES", "Jane"),
        ("CONFERENCE_URL", "https://example.com"),
    ]);
    let md = "Dear **{{{CONTACT_NAMES}}}**,\n\nVisit [us]({{{CONFERENCE_URL}}}).";
    assert_eq!(
        substitute_variables(md, &v),
        "Dear **Jane**,\n\nVisit [us](https://example.com)."
    );
}

#[test]
fn substitute_leaves_double_braces_alone() {
    let v = vars(&[("NAME", "Acme")]);
    assert_eq!(substitute_variables("{{NAME}} {{{NAME}}}", &v), "{{NAME}} Acme");
}

#[test]
fn substitute_applies_variables_in_order() {
    // The first value introduces the second placeholder, which the second
    // variable then fills.
    let v = vars(&[("A", "{{{B}}}"), ("B", "x")]);
    assert_eq!(substitute_variables("{{{A}}}", &v), "x");
    let v = vars(&[("B", "x"), ("A", "{{{B}}}")]);
    assert_eq!(substitute_variables("{{{A}}}", &v), "{{{B}}}");
}

#[test]
fn find_unresolved_empty() {
    assert!(find_unresolved_variables("Hello world").is_empty());
}

#[test]
fn find_unresolved_single() {
    assert_eq!(find_unresolved_variables("Hello {{{NAME}}}!"), vec!["NAME"]);
}

#[test]
fn find_unresolved_multiple() {
    let result = find_unresolved_variables("{{{A}}} and {{{B}}} with {{{C}}}");
    assert_eq!(result, vec!["A", "B", "C"]);
}

#[test]
fn find_unresolved_deduplicates() {
    let result = find_unresolved_variables("{{{NAME}}} is {{{NAME}}}");
    assert_eq!(result, vec!["NAME"]);
}

#[test]
fn find_unresolved_ignores_double_braces() {
    assert!(find_unresolved_variables("Hello {{NAME}}!").is_empty());
}

#[test]
fn find_unresolved_ignores_lowercase() {
    assert!(find_unresolved_variables("Hello {{{name}}}!").is_empty());
}

#[test]
fn find_unresolved_after_substitution() {
    let v = vars(&[("SPONSOR_NAME", "Acme")]);
    let text = "Hello {{{SPONSOR_NAME}}}, {{{MISSING_VAR}}}!";
    let resolved = substitute_variables(text, &v);
    let unresolved = find_unresolved_variables(&resolved);
    assert_eq!(unresolved, vec!["MISSING_VAR"]);
}

#[test]
fn find_unresolved_with_non_ascii_text() {
    assert_eq!(
        find_unresolved_variables("Kjære {{{CONTACT_NAMES}}}, æøå {{{X_Y}}}"),
        vec!["CONTACT_NAMES", "X_Y"]
    );
}

#[test]
fn find_unresolved_skips_invalid_name_span() {
    // A placeholder with an invalid name reports nothing.
    assert!(find_unresolved_variables("{{{a}}}").is_empty());
    assert_eq!(find_unresolved_variables("{{{a}}}{{{B}}}"), vec!["B"]);
    // Too short to hold a name.
    assert!(find_unresolved_variables("{{{}}}").is_empty());
}

#[test]
fn find_unresolved_sees_placeholders_behind_extra_braces() {
    assert_eq!(find_unresolved_variables("{{{{NAME}}}}"), vec!["NAME"]);
    assert_eq!(find_unresolved_variables("{{{a {{{NAME}}}"), vec!["NAME"]);
    assert_eq!(find_unresolved_variables("{{{B}}} {{{{A}}}} {{{B}}}"), vec!["B", "A"]);
}
