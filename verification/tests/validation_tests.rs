use sare_terminal::config::config_files::{
    validate_config, validate_property, ConfigValidationError, ConfigValueKind, FieldInput, PropertyRule,
    SchemaRules, ValidationSeverity,
};
use sare_terminal::debug::breakpoint_id;
use sare_terminal::gui::terminal::{submit_line, KeyInputState};

fn rule(kind: &str) -> PropertyRule {
    PropertyRule { property_type: kind.to_string(), min_length: None, max_length: None, pattern: None }
}

fn messages(errs: &[ConfigValidationError]) -> Vec<String> {
    errs.iter().map(|e| e.message.clone()).collect()
}

#[test]
fn kind_mismatches_are_reported() {
    let cases = [
        ("string", ConfigValueKind::Number, "Field 'x' must be a string"),
        ("number", ConfigValueKind::Bool, "Field 'x' must be a number"),
        ("boolean", ConfigValueKind::Null, "Field 'x' must be a boolean"),
        ("object", ConfigValueKind::Array, "Field 'x' must be an object"),
        ("array", ConfigValueKind::Object, "Field 'x' must be an array"),
    ];
    for (kind, value, msg) in cases {
        let errs = validate_property("x", &value, &rule(kind), None, None, None);
        assert_eq!(messages(&errs), vec![msg.to_string()]);
        assert_eq!(errs[0].field, "x");
        assert_eq!(errs[0].severity, ValidationSeverity::Error);
    }
    assert!(validate_property("x", &ConfigValueKind::Bool, &rule("boolean"), None, None, None).is_empty());
    assert!(validate_property("x", &ConfigValueKind::Object, &rule("object"), None, None, None).is_empty());
}

#[test]
fn unknown_kind_is_reported() {
    let errs = validate_property("size", &ConfigValueKind::Number, &rule("integer"), None, None, None);
    assert_eq!(messages(&errs), vec!["Unknown type 'integer' for field 'size'".to_string()]);
}

#[test]
fn string_length_counts_bytes_and_pattern_is_containment() {
    let r = PropertyRule {
        property_type: "string".to_string(),
        min_length: Some(3),
        max_length: Some(1),
        pattern: Some("ab".to_string()),
    };
    let errs = validate_property("name", &ConfigValueKind::Text("\u{e9}".to_string()), &r, None, None, None);
    assert_eq!(
        messages(&errs),
        vec![
            "Field 'name' must be at least 3 characters long".to_string(),
            "Field 'name' must be at most 1 characters long".to_string(),
            "Field 'name' does not match pattern 'ab'".to_string(),
        ]
    );
    let ok = PropertyRule { property_type: "string".to_string(), min_length: Some(2), max_length: Some(4), pattern: Some("b".to_string()) };
    assert!(validate_property("name", &ConfigValueKind::Text("abc".to_string()), &ok, None, None, None).is_empty());
    assert_eq!(validate_property("name", &ConfigValueKind::Text("\u{e9}".to_string()), &ok, None, None, None).len(), 1);
}

#[test]
fn range_and_allowed_value_answers_become_errors() {
    let errs = validate_property(
        "size",
        &ConfigValueKind::Number,
        &rule("number"),
        Some("8".to_string()),
        Some("72.5".to_string()),
        Some("[Number(10), Number(12)]".to_string()),
    );
    assert_eq!(
        messages(&errs),
        vec![
            "Field 'size' must be at least 8".to_string(),
            "Field 'size' must be at most 72.5".to_string(),
            "Field 'size' must be one of: [Number(10), Number(12)]".to_string(),
        ]
    );
    let errs = validate_property("size", &ConfigValueKind::Text("big".to_string()), &rule("number"), Some("8".to_string()), None, None);
    assert_eq!(messages(&errs), vec!["Field 'size' must be a number".to_string()]);
}

fn field(name: &str, value: ConfigValueKind) -> FieldInput {
    FieldInput { name: name.to_string(), value, below_minimum: None, above_maximum: None, not_allowed: None }
}

fn schema(additional: bool) -> SchemaRules {
    SchemaRules {
        required: vec!["theme".to_string(), "font".to_string()],
        properties: vec![("theme".to_string(), rule("string")), ("font".to_string(), rule("object"))],
        additional_properties: additional,
    }
}

#[test]
fn missing_required_fields_fail_validation() {
    let r = validate_config(&schema(true), &vec![field("theme", ConfigValueKind::Number)]);
    let fatal = r.unwrap_err();
    assert_eq!(fatal.len(), 1);
    assert_eq!(fatal[0].field, "font");
    assert_eq!(fatal[0].message, "Required field 'font' is missing");
    assert_eq!(fatal[0].severity, ValidationSeverity::Fatal);
}

#[test]
fn validation_collects_property_errors_and_unknown_fields() {
    let fields = vec![
        field("theme", ConfigValueKind::Number),
        field("font", ConfigValueKind::Object),
        field("extra", ConfigValueKind::Null),
    ];
    let errs = validate_config(&schema(false), &fields).unwrap();
    assert_eq!(
        messages(&errs),
        vec!["Field 'theme' must be a string".to_string(), "Unknown field 'extra'".to_string()]
    );
    assert_eq!(errs[1].severity, ValidationSeverity::Warning);
    assert_eq!(validate_config(&schema(true), &fields).unwrap().len(), 1);
}

#[test]
fn breakpoint_id_takes_the_first_group() {
    assert_eq!(breakpoint_id("67e55044-10b1-426f-9247-bb680e5fe0c8"), "bp_67e55044");
    assert_eq!(breakpoint_id("nohyphen"), "bp_nohyphen");
    assert_eq!(breakpoint_id(""), "bp_");
}

fn state(input: &str) -> KeyInputState {
    KeyInputState {
        input: input.to_string(),
        cursor_pos: input.len(),
        history_index: Some(2),
        original_input: "saved".to_string(),
        search_mode: false,
        search_query: String::new(),
    }
}

#[test]
fn submitting_a_line_runs_it_once_and_clears_the_line() {
    let (st, cmd) = submit_line(state("ls -la"));
    assert_eq!(cmd, Some("ls -la".to_string()));
    assert_eq!(st.input, "");
    assert_eq!(st.cursor_pos, 0);
    assert_eq!(st.history_index, None);
    assert_eq!(st.original_input, "");
    let (st, cmd) = submit_line(st);
    assert_eq!(cmd, None);
    assert_eq!(st.input, "");
}

#[test]
fn submitting_a_blank_line_does_nothing() {
    let (st, cmd) = submit_line(state("   "));
    assert_eq!(cmd, None);
    assert_eq!(st.input, "   ");
    assert_eq!(st.history_index, Some(2));
    assert_eq!(st.original_input, "saved");
}
