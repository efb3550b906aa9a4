//! Configuration files: their formats, and validating a configuration
//! against a schema and what that reports.
use crate::text::{
    chars_of, contains_chars, contains_seq, dec_seq, decimal_chars, eq_chars, lower_chars, lower_seq, push_all,
    string_of,
};
use vstd::utf8::encode_utf8;
use vstd::prelude::*;

verus! {

/// Configuration file formats.
#[derive(Debug, Clone, Copy, PartialEq, Eq, Structural)]
pub enum ConfigFormat {
    /// JSON
    Json,
    /// TOML
    Toml,
    /// YAML
    Yaml,
}

/// The file extension of each format.
pub open spec fn extension_of(f: ConfigFormat) -> Seq<char> {
    match f {
        ConfigFormat::Json => "json"@,
        ConfigFormat::Toml => "toml"@,
        ConfigFormat::Yaml => "yaml"@,
    }
}

/// The format an extension names, compared ignoring ASCII case.
pub open spec fn format_of_extension(e: Seq<char>) -> Option<ConfigFormat> {
    let l = lower_seq(e);
    if l == "json"@ {
        Some(ConfigFormat::Json)
    } else if l == "toml"@ {
        Some(ConfigFormat::Toml)
    } else if l == "yaml"@ || l == "yml"@ {
        Some(ConfigFormat::Yaml)
    } else {
        None
    }
}

impl ConfigFormat {
    /// The file extension of the format.
    pub fn extension(&self) -> (e: &'static str)
        ensures
            e@ == extension_of(*self),
    {
        match self {
            ConfigFormat::Json => "json",
            ConfigFormat::Toml => "toml",
            ConfigFormat::Yaml => "yaml",
        }
    }

    /// The format of a file extension: `json`, `toml`, and `yaml` or `yml`,
    /// in any ASCII case.
    pub fn from_extension(extension: &str) -> (f: Option<Self>)
        ensures
            f == format_of_extension(extension@),
    {
        let l = lower_chars(&chars_of(extension));
        if eq_chars(&l, &chars_of("json")) {
            Some(ConfigFormat::Json)
        } else if eq_chars(&l, &chars_of("toml")) {
            Some(ConfigFormat::Toml)
        } else if eq_chars(&l, &chars_of("yaml")) || eq_chars(&l, &chars_of("yml")) {
            Some(ConfigFormat::Yaml)
        } else {
            None
        }
    }
}

/// Reading a format's extension back gives the format.
pub proof fn lemma_extension_round_trip(f: ConfigFormat)
    ensures
        format_of_extension(extension_of(f)) == Some(f),
{
    reveal_strlit("json");
    reveal_strlit("toml");
    reveal_strlit("yaml");
    let e = extension_of(f);
    assert(lower_seq(e) =~= e);
    match f {
        ConfigFormat::Json => {},
        ConfigFormat::Toml => {
            assert(e[0] != "json"@[0]);
        },
        ConfigFormat::Yaml => {
            assert(e[0] != "json"@[0]);
            assert(e[0] != "toml"@[0]);
        },
    }
}

/// A problem found while validating a configuration.
#[derive(Debug, Clone)]
pub struct ConfigValidationError {
    /// Path of the field
    pub field: String,
    /// Message
    pub message: String,
    /// Severity
    pub severity: ValidationSeverity,
}

/// Validation severities.
#[derive(Debug, Clone, Copy, PartialEq, Eq, Structural)]
pub enum ValidationSeverity {
    /// A problem that does not stop loading
    Warning,
    /// A problem with a field
    Error,
    /// A problem that stops loading
    Fatal,
}

/// The kind of a configuration value, with the text of a string value: all
/// that validating a property reads of the value itself.
#[derive(Debug, Clone)]
pub enum ConfigValueKind {
    /// `null`
    Null,
    /// `true` or `false`
    Bool,
    /// A number
    Number,
    /// A string, with its text
    Text(String),
    /// An array
    Array,
    /// An object
    Object,
}

/// What a schema asks of one property, apart from its numeric range and its
/// allowed values: the kind of value (`string`, `number`, `boolean`,
/// `object` or `array`), bounds on a string's length in bytes, and text a
/// string must contain.
#[derive(Debug)]
pub struct PropertyRule {
    /// The kind of value
    pub property_type: String,
    /// Fewest bytes of a string
    pub min_length: Option<usize>,
    /// Most bytes of a string
    pub max_length: Option<usize>,
    /// Text a string must contain
    pub pattern: Option<String>,
}

/// The message `Field '<f>' <tail>`.
pub open spec fn field_msg(f: Seq<char>, tail: Seq<char>) -> Seq<char> {
    "Field '"@ + f + "' "@ + tail
}

/// One message, or none.
pub open spec fn msg_if(b: bool, m: Seq<char>) -> Seq<Seq<char>> {
    if b { seq![m] } else { seq![] }
}

/// The message of the minimum length check for a string of `n` bytes.
pub open spec fn min_length_messages(f: Seq<char>, n: nat, rule: PropertyRule) -> Seq<Seq<char>> {
    match rule.min_length {
        Some(m) => msg_if(n < m, field_msg(f, "must be at least "@ + dec_seq(m as nat) + " characters long"@)),
        None => seq![],
    }
}

/// The message of the maximum length check for a string of `n` bytes.
pub open spec fn max_length_messages(f: Seq<char>, n: nat, rule: PropertyRule) -> Seq<Seq<char>> {
    match rule.max_length {
        Some(m) => msg_if(n > m, field_msg(f, "must be at most "@ + dec_seq(m as nat) + " characters long"@)),
        None => seq![],
    }
}

/// The message of the pattern check for string `s`.
pub open spec fn pattern_messages(f: Seq<char>, s: Seq<char>, rule: PropertyRule) -> Seq<Seq<char>> {
    match rule.pattern {
        Some(p) => msg_if(!contains_seq(s, p@), field_msg(f, "does not match pattern '"@ + p@ + "'"@)),
        None => seq![],
    }
}

/// The length and pattern messages for string `s` of field `f` (its length
/// counted in UTF-8 bytes).
pub open spec fn string_messages(f: Seq<char>, s: Seq<char>, rule: PropertyRule) -> Seq<Seq<char>> {
    min_length_messages(f, encode_utf8(s).len(), rule) + max_length_messages(f, encode_utf8(s).len(), rule)
        + pattern_messages(f, s, rule)
}

/// A message `Field '<f>' <label><t>` when `o` holds text `t`.
pub open spec fn text_messages(f: Seq<char>, label: Seq<char>, o: Option<Seq<char>>) -> Seq<Seq<char>> {
    match o {
        Some(t) => seq![field_msg(f, label + t)],
        None => seq![],
    }
}

/// The messages of the range checks: `below` and `above` are the texts of
/// the schema's minimum and maximum when the number lies outside them.
pub open spec fn range_messages(f: Seq<char>, below: Option<Seq<char>>, above: Option<Seq<char>>) -> Seq<Seq<char>> {
    text_messages(f, "must be at least "@, below) + text_messages(f, "must be at most "@, above)
}

/// The messages of the kind check of field `f` and of the checks that
/// follow from its kind.
pub open spec fn kind_messages(f: Seq<char>, v: ConfigValueKind, rule: PropertyRule, below: Option<Seq<char>>, above: Option<Seq<char>>) -> Seq<Seq<char>> {
    let t = rule.property_type@;
    if t == "string"@ {
        match v {
            ConfigValueKind::Text(s) => string_messages(f, s@, rule),
            _ => seq![field_msg(f, "must be a string"@)],
        }
    } else if t == "number"@ {
        if v is Number { range_messages(f, below, above) } else { seq![field_msg(f, "must be a number"@)] }
    } else if t == "boolean"@ {
        if v is Bool { seq![] } else { seq![field_msg(f, "must be a boolean"@)] }
    } else if t == "object"@ {
        if v is Object { seq![] } else { seq![field_msg(f, "must be an object"@)] }
    } else if t == "array"@ {
        if v is Array { seq![] } else { seq![field_msg(f, "must be an array"@)] }
    } else {
        seq!["Unknown type '"@ + t + "' for field '"@ + f + "'"@]
    }
}

/// The messages of validating field `f`, in order: those of its kind, then
/// the allowed-values message when `not_allowed` holds the text of the
/// allowed values.
pub open spec fn property_errors(f: Seq<char>, v: ConfigValueKind, rule: PropertyRule, below: Option<Seq<char>>, above: Option<Seq<char>>, not_allowed: Option<Seq<char>>) -> Seq<Seq<char>> {
    kind_messages(f, v, rule, below, above) + text_messages(f, "must be one of: "@, not_allowed)
}

/// The text of an optional string.
pub open spec fn opt_text(o: Option<String>) -> Option<Seq<char>> {
    match o {
        Some(s) => Some(s@),
        None => None,
    }
}

/// `errs` are errors of field `f` of severity `sev` with messages `msgs`,
/// in order.
pub open spec fn errors_are(errs: Seq<ConfigValidationError>, f: Seq<char>, msgs: Seq<Seq<char>>, sev: ValidationSeverity) -> bool {
    &&& errs.len() == msgs.len()
    &&& forall|i: int| 0 <= i < errs.len() ==> (#[trigger] errs[i]).field@ == f && errs[i].message@ == msgs[i] && errs[i].severity == sev
}

/// Adding an error of field `f` with message `m` after errors that are
/// those of `msgs` gives the errors of `msgs` and `m`.
proof fn lemma_errors_push(before: Seq<ConfigValidationError>, after: Seq<ConfigValidationError>, f: Seq<char>, msgs: Seq<Seq<char>>, m: Seq<char>, sev: ValidationSeverity)
    requires
        errors_are(before, f, msgs, sev),
        after.len() == before.len() + 1,
        forall|i: int| 0 <= i < before.len() ==> #[trigger] after[i] == before[i],
        after.last().field@ == f,
        after.last().message@ == m,
        after.last().severity == sev,
    ensures
        errors_are(after, f, msgs.push(m), sev),
{
    assert forall|i: int| 0 <= i < after.len() implies (#[trigger] after[i]).field@ == f && after[i].message@ == msgs.push(m)[i] && after[i].severity == sev by {
        if i < before.len() {
            assert(after[i] == before[i]);
        }
    }
}

/// Adds an error of field `f` with message `msg` and severity `sev`.
fn push_error(errs: &mut Vec<ConfigValidationError>, f: &str, msg: &Vec<char>, sev: ValidationSeverity)
    ensures
        final(errs)@.len() == old(errs)@.len() + 1,
        forall|i: int| 0 <= i < old(errs)@.len() ==> #[trigger] final(errs)@[i] == old(errs)@[i],
        final(errs)@.last().field@ == f@,
        final(errs)@.last().message@ == msg@,
        final(errs)@.last().severity == sev,
{
    errs.push(ConfigValidationError { field: f.to_string(), message: string_of(msg), severity: sev });
}

/// `Field '<f>' ` as characters.
fn field_prefix(f: &str) -> (v: Vec<char>)
    ensures
        v@ == "Field '"@ + f@ + "' "@,
{
    let mut v = chars_of("Field '");
    push_all(&mut v, &chars_of(f));
    push_all(&mut v, &chars_of("' "));
    v
}

/// Adds the error `Field '<f>' <tail>`.
fn push_field_error(errs: &mut Vec<ConfigValidationError>, f: &str, tail: &Vec<char>)
    ensures
        final(errs)@.len() == old(errs)@.len() + 1,
        forall|i: int| 0 <= i < old(errs)@.len() ==> #[trigger] final(errs)@[i] == old(errs)@[i],
        final(errs)@.last().field@ == f@,
        final(errs)@.last().message@ == field_msg(f@, tail@),
        final(errs)@.last().severity == ValidationSeverity::Error,
{
    let mut m = field_prefix(f);
    push_all(&mut m, tail);
    assert(m@ =~= field_msg(f@, tail@));
    push_error(errs, f, &m, ValidationSeverity::Error);
}

/// `a` followed by `b`.
fn prefixed(a: &str, b: &Vec<char>) -> (v: Vec<char>)
    ensures
        v@ == a@ + b@,
{
    let mut v = chars_of(a);
    push_all(&mut v, b);
    v
}

/// `a`, `b` and `c` one after the other.
fn joined(a: &str, b: &Vec<char>, c: &str) -> (v: Vec<char>)
    ensures
        v@ == a@ + b@ + c@,
{
    let mut v = chars_of(a);
    push_all(&mut v, b);
    push_all(&mut v, &chars_of(c));
    v
}

/// Validates field `field_name` with value `value` against `rule`: one
/// error of severity `Error` for each failed check, in order — the kind
/// check (or, for a string, the length and pattern checks; for a number,
/// the range checks, whose outcome and bound texts `below_minimum` and
/// `above_maximum` carry), an unknown kind, and the allowed-values check,
/// whose outcome and list text `not_allowed` carries.
pub fn validate_property(
    field_name: &str,
    value: &ConfigValueKind,
    rule: &PropertyRule,
    below_minimum: Option<String>,
    above_maximum: Option<String>,
    not_allowed: Option<String>,
) -> (errs: Vec<ConfigValidationError>)
    ensures
        errors_are(errs@, field_name@, property_errors(field_name@, *value, *rule, opt_text(below_minimum),
            opt_text(above_maximum), opt_text(not_allowed)), ValidationSeverity::Error),
{
    let mut errs: Vec<ConfigValidationError> = Vec::new();
    let ghost f = field_name@;
    let ghost sev = ValidationSeverity::Error;
    let ghost mut acc: Seq<Seq<char>> = seq![];
    let t = chars_of(rule.property_type.as_str());
    if eq_chars(&t, &chars_of("string")) {
        match value {
            ConfigValueKind::Text(s) => {
                let n = s.as_str().as_bytes().len();
                match rule.min_length {
                    Some(m) => {
                        if n < m {
                            let tail = joined("must be at least ", &decimal_chars(m as u64), " characters long");
                            let ghost e0 = errs@;
                            push_field_error(&mut errs, field_name, &tail);
                            proof {
                                lemma_errors_push(e0, errs@, f, acc, field_msg(f, tail@), sev);
                                acc = acc.push(field_msg(f, tail@));
                            }
                        }
                    },
                    None => {},
                }
                assert(acc =~= min_length_messages(f, encode_utf8(s@).len(), *rule));
                let ghost a1 = acc;
                match rule.max_length {
                    Some(m) => {
                        if n > m {
                            let tail = joined("must be at most ", &decimal_chars(m as u64), " characters long");
                            let ghost e0 = errs@;
                            push_field_error(&mut errs, field_name, &tail);
                            proof {
                                lemma_errors_push(e0, errs@, f, acc, field_msg(f, tail@), sev);
                                acc = acc.push(field_msg(f, tail@));
                            }
                        }
                    },
                    None => {},
                }
                assert(acc =~= a1 + max_length_messages(f, encode_utf8(s@).len(), *rule));
                let ghost a2 = acc;
                match &rule.pattern {
                    Some(p) => {
                        if !contains_chars(&chars_of(s.as_str()), &chars_of(p.as_str())) {
                            let tail = joined("does not match pattern '", &chars_of(p.as_str()), "'");
                            let ghost e0 = errs@;
                            push_field_error(&mut errs, field_name, &tail);
                            proof {
                                lemma_errors_push(e0, errs@, f, acc, field_msg(f, tail@), sev);
                                acc = acc.push(field_msg(f, tail@));
                            }
                        }
                    },
                    None => {},
                }
                assert(acc =~= a2 + pattern_messages(f, s@, *rule));
                assert(acc =~= string_messages(f, s@, *rule));
            },
            _ => {
                let tail = chars_of("must be a string");
                push_field_error(&mut errs, field_name, &tail);
                proof {
                    lemma_errors_push(seq![], errs@, f, acc, field_msg(f, tail@), sev);
                    acc = acc.push(field_msg(f, tail@));
                }
            },
        }
    } else if eq_chars(&t, &chars_of("number")) {
        match value {
            ConfigValueKind::Number => {
                match &below_minimum {
                    Some(b) => {
                        let tail = prefixed("must be at least ", &chars_of(b.as_str()));
                        let ghost e0 = errs@;
                        push_field_error(&mut errs, field_name, &tail);
                        proof {
                            lemma_errors_push(e0, errs@, f, acc, field_msg(f, tail@), sev);
                            acc = acc.push(field_msg(f, tail@));
                        }
                    },
                    None => {},
                }
                assert(acc =~= text_messages(f, "must be at least "@, opt_text(below_minimum)));
                let ghost a1 = acc;
                match &above_maximum {
                    Some(b) => {
                        let tail = prefixed("must be at most ", &chars_of(b.as_str()));
                        let ghost e0 = errs@;
                        push_field_error(&mut errs, field_name, &tail);
                        proof {
                            lemma_errors_push(e0, errs@, f, acc, field_msg(f, tail@), sev);
                            acc = acc.push(field_msg(f, tail@));
                        }
                    },
                    None => {},
                }
                assert(acc =~= a1 + text_messages(f, "must be at most "@, opt_text(above_maximum)));
                assert(acc =~= range_messages(f, opt_text(below_minimum), opt_text(above_maximum)));
            },
            _ => {
                let tail = chars_of("must be a number");
                push_field_error(&mut errs, field_name, &tail);
                proof {
                    lemma_errors_push(seq![], errs@, f, acc, field_msg(f, tail@), sev);
                    acc = acc.push(field_msg(f, tail@));
                }
            },
        }
    } else {
        let ghost e0 = errs@;
        let tail = if eq_chars(&t, &chars_of("boolean")) {
            match value {
                ConfigValueKind::Bool => None,
                _ => Some(chars_of("must be a boolean")),
            }
        } else if eq_chars(&t, &chars_of("object")) {
            match value {
                ConfigValueKind::Object => None,
                _ => Some(chars_of("must be an object")),
            }
        } else if eq_chars(&t, &chars_of("array")) {
            match value {
                ConfigValueKind::Array => None,
                _ => Some(chars_of("must be an array")),
            }
        } else {
            None
        };
        match tail {
            Some(tl) => {
                push_field_error(&mut errs, field_name, &tl);
                proof {
                    lemma_errors_push(e0, errs@, f, acc, field_msg(f, tl@), sev);
                    acc = acc.push(field_msg(f, tl@));
                }
            },
            None => {
                if !eq_chars(&t, &chars_of("boolean")) && !eq_chars(&t, &chars_of("object")) && !eq_chars(&t, &chars_of("array")) {
                    let mut m = chars_of("Unknown type '");
                    push_all(&mut m, &t);
                    push_all(&mut m, &chars_of("' for field '"));
                    push_all(&mut m, &chars_of(field_name));
                    push_all(&mut m, &chars_of("'"));
                    push_error(&mut errs, field_name, &m, ValidationSeverity::Error);
                    proof {
                        lemma_errors_push(e0, errs@, f, acc, m@, sev);
                        acc = acc.push(m@);
                    }
                }
            },
        }
    }
    assert(acc =~= kind_messages(f, *value, *rule, opt_text(below_minimum), opt_text(above_maximum)));
    let ghost a3 = acc;
    match &not_allowed {
        Some(list) => {
            let tail = prefixed("must be one of: ", &chars_of(list.as_str()));
            let ghost e0 = errs@;
            push_field_error(&mut errs, field_name, &tail);
            proof {
                lemma_errors_push(e0, errs@, f, acc, field_msg(f, tail@), sev);
                acc = acc.push(field_msg(f, tail@));
            }
        },
        None => {},
    }
    assert(acc =~= a3 + text_messages(f, "must be one of: "@, opt_text(not_allowed)));
    assert(acc =~= property_errors(f, *value, *rule, opt_text(below_minimum), opt_text(above_maximum), opt_text(not_allowed)));
    errs
}

/// A member of the configuration object being validated, with the answers
/// to the checks made on its number or JSON value elsewhere: the text of
/// the schema's minimum or maximum when the number lies below or above it,
/// and the text of the allowed values when the value is not among them.
pub struct FieldInput {
    /// The member's name
    pub name: String,
    /// Its value's kind
    pub value: ConfigValueKind,
    /// The minimum's text, when the number is below it
    pub below_minimum: Option<String>,
    /// The maximum's text, when the number is above it
    pub above_maximum: Option<String>,
    /// The allowed values' text, when the value is not among them
    pub not_allowed: Option<String>,
}

/// What a configuration schema asks: the fields that must be present, the
/// rule of each known property, and whether other fields are allowed.
pub struct SchemaRules {
    /// Fields that must be present
    pub required: Vec<String>,
    /// Property rules by name
    pub properties: Vec<(String, PropertyRule)>,
    /// Whether fields without a rule are allowed
    pub additional_properties: bool,
}

/// An error by value: its field, message and severity.
pub open spec fn error_view(e: ConfigValidationError) -> (Seq<char>, Seq<char>, ValidationSeverity) {
    (e.field@, e.message@, e.severity)
}

/// A list of errors by value.
pub open spec fn errors_view(es: Seq<ConfigValidationError>) -> Seq<(Seq<char>, Seq<char>, ValidationSeverity)> {
    es.map_values(|e: ConfigValidationError| error_view(e))
}

/// Messages `msgs` as errors of field `f` with severity `sev`.
pub open spec fn tagged(f: Seq<char>, msgs: Seq<Seq<char>>, sev: ValidationSeverity) -> Seq<(Seq<char>, Seq<char>, ValidationSeverity)> {
    msgs.map_values(|m: Seq<char>| (f, m, sev))
}

/// Some member of `fields` is named `name`.
pub open spec fn has_field(fields: Seq<FieldInput>, name: Seq<char>) -> bool {
    exists|i: int| 0 <= i < fields.len() && (#[trigger] fields[i]).name@ == name
}

/// The rule of the first property named `name`.
pub open spec fn rule_of(props: Seq<(String, PropertyRule)>, name: Seq<char>) -> Option<PropertyRule>
    decreases props.len(),
{
    if props.len() == 0 {
        None
    } else if props[0].0@ == name {
        Some(props[0].1)
    } else {
        rule_of(props.drop_first(), name)
    }
}

/// A `Fatal` error for each required field, in order, that no member has.
pub open spec fn required_errors(required: Seq<String>, fields: Seq<FieldInput>) -> Seq<(Seq<char>, Seq<char>, ValidationSeverity)>
    decreases required.len(),
{
    if required.len() == 0 {
        seq![]
    } else {
        let name = required.last()@;
        required_errors(required.drop_last(), fields) + if has_field(fields, name) {
            seq![]
        } else {
            seq![(name, "Required field '"@ + name + "' is missing"@, ValidationSeverity::Fatal)]
        }
    }
}

/// The errors of member `fi`: those of its property's rule, or a `Warning`
/// when it has none and other fields are not allowed.
pub open spec fn member_errors(fi: FieldInput, schema: SchemaRules) -> Seq<(Seq<char>, Seq<char>, ValidationSeverity)> {
    match rule_of(schema.properties@, fi.name@) {
        Some(rule) => tagged(fi.name@, property_errors(fi.name@, fi.value, rule, opt_text(fi.below_minimum),
            opt_text(fi.above_maximum), opt_text(fi.not_allowed)), ValidationSeverity::Error),
        None => if schema.additional_properties {
            seq![]
        } else {
            seq![(fi.name@, "Unknown field '"@ + fi.name@ + "'"@, ValidationSeverity::Warning)]
        },
    }
}

/// The errors of the members of `fields`, in order.
pub open spec fn members_errors(fields: Seq<FieldInput>, schema: SchemaRules) -> Seq<(Seq<char>, Seq<char>, ValidationSeverity)>
    decreases fields.len(),
{
    if fields.len() == 0 {
        seq![]
    } else {
        members_errors(fields.drop_last(), schema) + member_errors(fields.last(), schema)
    }
}

/// Every error of validating a configuration with members `fields`: the
/// missing required fields, then the errors of each member in order.
pub open spec fn config_errors(schema: SchemaRules, fields: Seq<FieldInput>) -> Seq<(Seq<char>, Seq<char>, ValidationSeverity)> {
    required_errors(schema.required@, fields) + members_errors(fields, schema)
}

/// The `Fatal` errors of `es`, in order.
pub open spec fn fatal_only(es: Seq<(Seq<char>, Seq<char>, ValidationSeverity)>) -> Seq<(Seq<char>, Seq<char>, ValidationSeverity)>
    decreases es.len(),
{
    if es.len() == 0 {
        seq![]
    } else {
        fatal_only(es.drop_last()) + if es.last().2 == ValidationSeverity::Fatal { seq![es.last()] } else { seq![] }
    }
}

/// A copy of an optional string.
fn copy_opt(o: &Option<String>) -> (r: Option<String>)
    ensures
        opt_text(r) == opt_text(*o),
{
    match o {
        Some(s) => Some(s.clone()),
        None => None,
    }
}

/// Appends `more` to `errs`.
fn append_errors(errs: &mut Vec<ConfigValidationError>, more: Vec<ConfigValidationError>)
    ensures
        errors_view(final(errs)@) == errors_view(old(errs)@) + errors_view(more@),
{
    let ghost start = errors_view(errs@);
    let mut i: usize = 0;
    let mut more = more;
    let ghost all = more@;
    let total = more.len();
    assert(all.len() == total);
    while more.len() > 0
        invariant
            i <= all.len(),
            more@ == all.skip(i as int),
            more@.len() == all.len() - i,
            all.len() <= usize::MAX,
            errors_view(errs@) == start + errors_view(all.take(i as int)),
        decreases more.len(),
    {
        let e = more.remove(0);
        assert(e == all[i as int]);
        let ghost before = errs@;
        errs.push(e);
        assert(all.take(i + 1) =~= all.take(i as int).push(e));
        assert(errors_view(errs@) =~= errors_view(before).push(error_view(e)));
        i = i + 1;
        assert(errors_view(errs@) =~= start + errors_view(all.take(i as int)));
        assert(more@ =~= all.skip(i as int));
    }
    assert(all.take(i as int) =~= all);
}

/// Whether some member of `fields` is named `name`.
fn find_field(fields: &Vec<FieldInput>, name: &String) -> (b: bool)
    ensures
        b == has_field(fields@, name@),
{
    let mut i: usize = 0;
    while i < fields.len()
        invariant
            i <= fields.len(),
            forall|j: int| 0 <= j < i ==> fields@[j].name@ != name@,
        decreases fields.len() - i,
    {
        if fields[i].name == *name {
            assert(fields@[i as int].name@ == name@);
            return true;
        }
        i = i + 1;
    }
    false
}

/// The rule of the first property named `name`.
fn find_rule(props: &Vec<(String, PropertyRule)>, name: &String) -> (r: Option<PropertyRule>)
    ensures
        match rule_of(props@, name@) {
            None => r is None,
            Some(x) => r matches Some(y) && y == x,
        },
{
    let mut i: usize = 0;
    assert(props@.skip(0) =~= props@);
    while i < props.len()
        invariant
            i <= props.len(),
            rule_of(props@, name@) == rule_of(props@.skip(i as int), name@),
        decreases props.len() - i,
    {
        assert(props@.skip(i as int).drop_first() =~= props@.skip(i + 1));
        if props[i].0 == *name {
            return Some(props[i].1.clone());
        }
        i = i + 1;
    }
    None
}

impl Clone for PropertyRule {
    /// A copy of the rule.
    fn clone(&self) -> (c: Self)
        ensures
            c == *self,
    {
        PropertyRule {
            property_type: self.property_type.clone(),
            min_length: self.min_length,
            max_length: self.max_length,
            pattern: match &self.pattern {
                Some(p) => Some(p.clone()),
                None => None,
            },
        }
    }
}

/// Validates a configuration with members `fields` (none when it is not
/// an object) against `schema`: a `Fatal` error for each missing required
/// field, then, for each member in order, the errors of its property's rule
/// (`validate_property`) or, when it has no rule and other fields are not
/// allowed, an unknown-field `Warning`. Fails with the fatal errors when
/// there are any; otherwise returns every error.
pub fn validate_config(schema: &SchemaRules, fields: &Vec<FieldInput>) -> (r: Result<Vec<ConfigValidationError>, Vec<ConfigValidationError>>)
    ensures
        match r {
            Ok(all) => errors_view(all@) == config_errors(*schema, fields@) && fatal_only(config_errors(*schema, fields@)).len() == 0,
            Err(fatal) => errors_view(fatal@) == fatal_only(config_errors(*schema, fields@)) && fatal@.len() > 0,
        },
{
    let mut errs: Vec<ConfigValidationError> = Vec::new();
    let mut k: usize = 0;
    while k < schema.required.len()
        invariant
            k <= schema.required.len(),
            errors_view(errs@) == required_errors(schema.required@.take(k as int), fields@),
        decreases schema.required.len() - k,
    {
        assert(schema.required@.take(k + 1).drop_last() =~= schema.required@.take(k as int));
        let name = &schema.required[k];
        if !find_field(fields, name) {
            let mut m = chars_of("Required field '");
            push_all(&mut m, &chars_of(name.as_str()));
            push_all(&mut m, &chars_of("' is missing"));
            let ghost before = errors_view(errs@);
            push_error(&mut errs, name.as_str(), &m, ValidationSeverity::Fatal);
            assert(errors_view(errs@) =~= before.push(error_view(errs@.last())));
        }
        k = k + 1;
        assert(errors_view(errs@) =~= required_errors(schema.required@.take(k as int), fields@));
    }
    assert(schema.required@.take(k as int) =~= schema.required@);
    let ghost req = errors_view(errs@);
    let mut i: usize = 0;
    while i < fields.len()
        invariant
            i <= fields.len(),
            req == required_errors(schema.required@, fields@),
            errors_view(errs@) == req + members_errors(fields@.take(i as int), *schema),
        decreases fields.len() - i,
    {
        assert(fields@.take(i + 1).drop_last() =~= fields@.take(i as int));
        let fi = &fields[i];
        let ghost before = errors_view(errs@);
        match find_rule(&schema.properties, &fi.name) {
            Some(rule) => {
                let pe = validate_property(fi.name.as_str(), &fi.value, &rule, copy_opt(&fi.below_minimum),
                    copy_opt(&fi.above_maximum), copy_opt(&fi.not_allowed));
                assert(errors_view(pe@) =~= tagged(fi.name@, property_errors(fi.name@, fi.value, rule,
                    opt_text(fi.below_minimum), opt_text(fi.above_maximum), opt_text(fi.not_allowed)), ValidationSeverity::Error));
                append_errors(&mut errs, pe);
            },
            None => {
                if !schema.additional_properties {
                    let mut m = chars_of("Unknown field '");
                    push_all(&mut m, &chars_of(fi.name.as_str()));
                    push_all(&mut m, &chars_of("'"));
                    push_error(&mut errs, fi.name.as_str(), &m, ValidationSeverity::Warning);
                    assert(errors_view(errs@) =~= before.push(error_view(errs@.last())));
                }
            },
        }
        assert(errors_view(errs@) =~= before + member_errors(fields@[i as int], *schema));
        i = i + 1;
        assert(errors_view(errs@) =~= req + members_errors(fields@.take(i as int), *schema));
    }
    assert(fields@.take(i as int) =~= fields@);
    let ghost all = errors_view(errs@);
    let mut fatal: Vec<ConfigValidationError> = Vec::new();
    let mut j: usize = 0;
    while j < errs.len()
        invariant
            j <= errs.len(),
            all == errors_view(errs@),
            errors_view(fatal@) == fatal_only(all.take(j as int)),
        decreases errs.len() - j,
    {
        assert(all.take(j + 1).drop_last() =~= all.take(j as int));
        if errs[j].severity == ValidationSeverity::Fatal {
            let e = ConfigValidationError {
                field: errs[j].field.clone(),
                message: errs[j].message.clone(),
                severity: ValidationSeverity::Fatal,
            };
            let ghost before = errors_view(fatal@);
            fatal.push(e);
            assert(errors_view(fatal@) =~= before.push(error_view(e)));
        }
        j = j + 1;
        assert(errors_view(fatal@) =~= fatal_only(all.take(j as int)));
    }
    assert(all.take(j as int) =~= all);
    if fatal.len() > 0 {
        Err(fatal)
    } else {
        Ok(errs)
    }
}

} // verus!
