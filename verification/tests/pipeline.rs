//! Build-time half of the pipeline: placeholder text, attribute extraction,
//! schema inference, default decoding, and artifact emission.

use storybook::attrs::Clause;
use storybook::attrs::FieldDecl;
use storybook::emit::generate_storybook_js;
use storybook::lorem::generate_lorem_ipsum;
use storybook::schema::build_arg_type;
use storybook::schema::build_arg_types;
use storybook::schema::ControlType;
use storybook::strutil::parse_usize;
use storybook::strutil::u64_to_string;
use storybook::value::decode_default;
use storybook::value::Value;

fn clause(key: &str, value: &str) -> Clause {
    Clause { key: key.to_string(), value: Some(value.to_string()) }
}

fn bare(key: &str) -> Clause {
    Clause { key: key.to_string(), value: None }
}

fn decl(name: &str, ty: &str, clauses: Vec<Clause>) -> FieldDecl {
    FieldDecl { name: name.to_string(), ty: ty.to_string(), clauses }
}

#[test]
fn lorem_zero_words_is_empty() {
    assert_eq!(generate_lorem_ipsum(0), "");
}

#[test]
fn lorem_exact_prefixes() {
    assert_eq!(generate_lorem_ipsum(1), "lorem");
    assert_eq!(generate_lorem_ipsum(3), "lorem ipsum dolor");
    assert_eq!(
        generate_lorem_ipsum(8),
        "lorem ipsum dolor sit amet consectetur adipiscing elit"
    );
}

#[test]
fn lorem_word_count_matches() {
    for n in [1usize, 2, 5, 8, 87, 88, 89, 200] {
        let text = generate_lorem_ipsum(n);
        assert_eq!(text.split_whitespace().count(), n, "word count for n = {}", n);
    }
}

#[test]
fn lorem_wraps_around_the_list() {
    let text = generate_lorem_ipsum(89);
    let words: Vec<&str> = text.split(' ').collect();
    assert_eq!(words[88], "lorem");
    assert_eq!(words[0], "lorem");
}

#[test]
fn lorem_repeated_calls_identical() {
    for n in [0usize, 1, 8, 95] {
        assert_eq!(generate_lorem_ipsum(n), generate_lorem_ipsum(n));
    }
}

#[test]
fn attrs_last_occurrence_wins() {
    let f = decl("x", "String", vec![clause("control", "select"), clause("control", "color")]);
    let a = storybook::attrs::get_story_attrs(&f);
    assert_eq!(a.control.as_deref(), Some("color"));
}

#[test]
fn attrs_malformed_value_degrades_to_absent() {
    let f = decl("x", "String", vec![clause("lorem", "abc"), bare("control")]);
    let a = storybook::attrs::get_story_attrs(&f);
    assert_eq!(a.lorem_count, None);
    assert_eq!(a.control, None);
}

#[test]
fn attrs_malformed_keeps_earlier_parse() {
    let f = decl("x", "String", vec![clause("lorem", "4"), clause("lorem", "zz")]);
    let a = storybook::attrs::get_story_attrs(&f);
    assert_eq!(a.lorem_count, Some(4));
}

#[test]
fn attrs_bare_lorem_defaults_to_eight() {
    let f = decl("x", "String", vec![bare("lorem")]);
    let a = storybook::attrs::get_story_attrs(&f);
    assert_eq!(a.lorem_count, Some(8));
}

#[test]
fn attrs_unknown_keys_ignored() {
    let f = decl("x", "String", vec![clause("colour", "red"), clause("default", "'d'")]);
    let a = storybook::attrs::get_story_attrs(&f);
    assert_eq!(a.control, None);
    assert_eq!(a.default_value.as_deref(), Some("'d'"));
}

#[test]
fn infer_boolean_from_type_token() {
    let a = build_arg_type(&decl("on", "bool", vec![]));
    assert_eq!(a.control, ControlType::Boolean);
    assert_eq!(a.default_value, "false");
    assert!(a.required);
}

#[test]
fn infer_boolean_wins_over_numeric() {
    // holds both a boolean and a numeric token; the boolean check runs first
    let a = build_arg_type(&decl("b", "Pair<bool,i32>", vec![]));
    assert_eq!(a.control, ControlType::Boolean);
}

#[test]
fn infer_number_from_type_token() {
    for ty in ["i32", "u32", "f32", "f64", "usize", "Mutable<usize>"] {
        let a = build_arg_type(&decl("n", ty, vec![]));
        assert_eq!(a.control, ControlType::Number, "for type {}", ty);
        assert_eq!(a.default_value, "0");
    }
}

#[test]
fn infer_text_otherwise() {
    let a = build_arg_type(&decl("t", "String", vec![]));
    assert_eq!(a.control, ControlType::Text);
    assert_eq!(a.default_value, "''");
}

#[test]
fn infer_undefined_for_unrecognized_type() {
    let a = build_arg_type(&decl("t", "Widget", vec![]));
    assert_eq!(a.control, ControlType::Text);
    assert_eq!(a.default_value, "undefined");
}

#[test]
fn explicit_color_override_wins() {
    let a = build_arg_type(&decl("c", "bool", vec![clause("control", "color")]));
    assert_eq!(a.control, ControlType::Color);
}

#[test]
fn unknown_override_maps_to_text() {
    let a = build_arg_type(&decl("c", "bool", vec![clause("control", "range")]));
    assert_eq!(a.control, ControlType::Text);
}

#[test]
fn from_override_drives_auto_detection() {
    let a = build_arg_type(&decl("n", "Mutable<Thing>", vec![clause("from", "usize")]));
    assert_eq!(a.control, ControlType::Number);
}

#[test]
fn select_default_is_null_sentinel() {
    let a = build_arg_type(&decl("s", "ButtonSize", vec![clause("control", "select")]));
    assert_eq!(a.control, ControlType::Select);
    assert_eq!(a.default_value, "null");
    assert_ne!(a.default_value, "");
}

#[test]
fn select_carries_normalized_lookup_key() {
    let a = build_arg_type(&decl("s", " Alert Type ", vec![clause("control", "select")]));
    assert_eq!(a.select_ty.as_deref(), Some("AlertType"));
    assert_eq!(a.options, None);
}

#[test]
fn optional_type_not_required() {
    let a = build_arg_type(&decl("d", "Option<bool>", vec![]));
    assert!(!a.required);
    assert_eq!(a.control, ControlType::Boolean);
    assert_eq!(a.default_value, "false");
}

#[test]
fn lorem_hint_gives_quoted_placeholder_default() {
    let a = build_arg_type(&decl("t", "String", vec![clause("lorem", "3")]));
    assert_eq!(a.default_value, "'lorem ipsum dolor'");
}

#[test]
fn explicit_default_kept_verbatim() {
    let a = build_arg_type(&decl("c", "String", vec![clause("control", "color"), clause("default", "'#007bff'")]));
    assert_eq!(a.default_value, "'#007bff'");
}

#[test]
fn decode_default_values() {
    assert_eq!(decode_default("0"), Value::Int(0));
    assert_eq!(decode_default("-5"), Value::Int(-5));
    assert_eq!(decode_default("'#007bff'"), Value::Str("#007bff".to_string()));
    assert_eq!(decode_default("null"), Value::Null);
    assert_eq!(decode_default("undefined"), Value::Null);
    assert_eq!(decode_default("true"), Value::Bool(true));
    assert_eq!(decode_default("false"), Value::Bool(false));
    assert_eq!(decode_default("''"), Value::Str("".to_string()));
    assert_eq!(decode_default("plain"), Value::Str("plain".to_string()));
    assert_eq!(
        decode_default("99999999999999999999"),
        Value::Str("99999999999999999999".to_string())
    );
}

#[test]
fn parse_usize_accepts_digits_only() {
    assert_eq!(parse_usize("42"), Some(42));
    assert_eq!(parse_usize("0"), Some(0));
    assert_eq!(parse_usize(""), None);
    assert_eq!(parse_usize("4x"), None);
    assert_eq!(parse_usize("-4"), None);
    assert_eq!(parse_usize("99999999999999999999999"), None);
}

#[test]
fn u64_renders_in_decimal() {
    assert_eq!(u64_to_string(0), "0");
    assert_eq!(u64_to_string(7), "7");
    assert_eq!(u64_to_string(1234), "1234");
    assert_eq!(u64_to_string(u64::MAX), "18446744073709551615");
}

#[test]
fn artifact_for_one_boolean_field() {
    let fields = vec![decl("flag", "bool", vec![])];
    let args = build_arg_types(&fields);
    let artifact = generate_storybook_js("Mini", &args);
    let expected = format!(
        "import init, {{ register_all_stories, render_story, get_enum_options, init_enums }} from '../../example/pkg/example.js';\n\
        \n\
        // Initialize WASM\n\
        await init();\n\
        \n\
        console.log('About to call init_enums...');\n\
        init_enums();\n\
        console.log('init_enums called');\n\
        \n\
        register_all_stories();\n\
        \n\
        // Define the story with populated enum options\n\
        export default {{\n\
        \x20 title: 'Components/Mini',\n\
        \x20 argTypes: {{\n\
        \x20   flag: {{\n      control: 'boolean',\n      description: 'flag', table: {{ category: 'required' }}\n    }}\n\
        \x20 }},\n\
        }};\n\
        \n\
        const Template = (args) => {{\n\
        \x20 const container = document.createElement('div');\n\
        \x20 const dom = render_story('Mini', args);\n\
        \x20 container.appendChild(dom);\n\
        \x20 return container;\n\
        }};\n\
        \n\
        export const Default = Template.bind({{}});\n\
        Default.args = {{\n\
        \x20 flag: false\n\
        }};\n"
    );
    assert_eq!(artifact, expected);
}

#[test]
fn artifact_select_row_embeds_option_lookup() {
    let fields = vec![decl("size", "ButtonSize", vec![clause("control", "select")])];
    let args = build_arg_types(&fields);
    let artifact = generate_storybook_js("Sized", &args);
    assert!(artifact.contains("options: get_enum_options('ButtonSize')"));
    assert!(artifact.contains("  size: null"));
}
