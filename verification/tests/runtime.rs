//! Runtime half of the pipeline: registration, enum option queries, payload
//! resolution under the defaulting rules, and render dispatch.

use storybook::components::init_enums;
use storybook::components::register_all_stories;
use storybook::components::Alert;
use storybook::components::AlertType;
use storybook::components::Button;
use storybook::components::ButtonSize;
use storybook::components::Card;
use storybook::registry::RenderError;
use storybook::registry::Storybook;
use storybook::value::Value;
use storybook::vnode::styled_component;
use storybook::vnode::text_component;

fn entry(name: &str, v: Value) -> (String, Value) {
    (name.to_string(), v)
}

fn ready_context() -> Storybook {
    let mut sb = Storybook::new();
    init_enums(&mut sb);
    register_all_stories(&mut sb);
    sb
}

#[test]
fn enum_options_null_before_registration() {
    let sb = Storybook::new();
    assert_eq!(sb.get_enum_options("AlertType"), None);
}

#[test]
fn enum_options_exact_after_registration() {
    let mut sb = Storybook::new();
    init_enums(&mut sb);
    assert_eq!(
        sb.get_enum_options("AlertType"),
        Some(vec![
            "Info".to_string(),
            "Success".to_string(),
            "Warning".to_string(),
            "Error".to_string(),
        ])
    );
    assert_eq!(
        sb.get_enum_options("ButtonSize"),
        Some(vec!["Small".to_string(), "Medium".to_string(), "Large".to_string()])
    );
    assert_eq!(sb.get_enum_options("Missing"), None);
}

#[test]
fn enum_reregistration_replaces_options() {
    let mut sb = Storybook::new();
    sb.register_enum_options("AlertType", vec!["Old".to_string()]);
    sb.register_enum_options("AlertType", vec!["New".to_string()]);
    assert_eq!(sb.get_enum_options("AlertType"), Some(vec!["New".to_string()]));
}

#[test]
fn render_unregistered_name_not_found() {
    let sb = ready_context();
    let payload: Vec<(String, Value)> = Vec::new();
    match sb.render_story("Foo", &payload) {
        Err(RenderError::NotFound(name)) => assert_eq!(name, "Foo"),
        other => panic!("expected NotFound, got {:?}", other.map(|_| ())),
    }
}

#[test]
fn subset_payload_same_as_explicit_defaults() {
    let sb = ready_context();
    let partial = vec![entry("color", Value::Str("#123456".to_string()))];
    let full = vec![
        entry("color", Value::Str("#123456".to_string())),
        entry("count", Value::Int(0)),
        entry("size", Value::Null),
        entry("disabled", Value::Bool(false)),
    ];
    let a = sb.resolve_story_args("Button", &partial).unwrap();
    let b = sb.resolve_story_args("Button", &full).unwrap();
    assert_eq!(a.len(), b.len());
    for (x, y) in a.iter().zip(b.iter()) {
        assert_eq!(x.0, y.0);
        assert_eq!(x.1, y.1);
    }
}

#[test]
fn empty_payload_resolves_to_defaults() {
    let sb = ready_context();
    let payload: Vec<(String, Value)> = Vec::new();
    let args = sb.resolve_story_args("Button", &payload).unwrap();
    assert_eq!(args.len(), 4);
    assert_eq!(args[0].0, "count");
    assert_eq!(args[0].1, Value::Int(0));
    assert_eq!(args[1].0, "color");
    assert_eq!(args[1].1, Value::Str("#007bff".to_string()));
    assert_eq!(args[2].0, "size");
    assert_eq!(args[2].1, Value::Null);
    assert_eq!(args[3].0, "disabled");
    assert_eq!(args[3].1, Value::Bool(false));
}

#[test]
fn end_to_end_empty_payload_renders_button() {
    let sb = ready_context();
    let payload: Vec<(String, Value)> = Vec::new();
    let node = sb.render_story("Button", &payload).unwrap();
    assert_eq!(node.tag, "button");
    assert_eq!(node.text.as_deref(), Some("Clicked 0 times"));
    assert!(node.styles.contains(&("background-color".to_string(), "#007bff".to_string())));
    assert!(node.styles.contains(&("padding".to_string(), "10px 20px".to_string())));
}

#[test]
fn type_mismatched_payload_fails_deserialization() {
    let sb = ready_context();
    let payload = vec![entry("color", Value::Int(3))];
    match sb.render_story("Button", &payload) {
        Err(RenderError::Deser(field)) => assert_eq!(field, "color"),
        other => panic!("expected Deser, got {:?}", other.map(|_| ())),
    }
}

#[test]
fn unknown_payload_keys_ignored() {
    let sb = ready_context();
    let payload = vec![entry("mystery", Value::Int(9)), entry("count", Value::Int(3))];
    let args = sb.resolve_story_args("Button", &payload).unwrap();
    assert_eq!(args.len(), 4);
    assert_eq!(args[0].1, Value::Int(3));
    assert!(args.iter().all(|(n, _)| n != "mystery"));
}

#[test]
fn present_values_override_defaults() {
    let sb = ready_context();
    let payload = vec![
        entry("count", Value::Int(7)),
        entry("size", Value::Str("Large".to_string())),
        entry("disabled", Value::Bool(true)),
    ];
    let node = sb.render_story("Button", &payload).unwrap();
    assert_eq!(node.text.as_deref(), Some("Clicked 7 times"));
    assert!(node.styles.contains(&("padding".to_string(), "12px 24px".to_string())));
    assert!(node.styles.contains(&("opacity".to_string(), "0.5".to_string())));
    assert!(node.props.contains(&("disabled".to_string(), "true".to_string())));
}

#[test]
fn card_renders_heading_and_paragraph() {
    let card = Card {
        title: "Hello".to_string(),
        content: "Body".to_string(),
        background: "#fcfcfc".to_string(),
    };
    let node = card.to_story();
    assert_eq!(node.tag, "div");
    assert_eq!(node.children.len(), 2);
    assert_eq!(node.children[0].tag, "h2");
    assert_eq!(node.children[0].text.as_deref(), Some("Hello"));
    assert_eq!(node.children[1].tag, "p");
    assert_eq!(node.children[1].text.as_deref(), Some("Body"));
}

#[test]
fn card_renders_with_lorem_defaults() {
    let sb = ready_context();
    let payload: Vec<(String, Value)> = Vec::new();
    let node = sb.render_story("Card", &payload).unwrap();
    assert_eq!(node.children[0].text.as_deref(), Some("lorem ipsum dolor"));
    assert_eq!(
        node.children[1].text.as_deref(),
        Some("lorem ipsum dolor sit amet consectetur adipiscing elit")
    );
}

#[test]
fn input_renders_attributes() {
    let sb = ready_context();
    let payload: Vec<(String, Value)> = Vec::new();
    let node = sb.render_story("Input", &payload).unwrap();
    assert_eq!(node.tag, "input");
    assert!(node.attrs.contains(&("placeholder".to_string(), "lorem ipsum".to_string())));
    assert!(node.attrs.contains(&("value".to_string(), "lorem ipsum dolor sit".to_string())));
}

#[test]
fn alert_renders_severity_color() {
    let sb = ready_context();
    let payload = vec![entry("alert_type", Value::Str("Error".to_string()))];
    let node = sb.render_story("Alert", &payload).unwrap();
    assert!(node.styles.contains(&("background-color".to_string(), "#e74c3c".to_string())));
    assert_eq!(node.text.as_deref(), Some("lorem ipsum dolor sit amet"));
}

#[test]
fn alert_rejects_unknown_severity() {
    let sb = ready_context();
    let payload = vec![entry("alert_type", Value::Str("Fatal".to_string()))];
    match sb.render_story("Alert", &payload) {
        Err(RenderError::Deser(field)) => assert_eq!(field, "alert_type"),
        other => panic!("expected Deser, got {:?}", other.map(|_| ())),
    }
}

#[test]
fn get_stories_lists_schemas_with_options() {
    let sb = ready_context();
    let stories = sb.get_stories();
    assert_eq!(stories.len(), 4);
    let names: Vec<&str> = stories.iter().map(|s| s.name.as_str()).collect();
    assert_eq!(names, vec!["Button", "Card", "Input", "Alert"]);
    let button = &stories[0];
    assert_eq!(button.args.len(), 4);
    let size = &button.args[2];
    assert_eq!(size.name, "size");
    assert_eq!(
        size.options,
        Some(vec!["Small".to_string(), "Medium".to_string(), "Large".to_string()])
    );
    assert!(!button.args[3].required);
}

#[test]
fn get_stories_options_null_before_enum_registration() {
    let mut sb = Storybook::new();
    register_all_stories(&mut sb);
    let stories = sb.get_stories();
    assert_eq!(stories[0].args[2].options, None);
}

#[test]
fn export_stories_csf_matches_get_stories() {
    let sb = ready_context();
    let a = sb.get_stories();
    let b = sb.export_stories_csf();
    assert_eq!(a.len(), b.len());
    for (x, y) in a.iter().zip(b.iter()) {
        assert_eq!(x.name, y.name);
        assert_eq!(x.args.len(), y.args.len());
    }
}

#[test]
fn button_size_css_values() {
    assert_eq!(ButtonSize::Small.to_css(), "8px 16px");
    assert_eq!(ButtonSize::Medium.to_css(), "10px 20px");
    assert_eq!(ButtonSize::Large.to_css(), "12px 24px");
}

#[test]
fn alert_type_color_values() {
    assert_eq!(AlertType::Info.to_color(), "#3498db");
    assert_eq!(AlertType::Success.to_color(), "#2ecc71");
    assert_eq!(AlertType::Warning.to_color(), "#f39c12");
    assert_eq!(AlertType::Error.to_color(), "#e74c3c");
}

#[test]
fn enum_option_names_round_trip() {
    assert_eq!(ButtonSize::from_option_name("Large"), Ok(ButtonSize::Large));
    assert_eq!(AlertType::from_option_name("Warning"), Ok(AlertType::Warning));
    assert_eq!(ButtonSize::Large.variant_name(), "Large");
    assert_eq!(AlertType::Warning.variant_name(), "Warning");
    assert_eq!(
        ButtonSize::from_option_name("Huge"),
        Err("Invalid ButtonSize variant: Huge".to_string())
    );
    assert_eq!(
        AlertType::from_option_name("Fatal"),
        Err("Invalid AlertType variant: Fatal".to_string())
    );
}

#[test]
fn negative_count_fails_button_conversion() {
    let p = vec![
        entry("count", Value::Int(-1)),
        entry("color", Value::Str("#fff".to_string())),
    ];
    match Button::from_args(&p) {
        Err(field) => assert_eq!(field, "count"),
        Ok(_) => panic!("expected failure on negative count"),
    }
}

#[test]
fn alert_components_build_directly() {
    let alert = Alert { message: "hi".to_string(), alert_type: AlertType::Success };
    let node = alert.to_story();
    assert!(node.styles.contains(&("background-color".to_string(), "#2ecc71".to_string())));
}

#[test]
fn helper_components_render() {
    let t = text_component("hello");
    assert_eq!(t.tag, "div");
    assert_eq!(t.text.as_deref(), Some("hello"));
    let s = styled_component("hi", "red");
    assert_eq!(s.styles[0], ("color".to_string(), "red".to_string()));
    assert_eq!(s.styles.len(), 4);
}

#[test]
fn duplicate_payload_keys_earliest_wins() {
    let sb = ready_context();
    let payload = vec![entry("count", Value::Int(2)), entry("count", Value::Int(9))];
    let args = sb.resolve_story_args("Button", &payload).unwrap();
    assert_eq!(args[0].1, Value::Int(2));
}

#[test]
fn empty_context_has_no_stories() {
    let sb = Storybook::new();
    assert_eq!(sb.get_stories().len(), 0);
    let payload: Vec<(String, Value)> = Vec::new();
    assert!(matches!(sb.render_story("Button", &payload), Err(RenderError::NotFound(_))));
}

#[test]
fn duplicate_story_registration_earliest_wins() {
    let mut sb = ready_context();
    register_all_stories(&mut sb);
    let payload: Vec<(String, Value)> = Vec::new();
    assert_eq!(sb.get_stories().len(), 8);
    assert!(sb.render_story("Button", &payload).is_ok());
}
