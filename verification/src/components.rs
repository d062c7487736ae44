//! The demo components and their render routines: a button, a card, a text
//! input and an alert, together with the two selectable enums they use.
//! Each component declares its annotated fields, derives its argument schema
//! through the shared inference routine, and renders a plain UI tree from a
//! resolved argument object.

use vstd::prelude::*;
use vstd::string::StringExecFns;

use crate::attrs::Clause;
use crate::attrs::ClauseV;
use crate::attrs::FieldDecl;
use crate::attrs::FieldDeclV;
use crate::attrs::field_views;
use crate::registry::payload_get;
use crate::registry::payload_lookup;
use crate::registry::payload_views;
use crate::registry::RenderKind;
use crate::schema::spec_arg_type;
use crate::schema::ArgType;
use crate::schema::ArgTypeV;
use crate::strutil;
use crate::strutil::new_string;
use crate::strutil::spec_dec_str;
use crate::strutil::string_views;
use crate::value::Value;
use crate::value::ValueV;
use crate::vnode::vnode_view;
use crate::vnode::VNode;
use crate::vnode::VNodeV;

verus! {

/// Button size variants.
#[derive(Clone, Copy, PartialEq, Eq, Structural, Debug)]
pub enum ButtonSize {
    Small,
    Medium,
    Large,
}

impl Default for ButtonSize {
    /// The size a button falls back to.
    fn default() -> (r: ButtonSize)
        ensures
            r == ButtonSize::Medium,
    {
        ButtonSize::Medium
    }
}

/// The padding each button size renders with.
pub open spec fn spec_to_css(s: ButtonSize) -> Seq<char> {
    match s {
        ButtonSize::Small => "8px 16px"@,
        ButtonSize::Medium => "10px 20px"@,
        ButtonSize::Large => "12px 24px"@,
    }
}

/// The variant a size option name stands for.
pub open spec fn spec_parse_button_size(s: Seq<char>) -> Option<ButtonSize> {
    if s == "Small"@ {
        Some(ButtonSize::Small)
    } else if s == "Medium"@ {
        Some(ButtonSize::Medium)
    } else if s == "Large"@ {
        Some(ButtonSize::Large)
    } else {
        None
    }
}

impl ButtonSize {
    /// The padding this size renders with.
    pub fn to_css(&self) -> (r: &'static str)
        ensures
            r@ == spec_to_css(*self),
    {
        match self {
            ButtonSize::Small => "8px 16px",
            ButtonSize::Medium => "10px 20px",
            ButtonSize::Large => "12px 24px",
        }
    }

    /// The enum's type name, as select controls look it up.
    pub fn ty_name() -> (r: &'static str)
        ensures
            r@ == "ButtonSize"@,
    {
        "ButtonSize"
    }

    /// All variant names, in declaration order.
    pub fn options() -> (r: Vec<String>)
        ensures
            string_views(r@) == seq!["Small"@, "Medium"@, "Large"@],
    {
        let mut r: Vec<String> = Vec::new();
        r.push(new_string("Small"));
        r.push(new_string("Medium"));
        r.push(new_string("Large"));
        proof {
            assert(string_views(r@) =~= seq!["Small"@, "Medium"@, "Large"@]);
        }
        r
    }

    /// This variant's name.
    pub fn variant_name(&self) -> (r: &'static str)
        ensures
            spec_parse_button_size(r@) == Some(*self),
    {
        proof {
            reveal_strlit("Small");
            reveal_strlit("Medium");
            reveal_strlit("Large");
            assert("Small"@.len() == 5);
            assert("Medium"@.len() == 6);
            assert("Large"@.len() == 5);
            assert("Small"@[0] == 'S');
            assert("Large"@[0] == 'L');
        }
        match self {
            ButtonSize::Small => "Small",
            ButtonSize::Medium => "Medium",
            ButtonSize::Large => "Large",
        }
    }

    /// The variant a size option name stands for; any other name is refused
    /// with a message naming it.
    pub fn from_option_name(s: &str) -> (r: Result<ButtonSize, String>)
        ensures
            match spec_parse_button_size(s@) {
                Some(v) => r matches Ok(x) && x == v,
                None => r matches Err(m) && m@ == "Invalid ButtonSize variant: "@ + s@,
            },
    {
        if strutil::str_eq(s, "Small") {
            Ok(ButtonSize::Small)
        } else if strutil::str_eq(s, "Medium") {
            Ok(ButtonSize::Medium)
        } else if strutil::str_eq(s, "Large") {
            Ok(ButtonSize::Large)
        } else {
            let mut m = new_string("Invalid ButtonSize variant: ");
            m.append(s);
            Err(m)
        }
    }
}

/// Alert severity levels.
#[derive(Clone, Copy, PartialEq, Eq, Structural, Debug)]
pub enum AlertType {
    Info,
    Success,
    Warning,
    Error,
}

impl Default for AlertType {
    /// The severity an alert falls back to.
    fn default() -> (r: AlertType)
        ensures
            r == AlertType::Info,
    {
        AlertType::Info
    }
}

/// The background colour each severity renders with.
pub open spec fn spec_to_color(t: AlertType) -> Seq<char> {
    match t {
        AlertType::Info => "#3498db"@,
        AlertType::Success => "#2ecc71"@,
        AlertType::Warning => "#f39c12"@,
        AlertType::Error => "#e74c3c"@,
    }
}

/// The variant a severity option name stands for.
pub open spec fn spec_parse_alert_type(s: Seq<char>) -> Option<AlertType> {
    if s == "Info"@ {
        Some(AlertType::Info)
    } else if s == "Success"@ {
        Some(AlertType::Success)
    } else if s == "Warning"@ {
        Some(AlertType::Warning)
    } else if s == "Error"@ {
        Some(AlertType::Error)
    } else {
        None
    }
}

impl AlertType {
    /// The background colour this severity renders with.
    pub fn to_color(&self) -> (r: &'static str)
        ensures
            r@ == spec_to_color(*self),
    {
        match self {
            AlertType::Info => "#3498db",
            AlertType::Success => "#2ecc71",
            AlertType::Warning => "#f39c12",
            AlertType::Error => "#e74c3c",
        }
    }

    /// The enum's type name, as select controls look it up.
    pub fn ty_name() -> (r: &'static str)
        ensures
            r@ == "AlertType"@,
    {
        "AlertType"
    }

    /// All variant names, in declaration order.
    pub fn options() -> (r: Vec<String>)
        ensures
            string_views(r@) == seq!["Info"@, "Success"@, "Warning"@, "Error"@],
    {
        let mut r: Vec<String> = Vec::new();
        r.push(new_string("Info"));
        r.push(new_string("Success"));
        r.push(new_string("Warning"));
        r.push(new_string("Error"));
        proof {
            assert(string_views(r@) =~= seq!["Info"@, "Success"@, "Warning"@, "Error"@]);
        }
        r
    }

    /// This variant's name.
    pub fn variant_name(&self) -> (r: &'static str)
        ensures
            spec_parse_alert_type(r@) == Some(*self),
    {
        proof {
            reveal_strlit("Info");
            reveal_strlit("Success");
            reveal_strlit("Warning");
            reveal_strlit("Error");
            assert("Info"@.len() == 4);
            assert("Success"@.len() == 7);
            assert("Warning"@.len() == 7);
            assert("Error"@.len() == 5);
            assert("Success"@[0] == 'S');
            assert("Warning"@[0] == 'W');
        }
        match self {
            AlertType::Info => "Info",
            AlertType::Success => "Success",
            AlertType::Warning => "Warning",
            AlertType::Error => "Error",
        }
    }

    /// The variant a severity option name stands for; any other name is
    /// refused with a message naming it.
    pub fn from_option_name(s: &str) -> (r: Result<AlertType, String>)
        ensures
            match spec_parse_alert_type(s@) {
                Some(v) => r matches Ok(x) && x == v,
                None => r matches Err(m) && m@ == "Invalid AlertType variant: "@ + s@,
            },
    {
        if strutil::str_eq(s, "Info") {
            Ok(AlertType::Info)
        } else if strutil::str_eq(s, "Success") {
            Ok(AlertType::Success)
        } else if strutil::str_eq(s, "Warning") {
            Ok(AlertType::Warning)
        } else if strutil::str_eq(s, "Error") {
            Ok(AlertType::Error)
        } else {
            let mut m = new_string("Invalid AlertType variant: ");
            m.append(s);
            Err(m)
        }
    }
}

/// A button demo: a click counter, a colour, a size and a disabled flag.
pub struct Button {
    pub count: u64,
    pub color: String,
    pub size: ButtonSize,
    pub disabled: Option<bool>,
}

/// Mathematical image of a `Button`.
#[verifier::ext_equal]
pub ghost struct ButtonV {
    pub count: u64,
    pub color: Seq<char>,
    pub size: ButtonSize,
    pub disabled: Option<bool>,
}

impl View for Button {
    type V = ButtonV;

    open spec fn view(&self) -> ButtonV {
        ButtonV {
            count: self.count,
            color: self.color@,
            size: self.size,
            disabled: self.disabled,
        }
    }
}

/// The UI tree a button renders to.
pub open spec fn spec_button_story(b: ButtonV) -> VNodeV {
    let is_disabled = match b.disabled {
        Some(x) => x,
        None => false,
    };
    VNodeV {
        tag: "button"@,
        text: Some("Clicked "@ + spec_dec_str(b.count as nat) + " times"@),
        attrs: Seq::empty(),
        styles: seq![
            ("background-color"@, b.color),
            ("color"@, "white"@),
            ("border"@, "none"@),
            ("padding"@, spec_to_css(b.size)),
            ("border-radius"@, "4px"@),
            ("cursor"@, if is_disabled { "not-allowed"@ } else { "pointer"@ }),
            ("font-size"@, "16px"@),
            ("opacity"@, if is_disabled { "0.5"@ } else { "1"@ }),
        ],
        props: seq![("disabled"@, if is_disabled { "true"@ } else { "false"@ })],
        children: Seq::empty(),
    }
}

impl Button {
    /// Renders the button.
    pub fn to_story(self) -> (r: VNode)
        ensures
            vnode_view(r) == spec_button_story(self@),
    {
        let is_disabled = match self.disabled {
            Some(b) => b,
            None => false,
        };
        let mut n = VNode::element("button");
        let mut t = new_string("Clicked ");
        let num = strutil::u64_to_string(self.count);
        t.append(num.as_str());
        t.append(" times");
        n.set_text(t);
        n.push_style("background-color", self.color.as_str());
        n.push_style("color", "white");
        n.push_style("border", "none");
        n.push_style("padding", self.size.to_css());
        n.push_style("border-radius", "4px");
        n.push_style("cursor", if is_disabled { "not-allowed" } else { "pointer" });
        n.push_style("font-size", "16px");
        n.push_style("opacity", if is_disabled { "0.5" } else { "1" });
        n.push_prop("disabled", if is_disabled { "true" } else { "false" });
        proof {
            assert(vnode_view(n).styles =~= spec_button_story(self@).styles);
            assert(vnode_view(n).props =~= spec_button_story(self@).props);
            assert(vnode_view(n).attrs =~= spec_button_story(self@).attrs);
            assert(vnode_view(n) =~~= spec_button_story(self@));
        }
        n
    }
}

/// A card demo: a title, body text and a background colour.
pub struct Card {
    pub title: String,
    pub content: String,
    pub background: String,
}

/// Mathematical image of a `Card`.
#[verifier::ext_equal]
pub ghost struct CardV {
    pub title: Seq<char>,
    pub content: Seq<char>,
    pub background: Seq<char>,
}

impl View for Card {
    type V = CardV;

    open spec fn view(&self) -> CardV {
        CardV { title: self.title@, content: self.content@, background: self.background@ }
    }
}

/// The UI tree a card renders to: a `div` holding a heading and a paragraph.
pub open spec fn spec_card_story(c: CardV) -> VNodeV {
    VNodeV {
        tag: "div"@,
        text: None,
        attrs: Seq::empty(),
        styles: seq![
            ("background-color"@, c.background),
            ("border"@, "1px solid #ddd"@),
            ("border-radius"@, "8px"@),
            ("padding"@, "20px"@),
            ("box-shadow"@, "0 2px 4px rgba(0,0,0,0.1)"@),
            ("max-width"@, "400px"@),
        ],
        props: Seq::empty(),
        children: seq![
            VNodeV {
                tag: "h2"@,
                text: Some(c.title),
                attrs: Seq::empty(),
                styles: seq![("margin-top"@, "0"@), ("margin-bottom"@, "10px"@)],
                props: Seq::empty(),
                children: Seq::empty(),
            },
            VNodeV {
                tag: "p"@,
                text: Some(c.content),
                attrs: Seq::empty(),
                styles: seq![("margin"@, "0"@), ("color"@, "#666"@)],
                props: Seq::empty(),
                children: Seq::empty(),
            },
        ],
    }
}

impl Card {
    /// Renders the card.
    pub fn to_story(self) -> (r: VNode)
        ensures
            vnode_view(r) == spec_card_story(self@),
    {
        let mut heading = VNode::element("h2");
        heading.set_text(self.title);
        heading.push_style("margin-top", "0");
        heading.push_style("margin-bottom", "10px");
        let mut body = VNode::element("p");
        body.set_text(self.content);
        body.push_style("margin", "0");
        body.push_style("color", "#666");
        let mut n = VNode::element("div");
        n.push_style("background-color", self.background.as_str());
        n.push_style("border", "1px solid #ddd");
        n.push_style("border-radius", "8px");
        n.push_style("padding", "20px");
        n.push_style("box-shadow", "0 2px 4px rgba(0,0,0,0.1)");
        n.push_style("max-width", "400px");
        let ghost heading_v = vnode_view(heading);
        let ghost body_v = vnode_view(body);
        n.push_child(heading);
        n.push_child(body);
        proof {
            assert(heading_v.styles =~= spec_card_story(self@).children[0].styles);
            assert(body_v.styles =~= spec_card_story(self@).children[1].styles);
            assert(heading_v =~~= spec_card_story(self@).children[0]);
            assert(body_v =~~= spec_card_story(self@).children[1]);
            assert(vnode_view(n).styles =~= spec_card_story(self@).styles);
            assert(vnode_view(n).children =~= spec_card_story(self@).children);
            assert(vnode_view(n) =~~= spec_card_story(self@));
        }
        n
    }
}

/// A text input demo: a placeholder and an initial value.
pub struct Input {
    pub placeholder: String,
    pub value: String,
}

/// Mathematical image of an `Input`.
#[verifier::ext_equal]
pub ghost struct InputV {
    pub placeholder: Seq<char>,
    pub value: Seq<char>,
}

impl View for Input {
    type V = InputV;

    open spec fn view(&self) -> InputV {
        InputV { placeholder: self.placeholder@, value: self.value@ }
    }
}

/// The UI tree a text input renders to.
pub open spec fn spec_input_story(i: InputV) -> VNodeV {
    VNodeV {
        tag: "input"@,
        text: None,
        attrs: seq![
            ("type"@, "text"@),
            ("placeholder"@, i.placeholder),
            ("value"@, i.value),
        ],
        styles: seq![
            ("padding"@, "10px"@),
            ("border"@, "1px solid #ccc"@),
            ("border-radius"@, "4px"@),
            ("font-size"@, "14px"@),
            ("width"@, "200px"@),
        ],
        props: Seq::empty(),
        children: Seq::empty(),
    }
}

impl Input {
    /// Renders the input.
    pub fn to_story(self) -> (r: VNode)
        ensures
            vnode_view(r) == spec_input_story(self@),
    {
        let mut n = VNode::element("input");
        n.push_attr("type", "text");
        n.push_attr("placeholder", self.placeholder.as_str());
        n.push_attr("value", self.value.as_str());
        n.push_style("padding", "10px");
        n.push_style("border", "1px solid #ccc");
        n.push_style("border-radius", "4px");
        n.push_style("font-size", "14px");
        n.push_style("width", "200px");
        proof {
            assert(vnode_view(n).attrs =~= spec_input_story(self@).attrs);
            assert(vnode_view(n).styles =~= spec_input_story(self@).styles);
            assert(vnode_view(n) =~~= spec_input_story(self@));
        }
        n
    }
}

/// An alert demo: a message with a severity.
pub struct Alert {
    pub message: String,
    pub alert_type: AlertType,
}

/// Mathematical image of an `Alert`.
#[verifier::ext_equal]
pub ghost struct AlertV {
    pub message: Seq<char>,
    pub alert_type: AlertType,
}

impl View for Alert {
    type V = AlertV;

    open spec fn view(&self) -> AlertV {
        AlertV { message: self.message@, alert_type: self.alert_type }
    }
}

/// The UI tree an alert renders to.
pub open spec fn spec_alert_story(a: AlertV) -> VNodeV {
    VNodeV {
        tag: "div"@,
        text: Some(a.message),
        attrs: Seq::empty(),
        styles: seq![
            ("padding"@, "15px 20px"@),
            ("border-radius"@, "4px"@),
            ("background-color"@, spec_to_color(a.alert_type)),
            ("color"@, "white"@),
            ("font-weight"@, "500"@),
            ("margin"@, "10px 0"@),
        ],
        props: Seq::empty(),
        children: Seq::empty(),
    }
}

impl Alert {
    /// Renders the alert.
    pub fn to_story(self) -> (r: VNode)
        ensures
            vnode_view(r) == spec_alert_story(self@),
    {
        let mut n = VNode::element("div");
        n.set_text(self.message);
        n.push_style("padding", "15px 20px");
        n.push_style("border-radius", "4px");
        n.push_style("background-color", self.alert_type.to_color());
        n.push_style("color", "white");
        n.push_style("font-weight", "500");
        n.push_style("margin", "10px 0");
        proof {
            assert(vnode_view(n).styles =~= spec_alert_story(self@).styles);
            assert(vnode_view(n) =~~= spec_alert_story(self@));
        }
        n
    }
}

/// How a button is read off a resolved argument object: a nonnegative count,
/// a colour string, a size option name (null falls back to the default
/// size), and a boolean disabled flag (null stands for unset). The earliest
/// ill-shaped field fails with its name.
pub open spec fn spec_button_from_args(p: Seq<(Seq<char>, ValueV)>) -> Result<ButtonV, Seq<char>> {
    match payload_lookup(p, "count"@) {
        Some(ValueV::Int(i)) => if i >= 0 {
            match payload_lookup(p, "color"@) {
                Some(ValueV::Str(col)) => {
                    let size_r = match payload_lookup(p, "size"@) {
                        Some(ValueV::Str(s)) => match spec_parse_button_size(s) {
                            Some(v) => Ok(v),
                            None => Err(()),
                        },
                        Some(ValueV::Null) => Ok(ButtonSize::Medium),
                        None => Ok(ButtonSize::Medium),
                        _ => Err(()),
                    };
                    match size_r {
                        Ok(size) => match payload_lookup(p, "disabled"@) {
                            Some(ValueV::Bool(b)) => Ok(
                                ButtonV { count: i as u64, color: col, size, disabled: Some(b) },
                            ),
                            Some(ValueV::Null) => Ok(
                                ButtonV { count: i as u64, color: col, size, disabled: None },
                            ),
                            None => Ok(
                                ButtonV { count: i as u64, color: col, size, disabled: None },
                            ),
                            _ => Err("disabled"@),
                        },
                        Err(_) => Err("size"@),
                    }
                },
                _ => Err("color"@),
            }
        } else {
            Err("count"@)
        },
        _ => Err("count"@),
    }
}

impl Button {
    /// Reads a button off a resolved argument object.
    pub fn from_args(p: &Vec<(String, Value)>) -> (r: Result<Button, String>)
        ensures
            match spec_button_from_args(payload_views(p@)) {
                Ok(bv) => r matches Ok(b) && b@ == bv,
                Err(e) => r matches Err(m) && m@ == e,
            },
    {
        let count: u64 = match payload_get(p, "count") {
            Some(Value::Int(i)) => {
                if i >= 0 {
                    i as u64
                } else {
                    return Err(new_string("count"));
                }
            },
            _ => {
                return Err(new_string("count"));
            },
        };
        let color: String = match payload_get(p, "color") {
            Some(Value::Str(s)) => s,
            _ => {
                return Err(new_string("color"));
            },
        };
        let size: ButtonSize = match payload_get(p, "size") {
            Some(Value::Str(s)) => match ButtonSize::from_option_name(s.as_str()) {
                Ok(v) => v,
                Err(_) => {
                    return Err(new_string("size"));
                },
            },
            Some(Value::Null) => ButtonSize::Medium,
            None => ButtonSize::Medium,
            _ => {
                return Err(new_string("size"));
            },
        };
        let disabled: Option<bool> = match payload_get(p, "disabled") {
            Some(Value::Bool(b)) => Some(b),
            Some(Value::Null) => None,
            None => None,
            _ => {
                return Err(new_string("disabled"));
            },
        };
        Ok(Button { count, color, size, disabled })
    }
}

/// How a card is read off a resolved argument object: three strings.
pub open spec fn spec_card_from_args(p: Seq<(Seq<char>, ValueV)>) -> Result<CardV, Seq<char>> {
    match payload_lookup(p, "title"@) {
        Some(ValueV::Str(title)) => match payload_lookup(p, "content"@) {
            Some(ValueV::Str(content)) => match payload_lookup(p, "background"@) {
                Some(ValueV::Str(background)) => Ok(CardV { title, content, background }),
                _ => Err("background"@),
            },
            _ => Err("content"@),
        },
        _ => Err("title"@),
    }
}

impl Card {
    /// Reads a card off a resolved argument object.
    pub fn from_args(p: &Vec<(String, Value)>) -> (r: Result<Card, String>)
        ensures
            match spec_card_from_args(payload_views(p@)) {
                Ok(cv) => r matches Ok(c) && c@ == cv,
                Err(e) => r matches Err(m) && m@ == e,
            },
    {
        let title: String = match payload_get(p, "title") {
            Some(Value::Str(s)) => s,
            _ => {
                return Err(new_string("title"));
            },
        };
        let content: String = match payload_get(p, "content") {
            Some(Value::Str(s)) => s,
            _ => {
                return Err(new_string("content"));
            },
        };
        let background: String = match payload_get(p, "background") {
            Some(Value::Str(s)) => s,
            _ => {
                return Err(new_string("background"));
            },
        };
        Ok(Card { title, content, background })
    }
}

/// How a text input is read off a resolved argument object: two strings.
pub open spec fn spec_input_from_args(p: Seq<(Seq<char>, ValueV)>) -> Result<InputV, Seq<char>> {
    match payload_lookup(p, "placeholder"@) {
        Some(ValueV::Str(placeholder)) => match payload_lookup(p, "value"@) {
            Some(ValueV::Str(value)) => Ok(InputV { placeholder, value }),
            _ => Err("value"@),
        },
        _ => Err("placeholder"@),
    }
}

impl Input {
    /// Reads a text input off a resolved argument object.
    pub fn from_args(p: &Vec<(String, Value)>) -> (r: Result<Input, String>)
        ensures
            match spec_input_from_args(payload_views(p@)) {
                Ok(iv) => r matches Ok(i) && i@ == iv,
                Err(e) => r matches Err(m) && m@ == e,
            },
    {
        let placeholder: String = match payload_get(p, "placeholder") {
            Some(Value::Str(s)) => s,
            _ => {
                return Err(new_string("placeholder"));
            },
        };
        let value: String = match payload_get(p, "value") {
            Some(Value::Str(s)) => s,
            _ => {
                return Err(new_string("value"));
            },
        };
        Ok(Input { placeholder, value })
    }
}

/// How an alert is read off a resolved argument object: a message string and
/// a severity option name (null falls back to the default severity).
pub open spec fn spec_alert_from_args(p: Seq<(Seq<char>, ValueV)>) -> Result<AlertV, Seq<char>> {
    match payload_lookup(p, "message"@) {
        Some(ValueV::Str(message)) => {
            let ty_r = match payload_lookup(p, "alert_type"@) {
                Some(ValueV::Str(s)) => match spec_parse_alert_type(s) {
                    Some(v) => Ok(v),
                    None => Err(()),
                },
                Some(ValueV::Null) => Ok(AlertType::Info),
                None => Ok(AlertType::Info),
                _ => Err(()),
            };
            match ty_r {
                Ok(alert_type) => Ok(AlertV { message, alert_type }),
                Err(_) => Err("alert_type"@),
            }
        },
        _ => Err("message"@),
    }
}

impl Alert {
    /// Reads an alert off a resolved argument object.
    pub fn from_args(p: &Vec<(String, Value)>) -> (r: Result<Alert, String>)
        ensures
            match spec_alert_from_args(payload_views(p@)) {
                Ok(av) => r matches Ok(a) && a@ == av,
                Err(e) => r matches Err(m) && m@ == e,
            },
    {
        let message: String = match payload_get(p, "message") {
            Some(Value::Str(s)) => s,
            _ => {
                return Err(new_string("message"));
            },
        };
        let alert_type: AlertType = match payload_get(p, "alert_type") {
            Some(Value::Str(s)) => match AlertType::from_option_name(s.as_str()) {
                Ok(v) => v,
                Err(_) => {
                    return Err(new_string("alert_type"));
                },
            },
            Some(Value::Null) => AlertType::Info,
            None => AlertType::Info,
            _ => {
                return Err(new_string("alert_type"));
            },
        };
        Ok(Alert { message, alert_type })
    }
}

/// The UI tree (or failing field) a render kind produces from a resolved
/// argument object.
pub open spec fn spec_render_kind(kind: RenderKind, p: Seq<(Seq<char>, ValueV)>) -> Result<
    VNodeV,
    Seq<char>,
> {
    match kind {
        RenderKind::Button => match spec_button_from_args(p) {
            Ok(b) => Ok(spec_button_story(b)),
            Err(e) => Err(e),
        },
        RenderKind::Card => match spec_card_from_args(p) {
            Ok(c) => Ok(spec_card_story(c)),
            Err(e) => Err(e),
        },
        RenderKind::Input => match spec_input_from_args(p) {
            Ok(i) => Ok(spec_input_story(i)),
            Err(e) => Err(e),
        },
        RenderKind::Alert => match spec_alert_from_args(p) {
            Ok(a) => Ok(spec_alert_story(a)),
            Err(e) => Err(e),
        },
    }
}

/// Dispatches a resolved argument object to the component a render kind
/// names, yielding its UI tree.
pub fn render_kind(kind: RenderKind, p: &Vec<(String, Value)>) -> (r: Result<VNode, String>)
    ensures
        match spec_render_kind(kind, payload_views(p@)) {
            Ok(nv) => r matches Ok(n) && vnode_view(n) == nv,
            Err(e) => r matches Err(m) && m@ == e,
        },
{
    match kind {
        RenderKind::Button => match Button::from_args(p) {
            Ok(b) => Ok(b.to_story()),
            Err(m) => Err(m),
        },
        RenderKind::Card => match Card::from_args(p) {
            Ok(c) => Ok(c.to_story()),
            Err(m) => Err(m),
        },
        RenderKind::Input => match Input::from_args(p) {
            Ok(i) => Ok(i.to_story()),
            Err(m) => Err(m),
        },
        RenderKind::Alert => match Alert::from_args(p) {
            Ok(a) => Ok(a.to_story()),
            Err(m) => Err(m),
        },
    }
}

fn clause_kv(key: &str, value: &str) -> (r: Clause)
    ensures
        r@ == (ClauseV { key: key@, value: Some(value@) }),
{
    Clause { key: new_string(key), value: Some(new_string(value)) }
}

fn clause_bare(key: &str) -> (r: Clause)
    ensures
        r@ == (ClauseV { key: key@, value: None }),
{
    Clause { key: new_string(key), value: None }
}

fn field(name: &str, ty: &str, clauses: Vec<Clause>) -> (r: FieldDecl)
    ensures
        r@ == (FieldDeclV {
            name: name@,
            ty: ty@,
            clauses: crate::attrs::clause_views(clauses@),
        }),
{
    FieldDecl { name: new_string(name), ty: new_string(ty), clauses }
}

/// The argument schema a field-declaration list resolves to, in order.
pub open spec fn spec_args(fs: Seq<FieldDeclV>) -> Seq<ArgTypeV> {
    fs.map_values(|f: FieldDeclV| spec_arg_type(f))
}

/// The button's annotated field declarations: a counter converted from a
/// plain integer with an explicit zero default, a colour control with an
/// explicit default, a size select, and a nullable disabled flag.
pub open spec fn spec_button_fields() -> Seq<FieldDeclV> {
    seq![
        FieldDeclV {
            name: "count"@,
            ty: "Mutable<usize>"@,
            clauses: seq![
                ClauseV { key: "from"@, value: Some("usize"@) },
                ClauseV { key: "default"@, value: Some("0"@) },
            ],
        },
        FieldDeclV {
            name: "color"@,
            ty: "String"@,
            clauses: seq![
                ClauseV { key: "control"@, value: Some("color"@) },
                ClauseV { key: "default"@, value: Some("'#007bff'"@) },
            ],
        },
        FieldDeclV {
            name: "size"@,
            ty: "ButtonSize"@,
            clauses: seq![ClauseV { key: "control"@, value: Some("select"@) }],
        },
        FieldDeclV { name: "disabled"@, ty: "Option<bool>"@, clauses: seq![] },
    ]
}

/// The card's annotated field declarations: a three-word placeholder title,
/// a body with the default placeholder length, and a colour control.
pub open spec fn spec_card_fields() -> Seq<FieldDeclV> {
    seq![
        FieldDeclV {
            name: "title"@,
            ty: "String"@,
            clauses: seq![ClauseV { key: "lorem"@, value: Some("3"@) }],
        },
        FieldDeclV {
            name: "content"@,
            ty: "String"@,
            clauses: seq![ClauseV { key: "lorem"@, value: None }],
        },
        FieldDeclV {
            name: "background"@,
            ty: "String"@,
            clauses: seq![
                ClauseV { key: "control"@, value: Some("color"@) },
                ClauseV { key: "default"@, value: Some("'#fcfcfc`'"@) },
            ],
        },
    ]
}

/// The input's annotated field declarations: placeholder texts of two and
/// four words.
pub open spec fn spec_input_fields() -> Seq<FieldDeclV> {
    seq![
        FieldDeclV {
            name: "placeholder"@,
            ty: "String"@,
            clauses: seq![ClauseV { key: "lorem"@, value: Some("2"@) }],
        },
        FieldDeclV {
            name: "value"@,
            ty: "String"@,
            clauses: seq![ClauseV { key: "lorem"@, value: Some("4"@) }],
        },
    ]
}

/// The alert's annotated field declarations: a five-word placeholder message
/// and a severity select.
pub open spec fn spec_alert_fields() -> Seq<FieldDeclV> {
    seq![
        FieldDeclV {
            name: "message"@,
            ty: "String"@,
            clauses: seq![ClauseV { key: "lorem"@, value: Some("5"@) }],
        },
        FieldDeclV {
            name: "alert_type"@,
            ty: "AlertType"@,
            clauses: seq![ClauseV { key: "control"@, value: Some("select"@) }],
        },
    ]
}

impl Button {
    /// The component's name.
    pub fn name() -> (r: &'static str)
        ensures
            r@ == "Button"@,
    {
        "Button"
    }

    /// The component's annotated field declarations.
    pub fn fields() -> (r: Vec<FieldDecl>)
        ensures
            field_views(r@) == spec_button_fields(),
    {
        let mut r: Vec<FieldDecl> = Vec::new();
        let mut c0: Vec<Clause> = Vec::new();
        c0.push(clause_kv("from", "usize"));
        c0.push(clause_kv("default", "0"));
        proof {
            assert(crate::attrs::clause_views(c0@) =~= spec_button_fields()[0].clauses);
        }
        r.push(field("count", "Mutable<usize>", c0));
        let mut c1: Vec<Clause> = Vec::new();
        c1.push(clause_kv("control", "color"));
        c1.push(clause_kv("default", "'#007bff'"));
        proof {
            assert(crate::attrs::clause_views(c1@) =~= spec_button_fields()[1].clauses);
        }
        r.push(field("color", "String", c1));
        let mut c2: Vec<Clause> = Vec::new();
        c2.push(clause_kv("control", "select"));
        proof {
            assert(crate::attrs::clause_views(c2@) =~= spec_button_fields()[2].clauses);
        }
        r.push(field("size", "ButtonSize", c2));
        let c3: Vec<Clause> = Vec::new();
        proof {
            assert(crate::attrs::clause_views(c3@) =~= spec_button_fields()[3].clauses);
        }
        r.push(field("disabled", "Option<bool>", c3));
        proof {
            assert(field_views(r@) =~~= spec_button_fields());
        }
        r
    }

    /// The component's inferred argument schema.
    pub fn args() -> (r: Vec<ArgType>)
        ensures
            crate::registry::arg_views(r@) == spec_args(spec_button_fields()),
    {
        let fields = Self::fields();
        let r = crate::schema::build_arg_types(&fields);
        proof {
            assert(crate::registry::arg_views(r@) =~= spec_args(spec_button_fields()));
        }
        r
    }
}

impl Card {
    /// The component's name.
    pub fn name() -> (r: &'static str)
        ensures
            r@ == "Card"@,
    {
        "Card"
    }

    /// The component's annotated field declarations.
    pub fn fields() -> (r: Vec<FieldDecl>)
        ensures
            field_views(r@) == spec_card_fields(),
    {
        let mut r: Vec<FieldDecl> = Vec::new();
        let mut c0: Vec<Clause> = Vec::new();
        c0.push(clause_kv("lorem", "3"));
        proof {
            assert(crate::attrs::clause_views(c0@) =~= spec_card_fields()[0].clauses);
        }
        r.push(field("title", "String", c0));
        let mut c1: Vec<Clause> = Vec::new();
        c1.push(clause_bare("lorem"));
        proof {
            assert(crate::attrs::clause_views(c1@) =~= spec_card_fields()[1].clauses);
        }
        r.push(field("content", "String", c1));
        let mut c2: Vec<Clause> = Vec::new();
        c2.push(clause_kv("control", "color"));
        c2.push(clause_kv("default", "'#fcfcfc`'"));
        proof {
            assert(crate::attrs::clause_views(c2@) =~= spec_card_fields()[2].clauses);
        }
        r.push(field("background", "String", c2));
        proof {
            assert(field_views(r@) =~~= spec_card_fields());
        }
        r
    }

    /// The component's inferred argument schema.
    pub fn args() -> (r: Vec<ArgType>)
        ensures
            crate::registry::arg_views(r@) == spec_args(spec_card_fields()),
    {
        let fields = Self::fields();
        let r = crate::schema::build_arg_types(&fields);
        proof {
            assert(crate::registry::arg_views(r@) =~= spec_args(spec_card_fields()));
        }
        r
    }
}

impl Input {
    /// The component's name.
    pub fn name() -> (r: &'static str)
        ensures
            r@ == "Input"@,
    {
        "Input"
    }

    /// The component's annotated field declarations.
    pub fn fields() -> (r: Vec<FieldDecl>)
        ensures
            field_views(r@) == spec_input_fields(),
    {
        let mut r: Vec<FieldDecl> = Vec::new();
        let mut c0: Vec<Clause> = Vec::new();
        c0.push(clause_kv("lorem", "2"));
        proof {
            assert(crate::attrs::clause_views(c0@) =~= spec_input_fields()[0].clauses);
        }
        r.push(field("placeholder", "String", c0));
        let mut c1: Vec<Clause> = Vec::new();
        c1.push(clause_kv("lorem", "4"));
        proof {
            assert(crate::attrs::clause_views(c1@) =~= spec_input_fields()[1].clauses);
        }
        r.push(field("value", "String", c1));
        proof {
            assert(field_views(r@) =~~= spec_input_fields());
        }
        r
    }

    /// The component's inferred argument schema.
    pub fn args() -> (r: Vec<ArgType>)
        ensures
            crate::registry::arg_views(r@) == spec_args(spec_input_fields()),
    {
        let fields = Self::fields();
        let r = crate::schema::build_arg_types(&fields);
        proof {
            assert(crate::registry::arg_views(r@) =~= spec_args(spec_input_fields()));
        }
        r
    }
}

impl Alert {
    /// The component's name.
    pub fn name() -> (r: &'static str)
        ensures
            r@ == "Alert"@,
    {
        "Alert"
    }

    /// The component's annotated field declarations.
    pub fn fields() -> (r: Vec<FieldDecl>)
        ensures
            field_views(r@) == spec_alert_fields(),
    {
        let mut r: Vec<FieldDecl> = Vec::new();
        let mut c0: Vec<Clause> = Vec::new();
        c0.push(clause_kv("lorem", "5"));
        proof {
            assert(crate::attrs::clause_views(c0@) =~= spec_alert_fields()[0].clauses);
        }
        r.push(field("message", "String", c0));
        let mut c1: Vec<Clause> = Vec::new();
        c1.push(clause_kv("control", "select"));
        proof {
            assert(crate::attrs::clause_views(c1@) =~= spec_alert_fields()[1].clauses);
        }
        r.push(field("alert_type", "AlertType", c1));
        proof {
            assert(field_views(r@) =~~= spec_alert_fields());
        }
        r
    }

    /// The component's inferred argument schema.
    pub fn args() -> (r: Vec<ArgType>)
        ensures
            crate::registry::arg_views(r@) == spec_args(spec_alert_fields()),
    {
        let fields = Self::fields();
        let r = crate::schema::build_arg_types(&fields);
        proof {
            assert(crate::registry::arg_views(r@) =~= spec_args(spec_alert_fields()));
        }
        r
    }
}

/// The registration each component contributes at startup.
pub open spec fn spec_button_registration() -> crate::registry::StoryRegistrationV {
    crate::registry::StoryRegistrationV {
        name: "Button"@,
        args: spec_args(spec_button_fields()),
        render: RenderKind::Button,
    }
}

pub open spec fn spec_card_registration() -> crate::registry::StoryRegistrationV {
    crate::registry::StoryRegistrationV {
        name: "Card"@,
        args: spec_args(spec_card_fields()),
        render: RenderKind::Card,
    }
}

pub open spec fn spec_input_registration() -> crate::registry::StoryRegistrationV {
    crate::registry::StoryRegistrationV {
        name: "Input"@,
        args: spec_args(spec_input_fields()),
        render: RenderKind::Input,
    }
}

pub open spec fn spec_alert_registration() -> crate::registry::StoryRegistrationV {
    crate::registry::StoryRegistrationV {
        name: "Alert"@,
        args: spec_args(spec_alert_fields()),
        render: RenderKind::Alert,
    }
}

/// Registers every component with its inferred schema, in a fixed order.
pub fn register_all_stories(sb: &mut crate::registry::Storybook)
    ensures
        final(sb).enums@ == old(sb).enums@,
        crate::registry::story_views(final(sb).stories@) == crate::registry::story_views(
            old(sb).stories@,
        ) + seq![
            spec_button_registration(),
            spec_card_registration(),
            spec_input_registration(),
            spec_alert_registration(),
        ],
{
    sb.register_story(
        crate::registry::StoryRegistration {
            name: new_string(Button::name()),
            args: Button::args(),
            render: RenderKind::Button,
        },
    );
    sb.register_story(
        crate::registry::StoryRegistration {
            name: new_string(Card::name()),
            args: Card::args(),
            render: RenderKind::Card,
        },
    );
    sb.register_story(
        crate::registry::StoryRegistration {
            name: new_string(Input::name()),
            args: Input::args(),
            render: RenderKind::Input,
        },
    );
    sb.register_story(
        crate::registry::StoryRegistration {
            name: new_string(Alert::name()),
            args: Alert::args(),
            render: RenderKind::Alert,
        },
    );
    proof {
        assert(crate::registry::story_views(sb.stories@) =~= crate::registry::story_views(
            old(sb).stories@,
        ) + seq![
            spec_button_registration(),
            spec_card_registration(),
            spec_input_registration(),
            spec_alert_registration(),
        ]);
    }
}

/// Registers every selectable enum's option list, in a fixed order. Callers
/// run this before the first select render.
pub fn init_enums(sb: &mut crate::registry::Storybook)
    ensures
        final(sb).stories@ == old(sb).stories@,
        crate::registry::enum_views(final(sb).enums@) == crate::registry::enum_views(
            old(sb).enums@,
        ) + seq![
            crate::registry::EnumDescriptorV {
                ty_name: "AlertType"@,
                variants: seq!["Info"@, "Success"@, "Warning"@, "Error"@],
            },
            crate::registry::EnumDescriptorV {
                ty_name: "ButtonSize"@,
                variants: seq!["Small"@, "Medium"@, "Large"@],
            },
        ],
{
    sb.register_enum_options(AlertType::ty_name(), AlertType::options());
    sb.register_enum_options(ButtonSize::ty_name(), ButtonSize::options());
    proof {
        assert(crate::registry::enum_views(sb.enums@) =~= crate::registry::enum_views(
            old(sb).enums@,
        ) + seq![
            crate::registry::EnumDescriptorV {
                ty_name: "AlertType"@,
                variants: seq!["Info"@, "Success"@, "Warning"@, "Error"@],
            },
            crate::registry::EnumDescriptorV {
                ty_name: "ButtonSize"@,
                variants: seq!["Small"@, "Medium"@, "Large"@],
            },
        ]);
    }
}

} // verus!
