//! Schema inference: combines the extracted attributes of a field with its
//! declared type to resolve control kind, string-encoded default value,
//! required flag, and (for selectable fields) the option-lookup key.

use vstd::prelude::*;
use vstd::string::StrSliceExecFns;
use vstd::string::StringExecFns;

use crate::attrs;
use crate::attrs::AttrsV;
use crate::attrs::FieldDecl;
use crate::lorem;
use crate::strutil;
use crate::strutil::spec_contains;
use crate::strutil::spec_remove_spaces;
use crate::strutil::spec_starts_with;

verus! {

/// The input-widget category a preview tool offers for an argument.
#[derive(Clone, Copy, PartialEq, Eq, Structural, Debug)]
pub enum ControlType {
    Text,
    Select,
    Color,
    Boolean,
    Number,
}

/// The inferred, render-agnostic description of one argument.
pub struct ArgType {
    pub name: String,
    pub control: ControlType,
    pub default_value: String,
    pub required: bool,
    pub select_ty: Option<String>,
    pub options: Option<Vec<String>>,
}

/// Mathematical image of an `ArgType`.
#[verifier::ext_equal]
pub ghost struct ArgTypeV {
    pub name: Seq<char>,
    pub control: ControlType,
    pub default_value: Seq<char>,
    pub required: bool,
    pub select_ty: Option<Seq<char>>,
    pub options: Option<Seq<Seq<char>>>,
}

impl View for ArgType {
    type V = ArgTypeV;

    open spec fn view(&self) -> ArgTypeV {
        ArgTypeV {
            name: self.name@,
            control: self.control,
            default_value: self.default_value@,
            required: self.required,
            select_ty: match self.select_ty {
                Some(t) => Some(t@),
                None => None,
            },
            options: match self.options {
                Some(o) => Some(o@.map_values(|s: String| s@)),
                None => None,
            },
        }
    }
}

/// A type name counts as numeric when it holds one of these tokens.
pub open spec fn has_numeric_token(t: Seq<char>) -> bool {
    spec_contains(t, "i32"@) || spec_contains(t, "f32"@) || spec_contains(t, "u32"@)
        || spec_contains(t, "f64"@) || spec_contains(t, "usize"@)
}

/// Control kind detected from a type name alone: boolean tokens are checked
/// before the numeric token list; the fallback is text.
pub open spec fn spec_auto_control(t: Seq<char>) -> ControlType {
    if spec_contains(t, "bool"@) {
        ControlType::Boolean
    } else if has_numeric_token(t) {
        ControlType::Number
    } else {
        ControlType::Text
    }
}

/// The declared type is the nullable wrapper form.
pub open spec fn spec_is_optional(ty: Seq<char>) -> bool {
    spec_starts_with(ty, "Option<"@)
}

/// Control-kind resolution: an explicit override maps through the fixed table
/// (`color`, `select`, anything else text); otherwise auto-detection inspects
/// the source-type override when present, else the declared type.
pub open spec fn spec_control_of(a: AttrsV, ty: Seq<char>) -> ControlType {
    match a.control {
        Some(c) => if c == "color"@ {
            ControlType::Color
        } else if c == "select"@ {
            ControlType::Select
        } else {
            ControlType::Text
        },
        None => spec_auto_control(
            match a.from_ty {
                Some(t) => t,
                None => ty,
            },
        ),
    }
}

/// The type-appropriate zero value, string-encoded: the null sentinel for a
/// select, empty text for string-like types, `false` for booleans, `0` for
/// numerics, and the undefined sentinel for anything unrecognized.
pub open spec fn spec_zero_default(control: ControlType, ty: Seq<char>) -> Seq<char> {
    if control is Select {
        "null"@
    } else if spec_contains(ty, "String"@) {
        "''"@
    } else if spec_contains(ty, "bool"@) {
        "false"@
    } else if has_numeric_token(ty) {
        "0"@
    } else {
        "undefined"@
    }
}

/// Default-value resolution: the explicit literal when present; else, with a
/// lorem hint, a quoted placeholder text of that many words; else the
/// type-appropriate zero value.
pub open spec fn spec_default_of(a: AttrsV, control: ControlType, ty: Seq<char>) -> Seq<char> {
    match a.default_value {
        Some(d) => d,
        None => match a.lorem_count {
            Some(n) => "'"@ + lorem::spec_lorem(n as nat) + "'"@,
            None => spec_zero_default(control, ty),
        },
    }
}

/// The full schema record one field declaration resolves to.
pub open spec fn spec_arg_type(f: attrs::FieldDeclV) -> ArgTypeV {
    let a = attrs::spec_extract(f.clauses);
    let control = spec_control_of(a, f.ty);
    ArgTypeV {
        name: f.name,
        control,
        default_value: spec_default_of(a, control, f.ty),
        required: !spec_is_optional(f.ty),
        select_ty: if control is Select {
            Some(spec_remove_spaces(f.ty))
        } else {
            None
        },
        options: None,
    }
}

/// Auto-detects the control kind from a type name.
fn auto_control(t: &str) -> (r: ControlType)
    ensures
        r == spec_auto_control(t@),
{
    if strutil::contains_sub(t, "bool") {
        ControlType::Boolean
    } else if strutil::contains_sub(t, "i32") || strutil::contains_sub(t, "f32")
        || strutil::contains_sub(t, "u32") || strutil::contains_sub(t, "f64")
        || strutil::contains_sub(t, "usize") {
        ControlType::Number
    } else {
        ControlType::Text
    }
}

/// Resolves one field declaration to its schema record.
pub fn build_arg_type(field: &FieldDecl) -> (r: ArgType)
    ensures
        r@ == spec_arg_type(field@),
{
    let a = attrs::get_story_attrs(field);
    let control = match &a.control {
        Some(c) => {
            if strutil::str_eq(c.as_str(), "color") {
                ControlType::Color
            } else if strutil::str_eq(c.as_str(), "select") {
                ControlType::Select
            } else {
                ControlType::Text
            }
        },
        None => {
            match &a.from_ty {
                Some(t) => auto_control(t.as_str()),
                None => auto_control(field.ty.as_str()),
            }
        },
    };
    let default_value = match &a.default_value {
        Some(d) => d.clone(),
        None => match a.lorem_count {
            Some(n) => {
                let text = lorem::generate_lorem_ipsum(n);
                let mut q = new_string("'");
                q.append(text.as_str());
                q.append("'");
                q
            },
            None => {
                let z = zero_default(control, field.ty.as_str());
                z
            },
        },
    };
    let required = !strutil::starts_with(field.ty.as_str(), "Option<");
    let select_ty = if matches_select(control) {
        Some(strutil::remove_spaces(field.ty.as_str()))
    } else {
        None
    };
    ArgType { name: field.name.clone(), control, default_value, required, select_ty, options: None }
}

/// A fresh `String` with the given content.
fn new_string(s: &str) -> (r: String)
    ensures
        r@ == s@,
{
    s.to_owned()
}

fn matches_select(c: ControlType) -> (r: bool)
    ensures
        r == (c is Select),
{
    match c {
        ControlType::Select => true,
        _ => false,
    }
}

/// The type-appropriate zero value for a field without default and lorem.
fn zero_default(control: ControlType, ty: &str) -> (r: String)
    ensures
        r@ == spec_zero_default(control, ty@),
{
    if matches_select(control) {
        new_string("null")
    } else if strutil::contains_sub(ty, "String") {
        new_string("''")
    } else if strutil::contains_sub(ty, "bool") {
        new_string("false")
    } else if strutil::contains_sub(ty, "i32") || strutil::contains_sub(ty, "f32")
        || strutil::contains_sub(ty, "u32") || strutil::contains_sub(ty, "f64")
        || strutil::contains_sub(ty, "usize") {
        new_string("0")
    } else {
        new_string("undefined")
    }
}

/// The shared inference routine: resolves every field of a component
/// declaration, in order.
pub fn build_arg_types(fields: &Vec<FieldDecl>) -> (r: Vec<ArgType>)
    ensures
        r@.len() == fields@.len(),
        forall|i: int| 0 <= i < fields@.len() ==> r@[i]@ == spec_arg_type(fields@[i]@),
{
    let mut r: Vec<ArgType> = Vec::new();
    let n = fields.len();
    let mut i: usize = 0;
    while i < n
        invariant
            n == fields@.len(),
            0 <= i <= n,
            r@.len() == i,
            forall|k: int| 0 <= k < i ==> r@[k]@ == spec_arg_type(fields@[k]@),
        decreases n - i,
    {
        let a = build_arg_type(&fields[i]);
        r.push(a);
        i += 1;
    }
    r
}

/// Law: with no explicit control override, a declared type holding a
/// boolean token infers the boolean control; holding a numeric token and no
/// boolean token, the number control; holding neither, text. An explicit
/// `color` override always resolves to the color control, whatever the type.
pub proof fn lemma_control_inference(a: AttrsV, ty: Seq<char>)
    ensures
        a.control is None && a.from_ty is None && spec_contains(ty, "bool"@) ==> spec_control_of(
            a,
            ty,
        ) == ControlType::Boolean,
        a.control is None && a.from_ty is None && !spec_contains(ty, "bool"@) && has_numeric_token(
            ty,
        ) ==> spec_control_of(a, ty) == ControlType::Number,
        a.control is None && a.from_ty is None && !spec_contains(ty, "bool"@)
            && !has_numeric_token(ty) ==> spec_control_of(a, ty) == ControlType::Text,
        a.control == Some("color"@) ==> spec_control_of(a, ty) == ControlType::Color,
{
}

/// Law: an inferred schema record carries an option-lookup key exactly when
/// its control kind is select, and carries no option list of its own: the
/// list is resolved against the enum store at query time, not at build time.
pub proof fn lemma_built_arg_select_key(f: attrs::FieldDeclV)
    ensures
        spec_arg_type(f).select_ty is Some <==> spec_arg_type(f).control is Select,
        spec_arg_type(f).options is None,
{
}

/// Law: a select field with no explicit default and no lorem hint resolves
/// its default to the null sentinel — never to the empty string.
pub proof fn lemma_select_default_sentinel(a: AttrsV, ty: Seq<char>)
    requires
        a.control == Some("select"@),
        a.default_value is None,
        a.lorem_count is None,
    ensures
        spec_default_of(a, spec_control_of(a, ty), ty) == "null"@,
        spec_default_of(a, spec_control_of(a, ty), ty) != ""@,
{
    reveal_strlit("select");
    reveal_strlit("color");
    reveal_strlit("null");
    reveal_strlit("");
    assert("select"@.len() == 6);
    assert("color"@.len() == 5);
    assert("null"@.len() == 4);
    assert(""@.len() == 0);
}

} // verus!
