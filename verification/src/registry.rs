//! The runtime registry and the render dispatcher's argument resolution.
//!
//! A `Storybook` is an explicit context object created once at startup and
//! threaded through registration and dispatch calls. It holds two independent
//! append-only stores: component registrations by name and enum option lists
//! by type name. Component lookup returns the earliest registration of a
//! name; enum lookup returns the latest, so re-registering an enum replaces
//! its options, as a keyed map insert would.

use vstd::prelude::*;
use vstd::string::StringExecFns;

use crate::schema::ArgType;
use crate::schema::ArgTypeV;
use crate::strutil;
use crate::strutil::string_views;
use crate::value::spec_decode;
use crate::value::Value;
use crate::value::ValueV;

verus! {

/// Which component's render routine a registration dispatches to. The
/// component set is closed at build time, so a tagged variant suffices.
#[derive(Clone, Copy, PartialEq, Eq, Structural, Debug)]
pub enum RenderKind {
    Button,
    Card,
    Input,
    Alert,
}

/// One registered component: its unique name, its inferred argument schema,
/// and its render routine.
pub struct StoryRegistration {
    pub name: String,
    pub args: Vec<ArgType>,
    pub render: RenderKind,
}

/// Mathematical image of a `StoryRegistration`.
#[verifier::ext_equal]
pub ghost struct StoryRegistrationV {
    pub name: Seq<char>,
    pub args: Seq<ArgTypeV>,
    pub render: RenderKind,
}

pub open spec fn arg_views(args: Seq<ArgType>) -> Seq<ArgTypeV> {
    args.map_values(|a: ArgType| a@)
}

impl View for StoryRegistration {
    type V = StoryRegistrationV;

    open spec fn view(&self) -> StoryRegistrationV {
        StoryRegistrationV { name: self.name@, args: arg_views(self.args@), render: self.render }
    }
}

/// One registered enum: its type name and its ordered variant names.
pub struct EnumDescriptor {
    pub ty_name: String,
    pub variants: Vec<String>,
}

/// Mathematical image of an `EnumDescriptor`.
#[verifier::ext_equal]
pub ghost struct EnumDescriptorV {
    pub ty_name: Seq<char>,
    pub variants: Seq<Seq<char>>,
}

impl View for EnumDescriptor {
    type V = EnumDescriptorV;

    open spec fn view(&self) -> EnumDescriptorV {
        EnumDescriptorV { ty_name: self.ty_name@, variants: string_views(self.variants@) }
    }
}

pub open spec fn story_views(ss: Seq<StoryRegistration>) -> Seq<StoryRegistrationV> {
    ss.map_values(|s: StoryRegistration| s@)
}

pub open spec fn enum_views(es: Seq<EnumDescriptor>) -> Seq<EnumDescriptorV> {
    es.map_values(|e: EnumDescriptor| e@)
}

/// The options registered under a type name: the latest registration wins,
/// `None` before any registration of that name.
pub open spec fn enum_lookup(es: Seq<EnumDescriptorV>, name: Seq<char>) -> Option<Seq<Seq<char>>>
    decreases es.len(),
{
    if es.len() == 0 {
        None
    } else if es.last().ty_name == name {
        Some(es.last().variants)
    } else {
        enum_lookup(es.drop_last(), name)
    }
}

/// The earliest registration of a component name, `None` when the name was
/// never registered.
pub open spec fn story_lookup(ss: Seq<StoryRegistrationV>, name: Seq<char>) -> Option<
    StoryRegistrationV,
>
    decreases ss.len(),
{
    if ss.len() == 0 {
        None
    } else if ss[0].name == name {
        Some(ss[0])
    } else {
        story_lookup(ss.subrange(1, ss.len() as int), name)
    }
}

proof fn lemma_story_lookup_match(ss: Seq<StoryRegistrationV>, name: Seq<char>, i: int)
    requires
        0 <= i < ss.len(),
        ss[i].name == name,
        forall|k: int| 0 <= k < i ==> ss[k].name != name,
    ensures
        story_lookup(ss, name) == Some(ss[i]),
    decreases i,
{
    if i > 0 {
        lemma_story_lookup_match(ss.subrange(1, ss.len() as int), name, i - 1);
    }
}

proof fn lemma_story_lookup_none(ss: Seq<StoryRegistrationV>, name: Seq<char>)
    requires
        forall|k: int| 0 <= k < ss.len() ==> ss[k].name != name,
    ensures
        story_lookup(ss, name) is None,
    decreases ss.len(),
{
    if ss.len() > 0 {
        lemma_story_lookup_none(ss.subrange(1, ss.len() as int), name);
    }
}

/// The two registries, populated once at startup and read afterwards.
pub struct Storybook {
    pub stories: Vec<StoryRegistration>,
    pub enums: Vec<EnumDescriptor>,
}

impl Storybook {
    /// A context with nothing registered.
    pub fn new() -> (r: Storybook)
        ensures
            r.stories@.len() == 0,
            r.enums@.len() == 0,
    {
        Storybook { stories: Vec::new(), enums: Vec::new() }
    }

    /// Registers a component. Registration appends unconditionally; on a
    /// repeated name the earliest registration keeps serving lookups.
    pub fn register_story(&mut self, registration: StoryRegistration)
        ensures
            story_views(final(self).stories@) == story_views(old(self).stories@).push(
                registration@,
            ),
            final(self).enums@ == old(self).enums@,
    {
        self.stories.push(registration);
        proof {
            assert(story_views(self.stories@) =~= story_views(old(self).stories@).push(
                self.stories@.last()@,
            ));
        }
    }

    /// Registers an enum's ordered option list under its type name,
    /// replacing any options registered under that name before.
    pub fn register_enum_options(&mut self, ty_name: &str, options: Vec<String>)
        ensures
            enum_views(final(self).enums@) == enum_views(old(self).enums@).push(
                EnumDescriptorV { ty_name: ty_name@, variants: string_views(options@) },
            ),
            final(self).stories@ == old(self).stories@,
    {
        self.enums.push(EnumDescriptor { ty_name: ty_name.to_owned(), variants: options });
        proof {
            assert(enum_views(self.enums@) =~= enum_views(old(self).enums@).push(
                self.enums@.last()@,
            ));
        }
    }

    /// The options registered for a type name, or `None` — the null
    /// sentinel — when the enum has not registered yet.
    pub fn get_enum_options(&self, ty_name: &str) -> (r: Option<Vec<String>>)
        ensures
            match r {
                Some(v) => enum_lookup(enum_views(self.enums@), ty_name@) == Some(
                    string_views(v@),
                ),
                None => enum_lookup(enum_views(self.enums@), ty_name@) is None,
            },
    {
        let n = self.enums.len();
        let mut i: usize = n;
        proof {
            assert(enum_views(self.enums@).take(n as int) =~= enum_views(self.enums@));
        }
        while i > 0
            invariant
                n == self.enums@.len(),
                0 <= i <= n,
                enum_lookup(enum_views(self.enums@), ty_name@) == enum_lookup(
                    enum_views(self.enums@).take(i as int),
                    ty_name@,
                ),
            decreases i,
        {
            proof {
                assert(enum_views(self.enums@).take(i as int).drop_last() =~= enum_views(
                    self.enums@,
                ).take(i - 1));
                assert(enum_views(self.enums@).take(i as int).last() == self.enums@[i - 1]@);
            }
            if strutil::str_eq(self.enums[i - 1].ty_name.as_str(), ty_name) {
                return Some(strutil::clone_string_vec(&self.enums[i - 1].variants));
            }
            i -= 1;
        }
        None
    }
}

/// Law: an enum registration is immediately visible, and leaves every other
/// type name's options untouched. Before any registration, every query gives
/// the null sentinel.
pub proof fn lemma_enum_registration(
    es: Seq<EnumDescriptorV>,
    ty_name: Seq<char>,
    options: Seq<Seq<char>>,
    other: Seq<char>,
)
    ensures
        enum_lookup(
            es.push(EnumDescriptorV { ty_name, variants: options }),
            ty_name,
        ) == Some(options),
        other != ty_name ==> enum_lookup(
            es.push(EnumDescriptorV { ty_name, variants: options }),
            other,
        ) == enum_lookup(es, other),
        enum_lookup(Seq::<EnumDescriptorV>::empty(), other) is None,
{
    let es2 = es.push(EnumDescriptorV { ty_name, variants: options });
    assert(es2.drop_last() =~= es);
}

/// A payload or a resolved argument object: named untyped values, earliest
/// entry of a name authoritative.
pub open spec fn payload_views(p: Seq<(String, Value)>) -> Seq<(Seq<char>, ValueV)> {
    p.map_values(|e: (String, Value)| (e.0@, e.1@))
}

/// The value under a name, `None` when the name is absent.
pub open spec fn payload_lookup(p: Seq<(Seq<char>, ValueV)>, name: Seq<char>) -> Option<ValueV>
    decreases p.len(),
{
    if p.len() == 0 {
        None
    } else if p[0].0 == name {
        Some(p[0].1)
    } else {
        payload_lookup(p.subrange(1, p.len() as int), name)
    }
}

proof fn lemma_payload_lookup_match(p: Seq<(Seq<char>, ValueV)>, name: Seq<char>, i: int)
    requires
        0 <= i < p.len(),
        p[i].0 == name,
        forall|k: int| 0 <= k < i ==> p[k].0 != name,
    ensures
        payload_lookup(p, name) == Some(p[i].1),
    decreases i,
{
    if i > 0 {
        lemma_payload_lookup_match(p.subrange(1, p.len() as int), name, i - 1);
    }
}

proof fn lemma_payload_lookup_none(p: Seq<(Seq<char>, ValueV)>, name: Seq<char>)
    requires
        forall|k: int| 0 <= k < p.len() ==> p[k].0 != name,
    ensures
        payload_lookup(p, name) is None,
    decreases p.len(),
{
    if p.len() > 0 {
        lemma_payload_lookup_none(p.subrange(1, p.len() as int), name);
    }
}

/// Finds the earliest payload entry under a name.
pub fn payload_get(payload: &Vec<(String, Value)>, name: &str) -> (r: Option<Value>)
    ensures
        match r {
            Some(v) => payload_lookup(payload_views(payload@), name@) == Some(v@),
            None => payload_lookup(payload_views(payload@), name@) is None,
        },
{
    let n = payload.len();
    let mut i: usize = 0;
    while i < n
        invariant
            n == payload@.len(),
            0 <= i <= n,
            forall|k: int| 0 <= k < i ==> payload_views(payload@)[k].0 != name@,
        decreases n - i,
    {
        if strutil::str_eq(payload[i].0.as_str(), name) {
            let v = payload[i].1.dup();
            proof {
                lemma_payload_lookup_match(payload_views(payload@), name@, i as int);
            }
            return Some(v);
        }
        i += 1;
    }
    proof {
        lemma_payload_lookup_none(payload_views(payload@), name@);
    }
    None
}

/// Whether a present payload value has the shape the control kind expects.
pub open spec fn control_accepts(c: crate::schema::ControlType, v: ValueV) -> bool {
    match c {
        crate::schema::ControlType::Boolean => v is Bool,
        crate::schema::ControlType::Number => v is Int,
        crate::schema::ControlType::Text => v is Str,
        crate::schema::ControlType::Color => v is Str,
        crate::schema::ControlType::Select => v is Str,
    }
}

/// How one argument resolves against a payload: a present well-shaped value
/// is taken as it stands; an absent or null entry falls back to the decoded
/// default; a present value of the wrong shape fails with the field's name.
pub open spec fn spec_resolve_one(a: ArgTypeV, p: Seq<(Seq<char>, ValueV)>) -> Result<
    ValueV,
    Seq<char>,
> {
    match payload_lookup(p, a.name) {
        Some(v) => if v is Null {
            Ok(spec_decode(a.default_value))
        } else if control_accepts(a.control, v) {
            Ok(v)
        } else {
            Err(a.name)
        },
        None => Ok(spec_decode(a.default_value)),
    }
}

/// How a whole schema resolves against a payload: each argument in schema
/// order; the earliest ill-shaped field fails the whole resolution; payload
/// entries under no schema name are ignored.
pub open spec fn spec_resolve(args: Seq<ArgTypeV>, p: Seq<(Seq<char>, ValueV)>) -> Result<
    Seq<(Seq<char>, ValueV)>,
    Seq<char>,
>
    decreases args.len(),
{
    if args.len() == 0 {
        Ok(Seq::empty())
    } else {
        match spec_resolve(args.drop_last(), p) {
            Ok(s) => match spec_resolve_one(args.last(), p) {
                Ok(v) => Ok(s.push((args.last().name, v))),
                Err(e) => Err(e),
            },
            Err(e) => Err(e),
        }
    }
}

proof fn lemma_resolve_err_propagates(
    args: Seq<ArgTypeV>,
    p: Seq<(Seq<char>, ValueV)>,
    i: int,
    e: Seq<char>,
)
    requires
        0 <= i < args.len(),
        spec_resolve(args.take(i), p) is Ok,
        spec_resolve_one(args[i], p) == Err::<ValueV, Seq<char>>(e),
    ensures
        spec_resolve(args, p) == Err::<Seq<(Seq<char>, ValueV)>, Seq<char>>(e),
    decreases args.len(),
{
    if i == args.len() - 1 {
        assert(args.drop_last() =~= args.take(i));
    } else {
        assert(args.drop_last().take(i) =~= args.take(i));
        lemma_resolve_err_propagates(args.drop_last(), p, i, e);
    }
}

/// Resolves a payload against a schema under the defaulting rules: missing
/// or null entries become the argument's decoded default, unknown payload
/// keys are ignored, and a present value of the wrong shape fails with that
/// field's name.
pub fn resolve_args(args: &Vec<ArgType>, payload: &Vec<(String, Value)>) -> (r: Result<
    Vec<(String, Value)>,
    String,
>)
    ensures
        match spec_resolve(arg_views(args@), payload_views(payload@)) {
            Ok(s) => r matches Ok(v) && payload_views(v@) == s,
            Err(e) => r matches Err(m) && m@ == e,
        },
{
    let mut out: Vec<(String, Value)> = Vec::new();
    let n = args.len();
    let mut i: usize = 0;
    proof {
        assert(payload_views(out@) =~= Seq::<(Seq<char>, ValueV)>::empty());
        assert(arg_views(args@).take(0) =~= Seq::<ArgTypeV>::empty());
    }
    while i < n
        invariant
            n == args@.len(),
            0 <= i <= n,
            spec_resolve(arg_views(args@).take(i as int), payload_views(payload@)) == Ok::<
                _,
                Seq<char>,
            >(payload_views(out@)),
        decreases n - i,
    {
        let a = &args[i];
        proof {
            assert(arg_views(args@).take(i + 1).drop_last() =~= arg_views(args@).take(i as int));
            assert(arg_views(args@).take(i + 1).last() == args@[i as int]@);
        }
        let resolved = match payload_get(payload, a.name.as_str()) {
            Some(v) => {
                let is_null = match &v {
                    Value::Null => true,
                    _ => false,
                };
                if is_null {
                    crate::value::decode_default(a.default_value.as_str())
                } else {
                    let ok = match (&a.control, &v) {
                        (crate::schema::ControlType::Boolean, Value::Bool(_)) => true,
                        (crate::schema::ControlType::Number, Value::Int(_)) => true,
                        (crate::schema::ControlType::Text, Value::Str(_)) => true,
                        (crate::schema::ControlType::Color, Value::Str(_)) => true,
                        (crate::schema::ControlType::Select, Value::Str(_)) => true,
                        _ => false,
                    };
                    if ok {
                        v
                    } else {
                        proof {
                            assert(spec_resolve_one(
                                arg_views(args@)[i as int],
                                payload_views(payload@),
                            ) == Err::<ValueV, Seq<char>>(a.name@));
                            lemma_resolve_err_propagates(
                                arg_views(args@),
                                payload_views(payload@),
                                i as int,
                                a.name@,
                            );
                        }
                        return Err(a.name.clone());
                    }
                }
            },
            None => crate::value::decode_default(a.default_value.as_str()),
        };
        let ghost prev_out = out@;
        let ghost rv = resolved@;
        out.push((a.name.clone(), resolved));
        proof {
            assert(payload_views(out@) =~= payload_views(prev_out).push((a.name@, rv)));
        }
        i += 1;
    }
    proof {
        assert(arg_views(args@).take(n as int) =~= arg_views(args@));
    }
    Ok(out)
}

/// No two schema arguments share a name.
pub open spec fn distinct_names(args: Seq<ArgTypeV>) -> bool {
    forall|i: int, j: int| 0 <= i < j < args.len() ==> args[i].name != args[j].name
}

/// An argument's decoded default fits its own control kind (or is the null
/// sentinel). Every schema the inferencer builds from a sensible declaration
/// has this shape.
pub open spec fn wf_default(a: ArgTypeV) -> bool {
    spec_decode(a.default_value) is Null || control_accepts(a.control, spec_decode(a.default_value))
}

/// The default entries for the schema arguments a payload leaves out, in
/// schema order.
pub open spec fn default_entries(args: Seq<ArgTypeV>, p: Seq<(Seq<char>, ValueV)>) -> Seq<
    (Seq<char>, ValueV),
>
    decreases args.len(),
{
    if args.len() == 0 {
        Seq::empty()
    } else {
        default_entries(args.drop_last(), p) + (
        if payload_lookup(p, args.last().name) is None {
            seq![(args.last().name, spec_decode(args.last().default_value))]
        } else {
            Seq::empty()
        })
    }
}

proof fn lemma_payload_lookup_concat(
    p: Seq<(Seq<char>, ValueV)>,
    q: Seq<(Seq<char>, ValueV)>,
    name: Seq<char>,
)
    ensures
        payload_lookup(p + q, name) == (match payload_lookup(p, name) {
            Some(v) => Some(v),
            None => payload_lookup(q, name),
        }),
    decreases p.len(),
{
    if p.len() == 0 {
        assert(p + q =~= q);
    } else {
        assert((p + q)[0] == p[0]);
        assert((p + q).subrange(1, (p + q).len() as int) =~= p.subrange(1, p.len() as int) + q);
        lemma_payload_lookup_concat(p.subrange(1, p.len() as int), q, name);
    }
}

proof fn lemma_payload_lookup_singleton(e: (Seq<char>, ValueV), name: Seq<char>)
    ensures
        payload_lookup(seq![e], name) == (if e.0 == name {
            Some(e.1)
        } else {
            None
        }),
{
    let s = seq![e];
    assert(s.len() == 1);
    assert(s[0] == e);
    assert(s.subrange(1, 1) =~= Seq::<(Seq<char>, ValueV)>::empty());
    assert(payload_lookup(s.subrange(1, 1), name) is None);
}

proof fn lemma_default_entries_absent(
    args: Seq<ArgTypeV>,
    p: Seq<(Seq<char>, ValueV)>,
    name: Seq<char>,
)
    requires
        forall|j: int| 0 <= j < args.len() ==> args[j].name != name,
    ensures
        payload_lookup(default_entries(args, p), name) is None,
    decreases args.len(),
{
    if args.len() > 0 {
        lemma_default_entries_absent(args.drop_last(), p, name);
        let tail = if payload_lookup(p, args.last().name) is None {
            seq![(args.last().name, spec_decode(args.last().default_value))]
        } else {
            Seq::<(Seq<char>, ValueV)>::empty()
        };
        lemma_payload_lookup_concat(default_entries(args.drop_last(), p), tail, name);
        if payload_lookup(p, args.last().name) is None {
            lemma_payload_lookup_singleton(
                (args.last().name, spec_decode(args.last().default_value)),
                name,
            );
        }
    }
}

proof fn lemma_default_entries_lookup(args: Seq<ArgTypeV>, p: Seq<(Seq<char>, ValueV)>, i: int)
    requires
        0 <= i < args.len(),
        distinct_names(args),
    ensures
        payload_lookup(default_entries(args, p), args[i].name) == (if payload_lookup(
            p,
            args[i].name,
        ) is None {
            Some(spec_decode(args[i].default_value))
        } else {
            None
        }),
    decreases args.len(),
{
    let tail = if payload_lookup(p, args.last().name) is None {
        seq![(args.last().name, spec_decode(args.last().default_value))]
    } else {
        Seq::<(Seq<char>, ValueV)>::empty()
    };
    lemma_payload_lookup_concat(default_entries(args.drop_last(), p), tail, args[i].name);
    if payload_lookup(p, args.last().name) is None {
        lemma_payload_lookup_singleton(
            (args.last().name, spec_decode(args.last().default_value)),
            args[i].name,
        );
    }
    if i < args.len() - 1 {
        assert(distinct_names(args.drop_last()));
        lemma_default_entries_lookup(args.drop_last(), p, i);
        assert(args.last().name != args[i].name);
    } else {
        assert(forall|j: int|
            0 <= j < args.drop_last().len() ==> args.drop_last()[j].name != args[i].name);
        lemma_default_entries_absent(args.drop_last(), p, args[i].name);
    }
}

proof fn lemma_resolve_one_extended(args: Seq<ArgTypeV>, p: Seq<(Seq<char>, ValueV)>, i: int)
    requires
        0 <= i < args.len(),
        distinct_names(args),
        wf_default(args[i]),
    ensures
        spec_resolve_one(args[i], p + default_entries(args, p)) == spec_resolve_one(args[i], p),
{
    lemma_payload_lookup_concat(p, default_entries(args, p), args[i].name);
    lemma_default_entries_lookup(args, p, i);
}

proof fn lemma_resolve_prefix(whole: Seq<ArgTypeV>, p: Seq<(Seq<char>, ValueV)>, m: int)
    requires
        0 <= m <= whole.len(),
        distinct_names(whole),
        forall|j: int| 0 <= j < whole.len() ==> wf_default(#[trigger] whole[j]),
    ensures
        spec_resolve(whole.take(m), p + default_entries(whole, p)) == spec_resolve(
            whole.take(m),
            p,
        ),
    decreases m,
{
    if m > 0 {
        lemma_resolve_prefix(whole, p, m - 1);
        assert(whole.take(m).drop_last() =~= whole.take(m - 1));
        assert(whole.take(m).last() == whole[m - 1]);
        lemma_resolve_one_extended(whole, p, m - 1);
    }
}

/// Law: a payload holding only a subset of a component's fields resolves to
/// the same argument object as that payload with every omitted field set
/// explicitly to its decoded default value — provided the schema's field
/// names are distinct and each default decodes to the null sentinel or to a
/// value of the field's own shape.
pub proof fn lemma_subset_payload_same_as_defaults(
    args: Seq<ArgTypeV>,
    p: Seq<(Seq<char>, ValueV)>,
)
    requires
        distinct_names(args),
        forall|j: int| 0 <= j < args.len() ==> wf_default(#[trigger] args[j]),
    ensures
        spec_resolve(args, p + default_entries(args, p)) == spec_resolve(args, p),
{
    lemma_resolve_prefix(args, p, args.len() as int);
    assert(args.take(args.len() as int) =~= args);
}

/// How a render request fails: an unregistered component name, or a payload
/// field that could not be read, carrying the offending name.
#[derive(Debug)]
pub enum RenderError {
    NotFound(String),
    Deser(String),
}

/// Mathematical image of a `RenderError`.
pub ghost enum RenderErrorV {
    NotFound(Seq<char>),
    Deser(Seq<char>),
}

impl View for RenderError {
    type V = RenderErrorV;

    open spec fn view(&self) -> RenderErrorV {
        match self {
            RenderError::NotFound(n) => RenderErrorV::NotFound(n@),
            RenderError::Deser(n) => RenderErrorV::Deser(n@),
        }
    }
}

impl Storybook {
    /// Finds the earliest registration of a component name.
    fn find_story(&self, name: &str) -> (r: Option<usize>)
        ensures
            match r {
                Some(i) => i < self.stories@.len() && story_lookup(
                    story_views(self.stories@),
                    name@,
                ) == Some(self.stories@[i as int]@),
                None => story_lookup(story_views(self.stories@), name@) is None,
            },
    {
        let n = self.stories.len();
        let mut i: usize = 0;
        while i < n
            invariant
                n == self.stories@.len(),
                0 <= i <= n,
                forall|k: int| 0 <= k < i ==> story_views(self.stories@)[k].name != name@,
            decreases n - i,
        {
            if strutil::str_eq(self.stories[i].name.as_str(), name) {
                proof {
                    lemma_story_lookup_match(story_views(self.stories@), name@, i as int);
                }
                return Some(i);
            }
            i += 1;
        }
        proof {
            lemma_story_lookup_none(story_views(self.stories@), name@);
        }
        None
    }

    /// Resolves the named component's argument object from a payload under
    /// the defaulting rules: an unknown name fails with `NotFound`; a
    /// present payload value of the wrong shape fails with `Deser` naming
    /// the field; missing and null entries become the field's default.
    pub fn resolve_story_args(&self, name: &str, payload: &Vec<(String, Value)>) -> (r: Result<
        Vec<(String, Value)>,
        RenderError,
    >)
        ensures
            match story_lookup(story_views(self.stories@), name@) {
                None => r matches Err(e) && e@ == RenderErrorV::NotFound(name@),
                Some(s) => match spec_resolve(s.args, payload_views(payload@)) {
                    Ok(obj) => r matches Ok(v) && payload_views(v@) == obj,
                    Err(f) => r matches Err(e) && e@ == RenderErrorV::Deser(f),
                },
            },
    {
        match self.find_story(name) {
            None => Err(RenderError::NotFound(strutil::new_string(name))),
            Some(i) => match resolve_args(&self.stories[i].args, payload) {
                Ok(v) => Ok(v),
                Err(f) => Err(RenderError::Deser(f)),
            },
        }
    }

    /// Renders a component by name: resolves the payload into the
    /// component's argument object, then dispatches to its render routine,
    /// yielding the UI tree for the external browser bridge. An unknown
    /// name fails with `NotFound` and yields no tree.
    pub fn render_story(&self, name: &str, payload: &Vec<(String, Value)>) -> (r: Result<
        crate::vnode::VNode,
        RenderError,
    >)
        ensures
            match story_lookup(story_views(self.stories@), name@) {
                None => r matches Err(e) && e@ == RenderErrorV::NotFound(name@),
                Some(s) => match spec_resolve(s.args, payload_views(payload@)) {
                    Err(f) => r matches Err(e) && e@ == RenderErrorV::Deser(f),
                    Ok(obj) => match crate::components::spec_render_kind(s.render, obj) {
                        Ok(nv) => r matches Ok(n) && crate::vnode::vnode_view(n) == nv,
                        Err(f) => r matches Err(e) && e@ == RenderErrorV::Deser(f),
                    },
                },
            },
    {
        let i = match self.find_story(name) {
            Some(i) => i,
            None => {
                return Err(RenderError::NotFound(strutil::new_string(name)));
            },
        };
        let resolved = match resolve_args(&self.stories[i].args, payload) {
            Ok(v) => v,
            Err(f) => {
                return Err(RenderError::Deser(f));
            },
        };
        match crate::components::render_kind(self.stories[i].render, &resolved) {
            Ok(n) => Ok(n),
            Err(f) => Err(RenderError::Deser(f)),
        }
    }
}

/// A schema record with its select options filled in from the enum store.
pub open spec fn spec_with_options(a: ArgTypeV, es: Seq<EnumDescriptorV>) -> ArgTypeV {
    ArgTypeV {
        options: match a.select_ty {
            Some(t) => enum_lookup(es, t),
            None => None,
        },
        ..a
    }
}

/// A registration as the preview surface reports it: its schema with every
/// select argument's options resolved against the enum store at query time.
pub open spec fn spec_story_info(s: StoryRegistrationV, es: Seq<EnumDescriptorV>) -> StoryRegistrationV {
    StoryRegistrationV {
        name: s.name,
        args: s.args.map_values(|a: ArgTypeV| spec_with_options(a, es)),
        render: s.render,
    }
}

/// Law: when a schema record is reported, a select argument's options are
/// exactly what the enum store holds under the argument's lookup key —
/// non-null once the owning enum has registered, null before — and an
/// argument without a lookup key never carries options.
pub proof fn lemma_reported_options_follow_registration(a: ArgTypeV, es: Seq<EnumDescriptorV>)
    ensures
        (match a.select_ty {
            Some(t) => spec_with_options(a, es).options == enum_lookup(es, t),
            None => spec_with_options(a, es).options is None,
        }),
{
}

impl Storybook {
    /// Reports every registered component with its schema, select options
    /// resolved against the enum store as it stands now: non-null once the
    /// owning enum has registered, null before.
    pub fn get_stories(&self) -> (r: Vec<StoryRegistration>)
        ensures
            r@.len() == self.stories@.len(),
            forall|i: int|
                0 <= i < r@.len() ==> r@[i]@ == spec_story_info(
                    self.stories@[i]@,
                    enum_views(self.enums@),
                ),
    {
        let mut r: Vec<StoryRegistration> = Vec::new();
        let n = self.stories.len();
        let mut i: usize = 0;
        while i < n
            invariant
                n == self.stories@.len(),
                0 <= i <= n,
                r@.len() == i,
                forall|k: int|
                    0 <= k < i ==> r@[k]@ == spec_story_info(
                        self.stories@[k]@,
                        enum_views(self.enums@),
                    ),
            decreases n - i,
        {
            let s = &self.stories[i];
            let mut args: Vec<ArgType> = Vec::new();
            let m = s.args.len();
            let mut j: usize = 0;
            while j < m
                invariant
                    m == s.args@.len(),
                    0 <= j <= m,
                    args@.len() == j,
                    forall|k: int|
                        0 <= k < j ==> args@[k]@ == spec_with_options(
                            s.args@[k]@,
                            enum_views(self.enums@),
                        ),
                decreases m - j,
            {
                let a = &s.args[j];
                let options: Option<Vec<String>> = match &a.select_ty {
                    Some(t) => self.get_enum_options(t.as_str()),
                    None => None,
                };
                let select_ty: Option<String> = match &a.select_ty {
                    Some(t) => Some(t.clone()),
                    None => None,
                };
                args.push(
                    ArgType {
                        name: a.name.clone(),
                        control: a.control,
                        default_value: a.default_value.clone(),
                        required: a.required,
                        select_ty,
                        options,
                    },
                );
                proof {
                    assert(args@.last()@ =~~= spec_with_options(
                        s.args@[j as int]@,
                        enum_views(self.enums@),
                    ));
                }
                j += 1;
            }
            r.push(StoryRegistration { name: s.name.clone(), args, render: s.render });
            proof {
                assert(r@.last()@ =~~= spec_story_info(
                    self.stories@[i as int]@,
                    enum_views(self.enums@),
                ));
            }
            i += 1;
        }
        r
    }

    /// Exports every registered component in the preview tool's story
    /// format: the same records `get_stories` reports.
    pub fn export_stories_csf(&self) -> (r: Vec<StoryRegistration>)
        ensures
            r@.len() == self.stories@.len(),
            forall|i: int|
                0 <= i < r@.len() ==> r@[i]@ == spec_story_info(
                    self.stories@[i]@,
                    enum_views(self.enums@),
                ),
    {
        self.get_stories()
    }
}

} // verus!
