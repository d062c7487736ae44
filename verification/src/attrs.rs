//! Attribute extraction: reads the recognized annotation vocabulary
//! (`control`, `default`, `from`, `lorem`) off one field declaration.
//!
//! Unknown keys are ignored; on a repeated key the last successfully parsed
//! occurrence wins; a malformed value for a recognized key degrades to
//! "key absent". A bare `lorem` key defaults its word count to 8.

use vstd::prelude::*;

use crate::strutil;
use crate::strutil::digits_val;
use crate::strutil::is_count_str;

verus! {

/// One annotation clause on a field: a key, optionally with a string value.
/// A clause whose value could not be read as a string is handed over with
/// `value` absent.
pub struct Clause {
    pub key: String,
    pub value: Option<String>,
}

/// Mathematical image of a `Clause`.
#[verifier::ext_equal]
pub ghost struct ClauseV {
    pub key: Seq<char>,
    pub value: Option<Seq<char>>,
}

impl View for Clause {
    type V = ClauseV;

    open spec fn view(&self) -> ClauseV {
        ClauseV {
            key: self.key@,
            value: match self.value {
                Some(v) => Some(v@),
                None => None,
            },
        }
    }
}

/// One field of a component declaration, as handed to the pipeline: its name,
/// the text of its declared type, and its annotation clauses.
pub struct FieldDecl {
    pub name: String,
    pub ty: String,
    pub clauses: Vec<Clause>,
}

pub open spec fn clause_views(cs: Seq<Clause>) -> Seq<ClauseV> {
    cs.map_values(|c: Clause| c@)
}

/// Mathematical image of a `FieldDecl`.
#[verifier::ext_equal]
pub ghost struct FieldDeclV {
    pub name: Seq<char>,
    pub ty: Seq<char>,
    pub clauses: Seq<ClauseV>,
}

impl View for FieldDecl {
    type V = FieldDeclV;

    open spec fn view(&self) -> FieldDeclV {
        FieldDeclV { name: self.name@, ty: self.ty@, clauses: clause_views(self.clauses@) }
    }
}

/// The views of a field-declaration sequence, elementwise.
pub open spec fn field_views(fs: Seq<FieldDecl>) -> Seq<FieldDeclV> {
    fs.map_values(|f: FieldDecl| f@)
}

/// The overrides successfully read off one field's annotation clauses.
pub struct StoryAttrs {
    pub control: Option<String>,
    pub default_value: Option<String>,
    pub from_ty: Option<String>,
    pub lorem_count: Option<usize>,
}

/// Mathematical image of a `StoryAttrs`.
#[verifier::ext_equal]
pub ghost struct AttrsV {
    pub control: Option<Seq<char>>,
    pub default_value: Option<Seq<char>>,
    pub from_ty: Option<Seq<char>>,
    pub lorem_count: Option<usize>,
}

impl View for StoryAttrs {
    type V = AttrsV;

    open spec fn view(&self) -> AttrsV {
        AttrsV {
            control: match self.control {
                Some(v) => Some(v@),
                None => None,
            },
            default_value: match self.default_value {
                Some(v) => Some(v@),
                None => None,
            },
            from_ty: match self.from_ty {
                Some(v) => Some(v@),
                None => None,
            },
            lorem_count: self.lorem_count,
        }
    }
}

/// No override present.
pub open spec fn empty_attrs() -> AttrsV {
    AttrsV { control: None, default_value: None, from_ty: None, lorem_count: None }
}

/// The effect of one clause on the overrides gathered so far.
pub open spec fn apply_clause(a: AttrsV, c: ClauseV) -> AttrsV {
    if c.key == "control"@ {
        match c.value {
            Some(v) => AttrsV { control: Some(v), ..a },
            None => a,
        }
    } else if c.key == "default"@ {
        match c.value {
            Some(v) => AttrsV { default_value: Some(v), ..a },
            None => a,
        }
    } else if c.key == "from"@ {
        match c.value {
            Some(v) => AttrsV { from_ty: Some(v), ..a },
            None => a,
        }
    } else if c.key == "lorem"@ {
        match c.value {
            None => AttrsV { lorem_count: Some(8), ..a },
            Some(v) => if is_count_str(v) && digits_val(v) <= usize::MAX {
                AttrsV { lorem_count: Some(digits_val(v) as usize), ..a }
            } else {
                a
            },
        }
    } else {
        a
    }
}

/// The overrides that a clause list resolves to, first clause applied first,
/// so that the last successfully parsed occurrence of a key wins.
pub open spec fn spec_extract(cs: Seq<ClauseV>) -> AttrsV
    decreases cs.len(),
{
    if cs.len() == 0 {
        empty_attrs()
    } else {
        apply_clause(spec_extract(cs.drop_last()), cs.last())
    }
}

/// Reads the recognized annotation keys off one field declaration.
pub fn get_story_attrs(field: &FieldDecl) -> (r: StoryAttrs)
    ensures
        r@ == spec_extract(clause_views(field.clauses@)),
{
    let mut r = StoryAttrs { control: None, default_value: None, from_ty: None, lorem_count: None };
    let n = field.clauses.len();
    let mut i: usize = 0;
    while i < n
        invariant
            n == field.clauses@.len(),
            0 <= i <= n,
            r@ == spec_extract(clause_views(field.clauses@).take(i as int)),
        decreases n - i,
    {
        let c = &field.clauses[i];
        proof {
            assert(clause_views(field.clauses@).take(i + 1).drop_last() =~= clause_views(
                field.clauses@,
            ).take(i as int));
            assert(clause_views(field.clauses@).take(i + 1).last() == field.clauses@[i as int]@);
        }
        if strutil::str_eq(c.key.as_str(), "control") {
            match &c.value {
                Some(v) => {
                    r.control = Some(v.clone());
                },
                None => {},
            }
        } else if strutil::str_eq(c.key.as_str(), "default") {
            match &c.value {
                Some(v) => {
                    r.default_value = Some(v.clone());
                },
                None => {},
            }
        } else if strutil::str_eq(c.key.as_str(), "from") {
            match &c.value {
                Some(v) => {
                    r.from_ty = Some(v.clone());
                },
                None => {},
            }
        } else if strutil::str_eq(c.key.as_str(), "lorem") {
            match &c.value {
                None => {
                    r.lorem_count = Some(8);
                },
                Some(v) => {
                    match strutil::parse_usize(v.as_str()) {
                        Some(count) => {
                            r.lorem_count = Some(count);
                        },
                        None => {},
                    }
                },
            }
        }
        i += 1;
    }
    proof {
        assert(clause_views(field.clauses@).take(n as int) =~= clause_views(field.clauses@));
    }
    r
}

} // verus!
