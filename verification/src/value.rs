//! Untyped argument values: the payload entries a render request carries and
//! the resolved argument objects the dispatcher produces, together with the
//! decoding of string-encoded default values.

use vstd::prelude::*;
use vstd::string::StrSliceExecFns;

use crate::strutil;
use crate::strutil::digits_val;
use crate::strutil::is_count_str;

verus! {

/// An untyped value: what a payload entry or a resolved argument holds.
#[derive(Debug)]
pub enum Value {
    Null,
    Bool(bool),
    Int(i64),
    Str(String),
}

/// Mathematical image of a `Value`.
pub ghost enum ValueV {
    Null,
    Bool(bool),
    Int(i64),
    Str(Seq<char>),
}

impl View for Value {
    type V = ValueV;

    open spec fn view(&self) -> ValueV {
        match self {
            Value::Null => ValueV::Null,
            Value::Bool(b) => ValueV::Bool(*b),
            Value::Int(i) => ValueV::Int(*i),
            Value::Str(s) => ValueV::Str(s@),
        }
    }
}

impl Value {
    /// A copy with the same mathematical value.
    pub fn dup(&self) -> (r: Value)
        ensures
            r@ == self@,
    {
        match self {
            Value::Null => Value::Null,
            Value::Bool(b) => Value::Bool(*b),
            Value::Int(i) => Value::Int(*i),
            Value::Str(s) => Value::Str(s.clone()),
        }
    }
}

impl PartialEq for Value {
    fn eq(&self, other: &Value) -> (r: bool) {
        match (self, other) {
            (Value::Null, Value::Null) => true,
            (Value::Bool(a), Value::Bool(b)) => *a == *b,
            (Value::Int(a), Value::Int(b)) => *a == *b,
            (Value::Str(a), Value::Str(b)) => strutil::str_eq(a.as_str(), b.as_str()),
            _ => false,
        }
    }
}

impl vstd::std_specs::cmp::PartialEqSpecImpl for Value {
    open spec fn obeys_eq_spec() -> bool {
        true
    }

    open spec fn eq_spec(&self, other: &Value) -> bool {
        self@ == other@
    }
}

/// A signed decimal integer string: digits, optionally preceded by a minus.
pub open spec fn is_int_str(s: Seq<char>) -> bool {
    is_count_str(s) || (s.len() >= 2 && s[0] == '-' && is_count_str(s.skip(1)))
}

/// The value of a signed decimal integer string.
pub open spec fn int_str_val(s: Seq<char>) -> int {
    if s.len() >= 1 && s[0] == '-' {
        -digits_val(s.skip(1))
    } else {
        digits_val(s)
    }
}

/// Parses a signed decimal integer; `None` on any other input or when the
/// value does not fit in `i64`.
pub fn parse_i64(s: &str) -> (r: Option<i64>)
    ensures
        r is Some <==> is_int_str(s@) && i64::MIN <= int_str_val(s@) <= i64::MAX,
        r matches Some(v) ==> v == int_str_val(s@),
{
    let n = s.unicode_len();
    if n >= 2 && s.get_char(0) == '-' {
        let rest = s.substring_char(1, n);
        match parse_mag(rest) {
            Some(mag) => {
                if mag <= 9223372036854775807u64 {
                    Some(-(mag as i64))
                } else if mag == 9223372036854775808u64 {
                    Some(i64::MIN)
                } else {
                    None
                }
            },
            None => None,
        }
    } else {
        match parse_mag(s) {
            Some(mag) => {
                proof {
                    if s@[0] == '-' {
                        assert(strutil::is_digit(s@[0]));
                        assert(('-') as u32 == 45);
                    }
                }
                if mag <= 9223372036854775807u64 {
                    Some(mag as i64)
                } else {
                    None
                }
            },
            None => None,
        }
    }
}

/// Parses a nonempty all-digit magnitude that fits in `u64`.
fn parse_mag(s: &str) -> (r: Option<u64>)
    ensures
        r is Some <==> is_count_str(s@) && digits_val(s@) <= u64::MAX,
        r matches Some(v) ==> v == digits_val(s@),
{
    let n = s.unicode_len();
    if n == 0 {
        return None;
    }
    let mut acc: u64 = 0;
    let mut i: usize = 0;
    while i < n
        invariant
            0 < n == s@.len(),
            0 <= i <= n,
            strutil::all_digits(s@.take(i as int)),
            acc == digits_val(s@.take(i as int)),
        decreases n - i,
    {
        let c = s.get_char(i);
        let d = c as u32;
        if d < 48 || d > 57 {
            assert(!strutil::is_digit(s@[i as int]));
            return None;
        }
        let dd = (d - 48) as u64;
        proof {
            assert(s@.take(i + 1).drop_last() =~= s@.take(i as int));
            assert(s@.take(i + 1).last() == s@[i as int]);
        }
        let next = match acc.checked_mul(10) {
            Some(m) => m.checked_add(dd),
            None => None,
        };
        match next {
            Some(v) => {
                acc = v;
            },
            None => {
                proof {
                    assert(digits_val(s@.take(i + 1)) > u64::MAX);
                    if strutil::all_digits(s@) {
                        strutil::lemma_digits_val_prefix_le(s@, i + 1);
                    }
                }
                return None;
            },
        }
        i += 1;
    }
    proof {
        assert(s@.take(n as int) =~= s@);
    }
    Some(acc)
}

/// How a string-encoded default decodes into an untyped value: the sentinels
/// `null` and `undefined` give the null value, `true`/`false` a boolean, a
/// signed decimal that fits `i64` an integer, a single-quoted literal the text
/// between the quotes, and anything else the text itself.
pub open spec fn spec_decode(s: Seq<char>) -> ValueV {
    if s == "null"@ || s == "undefined"@ {
        ValueV::Null
    } else if s == "true"@ {
        ValueV::Bool(true)
    } else if s == "false"@ {
        ValueV::Bool(false)
    } else if is_int_str(s) && i64::MIN <= int_str_val(s) <= i64::MAX {
        ValueV::Int(int_str_val(s) as i64)
    } else if s.len() >= 2 && s[0] == '\'' && s.last() == '\'' {
        ValueV::Str(s.subrange(1, s.len() - 1))
    } else {
        ValueV::Str(s)
    }
}

/// Decodes a string-encoded default value.
pub fn decode_default(s: &str) -> (r: Value)
    ensures
        r@ == spec_decode(s@),
{
    if strutil::str_eq(s, "null") || strutil::str_eq(s, "undefined") {
        Value::Null
    } else if strutil::str_eq(s, "true") {
        Value::Bool(true)
    } else if strutil::str_eq(s, "false") {
        Value::Bool(false)
    } else {
        match parse_i64(s) {
            Some(v) => Value::Int(v),
            None => {
                let n = s.unicode_len();
                if n >= 2 && s.get_char(0) == '\'' && s.get_char(n - 1) == '\'' {
                    proof {
                        assert(s@.last() == s@[n - 1]);
                    }
                    Value::Str(s.substring_char(1, n - 1).to_owned())
                } else {
                    Value::Str(s.to_owned())
                }
            },
        }
    }
}

} // verus!
