//! A model of the scripting values the regular-expression entry points
//! receive and return.
//!
//! The runtime's binding layer hands each entry point a `this` object and
//! already-marshalled argument values; this module gives those values a
//! concrete shape. Coercion of primitive values is defined here in full;
//! coercion that would go through the class system's `toString`/`valueOf`
//! (objects, and numeric reading of strings) belongs to the external
//! marshalling layer, and such arguments are rejected with a coercion
//! error instead.

use vstd::prelude::*;
use vstd::string::StringExecFns;

verus! {

/// The flag set of a regular expression object.
#[derive(Clone, Copy, Debug, PartialEq, Eq, Structural)]
pub struct RegExpFlags {
    pub dotall: bool,
    pub extended: bool,
    pub global: bool,
    pub ignore_case: bool,
    pub multiline: bool,
}

/// The flag set with every flag cleared.
pub open spec fn spec_empty_flags() -> RegExpFlags {
    RegExpFlags {
        dotall: false,
        extended: false,
        global: false,
        ignore_case: false,
        multiline: false,
    }
}

impl RegExpFlags {
    /// No flags set.
    pub fn empty() -> (r: RegExpFlags)
        ensures
            r == spec_empty_flags(),
    {
        RegExpFlags {
            dotall: false,
            extended: false,
            global: false,
            ignore_case: false,
            multiline: false,
        }
    }
}

/// A regular-expression object: its source pattern, flags, and the
/// cursor a global regular expression matches from.
#[derive(Clone, Debug, PartialEq, Eq)]
pub struct RegExpObject {
    pub source: String,
    pub flags: RegExpFlags,
    pub last_index: u32,
}

/// The array-like object a successful `exec` returns: the matched
/// substring and capture groups (an unmatched group is `None`), the
/// position of the match, and the input text.
#[derive(Clone, Debug, PartialEq, Eq)]
pub struct MatchArrayObject {
    pub groups: Vec<Option<String>>,
    pub index: usize,
    pub input: String,
}

/// A native method installable on a class prototype.
#[derive(Clone, Copy, Debug, PartialEq, Eq, Structural)]
pub enum NativeMethod {
    Exec,
    Test,
}

/// One property of a class prototype.
#[derive(Clone, Debug, PartialEq, Eq)]
pub struct ProtoMethod {
    pub name: String,
    pub method: NativeMethod,
    pub enumerable: bool,
}

/// A class object, reduced to the prototype its initializer fills.
#[derive(Clone, Debug, PartialEq, Eq)]
pub struct ClassObject {
    pub prototype: Vec<ProtoMethod>,
}

/// A scripting value, covering the shapes the regular-expression entry
/// points distinguish.
#[derive(Clone, Debug, PartialEq, Eq)]
pub enum Value {
    Undefined,
    Null,
    Bool(bool),
    UInt(u32),
    Str(String),
    RegExp(RegExpObject),
    MatchArray(MatchArrayObject),
    Class(ClassObject),
}

/// The error a failed entry point surfaces to the scripting layer, as a
/// type error with the runtime's numeric code.
#[derive(Clone, Debug, PartialEq, Eq)]
pub struct AvmTypeError {
    pub code: u32,
    pub message: String,
}

/// The runtime's code for a failed type coercion.
pub const COERCION_FAILED: u32 = 1034;

/// The decimal digits of `n`, most significant first.
pub open spec fn spec_u32_dec(n: nat) -> Seq<char>
    decreases n,
{
    if n < 10 {
        seq![spec_digit_char(n)]
    } else {
        spec_u32_dec(n / 10).push(spec_digit_char(n % 10))
    }
}

/// The character for one decimal digit.
pub open spec fn spec_digit_char(d: nat) -> char {
    if d == 0 {
        '0'
    } else if d == 1 {
        '1'
    } else if d == 2 {
        '2'
    } else if d == 3 {
        '3'
    } else if d == 4 {
        '4'
    } else if d == 5 {
        '5'
    } else if d == 6 {
        '6'
    } else if d == 7 {
        '7'
    } else if d == 8 {
        '8'
    } else {
        '9'
    }
}

/// What a value coerces to as a string, where the model defines it:
/// primitives coerce by the language's fixed rules, objects would go
/// through the external class system and are left undefined (`None`).
pub open spec fn spec_coerce_to_string(v: Value) -> Option<Seq<char>> {
    match v {
        Value::Undefined => Some("undefined"@),
        Value::Null => Some("null"@),
        Value::Bool(b) => Some(
            if b {
                "true"@
            } else {
                "false"@
            },
        ),
        Value::UInt(n) => Some(spec_u32_dec(n as nat)),
        Value::Str(s) => Some(s@),
        _ => None,
    }
}

/// What a value coerces to as an unsigned integer, where the model
/// defines it: `undefined`, `null` and booleans by the language's fixed
/// rules, numbers as themselves; numeric reading of strings and objects
/// is the external marshalling layer's and is left undefined.
pub open spec fn spec_coerce_to_u32(v: Value) -> Option<u32> {
    match v {
        Value::Undefined => Some(0u32),
        Value::Null => Some(0u32),
        Value::Bool(b) => Some(
            if b {
                1u32
            } else {
                0u32
            },
        ),
        Value::UInt(n) => Some(n),
        _ => None,
    }
}

fn digit_str(d: u32) -> (r: &'static str)
    requires
        d < 10,
    ensures
        r@ == seq![spec_digit_char(d as nat)],
{
    if d == 0 {
        let s = "0";
        proof {
            reveal_strlit("0");
            assert(s@ =~= seq![spec_digit_char(d as nat)]);
        }
        s
    } else if d == 1 {
        let s = "1";
        proof {
            reveal_strlit("1");
            assert(s@ =~= seq![spec_digit_char(d as nat)]);
        }
        s
    } else if d == 2 {
        let s = "2";
        proof {
            reveal_strlit("2");
            assert(s@ =~= seq![spec_digit_char(d as nat)]);
        }
        s
    } else if d == 3 {
        let s = "3";
        proof {
            reveal_strlit("3");
            assert(s@ =~= seq![spec_digit_char(d as nat)]);
        }
        s
    } else if d == 4 {
        let s = "4";
        proof {
            reveal_strlit("4");
            assert(s@ =~= seq![spec_digit_char(d as nat)]);
        }
        s
    } else if d == 5 {
        let s = "5";
        proof {
            reveal_strlit("5");
            assert(s@ =~= seq![spec_digit_char(d as nat)]);
        }
        s
    } else if d == 6 {
        let s = "6";
        proof {
            reveal_strlit("6");
            assert(s@ =~= seq![spec_digit_char(d as nat)]);
        }
        s
    } else if d == 7 {
        let s = "7";
        proof {
            reveal_strlit("7");
            assert(s@ =~= seq![spec_digit_char(d as nat)]);
        }
        s
    } else if d == 8 {
        let s = "8";
        proof {
            reveal_strlit("8");
            assert(s@ =~= seq![spec_digit_char(d as nat)]);
        }
        s
    } else {
        let s = "9";
        proof {
            reveal_strlit("9");
            assert(s@ =~= seq![spec_digit_char(d as nat)]);
        }
        s
    }
}

fn push_u32_dec(out: &mut String, n: u32)
    ensures
        final(out)@ == old(out)@ + spec_u32_dec(n as nat),
    decreases n,
{
    if n < 10 {
        out.append(digit_str(n));
        proof {
            assert(final(out)@ =~= old(out)@ + spec_u32_dec(n as nat));
        }
    } else {
        push_u32_dec(out, n / 10);
        out.append(digit_str(n % 10));
        proof {
            assert(final(out)@ =~= old(out)@ + spec_u32_dec(n as nat));
        }
    }
}

/// Renders `n` in decimal.
pub fn u32_to_dec_string(n: u32) -> (r: String)
    ensures
        r@ == spec_u32_dec(n as nat),
{
    let mut out = String::new();
    push_u32_dec(&mut out, n);
    proof {
        assert(out@ =~= spec_u32_dec(n as nat));
    }
    out
}

/// The coercion-failure error the entry points surface where the model
/// leaves a coercion to the external marshalling layer.
pub fn coercion_error() -> (r: AvmTypeError)
    ensures
        r.code == COERCION_FAILED,
{
    AvmTypeError { code: COERCION_FAILED, message: String::from_str("Type Coercion failed.") }
}

/// Coerces a value to a string where the model defines the coercion,
/// failing on object values whose coercion lives outside it.
pub fn coerce_to_string(v: &Value) -> (r: Result<String, AvmTypeError>)
    ensures
        (spec_coerce_to_string(*v) matches Some(s) ==> (r matches Ok(out) && out@ == s)),
        (spec_coerce_to_string(*v) is None ==> (r matches Err(e) && e.code == COERCION_FAILED)),
{
    match v {
        Value::Undefined => Ok(String::from_str("undefined")),
        Value::Null => Ok(String::from_str("null")),
        Value::Bool(b) => Ok(
            if *b {
                String::from_str("true")
            } else {
                String::from_str("false")
            },
        ),
        Value::UInt(n) => Ok(u32_to_dec_string(*n)),
        Value::Str(s) => Ok(s.clone()),
        _ => Err(coercion_error()),
    }
}

/// Coerces a value to an unsigned integer where the model defines the
/// coercion, failing where it would go through the marshalling layer.
pub fn coerce_to_u32(v: &Value) -> (r: Result<u32, AvmTypeError>)
    ensures
        (spec_coerce_to_u32(*v) matches Some(n) ==> r == Ok::<u32, AvmTypeError>(n)),
        (spec_coerce_to_u32(*v) is None ==> (r matches Err(e) && e.code == COERCION_FAILED)),
{
    match v {
        Value::Undefined => Ok(0),
        Value::Null => Ok(0),
        Value::Bool(b) => Ok(
            if *b {
                1
            } else {
                0
            },
        ),
        Value::UInt(n) => Ok(*n),
        _ => Err(coercion_error()),
    }
}

} // verus!
