//! The regular-expression entry points the scripting runtime binds.
//!
//! Each function mirrors one native method or accessor of the runtime's
//! `RegExp` class: it receives a `this` value and the call's arguments,
//! and returns a scripting value or a type error. The pattern-matching
//! engine itself is an external collaborator: `exec` and `test` take its
//! verdict for the coerced text as an argument and do everything around
//! it — coercion, result marshalling, and state handling.

use vstd::prelude::*;
use vstd::string::StrSliceExecFns;
use vstd::string::StringExecFns;

use crate::avm_value::{
    coerce_to_string, coerce_to_u32, spec_coerce_to_string, spec_coerce_to_u32, spec_empty_flags,
    AvmTypeError, ClassObject, MatchArrayObject, NativeMethod, ProtoMethod, RegExpFlags,
    RegExpObject, Value, COERCION_FAILED,
};

verus! {

/// The runtime's code for supplying flags while constructing one regular
/// expression from another.
pub const FLAGS_WITH_REGEXP_SOURCE: u32 = 1100;

/// What the external pattern-matching engine reports for a successful
/// match: where in the text it started, and the substring of each group
/// (`None` for a group that did not participate).
#[derive(Clone, Debug, PartialEq, Eq)]
pub struct MatchOutcome {
    pub start: usize,
    pub groups: Vec<Option<String>>,
}

/// One flag character applied to a flag set; characters that name no
/// flag are skipped.
pub open spec fn apply_flag(f: RegExpFlags, c: char) -> RegExpFlags {
    if c == 's' {
        RegExpFlags { dotall: true, ..f }
    } else if c == 'x' {
        RegExpFlags { extended: true, ..f }
    } else if c == 'g' {
        RegExpFlags { global: true, ..f }
    } else if c == 'i' {
        RegExpFlags { ignore_case: true, ..f }
    } else if c == 'm' {
        RegExpFlags { multiline: true, ..f }
    } else {
        f
    }
}

/// The flag set after reading the first `n` characters of `s`.
pub open spec fn flags_upto(s: Seq<char>, n: int) -> RegExpFlags
    decreases n,
{
    if n <= 0 {
        spec_empty_flags()
    } else {
        apply_flag(flags_upto(s, n - 1), s[n - 1])
    }
}

/// The flag set a flags string denotes.
pub open spec fn spec_flags_of(s: Seq<char>) -> RegExpFlags {
    flags_upto(s, s.len() as int)
}

/// Reads a flags string: one pass over its characters, left to right.
pub fn parse_flags(s: &String) -> (r: RegExpFlags)
    ensures
        r == spec_flags_of(s@),
{
    let slice = s.as_str();
    let n = slice.unicode_len();
    let mut acc = RegExpFlags::empty();
    let mut i: usize = 0;
    while i < n
        invariant
            n == slice@.len(),
            slice@ == s@,
            i <= n,
            acc == flags_upto(s@, i as int),
        decreases n - i,
    {
        let c = slice.get_char(i);
        acc = match c {
            's' => RegExpFlags { dotall: true, ..acc },
            'x' => RegExpFlags { extended: true, ..acc },
            'g' => RegExpFlags { global: true, ..acc },
            'i' => RegExpFlags { ignore_case: true, ..acc },
            'm' => RegExpFlags { multiline: true, ..acc },
            _ => acc,
        };
        i = i + 1;
    }
    acc
}

/// The pattern argument of the instance initializer, coerced: an absent
/// or `undefined` argument reads as the empty pattern.
pub open spec fn spec_source_arg(args: Seq<Value>) -> Option<Seq<char>> {
    if args.len() < 1 {
        Some(Seq::<char>::empty())
    } else {
        match args[0] {
            Value::Undefined => Some(Seq::<char>::empty()),
            v => spec_coerce_to_string(v),
        }
    }
}

/// The flags argument of the instance initializer, coerced the same way.
pub open spec fn spec_flags_arg(args: Seq<Value>) -> Option<Seq<char>> {
    if args.len() < 2 {
        Some(Seq::<char>::empty())
    } else {
        match args[1] {
            Value::Undefined => Some(Seq::<char>::empty()),
            v => spec_coerce_to_string(v),
        }
    }
}

/// The text argument of `exec` and `test`: an absent argument reads as
/// `undefined` and is coerced like any other value.
pub open spec fn spec_text_arg(args: Seq<Value>) -> Option<Seq<char>> {
    if args.len() < 1 {
        spec_coerce_to_string(Value::Undefined)
    } else {
        spec_coerce_to_string(args[0])
    }
}

/// The first index of a prototype property with this name, or -1.
pub open spec fn proto_find(s: Seq<ProtoMethod>, name: Seq<char>) -> int
    decreases s.len(),
{
    if s.len() == 0 {
        -1
    } else if s[0].name@ == name {
        0
    } else {
        let rest = proto_find(s.drop_first(), name);
        if rest == -1 {
            -1
        } else {
            rest + 1
        }
    }
}

/// `proto_find` returns -1 exactly when no property has the name, and
/// otherwise the first index with it.
pub proof fn lemma_proto_find(s: Seq<ProtoMethod>, name: Seq<char>)
    ensures
        proto_find(s, name) == -1 ==> forall|j: int| 0 <= j < s.len() ==> s[j].name@ != name,
        proto_find(s, name) != -1 ==> 0 <= proto_find(s, name) < s.len() && s[proto_find(
            s,
            name,
        )].name@ == name && forall|j: int| 0 <= j < proto_find(s, name) ==> s[j].name@ != name,
    decreases s.len(),
{
    if s.len() == 0 {
    } else if s[0].name@ == name {
    } else {
        lemma_proto_find(s.drop_first(), name);
        assert(forall|j: int| 1 <= j < s.len() ==> s[j] == s.drop_first()[j - 1]);
    }
}

/// How one prototype property installation changes the prototype: the
/// first property of that name is overwritten with the method and made
/// non-enumerable, everything else untouched; a missing name is appended
/// as a fresh non-enumerable property.
pub open spec fn proto_updated(
    pre: Seq<ProtoMethod>,
    post: Seq<ProtoMethod>,
    name: Seq<char>,
    m: NativeMethod,
) -> bool {
    let i = proto_find(pre, name);
    if i == -1 {
        &&& post.len() == pre.len() + 1
        &&& post.take(pre.len() as int) == pre
        &&& post[pre.len() as int].name@ == name
        &&& post[pre.len() as int].method == m
        &&& post[pre.len() as int].enumerable == false
    } else {
        &&& post.len() == pre.len()
        &&& (forall|j: int| 0 <= j < pre.len() && j != i ==> post[j] == pre[j])
        &&& post[i].name == pre[i].name
        &&& post[i].method == m
        &&& post[i].enumerable == false
    }
}

/// Installs one native method on a prototype, non-enumerable.
fn set_proto_method(proto: &mut Vec<ProtoMethod>, name: String, m: NativeMethod)
    ensures
        proto_updated(old(proto)@, final(proto)@, name@, m),
{
    let ghost orig = proto@;
    let n = proto.len();
    let mut i: usize = 0;
    while i < n
        invariant
            n == proto.len(),
            proto@ == orig,
            old(proto)@ == orig,
            i <= n,
            forall|j: int| 0 <= j < i ==> orig[j].name@ != name@,
        decreases n - i,
    {
        if proto[i].name == name {
            proof {
                lemma_proto_find(orig, name@);
                assert(proto_find(orig, name@) == i as int);
            }
            let kept = proto[i].name.clone();
            let slot = &mut proto[i];
            *slot = ProtoMethod { name: kept, method: m, enumerable: false };
            proof {
                assert(proto@ =~= orig.update(
                    i as int,
                    (ProtoMethod { name: kept, method: m, enumerable: false }),
                ));
            }
            return ;
        }
        i = i + 1;
    }
    proof {
        lemma_proto_find(orig, name@);
        assert(proto_find(orig, name@) == -1);
    }
    proto.push(ProtoMethod { name, method: m, enumerable: false });
    proof {
        assert(proto@.take(orig.len() as int) =~= orig);
    }
}

/// The class initializer: installs the `exec` and `test` native methods
/// on the class's prototype, in that order, each non-enumerable. A
/// `this` that is no class object is left untouched.
pub fn class_init(this: &mut Option<Value>, _args: &[Value]) -> (r: Result<Value, AvmTypeError>)
    ensures
        !(*old(this) matches Some(Value::Class(_))) ==> (r == Ok::<Value, AvmTypeError>(
            Value::Undefined,
        ) && *final(this) == *old(this)),
        *old(this) matches Some(Value::Class(c)) ==> (r == Ok::<Value, AvmTypeError>(
            Value::Undefined,
        ) && (*final(this) matches Some(Value::Class(c2)) && exists|mid: Seq<ProtoMethod>|
            proto_updated(c.prototype@, mid, "exec"@, NativeMethod::Exec) && proto_updated(
                mid,
                c2.prototype@,
                "test"@,
                NativeMethod::Test,
            ))),
{
    match this {
        Some(Value::Class(c)) => {
            let ghost pre0 = c.prototype@;
            set_proto_method(&mut c.prototype, String::from_str("exec"), NativeMethod::Exec);
            let ghost mid = c.prototype@;
            set_proto_method(&mut c.prototype, String::from_str("test"), NativeMethod::Test);
            proof {
                assert(proto_updated(pre0, mid, "exec"@, NativeMethod::Exec));
                assert(proto_updated(mid, c.prototype@, "test"@, NativeMethod::Test));
                assert(exists|m: Seq<ProtoMethod>|
                    proto_updated(pre0, m, "exec"@, NativeMethod::Exec) && proto_updated(
                        m,
                        c.prototype@,
                        "test"@,
                        NativeMethod::Test,
                    ));
            }
            Ok(Value::Undefined)
        },
        _ => Ok(Value::Undefined),
    }
}

/// The instance initializer. Constructing from another regular
/// expression copies its pattern and flags and tolerates no flags
/// argument; otherwise the pattern and flags arguments are coerced to
/// strings and read. A `this` that is no regular expression is left
/// untouched.
pub fn instance_init(this: &mut Option<Value>, args: &[Value]) -> (r: Result<Value, AvmTypeError>)
    ensures
        !(*old(this) matches Some(Value::RegExp(_))) ==> (r == Ok::<Value, AvmTypeError>(
            Value::Undefined,
        ) && *final(this) == *old(this)),
        *old(this) matches Some(Value::RegExp(re)) ==> (args@[0] matches Value::RegExp(other)
            ==> (args@.len() >= 1 ==> (if args@.len() >= 2 && args@[1] is Undefined {
            r == Ok::<Value, AvmTypeError>(Value::Undefined) && (*final(this) matches Some(
                Value::RegExp(re2),
            ) && re2.source@ == other.source@ && re2.flags == other.flags && re2.last_index
                == re.last_index)
        } else {
            (r matches Err(e) && e.code == FLAGS_WITH_REGEXP_SOURCE) && *final(this) == *old(this)
        }))),
        *old(this) matches Some(Value::RegExp(re)) ==> (!(args@.len() >= 1 && args@[0] matches
            Value::RegExp(_)) ==> (match (spec_source_arg(args@), spec_flags_arg(args@)) {
            (Some(src), Some(fl)) => r == Ok::<Value, AvmTypeError>(Value::Undefined) && (*final(this) matches Some(Value::RegExp(re2)) && re2.source@ == src && re2.flags == spec_flags_of(
                fl,
            ) && re2.last_index == re.last_index),
            _ => (r matches Err(e) && e.code == COERCION_FAILED) && *final(this) == *old(this),
        })),
{
    match this {
        Some(Value::RegExp(re)) => {
            if args.len() >= 1 {
                if let Value::RegExp(other) = &args[0] {
                    let flags_undefined = args.len() >= 2 && matches!(&args[1], Value::Undefined);
                    if !flags_undefined {
                        return Err(
                            AvmTypeError {
                                code: FLAGS_WITH_REGEXP_SOURCE,
                                message: String::from_str(
                                    "Error #1100: Cannot supply flags when constructing one RegExp from another.",
                                ),
                            },
                        );
                    }
                    re.source = other.source.clone();
                    re.flags = other.flags;
                    return Ok(Value::Undefined);
                }
            }
            let src: String = if args.len() >= 1 {
                match &args[0] {
                    Value::Undefined => String::new(),
                    v => coerce_to_string(v)?,
                }
            } else {
                String::new()
            };
            let flag_chars: String = if args.len() >= 2 {
                match &args[1] {
                    Value::Undefined => String::new(),
                    v => coerce_to_string(v)?,
                }
            } else {
                String::new()
            };
            re.flags = parse_flags(&flag_chars);
            re.source = src;
            Ok(Value::Undefined)
        },
        _ => Ok(Value::Undefined),
    }
}

/// The class's call handler: a single regular-expression argument is
/// handed back as it is; anything else constructs a fresh regular
/// expression through the instance initializer.
pub fn class_call(args: &[Value]) -> (r: Result<Value, AvmTypeError>)
    ensures
        (args@.len() == 1 && args@[0] matches Value::RegExp(_)) ==> r == Ok::<
            Value,
            AvmTypeError,
        >(args@[0]),
        !(args@.len() == 1 && args@[0] matches Value::RegExp(_)) ==> {
            &&& (args@[0] matches Value::RegExp(other) ==> (args@.len() >= 1 ==> (if args@.len()
                >= 2 && args@[1] is Undefined {
                (r matches Ok(v) && v matches Value::RegExp(re2) && re2.source@ == other.source@
                    && re2.flags == other.flags && re2.last_index == 0)
            } else {
                (r matches Err(e) && e.code == FLAGS_WITH_REGEXP_SOURCE)
            })))
            &&& (!(args@.len() >= 1 && args@[0] matches Value::RegExp(_)) ==> (match (
                spec_source_arg(args@),
                spec_flags_arg(args@),
            ) {
                (Some(src), Some(fl)) => (r matches Ok(v) && v matches Value::RegExp(re2)
                    && re2.source@ == src && re2.flags == spec_flags_of(fl) && re2.last_index == 0),
                _ => (r matches Err(e) && e.code == COERCION_FAILED),
            }))
        },
{
    if args.len() == 1 {
        if let Value::RegExp(re) = &args[0] {
            return Ok(
                Value::RegExp(
                    RegExpObject {
                        source: re.source.clone(),
                        flags: re.flags,
                        last_index: re.last_index,
                    },
                ),
            );
        }
    }
    let mut fresh: Option<Value> = Some(
        Value::RegExp(
            RegExpObject { source: String::new(), flags: RegExpFlags::empty(), last_index: 0 },
        ),
    );
    match instance_init(&mut fresh, args) {
        Err(e) => Err(e),
        Ok(_) => match fresh {
            Some(v) => Ok(v),
            None => Ok(Value::Undefined),
        },
    }
}

/// Whether the `dotall` flag is set; `undefined` off a regular expression.
pub fn dotall(this: &Option<Value>, _args: &[Value]) -> (r: Result<Value, AvmTypeError>)
    ensures
        (match *this {
            Some(Value::RegExp(re)) => r == Ok::<Value, AvmTypeError>(Value::Bool(re.flags.dotall)),
            _ => r == Ok::<Value, AvmTypeError>(Value::Undefined),
        }),
{
    match this {
        Some(Value::RegExp(re)) => Ok(Value::Bool(re.flags.dotall)),
        _ => Ok(Value::Undefined),
    }
}

/// Whether the `extended` flag is set.
pub fn extended(this: &Option<Value>, _args: &[Value]) -> (r: Result<Value, AvmTypeError>)
    ensures
        (match *this {
            Some(Value::RegExp(re)) => r == Ok::<Value, AvmTypeError>(
                Value::Bool(re.flags.extended),
            ),
            _ => r == Ok::<Value, AvmTypeError>(Value::Undefined),
        }),
{
    match this {
        Some(Value::RegExp(re)) => Ok(Value::Bool(re.flags.extended)),
        _ => Ok(Value::Undefined),
    }
}

/// Whether the `global` flag is set.
pub fn global(this: &Option<Value>, _args: &[Value]) -> (r: Result<Value, AvmTypeError>)
    ensures
        (match *this {
            Some(Value::RegExp(re)) => r == Ok::<Value, AvmTypeError>(Value::Bool(re.flags.global)),
            _ => r == Ok::<Value, AvmTypeError>(Value::Undefined),
        }),
{
    match this {
        Some(Value::RegExp(re)) => Ok(Value::Bool(re.flags.global)),
        _ => Ok(Value::Undefined),
    }
}

/// Whether the `ignoreCase` flag is set.
pub fn ignore_case(this: &Option<Value>, _args: &[Value]) -> (r: Result<Value, AvmTypeError>)
    ensures
        (match *this {
            Some(Value::RegExp(re)) => r == Ok::<Value, AvmTypeError>(
                Value::Bool(re.flags.ignore_case),
            ),
            _ => r == Ok::<Value, AvmTypeError>(Value::Undefined),
        }),
{
    match this {
        Some(Value::RegExp(re)) => Ok(Value::Bool(re.flags.ignore_case)),
        _ => Ok(Value::Undefined),
    }
}

/// Whether the `multiline` flag is set.
pub fn multiline(this: &Option<Value>, _args: &[Value]) -> (r: Result<Value, AvmTypeError>)
    ensures
        (match *this {
            Some(Value::RegExp(re)) => r == Ok::<Value, AvmTypeError>(
                Value::Bool(re.flags.multiline),
            ),
            _ => r == Ok::<Value, AvmTypeError>(Value::Undefined),
        }),
{
    match this {
        Some(Value::RegExp(re)) => Ok(Value::Bool(re.flags.multiline)),
        _ => Ok(Value::Undefined),
    }
}

/// The cursor a global regular expression matches from.
pub fn last_index(this: &Option<Value>, _args: &[Value]) -> (r: Result<Value, AvmTypeError>)
    ensures
        (match *this {
            Some(Value::RegExp(re)) => r == Ok::<Value, AvmTypeError>(Value::UInt(re.last_index)),
            _ => r == Ok::<Value, AvmTypeError>(Value::Undefined),
        }),
{
    match this {
        Some(Value::RegExp(re)) => Ok(Value::UInt(re.last_index)),
        _ => Ok(Value::Undefined),
    }
}

/// Sets the match cursor from the first argument, coerced to an unsigned
/// integer; an absent argument reads as `undefined` and so as zero.
pub fn set_last_index(this: &mut Option<Value>, args: &[Value]) -> (r: Result<
    Value,
    AvmTypeError,
>)
    ensures
        !(*old(this) matches Some(Value::RegExp(_))) ==> (r == Ok::<Value, AvmTypeError>(
            Value::Undefined,
        ) && *final(this) == *old(this)),
        *old(this) matches Some(Value::RegExp(re)) ==> (match spec_coerce_to_u32(
            (if args@.len() >= 1 {
                args@[0]
            } else {
                Value::Undefined
            }),
        ) {
            Some(i) => r == Ok::<Value, AvmTypeError>(Value::Undefined) && *final(this) == Some(
                Value::RegExp(
                    (RegExpObject { source: re.source, flags: re.flags, last_index: i }),
                ),
            ),
            None => (r matches Err(e) && e.code == COERCION_FAILED) && *final(this) == *old(this),
        }),
{
    match this {
        Some(Value::RegExp(re)) => {
            let i: u32 = if args.len() >= 1 {
                coerce_to_u32(&args[0])?
            } else {
                0
            };
            re.last_index = i;
            Ok(Value::Undefined)
        },
        _ => Ok(Value::Undefined),
    }
}

/// The source pattern of the regular expression.
pub fn source(this: &Option<Value>, _args: &[Value]) -> (r: Result<Value, AvmTypeError>)
    ensures
        (match *this {
            Some(Value::RegExp(re)) => r == Ok::<Value, AvmTypeError>(Value::Str(re.source)),
            _ => r == Ok::<Value, AvmTypeError>(Value::Undefined),
        }),
{
    match this {
        Some(Value::RegExp(re)) => Ok(Value::Str(re.source.clone())),
        _ => Ok(Value::Undefined),
    }
}

/// Runs a match: the text argument is coerced to a string, the external
/// engine's outcome for it is marshalled into the array-like result
/// (`null` for no match), with the match position under `index` and the
/// coerced text under `input`.
pub fn exec(this: &mut Option<Value>, args: &[Value], outcome: Option<MatchOutcome>) -> (r: Result<
    Value,
    AvmTypeError,
>)
    ensures
        *final(this) == *old(this),
        !(*old(this) matches Some(Value::RegExp(_))) ==> r == Ok::<Value, AvmTypeError>(
            Value::Undefined,
        ),
        (*old(this) matches Some(Value::RegExp(_))) ==> (match spec_text_arg(args@) {
            Some(text) => (match outcome {
                None => r == Ok::<Value, AvmTypeError>(Value::Null),
                Some(m) => (r matches Ok(v) && v matches Value::MatchArray(a) && a.groups
                    == m.groups && a.index == m.start && a.input@ == text),
            }),
            None => (r matches Err(e) && e.code == COERCION_FAILED),
        }),
{
    match this {
        Some(Value::RegExp(_)) => {
            let text: String = if args.len() >= 1 {
                coerce_to_string(&args[0])?
            } else {
                String::from_str("undefined")
            };
            match outcome {
                None => Ok(Value::Null),
                Some(m) => Ok(
                    Value::MatchArray(
                        MatchArrayObject { groups: m.groups, index: m.start, input: text },
                    ),
                ),
            }
        },
        _ => Ok(Value::Undefined),
    }
}

/// Tests for a match: the text argument is coerced exactly as for
/// `exec`, and the external engine's verdict is handed back as a boolean.
pub fn test(this: &mut Option<Value>, args: &[Value], matched: bool) -> (r: Result<
    Value,
    AvmTypeError,
>)
    ensures
        *final(this) == *old(this),
        !(*old(this) matches Some(Value::RegExp(_))) ==> r == Ok::<Value, AvmTypeError>(
            Value::Undefined,
        ),
        (*old(this) matches Some(Value::RegExp(_))) ==> (match spec_text_arg(args@) {
            Some(_) => r == Ok::<Value, AvmTypeError>(Value::Bool(matched)),
            None => (r matches Err(e) && e.code == COERCION_FAILED),
        }),
{
    match this {
        Some(Value::RegExp(_)) => {
            if args.len() >= 1 {
                let _text = coerce_to_string(&args[0])?;
            }
            Ok(Value::Bool(matched))
        },
        _ => Ok(Value::Undefined),
    }
}

} // verus!
