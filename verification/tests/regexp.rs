use stage3d::avm_value::{
    coerce_to_string, coerce_to_u32, u32_to_dec_string, AvmTypeError, ClassObject,
    MatchArrayObject, NativeMethod, ProtoMethod, RegExpFlags, RegExpObject, Value,
};
use stage3d::regexp::{
    class_call, class_init, dotall, exec, extended, global, ignore_case, instance_init,
    last_index, multiline, set_last_index, source, MatchOutcome,
};

fn re_value(source: &str, flags: RegExpFlags, last_index: u32) -> Value {
    Value::RegExp(RegExpObject { source: String::from(source), flags, last_index })
}

fn no_flags() -> RegExpFlags {
    RegExpFlags {
        dotall: false,
        extended: false,
        global: false,
        ignore_case: false,
        multiline: false,
    }
}

fn as_regexp(v: &Option<Value>) -> &RegExpObject {
    match v {
        Some(Value::RegExp(re)) => re,
        other => panic!("expected a regular expression, found {:?}", other),
    }
}

#[test]
fn init_reads_pattern_and_flags() {
    let mut this = Some(re_value("", no_flags(), 7));
    let args = [Value::Str(String::from("a|b")), Value::Str(String::from("gi"))];
    let r = instance_init(&mut this, &args).unwrap();
    assert_eq!(r, Value::Undefined);
    let re = as_regexp(&this);
    assert_eq!(re.source, "a|b");
    assert!(re.flags.global && re.flags.ignore_case);
    assert!(!re.flags.dotall && !re.flags.extended && !re.flags.multiline);
    assert_eq!(re.last_index, 7);
}

#[test]
fn init_without_arguments_gives_empty_pattern() {
    let mut this = Some(re_value("old", no_flags(), 0));
    instance_init(&mut this, &[]).unwrap();
    assert_eq!(as_regexp(&this).source, "");
}

#[test]
fn init_undefined_arguments_read_as_empty() {
    let mut this = Some(re_value("old", no_flags(), 0));
    instance_init(&mut this, &[Value::Undefined, Value::Undefined]).unwrap();
    let re = as_regexp(&this);
    assert_eq!(re.source, "");
    assert_eq!(re.flags, no_flags());
}

#[test]
fn init_skips_unknown_flag_characters() {
    let mut this = Some(re_value("", no_flags(), 0));
    let args = [Value::Str(String::from("p")), Value::Str(String::from("zsmzx"))];
    instance_init(&mut this, &args).unwrap();
    let re = as_regexp(&this);
    assert!(re.flags.dotall && re.flags.multiline && re.flags.extended);
    assert!(!re.flags.global && !re.flags.ignore_case);
}

#[test]
fn init_copies_from_another_regexp() {
    let mut source_flags = no_flags();
    source_flags.multiline = true;
    let mut this = Some(re_value("", no_flags(), 3));
    let args = [re_value("copied", source_flags, 55), Value::Undefined];
    instance_init(&mut this, &args).unwrap();
    let re = as_regexp(&this);
    assert_eq!(re.source, "copied");
    assert!(re.flags.multiline);
    assert_eq!(re.last_index, 3);
}

#[test]
fn init_rejects_flags_beside_a_regexp_source() {
    let mut this = Some(re_value("kept", no_flags(), 0));
    let args = [re_value("other", no_flags(), 0), Value::Str(String::from("g"))];
    let err = instance_init(&mut this, &args).unwrap_err();
    assert_eq!(err.code, 1100);
    assert!(err.message.contains("1100"));
    assert_eq!(as_regexp(&this).source, "kept");
}

#[test]
fn init_on_a_non_regexp_does_nothing() {
    let mut this = Some(Value::UInt(5));
    let r = instance_init(&mut this, &[Value::Str(String::from("x"))]).unwrap();
    assert_eq!(r, Value::Undefined);
    assert_eq!(this, Some(Value::UInt(5)));
    let mut absent: Option<Value> = None;
    assert_eq!(instance_init(&mut absent, &[]).unwrap(), Value::Undefined);
}

#[test]
fn flag_getters_report_each_flag() {
    let flags = RegExpFlags {
        dotall: true,
        extended: false,
        global: true,
        ignore_case: false,
        multiline: true,
    };
    let this = Some(re_value("x", flags, 0));
    assert_eq!(dotall(&this, &[]).unwrap(), Value::Bool(true));
    assert_eq!(extended(&this, &[]).unwrap(), Value::Bool(false));
    assert_eq!(global(&this, &[]).unwrap(), Value::Bool(true));
    assert_eq!(ignore_case(&this, &[]).unwrap(), Value::Bool(false));
    assert_eq!(multiline(&this, &[]).unwrap(), Value::Bool(true));
    let not_re = Some(Value::Null);
    assert_eq!(dotall(&not_re, &[]).unwrap(), Value::Undefined);
    assert_eq!(global(&None, &[]).unwrap(), Value::Undefined);
}

#[test]
fn source_and_last_index_getters() {
    let this = Some(re_value("pat+ern", no_flags(), 42));
    assert_eq!(source(&this, &[]).unwrap(), Value::Str(String::from("pat+ern")));
    assert_eq!(last_index(&this, &[]).unwrap(), Value::UInt(42));
    assert_eq!(source(&None, &[]).unwrap(), Value::Undefined);
}

#[test]
fn set_last_index_coerces_its_argument() {
    let mut this = Some(re_value("x", no_flags(), 1));
    set_last_index(&mut this, &[Value::UInt(9)]).unwrap();
    assert_eq!(as_regexp(&this).last_index, 9);
    set_last_index(&mut this, &[Value::Bool(true)]).unwrap();
    assert_eq!(as_regexp(&this).last_index, 1);
    set_last_index(&mut this, &[Value::Null]).unwrap();
    assert_eq!(as_regexp(&this).last_index, 0);
    set_last_index(&mut this, &[Value::UInt(6), Value::UInt(7)]).unwrap();
    assert_eq!(as_regexp(&this).last_index, 6);
    set_last_index(&mut this, &[]).unwrap();
    assert_eq!(as_regexp(&this).last_index, 0);
}

#[test]
fn set_last_index_rejects_unmarshalled_values() {
    let mut this = Some(re_value("x", no_flags(), 8));
    let err = set_last_index(&mut this, &[Value::Str(String::from("5"))]).unwrap_err();
    assert_eq!(err.code, 1034);
    assert_eq!(as_regexp(&this).last_index, 8);
}

#[test]
fn exec_returns_null_without_a_match() {
    let mut this = Some(re_value("a", no_flags(), 0));
    let r = exec(&mut this, &[Value::Str(String::from("zzz"))], None).unwrap();
    assert_eq!(r, Value::Null);
}

#[test]
fn exec_marshals_the_engine_outcome() {
    let mut this = Some(re_value("a(b)?(c)", no_flags(), 0));
    let outcome = MatchOutcome {
        start: 2,
        groups: vec![Some(String::from("ac")), None, Some(String::from("c"))],
    };
    let r = exec(&mut this, &[Value::Str(String::from("xzac!"))], Some(outcome)).unwrap();
    match r {
        Value::MatchArray(MatchArrayObject { groups, index, input }) => {
            assert_eq!(groups, vec![Some(String::from("ac")), None, Some(String::from("c"))]);
            assert_eq!(index, 2);
            assert_eq!(input, "xzac!");
        },
        other => panic!("expected a match array, found {:?}", other),
    }
}

#[test]
fn exec_coerces_a_missing_text_argument() {
    let mut this = Some(re_value("und", no_flags(), 0));
    let outcome = MatchOutcome { start: 0, groups: vec![Some(String::from("und"))] };
    let r = exec(&mut this, &[], Some(outcome)).unwrap();
    match r {
        Value::MatchArray(m) => assert_eq!(m.input, "undefined"),
        other => panic!("expected a match array, found {:?}", other),
    }
    let mut num_this = Some(re_value("4", no_flags(), 0));
    let outcome = MatchOutcome { start: 0, groups: vec![] };
    match exec(&mut num_this, &[Value::UInt(42)], Some(outcome)).unwrap() {
        Value::MatchArray(m) => assert_eq!(m.input, "42"),
        other => panic!("expected a match array, found {:?}", other),
    }
}

#[test]
fn exec_off_a_regexp_is_undefined() {
    let mut this = Some(Value::Str(String::from("no")));
    let r = exec(&mut this, &[], None).unwrap();
    assert_eq!(r, Value::Undefined);
}

#[test]
fn test_wraps_the_engine_verdict() {
    let mut this = Some(re_value("a", no_flags(), 0));
    assert_eq!(
        stage3d::regexp::test(&mut this, &[Value::Str(String::from("abc"))], true).unwrap(),
        Value::Bool(true)
    );
    assert_eq!(
        stage3d::regexp::test(&mut this, &[Value::Str(String::from("zzz"))], false).unwrap(),
        Value::Bool(false)
    );
    let mut not_re = Some(Value::Null);
    assert_eq!(stage3d::regexp::test(&mut not_re, &[], true).unwrap(), Value::Undefined);
}

#[test]
fn class_call_hands_a_lone_regexp_back() {
    let arg = re_value("same", no_flags(), 4);
    let r = class_call(&[arg.clone()]).unwrap();
    assert_eq!(r, arg);
}

#[test]
fn class_call_constructs_otherwise() {
    let r = class_call(&[Value::Str(String::from("pat")), Value::Str(String::from("m"))]).unwrap();
    match r {
        Value::RegExp(re) => {
            assert_eq!(re.source, "pat");
            assert!(re.flags.multiline);
            assert_eq!(re.last_index, 0);
        },
        other => panic!("expected a regular expression, found {:?}", other),
    }
    let err = class_call(&[re_value("o", no_flags(), 0), Value::Str(String::from("g"))])
        .unwrap_err();
    assert_eq!(err.code, 1100);
}

#[test]
fn class_init_installs_exec_and_test_non_enumerable() {
    let mut this = Some(Value::Class(ClassObject { prototype: Vec::new() }));
    let r = class_init(&mut this, &[]).unwrap();
    assert_eq!(r, Value::Undefined);
    match &this {
        Some(Value::Class(c)) => {
            assert_eq!(c.prototype.len(), 2);
            assert_eq!(c.prototype[0].name, "exec");
            assert_eq!(c.prototype[0].method, NativeMethod::Exec);
            assert!(!c.prototype[0].enumerable);
            assert_eq!(c.prototype[1].name, "test");
            assert_eq!(c.prototype[1].method, NativeMethod::Test);
            assert!(!c.prototype[1].enumerable);
        },
        other => panic!("expected a class, found {:?}", other),
    }
}

#[test]
fn class_init_overwrites_an_existing_property() {
    let existing = ProtoMethod {
        name: String::from("test"),
        method: NativeMethod::Exec,
        enumerable: true,
    };
    let mut this = Some(Value::Class(ClassObject { prototype: vec![existing] }));
    class_init(&mut this, &[]).unwrap();
    match &this {
        Some(Value::Class(c)) => {
            assert_eq!(c.prototype.len(), 2);
            assert_eq!(c.prototype[0].name, "test");
            assert_eq!(c.prototype[0].method, NativeMethod::Test);
            assert!(!c.prototype[0].enumerable);
            assert_eq!(c.prototype[1].name, "exec");
        },
        other => panic!("expected a class, found {:?}", other),
    }
    let mut not_class = Some(Value::UInt(1));
    assert_eq!(class_init(&mut not_class, &[]).unwrap(), Value::Undefined);
    assert_eq!(not_class, Some(Value::UInt(1)));
}

#[test]
fn primitive_string_coercions() {
    assert_eq!(coerce_to_string(&Value::Undefined).unwrap(), "undefined");
    assert_eq!(coerce_to_string(&Value::Null).unwrap(), "null");
    assert_eq!(coerce_to_string(&Value::Bool(true)).unwrap(), "true");
    assert_eq!(coerce_to_string(&Value::Bool(false)).unwrap(), "false");
    assert_eq!(coerce_to_string(&Value::UInt(0)).unwrap(), "0");
    assert_eq!(coerce_to_string(&Value::UInt(907)).unwrap(), "907");
    assert_eq!(coerce_to_string(&Value::UInt(4294967295)).unwrap(), "4294967295");
    assert_eq!(coerce_to_string(&Value::Str(String::from("s"))).unwrap(), "s");
    let err: AvmTypeError = coerce_to_string(&re_value("x", no_flags(), 0)).unwrap_err();
    assert_eq!(err.code, 1034);
}

#[test]
fn primitive_u32_coercions() {
    assert_eq!(coerce_to_u32(&Value::Undefined).unwrap(), 0);
    assert_eq!(coerce_to_u32(&Value::Null).unwrap(), 0);
    assert_eq!(coerce_to_u32(&Value::Bool(false)).unwrap(), 0);
    assert_eq!(coerce_to_u32(&Value::Bool(true)).unwrap(), 1);
    assert_eq!(coerce_to_u32(&Value::UInt(77)).unwrap(), 77);
    assert!(coerce_to_u32(&Value::Str(String::from("77"))).is_err());
}

#[test]
fn decimal_rendering_matches_expected_digits() {
    assert_eq!(u32_to_dec_string(0), "0");
    assert_eq!(u32_to_dec_string(10), "10");
    assert_eq!(u32_to_dec_string(305), "305");
}
