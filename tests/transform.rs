use static_test::args::get_args;
use static_test::model::{FnDecl, Param, Pattern, ReturnType, SlotValue, TransformError};
use static_test::names::{arg_slot, flag_slot, return_slot, trap_symbol};
use static_test::transform::{create_test_attr, static_test, transform, Attributes};

fn plain(name: &str, ty: &str) -> Param<String> {
    Param::Typed {
        pat: Pattern::Ident {
            name: name.to_string(),
            by_ref: false,
            mutable: false,
            has_attrs: false,
            has_subpattern: false,
        },
        ty: ty.to_string(),
    }
}

fn with_flags(name: &str, by_ref: bool, mutable: bool, has_attrs: bool, has_subpattern: bool) -> Param<String> {
    Param::Typed {
        pat: Pattern::Ident { name: name.to_string(), by_ref, mutable, has_attrs, has_subpattern },
        ty: "u8".to_string(),
    }
}

fn decl(name: &str, params: Vec<Param<String>>, ret: ReturnType<String>) -> FnDecl<String, String> {
    FnDecl { name: name.to_string(), params, ret, body: "{ body }".to_string() }
}

const TRAP_LEAD: &str =
    "\x1B[2K\x1B[400D\x1B[A\x1B[2K\x1B[B\x1B[1;31merror\x1B[0m: unreachable code can be reached in '\x1B[1;41m";

#[test]
fn slot_names_follow_the_scheme() {
    assert_eq!(flag_slot("f"), "_f__flag_");
    assert_eq!(return_slot("f"), "_f__return_");
    assert_eq!(arg_slot("f", "buffer"), "_f__arg__buffer_");
}

#[test]
fn trap_symbol_embeds_the_function_name() {
    let t = trap_symbol("test_fail");
    assert_eq!(t, format!("{}test_fail\x1B[0m'", TRAP_LEAD));
    assert!(t.contains("unreachable code can be reached in"));
    assert!(t.contains("test_fail"));
}

#[test]
fn test_attribute_is_test() {
    assert_eq!(create_test_attr(), "test");
}

#[test]
fn attributes_accept_only_an_empty_list() {
    assert!(Attributes::parse(&vec![]).is_ok());
    assert!(matches!(
        Attributes::parse(&vec!["foo".to_string()]),
        Err(TransformError::UnexpectedAttribute)
    ));
}

#[test]
fn slice_get_function_is_rewritten() {
    let name = "test_slice_get_will_always_succeed_if_length_is_known";
    let d = decl(name, vec![plain("buffer", "&[u8]")], ReturnType::Of("u8".to_string()));
    let e = static_test(&vec![], d).unwrap();
    assert_eq!(e.slots.len(), 3);
    assert_eq!(e.slots[0].name, format!("_{}__flag_", name));
    assert!(matches!(e.slots[0].value, SlotValue::Flag));
    assert_eq!(e.slots[1].name, format!("_{}__return_", name));
    assert!(matches!(&e.slots[1].value, SlotValue::Pointer(ReturnType::Of(t)) if t == "u8"));
    assert_eq!(e.slots[2].name, format!("_{}__arg__buffer_", name));
    assert!(matches!(&e.slots[2].value, SlotValue::Pointer(ReturnType::Of(t)) if t == "&[u8]"));
    assert_eq!(e.func.name, name);
    assert!(e.func.params.is_empty());
    assert!(matches!(e.func.ret, ReturnType::Unit));
    assert_eq!(e.func.attrs, vec!["test".to_string()]);
    let g = &e.func.guard;
    assert_eq!(g.flag_slot, 0);
    assert_eq!(g.return_slot, 1);
    assert_eq!(g.bindings.len(), 1);
    assert_eq!(g.bindings[0].name, "buffer");
    assert_eq!(g.bindings[0].slot, 2);
    assert_eq!(g.body, "{ body }");
    assert_eq!(g.trap, format!("{}{}\x1B[0m'", TRAP_LEAD, name));
}

#[test]
fn unit_function_gets_a_unit_return_slot() {
    let d = decl("test_multiplication", vec![plain("value", "u8")], ReturnType::Unit);
    let e = transform(d).unwrap();
    assert_eq!(e.slots.len(), 3);
    assert_eq!(e.slots[1].name, "_test_multiplication__return_");
    assert!(matches!(e.slots[1].value, SlotValue::Pointer(ReturnType::Unit)));
    assert_eq!(e.slots[2].name, "_test_multiplication__arg__value_");
}

#[test]
fn slot_count_is_arguments_plus_two() {
    let d = decl("f", vec![plain("a", "u8"), plain("b", "u16"), plain("c", "u32")], ReturnType::Unit);
    let e = transform(d).unwrap();
    assert_eq!(e.slots.len(), 5);
    let names: Vec<&str> = e.slots.iter().map(|s| s.name.as_str()).collect();
    assert_eq!(names, vec!["_f__flag_", "_f__return_", "_f__arg__a_", "_f__arg__b_", "_f__arg__c_"]);
    for i in 0..names.len() {
        for j in (i + 1)..names.len() {
            assert_ne!(names[i], names[j]);
        }
    }
    let slots: Vec<usize> = e.func.guard.bindings.iter().map(|b| b.slot).collect();
    assert_eq!(slots, vec![2, 3, 4]);
}

#[test]
fn no_parameters_gives_two_slots() {
    let e = transform(decl("empty", vec![], ReturnType::Unit)).unwrap();
    assert_eq!(e.slots.len(), 2);
    assert!(e.func.guard.bindings.is_empty());
}

#[test]
fn receiver_is_refused_at_its_position() {
    let r = transform(decl("f", vec![plain("a", "u8"), Param::Receiver], ReturnType::Unit));
    assert!(matches!(r, Err(TransformError::UnsupportedArgument { index: 1 })));
}

#[test]
fn mutable_binding_is_refused() {
    let r = get_args(vec![with_flags("x", false, true, false, false)]);
    assert!(matches!(r, Err(TransformError::UnsupportedPattern { index: 0 })));
}

#[test]
fn reference_binding_is_refused() {
    let r = get_args(vec![plain("a", "u8"), with_flags("x", true, false, false, false)]);
    assert!(matches!(r, Err(TransformError::UnsupportedPattern { index: 1 })));
}

#[test]
fn attributed_or_subpattern_binding_is_refused() {
    assert!(matches!(
        get_args(vec![with_flags("x", false, false, true, false)]),
        Err(TransformError::UnsupportedPattern { index: 0 })
    ));
    assert!(matches!(
        get_args(vec![with_flags("x", false, false, false, true)]),
        Err(TransformError::UnsupportedPattern { index: 0 })
    ));
}

#[test]
fn destructuring_is_refused_at_the_first_bad_parameter() {
    let params = vec![plain("a", "u8"), Param::Typed { pat: Pattern::Other, ty: "(u8, u8)".to_string() }, Param::Receiver];
    assert!(matches!(get_args(params), Err(TransformError::UnsupportedPattern { index: 1 })));
}

#[test]
fn supported_parameters_are_described_in_order() {
    let ds = get_args(vec![plain("x", "u8"), plain("y", "String")]).unwrap();
    assert_eq!(ds.len(), 2);
    assert_eq!(ds[0].name, "x");
    assert_eq!(ds[0].ty, "u8");
    assert_eq!(ds[1].name, "y");
    assert_eq!(ds[1].ty, "String");
}

#[test]
fn attribute_payload_is_refused_before_the_function() {
    let d = decl("f", vec![Param::Receiver], ReturnType::Unit);
    let r = static_test(&vec!["x".to_string(), "=".to_string(), "1".to_string()], d);
    assert!(matches!(r, Err(TransformError::UnexpectedAttribute)));
}

#[test]
fn error_messages() {
    assert_eq!(TransformError::UnexpectedAttribute.message(), "unexpected attribute");
    assert_eq!(TransformError::UnsupportedArgument { index: 0 }.message(), "arguments like this are not supported");
    assert_eq!(TransformError::UnsupportedPattern { index: 3 }.message(), "patterns like this are not supported");
}

/// Runs the guard of `e` as the generated code would: `flag` is what the
/// flag slot holds, `store` what each pointer slot points to, and `body`
/// what the original body computes from its variables.
fn run_guard(
    e: &static_test::model::Expansion<String, String>,
    flag: &std::collections::HashMap<String, bool>,
    store: &std::collections::HashMap<String, u32>,
    body: impl Fn(&std::collections::HashMap<String, u32>) -> u32,
) -> Option<(String, u32)> {
    let g = &e.func.guard;
    if !flag[&e.slots[g.flag_slot].name] {
        return None;
    }
    let mut env = std::collections::HashMap::new();
    for b in &g.bindings {
        env.insert(b.name.clone(), store[&e.slots[b.slot].name]);
    }
    Some((e.slots[g.return_slot].name.clone(), body(&env)))
}

#[test]
fn guard_with_flag_off_writes_nothing() {
    let e = transform(decl("mul", vec![plain("x", "u32"), plain("y", "u32")], ReturnType::Of("u32".to_string()))).unwrap();
    let flag = std::collections::HashMap::from([("_mul__flag_".to_string(), false)]);
    let store = std::collections::HashMap::new();
    assert_eq!(run_guard(&e, &flag, &store, |_| panic!("body must not run")), None);
}

#[test]
fn guard_with_flag_on_returns_the_body_value() {
    let e = transform(decl("mul", vec![plain("x", "u32"), plain("y", "u32")], ReturnType::Of("u32".to_string()))).unwrap();
    let flag = std::collections::HashMap::from([("_mul__flag_".to_string(), true)]);
    let store = std::collections::HashMap::from([
        ("_mul__arg__x_".to_string(), 6u32),
        ("_mul__arg__y_".to_string(), 7u32),
    ]);
    let direct = |x: u32, y: u32| x * 10 + y;
    let r = run_guard(&e, &flag, &store, |env| direct(env["x"], env["y"]));
    assert_eq!(r, Some(("_mul__return_".to_string(), direct(6, 7))));
    assert_eq!(r.unwrap().1, 67);
}
