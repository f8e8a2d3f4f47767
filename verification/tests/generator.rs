use spectest_gen::directive::{Action, Directive, DirectiveKind};
use spectest_gen::generator::{Generator, generate};
use spectest_gen::value::Value;

fn module(line: u64, wat: &str) -> Directive {
    Directive {
        line,
        kind: DirectiveKind::ModuleDefinition {
            wat: wat.to_string(),
        },
    }
}

fn invoke(field: &str, args: Vec<Value>) -> Action {
    Action::Invoke {
        field: field.to_string(),
        args,
    }
}

fn assert_return(line: u64, field: &str, args: Vec<Value>, expected: Vec<Value>) -> Directive {
    Directive {
        line,
        kind: DirectiveKind::AssertReturn {
            action: invoke(field, args),
            expected,
        },
    }
}

fn count(hay: &str, needle: &str) -> usize {
    hay.match_indices(needle).count()
}

const BANNER: &str = "// Rust test file autogenerated with cargo build (build/spectests.rs).\n// Please do NOT modify it by hand, as it will be reseted on next build.\n";

#[test]
fn one_module_no_assertions_yields_one_start_only_test() {
    let ds = vec![module(1, "(module)")];
    let (text, n) = generate("mod.wast", &ds);
    assert_eq!(n, 1);
    let expected = format!(
        "{}// Test based on spectests/mod.wast\n#![allow(\n    warnings,\n    dead_code\n)]\nuse wabt::wat2wasm;\n\nuse crate::webassembly::{{instantiate, compile, ImportObject, ResultObject, Instance, Export}};\nuse super::_common::{{\n    spectest_importobject,\n    NaNCheck,\n}};\n\n\n// Line 1\nfn create_module_1() -> ResultObject {{\n    let module_str = \"(module)\";\n    let wasm_binary = wat2wasm(module_str.as_bytes()).expect(\"WAST not valid or malformed\");\n    instantiate(wasm_binary, spectest_importobject(), None).expect(\"WASM can't be instantiated\")\n}}\n\nfn start_module_1(result_object: &ResultObject) {{\n    result_object.instance.start();\n}}\n\n#[test]\nfn test_module_1() {{\n    let result_object = create_module_1();\n    // We group the calls together\n    start_module_1(&result_object);\n}}\n",
        BANNER
    );
    assert_eq!(text, expected);
    assert_eq!(count(&text, "#[test]"), 1);
    assert_eq!(count(&text, "(&result_object);"), 1);
}

#[test]
fn three_return_assertions_aggregate_into_one_test_in_order() {
    let ds = vec![
        module(1, "(module)"),
        assert_return(2, "add", vec![Value::Int32(1), Value::Int32(2)], vec![Value::Int32(3)]),
        assert_return(3, "add", vec![Value::Int32(4), Value::Int32(5)], vec![Value::Int32(9)]),
        assert_return(4, "add", vec![Value::Int32(0), Value::Int32(0)], vec![Value::Int32(0)]),
    ];
    let (text, n) = generate("add.wast", &ds);
    assert_eq!(n, 4);
    assert_eq!(count(&text, "#[test]"), 1);
    assert!(text.contains(
        "start_module_1(&result_object);\n    c1_l2_action_invoke(&result_object);\n    c2_l3_action_invoke(&result_object);\n    c3_l4_action_invoke(&result_object);"
    ));
    assert!(text.contains(
        "fn c1_l2_action_invoke(result_object: &ResultObject) {\n    println!(\"Executing function {}\", \"c1_l2_action_invoke\");\n    let func_index = match result_object.module.info.exports.get(\"add\") {\n        Some(&Export::Function(index)) => index,\n        _ => panic!(\"Function not found\"),\n    };\n    let invoke_fn: fn(i32, i32, &Instance) -> i32 = get_instance_function!(result_object.instance, func_index);\n    let result = invoke_fn(1 as i32, 2 as i32, &result_object.instance);\n    assert_eq!(result, 3 as i32);\n}\n"
    ));
}

#[test]
fn trap_assertion_stays_out_of_the_aggregate() {
    let ds = vec![
        module(1, "(module)"),
        Directive {
            line: 2,
            kind: DirectiveKind::AssertTrap {
                action: invoke("crash", vec![]),
            },
        },
    ];
    let (text, _) = generate("trap.wast", &ds);
    assert_eq!(count(&text, "#[test]"), 2);
    assert!(text.contains(
        "\n#[test]\nfn c1_l2_assert_trap() {\n    let result_object = create_module_1();\n    let result = call_protected!(c1_l2_action_invoke(&result_object));\n    assert!(result.is_err());\n}\n"
    ));
    // The guarded call is the only use; it never joins the aggregate, which
    // holds the start call alone.
    assert_eq!(count(&text, "c1_l2_action_invoke(&result_object)"), 1);
    assert!(text.contains(
        "fn test_module_1() {\n    let result_object = create_module_1();\n    // We group the calls together\n    start_module_1(&result_object);\n}\n"
    ));
}

#[test]
fn nan_expectation_checks_nan_and_sign_not_equality() {
    let ds = vec![
        module(1, "(module)"),
        assert_return(2, "f64.neg", vec![Value::Float64(0)], vec![Value::Float64(
            0xfff8000000000001,
        )]),
    ];
    let (text, _) = generate("nan.wast", &ds);
    assert!(text.contains(
        "assert!(result.is_nan());\n            assert_eq!(result.is_sign_positive(), (f64::from_bits(18444492273895866369)).is_sign_positive());"
    ));
    assert!(!text.contains("assert_eq!(result, f64::from_bits(18444492273895866369));"));
}

#[test]
fn second_module_flushes_the_first_before_its_own_directives() {
    let ds = vec![
        module(1, "(module)"),
        module(3, "(module)"),
        assert_return(4, "get", vec![], vec![Value::Int64(7)]),
        assert_return(5, "get", vec![], vec![Value::Int64(8)]),
    ];
    let (text, n) = generate("two.wast", &ds);
    assert_eq!(n, 4);
    assert_eq!(count(&text, "#[test]"), 2);
    let first_flush = text.find("fn test_module_1()").unwrap();
    let second_fixture = text.find("fn create_module_2()").unwrap();
    assert!(first_flush < second_fixture);
    // Module 1's aggregate holds its start call alone.
    assert!(text.contains(
        "fn test_module_1() {\n    let result_object = create_module_1();\n    // We group the calls together\n    start_module_1(&result_object);\n}\n"
    ));
    // Module 2's aggregate is flushed only at end of stream, after both
    // invocation functions were emitted.
    let second_flush = text.find("fn test_module_2()").unwrap();
    let last_action = text.find("fn c3_l5_action_invoke(").unwrap();
    assert!(last_action < second_flush);
    assert!(text.contains(
        "start_module_2(&result_object);\n    c2_l4_action_invoke(&result_object);\n    c3_l5_action_invoke(&result_object);"
    ));
}

#[test]
fn regeneration_is_byte_identical() {
    let ds = vec![
        module(1, "(module)"),
        assert_return(2, "f", vec![Value::Float32(0x7fc00001)], vec![Value::Float32(0x7fc00001)]),
        Directive {
            line: 3,
            kind: DirectiveKind::AssertInvalid {
                bytes: vec![0, 97, 115, 109],
            },
        },
    ];
    let (a, na) = generate("same.wast", &ds);
    let (b, nb) = generate("same.wast", &ds);
    assert_eq!(a, b);
    assert_eq!(na, nb);
}

#[test]
fn invalid_and_malformed_embed_raw_bytes() {
    let ds = vec![
        Directive {
            line: 1,
            kind: DirectiveKind::AssertInvalid {
                bytes: vec![0, 1, 2],
            },
        },
        Directive {
            line: 2,
            kind: DirectiveKind::AssertMalformed { bytes: vec![] },
        },
    ];
    let (text, _) = generate("bad.wast", &ds);
    assert!(text.contains(
        "#[test]\nfn c0_l1_assert_invalid() {\n    let wasm_binary = [0, 1, 2];\n    let compilation = compile(wasm_binary.to_vec());\n    assert!(compilation.is_err(), \"WASM should not compile as is invalid\");\n}\n"
    ));
    assert!(text.contains(
        "#[test]\nfn c1_l2_assert_malformed() {\n    let wasm_binary = [];\n    let compilation = compile(wasm_binary.to_vec());\n    assert!(compilation.is_err(), \"WASM should not compile as is malformed\");\n}\n"
    ));
}

#[test]
fn canonical_nan_annotation_follows_promote_names() {
    let ds = vec![
        module(1, "(module)"),
        Directive {
            line: 2,
            kind: DirectiveKind::AssertReturnCanonicalNan {
                action: invoke("f64.promote_f32", vec![Value::Float32(0x7fc00000)]),
            },
        },
        Directive {
            line: 3,
            kind: DirectiveKind::AssertReturnCanonicalNan {
                action: invoke("f32.promote_f64", vec![Value::Float64(0)]),
            },
        },
        Directive {
            line: 4,
            kind: DirectiveKind::AssertReturnCanonicalNan {
                action: invoke("f64.sqrt", vec![Value::Float64(0)]),
            },
        },
        Directive {
            line: 5,
            kind: DirectiveKind::AssertReturnArithmeticNan {
                action: invoke("f32.mul", vec![Value::Float32(0x7fc00000)]),
            },
        },
    ];
    let (text, _) = generate("conv.wast", &ds);
    assert!(text.contains("fn(f32, &Instance) -> f64 = get_instance_function!"));
    assert!(text.contains("fn(f64, &Instance) -> f32 = get_instance_function!"));
    assert!(text.contains("fn(f64, &Instance) -> f64 = get_instance_function!"));
    assert!(text.contains("fn(f32, &Instance) -> f32 = get_instance_function!"));
    assert_eq!(count(&text, "assert!(result.is_quiet_nan())"), 4);
    assert!(text.contains("c1_l2_assert_return_canonical_nan(&result_object);"));
    assert!(text.contains("c4_l5_assert_return_arithmetic_nan(&result_object);"));
}

#[test]
fn perform_action_emits_call_without_check() {
    let ds = vec![
        module(1, "(module)"),
        Directive {
            line: 2,
            kind: DirectiveKind::PerformAction {
                action: invoke("init", vec![Value::Int32(1)]),
            },
        },
    ];
    let (text, _) = generate("act.wast", &ds);
    assert!(text.contains(
        "let invoke_fn: fn(i32, &Instance) = get_instance_function!(result_object.instance, func_index);\n    let result = invoke_fn(1 as i32, &result_object.instance);\n    \n}\n"
    ));
    assert!(text.contains("c1_l2_action_invoke(&result_object);"));
}

#[test]
fn get_actions_and_uncovered_kinds_emit_nothing() {
    let before = vec![module(1, "(module)")];
    let (base, _) = generate("quiet.wast", &before);
    let ds = vec![
        module(1, "(module)"),
        Directive {
            line: 2,
            kind: DirectiveKind::AssertReturn {
                action: Action::Get {
                    field: "g".to_string(),
                },
                expected: vec![Value::Int32(0)],
            },
        },
        Directive {
            line: 3,
            kind: DirectiveKind::AssertUninstantiable { bytes: vec![1] },
        },
        Directive {
            line: 4,
            kind: DirectiveKind::AssertExhaustion {
                action: invoke("loop_forever", vec![]),
            },
        },
        Directive {
            line: 5,
            kind: DirectiveKind::AssertUnlinkable { bytes: vec![2] },
        },
        Directive {
            line: 6,
            kind: DirectiveKind::Register {
                name: Some("m".to_string()),
                as_name: "n".to_string(),
            },
        },
    ];
    let (text, n) = generate("quiet.wast", &ds);
    assert_eq!(n, 6);
    // Beyond the line markers, nothing joins the output or the aggregate.
    assert_eq!(count(&text, "#[test]"), count(&base, "#[test]"));
    assert_eq!(count(&text, "(&result_object);"), 1);
    assert!(text.contains("// Line 6"));
}

#[test]
fn wat_text_is_escaped_and_indented() {
    let ds = vec![module(1, "(module\n  (func \"a\\b\"))")];
    let (text, _) = generate("esc.wast", &ds);
    assert!(text.contains(
        "let module_str = \"(module\n      (func \\\"a\\\\b\\\"))\";"
    ));
}

#[test]
fn export_names_are_quoted_in_lookups() {
    let ds = vec![
        module(1, "(module)"),
        assert_return(2, "two \"words\"", vec![], vec![]),
    ];
    let (text, _) = generate("q.wast", &ds);
    assert!(text.contains("exports.get(\"two \\\"words\\\"\")"));
    assert!(text.contains("assert_eq!(result, ());"));
}

#[test]
fn empty_stream_yields_header_alone() {
    let (text, n) = generate("empty.wast", &Vec::new());
    assert_eq!(n, 0);
    let expected = format!(
        "{}// Test based on spectests/empty.wast\n#![allow(\n    warnings,\n    dead_code\n)]\nuse wabt::wat2wasm;\n\nuse crate::webassembly::{{instantiate, compile, ImportObject, ResultObject, Instance, Export}};\nuse super::_common::{{\n    spectest_importobject,\n    NaNCheck,\n}};\n\n",
        BANNER
    );
    assert_eq!(text, expected);
}

#[test]
fn second_flush_of_a_module_is_a_no_op() {
    let mut g = Generator::new("re.wast".to_string());
    g.consume(&vec![
        module(1, "(module)"),
        assert_return(2, "f", vec![], vec![]),
    ]);
    let before = g.finalize().clone();
    g.flush_module_calls(1);
    assert_eq!(g.finalize(), &before);
}

#[test]
fn stepwise_generation_matches_counters() {
    let mut g = Generator::new("inc.wast".to_string());
    assert_eq!(g.command_no(), 0);
    assert_eq!(g.last_module(), 0);
    let ds = vec![
        module(7, "(module)"),
        assert_return(9, "f", vec![], vec![]),
        assert_return(9, "f", vec![], vec![]),
    ];
    g.consume(&ds);
    assert_eq!(g.command_no(), 3);
    assert_eq!(g.last_module(), 1);
    // Two directives on one source line still get distinct identifiers.
    let text = g.finalize();
    assert!(text.contains("fn c1_l9_action_invoke("));
    assert!(text.contains("fn c2_l9_action_invoke("));
}
