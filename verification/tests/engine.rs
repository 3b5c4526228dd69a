//! End-to-end tests of the compile/execute pipeline: scenarios, resolution
//! priority, shadowing, arity, round trips and duplication.

use expreval::{
    create_empty_contexts, Callable, ConstFunction, Context, Error, ExecOptions, Expr, Function,
    Table, Value, ValueKind,
};

/// Test behaviours for bound functions.
#[derive(Clone, Copy)]
enum TestFn {
    /// Largest integer argument.
    Max,
    /// A constant, whatever the arguments.
    Always(i64),
    /// Always fails with an opaque error.
    Fail,
}

impl Callable for TestFn {
    // The ghost model of the behaviour; it is erased and never runs.
    fn spec_call(
        &self,
        _args: vstd::prelude::Seq<expreval::value::SpecValue>,
    ) -> Result<expreval::value::SpecValue, expreval::error::SpecError> {
        unreachable!()
    }

    fn call(&self, args: Vec<Value>) -> Result<Value, Error> {
        match self {
            TestFn::Max => {
                let mut best: Option<i64> = None;
                for a in args {
                    if let Value::Int(x) = a {
                        best = Some(match best {
                            Some(b) if b >= x => b,
                            _ => x,
                        });
                    } else {
                        return Err(Error::Custom(String::from("max: not an integer")));
                    }
                }
                match best {
                    Some(b) => Ok(Value::Int(b)),
                    None => Err(Error::Custom(String::from("max: no arguments"))),
                }
            }
            TestFn::Always(n) => Ok(Value::Int(*n)),
            TestFn::Fail => Err(Error::Custom(String::from("boom"))),
        }
    }
}

fn max_fn(min: Option<usize>, max: Option<usize>) -> Function<TestFn> {
    let mut f = Function::new(TestFn::Max);
    f.min_args = min;
    f.max_args = max;
    f
}

#[test]
fn scenario_sum_of_two_variables() {
    let mut e: Expr<TestFn> = Expr::new("a + b")
        .value("a", Value::Int(2))
        .value("b", Value::Int(3))
        .compile()
        .unwrap();
    assert_eq!(e.exec(), Ok(Value::Int(5)));
    // Executing again reuses the cached unit and yields the same value.
    assert_eq!(e.exec(), Ok(Value::Int(5)));
}

#[test]
fn scenario_sum_without_compiling() {
    let mut e: Expr<TestFn> = Expr::new("a + b")
        .value("a", Value::Int(2))
        .value("b", Value::Int(3));
    assert!(e.get_compiled().is_none());
    assert_eq!(e.exec(), Ok(Value::Int(5)));
    // Execution on demand caches nothing.
    assert!(e.get_compiled().is_none());
}

#[test]
fn scenario_max_with_exact_arity() {
    let mut e: Expr<TestFn> = Expr::new("max(a, b)")
        .function("max", max_fn(Some(2), Some(2)))
        .value("a", Value::Int(2))
        .value("b", Value::Int(7))
        .compile()
        .unwrap();
    assert_eq!(e.exec(), Ok(Value::Int(7)));

    let mut short: Expr<TestFn> = Expr::new("max(a)")
        .function("max", max_fn(Some(2), Some(2)))
        .value("a", Value::Int(2));
    assert_eq!(
        short.exec(),
        Err(Error::Arity {
            name: String::from("max"),
            min: Some(2),
            max: Some(2),
            actual: 1,
        })
    );
}

#[test]
fn scenario_unresolved_variable() {
    let mut e: Expr<TestFn> = Expr::new("x").compile().unwrap();
    assert_eq!(e.exec(), Err(Error::UnresolvedVariable(String::from("x"))));
}

#[test]
fn scenario_duplicate_runs_against_new_context() {
    let orig: Expr<TestFn> = Expr::new("a")
        .value("a", Value::Int(1))
        .compile()
        .unwrap();
    let mut copy = orig.clone().value("a", Value::Int(42));
    assert_eq!(copy.exec(), Ok(Value::Int(42)));
    let mut orig = orig;
    assert_eq!(orig.exec(), Ok(Value::Int(1)));
}

#[test]
fn determinism_identical_source_identical_behaviour() {
    let make = || -> Expr<TestFn> {
        Expr::new("max(a, 3) + b")
            .function("max", max_fn(None, None))
            .value("a", Value::Int(9))
            .value("b", Value::Int(1))
            .compile()
            .unwrap()
    };
    let mut e1 = make();
    let mut e2 = make();
    assert_eq!(e1.exec(), e2.exec());
    assert_eq!(e1.exec(), Ok(Value::Int(10)));
}

#[test]
fn priority_dynamic_wins_over_const() {
    let mut e: Expr<TestFn> = Expr::new("f()")
        .function("f", Function::new(TestFn::Always(10)))
        .const_function("f", ConstFunction::new(TestFn::Always(20)))
        .compile()
        .unwrap();
    assert_eq!(e.exec(), Ok(Value::Int(10)));
}

#[test]
fn const_function_resolves_when_dynamic_lacks_name() {
    let mut e: Expr<TestFn> = Expr::new("f()")
        .const_function("f", ConstFunction::new(TestFn::Always(20)))
        .compile()
        .unwrap();
    assert_eq!(e.exec(), Ok(Value::Int(20)));
}

#[test]
fn shadowing_inner_frame_wins_and_removal_uncovers_outer() {
    let e: Expr<TestFn> = Expr::new("x").compile().unwrap();

    let mut outer = Context::new();
    outer.insert("x", Value::Int(1));
    let mut inner = Context::new();
    inner.insert("x", Value::Int(2));

    let mut frames = vec![outer.clone(), inner];
    let got = ExecOptions::new(&e).contexts(&frames).exec();
    assert_eq!(got, Ok(Value::Int(2)));

    frames.pop();
    let got = ExecOptions::new(&e).contexts(&frames).exec();
    assert_eq!(got, Ok(Value::Int(1)));
}

#[test]
fn arity_bounds_one_to_two() {
    let run = |src: &str| -> Result<Value, Error> {
        let mut e: Expr<TestFn> = Expr::new(src)
            .function("max", max_fn(Some(1), Some(2)))
            .value("a", Value::Int(4))
            .value("b", Value::Int(6))
            .value("c", Value::Int(8))
            .compile()
            .unwrap();
        e.exec()
    };
    let arity_err = |actual: usize| {
        Err(Error::Arity {
            name: String::from("max"),
            min: Some(1),
            max: Some(2),
            actual,
        })
    };
    assert_eq!(run("max()"), arity_err(0));
    assert_eq!(run("max(a)"), Ok(Value::Int(4)));
    assert_eq!(run("max(a, b)"), Ok(Value::Int(6)));
    assert_eq!(run("max(a, b, c)"), arity_err(3));
}

#[test]
fn round_trip_keeps_source_and_drops_bindings() {
    let orig: Expr<TestFn> = Expr::new("a + b")
        .function("max", max_fn(None, None))
        .value("a", Value::Int(2))
        .value("b", Value::Int(3))
        .compile()
        .unwrap();
    let text = orig.to_text();
    assert_eq!(text, String::from("a + b"));

    let rt: Expr<TestFn> = Expr::from_text(&text).unwrap();
    // Equal by source text to a fresh construction from the same source.
    assert!(rt == Expr::new("a + b"));
    assert!(rt == orig);
    // Freshly compiled...
    assert!(rt.get_compiled().is_some());
    // ... but carrying none of the original's bound values.
    let mut rt = rt;
    assert_eq!(rt.exec(), Err(Error::UnresolvedVariable(String::from("a"))));
}

#[test]
fn from_text_rejects_malformed_source() {
    let r: Result<Expr<TestFn>, Error> = Expr::from_text("a +");
    assert_eq!(r.err(), Some(Error::Compile));
}

#[test]
fn duplicate_empties_dynamic_registry_and_shares_const_registry() {
    // The original's dynamic function is invisible in the copy.
    let orig: Expr<TestFn> = Expr::new("f()")
        .function("f", Function::new(TestFn::Always(1)))
        .compile()
        .unwrap();
    let mut copy = orig.clone();
    assert_eq!(copy.exec(), Err(Error::UnresolvedFunction(String::from("f"))));
    let mut orig = orig;
    assert_eq!(orig.exec(), Ok(Value::Int(1)));

    // A dynamic function bound in the copy is invisible to the original.
    let plain: Expr<TestFn> = Expr::new("g()").compile().unwrap();
    let mut bound_copy = plain.clone().function("g", Function::new(TestFn::Always(2)));
    assert_eq!(bound_copy.exec(), Ok(Value::Int(2)));
    let mut plain = plain;
    assert_eq!(plain.exec(), Err(Error::UnresolvedFunction(String::from("g"))));

    // A const function bound through the copy is visible through the
    // original: they share one registry.
    let base: Expr<TestFn> = Expr::new("h()").compile().unwrap();
    let twin = base.clone();
    let _twin = twin.const_function("h", ConstFunction::new(TestFn::Always(7)));
    let mut base = base;
    assert_eq!(base.exec(), Ok(Value::Int(7)));

    // And one bound through the original is visible through the copy.
    let first: Expr<TestFn> = Expr::new("k()").compile().unwrap();
    let mut second = first.clone();
    let _first = first.const_function("k", ConstFunction::new(TestFn::Always(9)));
    assert_eq!(second.exec(), Ok(Value::Int(9)));
}

#[test]
fn exec_options_default_to_empty_bindings() {
    // The options do NOT see the handle's own contexts or dynamic functions.
    let e: Expr<TestFn> = Expr::new("a")
        .value("a", Value::Int(5))
        .compile()
        .unwrap();
    let got = ExecOptions::new(&e).exec();
    assert_eq!(got, Err(Error::UnresolvedVariable(String::from("a"))));
}

#[test]
fn exec_options_override_functions() {
    let e: Expr<TestFn> = Expr::new("f(x)").compile().unwrap();
    let mut fns: Table<Function<TestFn>> = Table::new();
    fns.insert("f", Function::new(TestFn::Always(11)));
    let mut ctx = Context::new();
    ctx.insert("x", Value::Int(0));
    let frames = vec![ctx];
    let got = ExecOptions::new(&e).contexts(&frames).functions(&fns).exec();
    assert_eq!(got, Ok(Value::Int(11)));
}

#[test]
fn exec_options_compile_on_demand() {
    let e: Expr<TestFn> = Expr::new("1 + 2");
    assert_eq!(ExecOptions::new(&e).exec(), Ok(Value::Int(3)));
    let bad: Expr<TestFn> = Expr::new("1 +");
    assert_eq!(ExecOptions::new(&bad).exec(), Err(Error::Compile));
}

#[test]
fn callable_failure_propagates_verbatim() {
    let mut e: Expr<TestFn> = Expr::new("f()")
        .function("f", Function::new(TestFn::Fail))
        .compile()
        .unwrap();
    assert_eq!(e.exec(), Err(Error::Custom(String::from("boom"))));
}

#[test]
fn unresolved_function_error() {
    let mut e: Expr<TestFn> = Expr::new("nosuch(1)").compile().unwrap();
    assert_eq!(
        e.exec(),
        Err(Error::UnresolvedFunction(String::from("nosuch")))
    );
}

#[test]
fn evaluation_error_names_operator_and_kinds() {
    let mut e: Expr<TestFn> = Expr::new("a + b")
        .value("a", Value::Str(String::from("two")))
        .value("b", Value::Int(3));
    assert_eq!(
        e.exec(),
        Err(Error::Evaluation {
            op: '+',
            left: ValueKind::Str,
            right: ValueKind::Int,
        })
    );
}

#[test]
fn addition_overflow_is_an_evaluation_error() {
    let mut e: Expr<TestFn> = Expr::new("a + b")
        .value("a", Value::Int(i64::MAX))
        .value("b", Value::Int(1));
    assert_eq!(
        e.exec(),
        Err(Error::Evaluation {
            op: '+',
            left: ValueKind::Int,
            right: ValueKind::Int,
        })
    );
}

#[test]
fn last_binding_of_a_name_wins() {
    let mut e: Expr<TestFn> = Expr::new("a")
        .value("a", Value::Int(1))
        .value("a", Value::Int(2));
    assert_eq!(e.exec(), Ok(Value::Int(2)));

    let mut f: Expr<TestFn> = Expr::new("f()")
        .function("f", Function::new(TestFn::Always(1)))
        .function("f", Function::new(TestFn::Always(2)));
    assert_eq!(f.exec(), Ok(Value::Int(2)));
}

#[test]
fn create_empty_contexts_has_one_empty_frame() {
    let frames = create_empty_contexts();
    assert_eq!(frames.len(), 1);
    assert!(frames[0].get("anything").is_none());
}

#[test]
fn get_compiled_reflects_the_cache() {
    let e: Expr<TestFn> = Expr::new("1 + 2");
    assert!(e.get_compiled().is_none());
    let e = e.compile().unwrap();
    assert!(e.get_compiled().is_some());
}

#[test]
fn compile_rejects_malformed_source() {
    for src in ["", "a +", "1 2", "f(", "(a)", "+", "f(,)", "9999999999999999999"] {
        let r: Result<Expr<TestFn>, Error> = Expr::new(src).compile();
        assert_eq!(r.err(), Some(Error::Compile), "source {:?}", src);
    }
}

#[test]
fn parser_accepts_whitespace_nested_calls_and_literals() {
    let mut e: Expr<TestFn> = Expr::new("  max( max(1, 2) , 3 + 4 )  ")
        .function("max", max_fn(None, None))
        .compile()
        .unwrap();
    assert_eq!(e.exec(), Ok(Value::Int(7)));

    let mut lit: Expr<TestFn> = Expr::new("123456789012345678").compile().unwrap();
    assert_eq!(lit.exec(), Ok(Value::Int(123456789012345678)));

    let mut empty_call: Expr<TestFn> = Expr::new("f()")
        .function("f", Function::new(TestFn::Always(0)))
        .compile()
        .unwrap();
    assert_eq!(empty_call.exec(), Ok(Value::Int(0)));
}

#[test]
fn context_lookup_and_overwrite() {
    let mut c = Context::new();
    assert!(c.get("x").is_none());
    c.insert("x", Value::Int(1));
    c.insert("x", Value::Int(9));
    assert_eq!(c.get("x"), Some(&Value::Int(9)));
    let d = c.clone();
    assert_eq!(d.get("x"), Some(&Value::Int(9)));
}

#[test]
fn values_compare_structurally() {
    let a = Value::Array(vec![Value::Int(1), Value::Str(String::from("s"))]);
    let b = a.clone();
    assert_eq!(a, b);
    assert_ne!(a, Value::Array(vec![Value::Int(1)]));
    let o = Value::Object(vec![(String::from("k"), Value::Bool(true))]);
    assert_eq!(o.clone(), o);
}
