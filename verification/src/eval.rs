//! Execution of a compiled unit: the resolution contract as a mathematical
//! model, and the evaluator proved against it.
//!
//! A unit holds no mutable state: what it yields is a function of the models
//! of the context stack and the two registries it is invoked with.

use vstd::prelude::*;

use crate::ast::{lemma_view_args, view_args, Ast, SpecAst};
use crate::context::{stack_view, Context};
use crate::error::{result_view, Error, SpecError};
use crate::function::{Callable, ConstFunction, Function};
use crate::table::Table;
use crate::value::{kind_of, lemma_view_value_seq, view_value_seq, SpecValue, Value, ValueKind};

verus! {

/// Variable resolution over a context stack: scan innermost (last frame) to
/// outermost; the first frame that binds the name wins, so an inner binding
/// shadows an outer one.
pub open spec fn lookup_var(cs: Seq<Map<Seq<char>, SpecValue>>, name: Seq<char>) -> Option<
    SpecValue,
>
    decreases cs.len(),
{
    if cs.len() == 0 {
        None
    } else if cs.last().contains_key(name) {
        Some(cs.last()[name])
    } else {
        lookup_var(cs.drop_last(), name)
    }
}

/// Whether an argument count satisfies declared arity bounds; an absent
/// bound is unconstrained on its side.
pub open spec fn arity_ok(min: Option<usize>, max: Option<usize>, n: nat) -> bool {
    &&& match min {
        Some(m) => n >= m as nat,
        None => true,
    }
    &&& match max {
        Some(m) => n <= m as nat,
        None => true,
    }
}

/// Addition: defined on two integers whose sum is representable; any other
/// operands, and an unrepresentable sum, fail with the operator and the
/// operand kinds.
pub open spec fn add_values(a: SpecValue, b: SpecValue) -> Result<SpecValue, SpecError> {
    match (a, b) {
        (SpecValue::Int(x), SpecValue::Int(y)) => if i64::MIN <= x + y <= i64::MAX {
            Ok(SpecValue::Int((x + y) as i64))
        } else {
            Err(SpecError::Evaluation { op: '+', left: ValueKind::Int, right: ValueKind::Int })
        },
        _ => Err(SpecError::Evaluation { op: '+', left: kind_of(a), right: kind_of(b) }),
    }
}

/// Run a dynamic function: the arity check, then the body; a failure of the
/// body is propagated unchanged.
pub open spec fn call_dynamic<F: Callable>(
    f: Function<F>,
    name: Seq<char>,
    args: Seq<SpecValue>,
) -> Result<SpecValue, SpecError> {
    if arity_ok(f.min_args, f.max_args, args.len()) {
        f.compiled.spec_call(args)
    } else {
        Err(
            SpecError::Arity {
                name,
                min: f.min_args,
                max: f.max_args,
                actual: args.len() as usize,
            },
        )
    }
}

/// Run a const function: the arity check, then the body; a failure of the
/// body is propagated unchanged.
pub open spec fn call_const<F: Callable>(
    f: ConstFunction<F>,
    name: Seq<char>,
    args: Seq<SpecValue>,
) -> Result<SpecValue, SpecError> {
    if arity_ok(f.min_args, f.max_args, args.len()) {
        f.compiled.spec_call(args)
    } else {
        Err(
            SpecError::Arity {
                name,
                min: f.min_args,
                max: f.max_args,
                actual: args.len() as usize,
            },
        )
    }
}

/// Function resolution, strict priority: the dynamic registry is used
/// whenever it binds the name, regardless of what the const registry
/// declares for the same name; only otherwise is the const registry
/// consulted; a name bound in neither fails.
pub open spec fn apply_function<F: Callable>(
    name: Seq<char>,
    args: Seq<SpecValue>,
    fs: Map<Seq<char>, Function<F>>,
    cf: Map<Seq<char>, ConstFunction<F>>,
) -> Result<SpecValue, SpecError> {
    if fs.contains_key(name) {
        call_dynamic(fs[name], name, args)
    } else if cf.contains_key(name) {
        call_const(cf[name], name, args)
    } else {
        Err(SpecError::UnresolvedFunction(name))
    }
}

/// What invoking a unit yields, given the models of the context stack and
/// the two registries.
pub open spec fn eval<F: Callable>(
    a: SpecAst,
    cs: Seq<Map<Seq<char>, SpecValue>>,
    fs: Map<Seq<char>, Function<F>>,
    cf: Map<Seq<char>, ConstFunction<F>>,
) -> Result<SpecValue, SpecError>
    decreases a, 1int,
{
    match a {
        SpecAst::Int(n) => Ok(SpecValue::Int(n)),
        SpecAst::Var(name) => match lookup_var(cs, name) {
            Some(v) => Ok(v),
            None => Err(SpecError::UnresolvedVariable(name)),
        },
        SpecAst::Add(l, r) => match eval(*l, cs, fs, cf) {
            Ok(x) => match eval(*r, cs, fs, cf) {
                Ok(y) => add_values(x, y),
                Err(e) => Err(e),
            },
            Err(e) => Err(e),
        },
        SpecAst::Call(name, args) => match eval_args(args, cs, fs, cf) {
            Ok(vals) => apply_function(name, vals, fs, cf),
            Err(e) => Err(e),
        },
    }
}

/// Evaluate an argument list strictly, left to right: each operand is fully
/// evaluated before the function is applied, and the first failure
/// short-circuits the rest.
pub open spec fn eval_args<F: Callable>(
    args: Seq<SpecAst>,
    cs: Seq<Map<Seq<char>, SpecValue>>,
    fs: Map<Seq<char>, Function<F>>,
    cf: Map<Seq<char>, ConstFunction<F>>,
) -> Result<Seq<SpecValue>, SpecError>
    decreases args, 0int,
{
    if args.len() == 0 {
        Ok(Seq::empty())
    } else {
        match eval(args[0], cs, fs, cf) {
            Ok(v) => match eval_args(args.subrange(1, args.len() as int), cs, fs, cf) {
                Ok(vs) => Ok(seq![v] + vs),
                Err(e) => Err(e),
            },
            Err(e) => Err(e),
        }
    }
}

/// Resolve a variable against a stack of frames, innermost last.
pub fn lookup_frames<'a>(contexts: &'a Vec<Context>, name: &str) -> (r: Option<&'a Value>)
    ensures
        match r {
            Some(v) => lookup_var(stack_view(contexts@), name@) == Some(v@),
            None => lookup_var(stack_view(contexts@), name@) is None,
        },
{
    let mut i = contexts.len();
    proof {
        assert(stack_view(contexts@).take(i as int) =~= stack_view(contexts@));
    }
    while i > 0
        invariant
            i <= contexts.len(),
            lookup_var(stack_view(contexts@), name@) == lookup_var(
                stack_view(contexts@).take(i as int),
                name@,
            ),
        decreases i,
    {
        proof {
            assert(stack_view(contexts@).take(i as int).drop_last() =~= stack_view(
                contexts@,
            ).take(i as int - 1));
            assert(stack_view(contexts@).take(i as int).last() == contexts@[i as int - 1]@);
        }
        match contexts[i - 1].get(name) {
            Some(v) => {
                return Some(v);
            },
            None => {
                i = i - 1;
            },
        }
    }
    None
}

fn add_exec(a: Value, b: Value) -> (r: Result<Value, Error>)
    ensures
        result_view(r) == add_values(a@, b@),
{
    let ak = a.kind();
    let bk = b.kind();
    match (a, b) {
        (Value::Int(x), Value::Int(y)) => match x.checked_add(y) {
            Some(z) => Ok(Value::Int(z)),
            None => Err(
                Error::Evaluation { op: '+', left: ValueKind::Int, right: ValueKind::Int },
            ),
        },
        _ => Err(Error::Evaluation { op: '+', left: ak, right: bk }),
    }
}

/// Invoke an executable unit once against a context stack and the two
/// registries: variables resolved innermost-first, functions resolved
/// dynamic-first, arity checked before any body runs, and every failure
/// short-circuiting.
pub fn invoke_unit<F: Callable>(
    unit: &Ast,
    contexts: &Vec<Context>,
    functions: &Table<Function<F>>,
    const_functions: &Table<ConstFunction<F>>,
) -> (r: Result<Value, Error>)
    ensures
        result_view(r) == eval(unit@, stack_view(contexts@), functions@, const_functions@),
    decreases *unit,
{
    match unit {
        Ast::Int(n) => Ok(Value::Int(*n)),
        Ast::Var(name) => match lookup_frames(contexts, name.as_str()) {
            Some(v) => Ok(v.clone()),
            None => Err(Error::UnresolvedVariable(name.clone())),
        },
        Ast::Add(l, r) => match invoke_unit(&**l, contexts, functions, const_functions) {
            Err(e) => Err(e),
            Ok(x) => match invoke_unit(&**r, contexts, functions, const_functions) {
                Err(e) => Err(e),
                Ok(y) => add_exec(x, y),
            },
        },
        Ast::Call(name, args) => {
            proof {
                lemma_view_args(args@);
            }
            let mut vals: Vec<Value> = Vec::new();
            let mut idx: usize = 0;
            proof {
                assert(view_args(args@).skip(0) =~= view_args(args@));
                assert(view_value_seq(vals@) =~= Seq::<SpecValue>::empty());
                let full = eval_args(
                    view_args(args@),
                    stack_view(contexts@),
                    functions@,
                    const_functions@,
                );
                if full is Ok {
                    assert(view_value_seq(vals@) + full->Ok_0 =~= full->Ok_0);
                }
            }
            while idx < args.len()
                invariant
                    idx <= args.len(),
                    *unit is Call,
                    *args == unit->Call_1,
                    view_args(args@).len() == args@.len(),
                    forall|t: int| 0 <= t < args@.len() ==> view_args(args@)[t] == args@[t]@,
                    vals@.len() == idx,
                    match eval_args(
                        view_args(args@).skip(idx as int),
                        stack_view(contexts@),
                        functions@,
                        const_functions@,
                    ) {
                        Ok(rest) => eval_args(
                            view_args(args@),
                            stack_view(contexts@),
                            functions@,
                            const_functions@,
                        ) == Ok::<Seq<SpecValue>, SpecError>(view_value_seq(vals@) + rest),
                        Err(e) => eval_args(
                            view_args(args@),
                            stack_view(contexts@),
                            functions@,
                            const_functions@,
                        ) == Err::<Seq<SpecValue>, SpecError>(e),
                    },
                decreases args.len() - idx,
            {
                proof {
                    let s1 = view_args(args@).skip(idx as int);
                    assert(s1[0] == args@[idx as int]@);
                    assert(s1.subrange(1, s1.len() as int) =~= view_args(args@).skip(
                        idx as int + 1,
                    ));
                }
                match invoke_unit(&args[idx], contexts, functions, const_functions) {
                    Err(e) => {
                        return Err(e);
                    },
                    Ok(v) => {
                        let ghost old_vals = vals@;
                        vals.push(v);
                        idx = idx + 1;
                        proof {
                            lemma_view_value_seq(old_vals);
                            lemma_view_value_seq(vals@);
                            assert(view_value_seq(vals@) =~= view_value_seq(old_vals).push(v@));
                            let rest1 = eval_args(
                                view_args(args@).skip(idx as int),
                                stack_view(contexts@),
                                functions@,
                                const_functions@,
                            );
                            if rest1 is Ok {
                                assert((view_value_seq(old_vals) + (seq![v@] + rest1->Ok_0))
                                    =~= (view_value_seq(vals@) + rest1->Ok_0));
                            }
                        }
                    },
                }
            }
            proof {
                assert(view_args(args@).skip(idx as int) =~= Seq::<SpecAst>::empty());
                assert(view_value_seq(vals@) + Seq::<SpecValue>::empty() =~= view_value_seq(
                    vals@,
                ));
                lemma_view_value_seq(vals@);
                assert(eval_args(
                    view_args(args@),
                    stack_view(contexts@),
                    functions@,
                    const_functions@,
                ) == Ok::<Seq<SpecValue>, SpecError>(view_value_seq(vals@)));
                assert(eval(unit@, stack_view(contexts@), functions@, const_functions@)
                    == apply_function(
                    name@,
                    view_value_seq(vals@),
                    functions@,
                    const_functions@,
                ));
            }
            match functions.get(name.as_str()) {
                Some(f) => {
                    let arity_fits = (match f.min_args {
                        Some(m) => vals.len() >= m,
                        None => true,
                    }) && (match f.max_args {
                        Some(m) => vals.len() <= m,
                        None => true,
                    });
                    if arity_fits {
                        f.compiled.call(vals)
                    } else {
                        Err(
                            Error::Arity {
                                name: name.clone(),
                                min: f.min_args,
                                max: f.max_args,
                                actual: vals.len(),
                            },
                        )
                    }
                },
                None => match const_functions.get(name.as_str()) {
                    Some(f) => {
                        let arity_fits = (match f.min_args {
                            Some(m) => vals.len() >= m,
                            None => true,
                        }) && (match f.max_args {
                            Some(m) => vals.len() <= m,
                            None => true,
                        });
                        if arity_fits {
                            f.compiled.call(vals)
                        } else {
                            Err(
                                Error::Arity {
                                    name: name.clone(),
                                    min: f.min_args,
                                    max: f.max_args,
                                    actual: vals.len(),
                                },
                            )
                        }
                    },
                    None => Err(Error::UnresolvedFunction(name.clone())),
                },
            }
        },
    }
}

} // verus!
