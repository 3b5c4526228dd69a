//! The engine's laws, stated and proved over the same models that the public
//! contracts speak of.

use vstd::prelude::*;

use crate::error::SpecError;
use crate::eval::{apply_function, arity_ok, call_dynamic, eval, lookup_var};
use crate::expr::{clone_post, from_text_post, Expr};
use crate::function::{Callable, ConstFunction, Function};
use crate::parse::spec_compile;
use crate::value::SpecValue;

verus! {

/// Determinism: two well-formed compiled handles over identical source text
/// cache identical units, and those units show identical behaviour on
/// identical contexts and registries.
pub proof fn lemma_compile_deterministic<F: Callable>(e1: Expr<F>, e2: Expr<F>)
    requires
        e1.wf(),
        e2.wf(),
        e1.source() == e2.source(),
        e1.cache() is Some,
        e2.cache() is Some,
    ensures
        e1.cache() == e2.cache(),
        forall|
            cs: Seq<Map<Seq<char>, SpecValue>>,
            fs: Map<Seq<char>, Function<F>>,
            cf: Map<Seq<char>, ConstFunction<F>>,
        |
            #[trigger] eval(e1.cache()->0, cs, fs, cf) == eval(e2.cache()->0, cs, fs, cf),
{
}

/// Priority: for a name bound in both registries, resolution always yields
/// the dynamic function's outcome; what the const registry binds under the
/// name plays no part in the result.
pub proof fn lemma_dynamic_priority<F: Callable>(
    name: Seq<char>,
    args: Seq<SpecValue>,
    fs: Map<Seq<char>, Function<F>>,
    cf: Map<Seq<char>, ConstFunction<F>>,
    other_cf: Map<Seq<char>, ConstFunction<F>>,
)
    requires
        fs.contains_key(name),
        cf.contains_key(name),
    ensures
        apply_function(name, args, fs, cf) == call_dynamic(fs[name], name, args),
        apply_function(name, args, fs, cf) == apply_function(name, args, fs, other_cf),
{
}

/// Shadowing: a name bound in the innermost frame resolves there, shadowing
/// any outer binding; with the innermost frame removed, resolution falls
/// back to the outer frames.
pub proof fn lemma_shadowing(
    outer: Seq<Map<Seq<char>, SpecValue>>,
    inner: Map<Seq<char>, SpecValue>,
    x: Seq<char>,
)
    ensures
        inner.contains_key(x) ==> lookup_var(outer.push(inner), x) == Some(inner[x]),
        !inner.contains_key(x) ==> lookup_var(outer.push(inner), x) == lookup_var(outer, x),
{
    assert(outer.push(inner).drop_last() =~= outer);
}

/// Arity: a resolved call runs the body exactly when the argument count lies
/// within the declared bounds, and otherwise fails with the arity error
/// naming the function and the expected range. With bounds 1 and 2, counts
/// 1 and 2 run the body and counts 0 and 3 fail.
pub proof fn lemma_arity<F: Callable>(f: Function<F>, name: Seq<char>, args: Seq<SpecValue>)
    ensures
        arity_ok(f.min_args, f.max_args, args.len()) ==> call_dynamic(f, name, args)
            == f.compiled.spec_call(args),
        !arity_ok(f.min_args, f.max_args, args.len()) ==> call_dynamic(f, name, args) == Err::<
            SpecValue,
            SpecError,
        >(
            SpecError::Arity {
                name,
                min: f.min_args,
                max: f.max_args,
                actual: args.len() as usize,
            },
        ),
        f.min_args == Some(1usize) && f.max_args == Some(2usize) ==> (arity_ok(
            f.min_args,
            f.max_args,
            args.len(),
        ) <==> 1 <= args.len() <= 2),
{
}

/// Round trip: a handle rebuilt from another handle's text equals it by
/// source text, exactly as a fresh handle constructed from that source does,
/// and carries none of the original's bound functions or values — only a
/// fresh compilation of the source.
pub proof fn lemma_text_round_trip<F: Callable>(h: Expr<F>, rt: Expr<F>, fresh: Expr<F>)
    requires
        from_text_post(rt, h.source()),
        fresh.source() == h.source(),
    ensures
        rt.source() == fresh.source(),
        rt.dyn_functions() == Map::<Seq<char>, Function<F>>::empty(),
        rt.stack() == seq![Map::<Seq<char>, SpecValue>::empty()],
        rt.cache() == spec_compile(h.source()),
{
}

/// Duplication: the copy starts with an EMPTY dynamic registry whatever the
/// original holds, so no dynamic function of the original is visible in the
/// copy; a dynamic function bound in the copy afterwards stands in the
/// copy's registry alone, and the original's registry — a value the copy's
/// operations never touch — is unaffected. The const registry, by contrast,
/// is the same shared instance on both sides.
pub proof fn lemma_duplicate_isolation<F: Callable>(
    orig: Expr<F>,
    copy: Expr<F>,
    copy2: Expr<F>,
    name: Seq<char>,
    f: Function<F>,
)
    requires
        clone_post(copy, orig),
        copy2.dyn_functions() == copy.dyn_functions().insert(name, f),
        copy2.const_registry() == copy.const_registry(),
    ensures
        copy.dyn_functions() == Map::<Seq<char>, Function<F>>::empty(),
        copy2.dyn_functions() == Map::<Seq<char>, Function<F>>::empty().insert(name, f),
        copy2.const_registry() == orig.const_registry(),
        forall|n: Seq<char>| n != name ==> !copy2.dyn_functions().contains_key(n),
{
}

} // verus!
