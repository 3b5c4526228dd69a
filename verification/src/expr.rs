//! The expression handle: owns source text, an optional cached executable
//! unit, an exclusively-owned dynamic function registry, a shared const
//! function registry, and a context stack; compiled once, executed many
//! times. `ExecOptions` runs one execution with ad hoc overrides.

use vstd::prelude::*;
use vstd::rwlock::{RwLock, RwLockPredicate};

use crate::ast::{view_ast, Ast, SpecAst};
use crate::context::{stack_view, Context};
use crate::error::{result_view, Error, SpecError};
use crate::eval::{eval, invoke_unit};
use crate::function::{Callable, ConstFunction, Function};
use crate::parse::{compile_source, spec_compile};
use crate::table::Table;
use crate::value::{SpecValue, Value};

verus! {

/// The predicate of the shared const registry's lock: any registry value may
/// be stored.
pub struct AnyRegistry;

impl<F: Callable> RwLockPredicate<Table<ConstFunction<F>>> for AnyRegistry {
    open spec fn inv(self, v: Table<ConstFunction<F>>) -> bool {
        true
    }
}

/// A fresh default context stack: a single empty frame.
pub fn create_empty_contexts() -> (r: Vec<Context>)
    ensures
        r@.len() == 1,
        r@[0]@ == Map::<Seq<char>, SpecValue>::empty(),
        stack_view(r@) == seq![Map::<Seq<char>, SpecValue>::empty()],
{
    let mut v: Vec<Context> = Vec::new();
    v.push(Context::new());
    proof {
        assert(stack_view(v@) =~= seq![Map::<Seq<char>, SpecValue>::empty()]);
    }
    v
}

/// The expression handle. Generic over the callable behaviour `F` that its
/// bound functions carry.
pub struct Expr<F: Callable> {
    expression: String,
    compiled: Option<Ast>,
    functions: Table<Function<F>>,
    const_functions: std::sync::Arc<RwLock<Table<ConstFunction<F>>, AnyRegistry>>,
    contexts: Vec<Context>,
}

/// The model of an optional cached unit.
pub open spec fn cache_view(c: Option<Ast>) -> Option<SpecAst> {
    match c {
        Some(a) => Some(view_ast(a)),
        None => None,
    }
}

/// The unit an execution runs: the cache when present, else what compiling
/// the source yields on demand.
pub open spec fn unit_of(source: Seq<char>, cache: Option<SpecAst>) -> Option<SpecAst> {
    match cache {
        Some(a) => Some(a),
        None => spec_compile(source),
    }
}

impl<F: Callable> Expr<F> {
    /// The source text, immutable after creation.
    pub closed spec fn source(&self) -> Seq<char> {
        self.expression@
    }

    /// The model of the cached unit, when the handle is compiled.
    pub closed spec fn cache(&self) -> Option<SpecAst> {
        cache_view(self.compiled)
    }

    /// The model of the exclusively-owned dynamic function registry.
    pub closed spec fn dyn_functions(&self) -> Map<Seq<char>, Function<F>> {
        self.functions@
    }

    /// The models of the context frames, innermost last.
    pub closed spec fn stack(&self) -> Seq<Map<Seq<char>, SpecValue>> {
        stack_view(self.contexts@)
    }

    /// The shared const function registry: the one entity a handle shares
    /// with every handle duplicated from it.
    pub closed spec fn const_registry(&self) -> std::sync::Arc<
        RwLock<Table<ConstFunction<F>>, AnyRegistry>,
    > {
        self.const_functions
    }

    /// Well-formedness: the stack always has at least one frame, and the
    /// cache, when present, is exactly what compiling the source yields.
    pub open spec fn wf(&self) -> bool {
        &&& self.stack().len() >= 1
        &&& match self.cache() {
            Some(a) => spec_compile(self.source()) == Some(a),
            None => true,
        }
    }

    /// Create a handle: the given source text, no cache, empty registries,
    /// and a single empty context frame.
    pub fn new(expr: &str) -> (r: Expr<F>)
        ensures
            r.wf(),
            r.source() == expr@,
            r.cache() is None,
            r.dyn_functions() == Map::<Seq<char>, Function<F>>::empty(),
            r.stack() == seq![Map::<Seq<char>, SpecValue>::empty()],
    {
        let lock = RwLock::new(Table::new(), Ghost(AnyRegistry));
        Expr {
            expression: expr.to_owned(),
            compiled: None,
            functions: Table::new(),
            const_functions: std::sync::Arc::new(lock),
            contexts: create_empty_contexts(),
        }
    }

    /// Bind a dynamic function in the handle's own registry, overwriting any
    /// earlier binding of the name there. Highest resolution priority; never
    /// carried across duplication.
    pub fn function(self, name: &str, f: Function<F>) -> (r: Expr<F>)
        ensures
            r.source() == self.source(),
            r.cache() == self.cache(),
            r.stack() == self.stack(),
            r.const_registry() == self.const_registry(),
            r.dyn_functions() == self.dyn_functions().insert(name@, f),
            r.wf() == self.wf(),
    {
        let Expr { expression, compiled, mut functions, const_functions, contexts } = self;
        functions.insert(name, f);
        Expr { expression, compiled, functions, const_functions, contexts }
    }

    /// Bind a const function in the shared registry, overwriting any earlier
    /// binding of the name there. Lowest resolution priority; visible to
    /// every handle sharing the registry, that is to the handle's duplicates.
    pub fn const_function(self, name: &str, f: ConstFunction<F>) -> (r: Expr<F>)
        ensures
            r.source() == self.source(),
            r.cache() == self.cache(),
            r.stack() == self.stack(),
            r.const_registry() == self.const_registry(),
            r.dyn_functions() == self.dyn_functions(),
            r.wf() == self.wf(),
    {
        let (mut reg, handle) = self.const_functions.acquire_write();
        reg.insert(name, f);
        handle.release_write(reg);
        self
    }

    /// Bind a value in the innermost context frame, overwriting any earlier
    /// binding of the name there.
    pub fn value(self, name: &str, value: Value) -> (r: Expr<F>)
        requires
            self.wf(),
        ensures
            r.wf(),
            r.source() == self.source(),
            r.cache() == self.cache(),
            r.dyn_functions() == self.dyn_functions(),
            r.const_registry() == self.const_registry(),
            r.stack() == self.stack().update(
                self.stack().len() - 1,
                self.stack().last().insert(name@, value@),
            ),
    {
        let Expr { expression, compiled, functions, const_functions, mut contexts } = self;
        let mut frame = contexts.pop().unwrap();
        frame.insert(name, value);
        contexts.push(frame);
        let r = Expr { expression, compiled, functions, const_functions, contexts };
        proof {
            assert(r.stack() =~= self.stack().update(
                self.stack().len() - 1,
                self.stack().last().insert(name@, value@),
            ));
        }
        r
    }

    /// Compile the source text; a compiled handle caches the unit and
    /// invokes it on every execution. On failure the attempt is terminal:
    /// the handle is consumed, and the caller constructs a new one rather
    /// than retrying.
    pub fn compile(self) -> (r: Result<Expr<F>, Error>)
        ensures
            match r {
                Ok(e) => {
                    &&& spec_compile(self.source()) is Some
                    &&& e.cache() == spec_compile(self.source())
                    &&& e.source() == self.source()
                    &&& e.dyn_functions() == self.dyn_functions()
                    &&& e.stack() == self.stack()
                    &&& e.const_registry() == self.const_registry()
                    &&& self.stack().len() >= 1 ==> e.wf()
                },
                Err(err) => spec_compile(self.source()) is None && err@ == SpecError::Compile,
            },
    {
        let Expr { expression, compiled: _, functions, const_functions, contexts } = self;
        match compile_source(expression.as_str()) {
            Ok(a) => Ok(
                Expr { expression, compiled: Some(a), functions, const_functions, contexts },
            ),
            Err(e) => Err(e),
        }
    }

    /// A reference to the cached unit, when the handle is compiled.
    pub fn get_compiled(&self) -> (r: Option<&Ast>)
        ensures
            match r {
                Some(a) => self.cache() == Some(a@),
                None => self.cache() is None,
            },
    {
        self.compiled.as_ref()
    }

    /// Execute the expression against the handle's own contexts and
    /// registries. A compiled handle invokes its cached unit; an uncompiled
    /// one compiles on demand, runs once and caches nothing, so every such
    /// call repeats the compilation cost. The handle itself is unchanged.
    pub fn exec(&mut self) -> (r: Result<Value, Error>)
        ensures
            *final(self) == *old(self),
            exec_post(*old(self), r),
    {
        let read = self.const_functions.acquire_read();
        let cf = read.borrow();
        let ghost cfsnap: Table<ConstFunction<F>> = *cf;
        let result = run_with(&self.expression, &self.compiled, &self.contexts, &self.functions, cf);
        read.release_read();
        proof {
            if unit_of(self.source(), self.cache()) is Some {
                let a = unit_of(self.source(), self.cache())->0;
                assert(result_view(result) == eval(
                    a,
                    self.stack(),
                    self.dyn_functions(),
                    cfsnap@,
                ));
            }
        }
        result
    }

    /// The handle as text: its source text alone. Bound functions, bound
    /// values and the cache are not represented.
    pub fn to_text(&self) -> (r: String)
        ensures
            r@ == self.source(),
    {
        self.expression.clone()
    }

    /// A handle from text: freshly compiled, with empty registries and a
    /// single empty context frame. The conversion through text is
    /// intentionally lossy: only source text survives it.
    pub fn from_text(text: &str) -> (r: Result<Expr<F>, Error>)
        ensures
            match r {
                Ok(e) => from_text_post::<F>(e, text@),
                Err(err) => spec_compile(text@) is None && err@ == SpecError::Compile,
            },
    {
        Expr::<F>::new(text).compile()
    }
}

/// What a handle constructed from text alone looks like: the given source,
/// freshly compiled, empty dynamic registry, one empty context frame.
pub open spec fn from_text_post<F: Callable>(e: Expr<F>, text: Seq<char>) -> bool {
    &&& e.wf()
    &&& e.source() == text
    &&& spec_compile(text) is Some
    &&& e.cache() == spec_compile(text)
    &&& e.dyn_functions() == Map::<Seq<char>, Function<F>>::empty()
    &&& e.stack() == seq![Map::<Seq<char>, SpecValue>::empty()]
}

/// What an execution against a handle yields. The unit is the cache or the
/// on-demand compilation of the source; the stack and dynamic registry are
/// the given ones; the const registry is some value of the shared registry —
/// a handle sharing it may bind functions there at any time, so no more can
/// be pinned down here. `invoke_unit` carries the exact contract for a known
/// registry value.
pub open spec fn run_post<F: Callable>(
    source: Seq<char>,
    cache: Option<SpecAst>,
    cs: Seq<Map<Seq<char>, SpecValue>>,
    fs: Map<Seq<char>, Function<F>>,
    r: Result<Value, Error>,
) -> bool {
    match unit_of(source, cache) {
        Some(a) => exists|cf: Table<ConstFunction<F>>|
            result_view(r) == eval(a, cs, fs, cf@),
        None => r matches Err(e) && e@ == SpecError::Compile,
    }
}

/// What `Expr::exec` yields, against the handle's own stack and registries.
pub open spec fn exec_post<F: Callable>(h: Expr<F>, r: Result<Value, Error>) -> bool {
    run_post(h.source(), h.cache(), h.stack(), h.dyn_functions(), r)
}

/// Compile on demand when no unit is cached, then invoke: the execution body
/// shared by every path, with the const registry value in hand.
fn run_with<F: Callable>(
    expression: &String,
    compiled: &Option<Ast>,
    contexts: &Vec<Context>,
    functions: &Table<Function<F>>,
    cf: &Table<ConstFunction<F>>,
) -> (r: Result<Value, Error>)
    ensures
        match unit_of(expression@, cache_view(*compiled)) {
            Some(a) => result_view(r) == eval(a, stack_view(contexts@), functions@, cf@),
            None => r matches Err(e) && e@ == SpecError::Compile,
        },
{
    match compiled {
        Some(unit) => invoke_unit(unit, contexts, functions, cf),
        None => match compile_source(expression.as_str()) {
            Ok(unit) => invoke_unit(&unit, contexts, functions, cf),
            Err(e) => Err(e),
        },
    }
}

impl<F: Callable> Clone for Expr<F> {
    /// Duplication: an independent handle with the same source text and the
    /// same executable behaviour (the unit is a plain value, so the cache is
    /// carried by copy), a deep copy of the context stack, an EMPTY dynamic
    /// registry — callables are never assumed duplicable — and the SAME
    /// shared const registry, so a const function bound through either
    /// handle is visible through both.
    fn clone(&self) -> (r: Expr<F>)
        ensures
            clone_post(r, *self),
    {
        let compiled = match &self.compiled {
            Some(a) => Some(a.clone()),
            None => None,
        };
        let mut contexts: Vec<Context> = Vec::new();
        let mut idx: usize = 0;
        while idx < self.contexts.len()
            invariant
                idx <= self.contexts.len(),
                contexts@.len() == idx,
                forall|k: int| 0 <= k < idx ==> contexts@[k]@ == self.contexts@[k]@,
            decreases self.contexts.len() - idx,
        {
            let frame = self.contexts[idx].clone();
            contexts.push(frame);
            idx = idx + 1;
        }
        let r = Expr {
            expression: self.expression.clone(),
            compiled,
            functions: Table::new(),
            const_functions: std::sync::Arc::clone(&self.const_functions),
            contexts,
        };
        proof {
            assert(r.stack() =~= self.stack());
        }
        r
    }
}

/// What duplication yields, relating the copy to the original.
pub open spec fn clone_post<F: Callable>(r: Expr<F>, h: Expr<F>) -> bool {
    &&& r.source() == h.source()
    &&& r.cache() == h.cache()
    &&& r.dyn_functions() == Map::<Seq<char>, Function<F>>::empty()
    &&& r.stack() == h.stack()
    &&& r.const_registry() == h.const_registry()
    &&& (h.wf() ==> r.wf())
}

impl<F: Callable> PartialEq for Expr<F> {
    /// Two handles are equal exactly when their source texts are equal;
    /// cache state, registries and contexts are not compared.
    fn eq(&self, other: &Expr<F>) -> (r: bool) {
        self.expression == other.expression
    }
}

impl<F: Callable> vstd::std_specs::cmp::PartialEqSpecImpl for Expr<F> {
    open spec fn obeys_eq_spec() -> bool {
        true
    }

    open spec fn eq_spec(&self, other: &Expr<F>) -> bool {
        self.source() == other.source()
    }
}

/// Execute options: an ephemeral override of a handle's context stack or
/// dynamic registry for one execution, without mutating or duplicating the
/// handle. The const registry is always the handle's shared one and cannot
/// be overridden.
pub struct ExecOptions<'a, F: Callable> {
    expr: &'a Expr<F>,
    contexts: Option<&'a Vec<Context>>,
    functions: Option<&'a Table<Function<F>>>,
}

impl<'a, F: Callable> ExecOptions<'a, F> {
    /// The borrowed handle.
    pub closed spec fn handle(&self) -> Expr<F> {
        *self.expr
    }

    /// The overriding stack, when one was set.
    pub closed spec fn contexts_override(&self) -> Option<Seq<Map<Seq<char>, SpecValue>>> {
        match self.contexts {
            Some(cs) => Some(stack_view(cs@)),
            None => None,
        }
    }

    /// The overriding dynamic registry, when one was set.
    pub closed spec fn functions_override(&self) -> Option<Map<Seq<char>, Function<F>>> {
        match self.functions {
            Some(fs) => Some(fs@),
            None => None,
        }
    }

    /// The stack an execution will use: the override, or by default a single
    /// empty frame — not the handle's own stack.
    pub open spec fn effective_stack(&self) -> Seq<Map<Seq<char>, SpecValue>> {
        match self.contexts_override() {
            Some(cs) => cs,
            None => seq![Map::<Seq<char>, SpecValue>::empty()],
        }
    }

    /// The dynamic registry an execution will use: the override, or by
    /// default an empty registry — not the handle's own.
    pub open spec fn effective_functions(&self) -> Map<Seq<char>, Function<F>> {
        match self.functions_override() {
            Some(fs) => fs,
            None => Map::empty(),
        }
    }

    /// Options over a handle, with no overrides set.
    pub fn new(expr: &'a Expr<F>) -> (r: ExecOptions<'a, F>)
        ensures
            r.handle() == *expr,
            r.contexts_override() is None,
            r.functions_override() is None,
    {
        ExecOptions { expr, contexts: None, functions: None }
    }

    /// Set the context stack for executions through these options.
    pub fn contexts(self, contexts: &'a Vec<Context>) -> (r: ExecOptions<'a, F>)
        ensures
            r.handle() == self.handle(),
            r.contexts_override() == Some(stack_view(contexts@)),
            r.functions_override() == self.functions_override(),
    {
        let ExecOptions { expr, contexts: _, functions } = self;
        ExecOptions { expr, contexts: Some(contexts), functions }
    }

    /// Set the dynamic function registry for executions through these
    /// options.
    pub fn functions(self, functions: &'a Table<Function<F>>) -> (r: ExecOptions<'a, F>)
        ensures
            r.handle() == self.handle(),
            r.functions_override() == Some(functions@),
            r.contexts_override() == self.contexts_override(),
    {
        let ExecOptions { expr, contexts, functions: _ } = self;
        ExecOptions { expr, contexts, functions: Some(functions) }
    }

    /// Execute the handle's expression once against the effective stack and
    /// dynamic registry and the handle's shared const registry. The handle
    /// is not changed; a compiled handle's cached unit is reused, an
    /// uncompiled handle is compiled on demand with nothing cached.
    pub fn exec(&self) -> (r: Result<Value, Error>)
        ensures
            run_post(
                self.handle().source(),
                self.handle().cache(),
                self.effective_stack(),
                self.effective_functions(),
                r,
            ),
    {
        let empty_contexts = create_empty_contexts();
        let empty_functions: Table<Function<F>> = Table::new();
        let contexts: &Vec<Context> = match self.contexts {
            Some(cs) => cs,
            None => &empty_contexts,
        };
        let functions: &Table<Function<F>> = match self.functions {
            Some(fs) => fs,
            None => &empty_functions,
        };
        let read = self.expr.const_functions.acquire_read();
        let cf = read.borrow();
        let ghost cfsnap: Table<ConstFunction<F>> = *cf;
        let result = run_with(
            &self.expr.expression,
            &self.expr.compiled,
            contexts,
            functions,
            cf,
        );
        read.release_read();
        proof {
            if unit_of(self.handle().source(), self.handle().cache()) is Some {
                let a = unit_of(self.handle().source(), self.handle().cache())->0;
                assert(result_view(result) == eval(
                    a,
                    self.effective_stack(),
                    self.effective_functions(),
                    cfsnap@,
                ));
            }
        }
        result
    }
}

} // verus!
