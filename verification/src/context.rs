//! One lexical scope: a mapping from variable names to values.

use vstd::prelude::*;

use crate::value::{view_value, SpecValue, Value};

verus! {

/// One scope frame binding names to values. Its model is a map from
/// character sequences to value models; a later insertion under the same name
/// overwrites the earlier one.
pub struct Context {
    entries: Vec<(String, Value)>,
}

/// The map a sequence of bindings denotes, with later bindings overriding
/// earlier ones.
pub open spec fn context_map(s: Seq<(String, Value)>) -> Map<Seq<char>, SpecValue>
    decreases s.len(),
{
    if s.len() == 0 {
        Map::empty()
    } else {
        context_map(s.drop_last()).insert(s.last().0@, view_value(s.last().1))
    }
}

impl View for Context {
    type V = Map<Seq<char>, SpecValue>;

    closed spec fn view(&self) -> Map<Seq<char>, SpecValue> {
        context_map(self.entries@)
    }
}

/// Lookup in a frame model as an option.
pub open spec fn frame_get(m: Map<Seq<char>, SpecValue>, k: Seq<char>) -> Option<SpecValue> {
    if m.contains_key(k) {
        Some(m[k])
    } else {
        None
    }
}

/// `context_map` depends only on the models of the bindings.
pub proof fn lemma_context_map_congruent(a: Seq<(String, Value)>, b: Seq<(String, Value)>)
    requires
        a.len() == b.len(),
        forall|i: int| 0 <= i < a.len() ==> a[i].0@ == b[i].0@ && view_value(a[i].1) == view_value(
            b[i].1,
        ),
    ensures
        context_map(a) == context_map(b),
    decreases a.len(),
{
    if a.len() > 0 {
        lemma_context_map_congruent(a.drop_last(), b.drop_last());
    }
}

impl Context {
    /// An empty scope.
    pub fn new() -> (r: Context)
        ensures
            r@ == Map::<Seq<char>, SpecValue>::empty(),
    {
        Context { entries: Vec::new() }
    }

    /// Bind `name` to `value`, overwriting any earlier binding of `name`.
    pub fn insert(&mut self, name: &str, value: Value)
        ensures
            final(self)@ == old(self)@.insert(name@, value@),
    {
        let key = name.to_owned();
        self.entries.push((key, value));
        proof {
            assert(self.entries@.drop_last() =~= old(self).entries@);
        }
    }

    /// The value bound to `name` in this scope, if any.
    pub fn get(&self, name: &str) -> (r: Option<&Value>)
        ensures
            match r {
                Some(v) => self@.contains_key(name@) && v@ == self@[name@],
                None => !self@.contains_key(name@),
            },
    {
        let key = name.to_owned();
        let mut i = self.entries.len();
        proof {
            assert(self.entries@.take(i as int) =~= self.entries@);
        }
        while i > 0
            invariant
                i <= self.entries.len(),
                frame_get(self@, name@) == frame_get(
                    context_map(self.entries@.take(i as int)),
                    name@,
                ),
                key@ == name@,
            decreases i,
        {
            proof {
                assert(self.entries@.take(i as int).drop_last() =~= self.entries@.take(
                    i as int - 1,
                ));
            }
            if self.entries[i - 1].0 == key {
                return Some(&self.entries[i - 1].1);
            }
            i = i - 1;
        }
        None
    }
}

impl Clone for Context {
    /// A deep copy; the copy has the same model as the original.
    fn clone(&self) -> (r: Context)
        ensures
            r@ == self@,
    {
        let mut out: Vec<(String, Value)> = Vec::new();
        let mut idx: usize = 0;
        while idx < self.entries.len()
            invariant
                idx <= self.entries.len(),
                out@.len() == idx,
                forall|k: int| 0 <= k < idx ==> out@[k].0@ == self.entries@[k].0@ && view_value(
                    out@[k].1,
                ) == view_value(self.entries@[k].1),
            decreases self.entries.len() - idx,
        {
            let key = self.entries[idx].0.clone();
            let val = self.entries[idx].1.clone();
            out.push((key, val));
            idx = idx + 1;
        }
        proof {
            lemma_context_map_congruent(out@, self.entries@);
        }
        Context { entries: out }
    }
}

/// The model of a context stack: the models of its frames, innermost last.
pub open spec fn stack_view(cs: Seq<Context>) -> Seq<Map<Seq<char>, SpecValue>> {
    cs.map_values(|c: Context| c@)
}

} // verus!
