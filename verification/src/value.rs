//! The JSON-like host value type that expressions evaluate to, together with
//! its mathematical model.

use vstd::prelude::*;

verus! {

/// A JSON-like value: null, boolean, integer number, string, ordered array,
/// or string-keyed object. Immutable once constructed.
#[derive(Debug, PartialEq, Eq)]
pub enum Value {
    Null,
    Bool(bool),
    Int(i64),
    Str(String),
    Array(Vec<Value>),
    Object(Vec<(String, Value)>),
}

/// The mathematical model of a `Value`: strings as character sequences,
/// arrays and objects as sequences.
pub enum SpecValue {
    Null,
    Bool(bool),
    Int(i64),
    Str(Seq<char>),
    Array(Seq<SpecValue>),
    Object(Seq<(Seq<char>, SpecValue)>),
}

pub open spec fn view_value(v: Value) -> SpecValue
    decreases v,
{
    match v {
        Value::Null => SpecValue::Null,
        Value::Bool(b) => SpecValue::Bool(b),
        Value::Int(n) => SpecValue::Int(n),
        Value::Str(s) => SpecValue::Str(s@),
        Value::Array(items) => SpecValue::Array(view_value_seq(items@)),
        Value::Object(entries) => SpecValue::Object(view_entry_seq(entries@)),
    }
}

pub open spec fn view_value_seq(s: Seq<Value>) -> Seq<SpecValue>
    decreases s,
{
    if s.len() == 0 {
        Seq::empty()
    } else {
        seq![view_value(s[0])] + view_value_seq(s.subrange(1, s.len() as int))
    }
}

pub open spec fn view_entry_seq(s: Seq<(String, Value)>) -> Seq<(Seq<char>, SpecValue)>
    decreases s,
{
    if s.len() == 0 {
        Seq::empty()
    } else {
        seq![(s[0].0@, view_value(s[0].1))] + view_entry_seq(s.subrange(1, s.len() as int))
    }
}

impl View for Value {
    type V = SpecValue;

    open spec fn view(&self) -> SpecValue {
        view_value(*self)
    }
}

/// The view of a sequence of values is the sequence of their views, pointwise.
pub proof fn lemma_view_value_seq(s: Seq<Value>)
    ensures
        view_value_seq(s).len() == s.len(),
        forall|i: int| 0 <= i < s.len() ==> view_value_seq(s)[i] == view_value(s[i]),
    decreases s,
{
    if s.len() > 0 {
        lemma_view_value_seq(s.subrange(1, s.len() as int));
    }
}

/// The view of a sequence of object entries is pointwise.
pub proof fn lemma_view_entry_seq(s: Seq<(String, Value)>)
    ensures
        view_entry_seq(s).len() == s.len(),
        forall|i: int| 0 <= i < s.len() ==> view_entry_seq(s)[i] == (s[i].0@, view_value(s[i].1)),
    decreases s,
{
    if s.len() > 0 {
        lemma_view_entry_seq(s.subrange(1, s.len() as int));
    }
}

/// The shape of a value, used to report what an operator was applied to.
#[derive(Debug, Clone, Copy, PartialEq, Eq, Structural)]
pub enum ValueKind {
    Null,
    Bool,
    Int,
    Str,
    Array,
    Object,
}

pub open spec fn kind_of(v: SpecValue) -> ValueKind {
    match v {
        SpecValue::Null => ValueKind::Null,
        SpecValue::Bool(_) => ValueKind::Bool,
        SpecValue::Int(_) => ValueKind::Int,
        SpecValue::Str(_) => ValueKind::Str,
        SpecValue::Array(_) => ValueKind::Array,
        SpecValue::Object(_) => ValueKind::Object,
    }
}

impl Value {
    /// The shape of this value.
    pub fn kind(&self) -> (k: ValueKind)
        ensures
            k == kind_of(self@),
    {
        match self {
            Value::Null => ValueKind::Null,
            Value::Bool(_) => ValueKind::Bool,
            Value::Int(_) => ValueKind::Int,
            Value::Str(_) => ValueKind::Str,
            Value::Array(_) => ValueKind::Array,
            Value::Object(_) => ValueKind::Object,
        }
    }
}

impl Clone for Value {
    /// A deep copy; the copy has the same model as the original.
    fn clone(&self) -> (r: Value)
        ensures
            r@ == self@,
        decreases *self,
    {
        match self {
            Value::Null => Value::Null,
            Value::Bool(b) => Value::Bool(*b),
            Value::Int(n) => Value::Int(*n),
            Value::Str(s) => Value::Str(s.clone()),
            Value::Array(items) => {
                let mut out: Vec<Value> = Vec::new();
                let mut idx: usize = 0;
                while idx < items.len()
                    invariant
                        idx <= items.len(),
                        out@.len() == idx,
                        *self is Array && *items == self->Array_0,
                        forall|k: int| 0 <= k < idx ==> view_value(out@[k]) == view_value(
                            items@[k],
                        ),
                    decreases items.len() - idx,
                {
                    let c = items[idx].clone();
                    out.push(c);
                    idx = idx + 1;
                }
                proof {
                    lemma_view_value_seq(out@);
                    lemma_view_value_seq(items@);
                    assert(view_value_seq(out@) =~= view_value_seq(items@));
                }
                Value::Array(out)
            },
            Value::Object(entries) => {
                let mut out: Vec<(String, Value)> = Vec::new();
                let mut idx: usize = 0;
                while idx < entries.len()
                    invariant
                        idx <= entries.len(),
                        out@.len() == idx,
                        *self is Object && *entries == self->Object_0,
                        forall|k: int| 0 <= k < idx ==> out@[k].0@ == entries@[k].0@
                            && view_value(out@[k].1) == view_value(entries@[k].1),
                    decreases entries.len() - idx,
                {
                    let key = entries[idx].0.clone();
                    let val = entries[idx].1.clone();
                    out.push((key, val));
                    idx = idx + 1;
                }
                proof {
                    lemma_view_entry_seq(out@);
                    lemma_view_entry_seq(entries@);
                    assert(view_entry_seq(out@) =~= view_entry_seq(entries@));
                }
                Value::Object(out)
            },
        }
    }
}

} // verus!
