//! Structural equality on `Type`: total, recursive field-by-field comparison,
//! including nested `Array`, `Tuple` and `Generic` payloads. The spec
//! functions define the relation; the hand-written `PartialEq` impls give
//! `==` in executable code exactly that meaning.

use crate::ast::GenericType;
use crate::ast::Type;
use vstd::prelude::*;

verus! {

/// Structural equality of two types.
pub open spec fn type_eq(a: Type, b: Type) -> bool
    decreases a, 0int,
{
    match (a, b) {
        (Type::Int, Type::Int) => true,
        (Type::Float, Type::Float) => true,
        (Type::String, Type::String) => true,
        (Type::Bool, Type::Bool) => true,
        (Type::Char, Type::Char) => true,
        (Type::Array(x), Type::Array(y)) => type_eq(*x, *y),
        (Type::Tuple(xs), Type::Tuple(ys)) => types_eq(xs@, ys@),
        (Type::Custom(x), Type::Custom(y)) => x@ == y@,
        (Type::Generic(x), Type::Generic(y)) => x.base@ == y.base@ && types_eq(
            x.parameters@,
            y.parameters@,
        ),
        (Type::Infer, Type::Infer) => true,
        _ => false,
    }
}

/// Structural equality of two generic type applications: same base name and
/// pairwise structurally equal parameter lists.
pub open spec fn generic_type_eq(a: GenericType, b: GenericType) -> bool {
    a.base@ == b.base@ && types_eq(a.parameters@, b.parameters@)
}

/// Pairwise structural equality of two type sequences of equal length.
pub open spec fn types_eq(s1: Seq<Type>, s2: Seq<Type>) -> bool
    decreases s1, s1.len() as int + 1,
{
    s1.len() == s2.len() && types_eq_from(s1, s2, 0)
}

/// Pairwise structural equality of two equally long type sequences, from
/// position `i` on.
pub open spec fn types_eq_from(s1: Seq<Type>, s2: Seq<Type>, i: int) -> bool
    decreases s1, s1.len() - i,
{
    if i < 0 || i >= s1.len() {
        true
    } else {
        type_eq(s1[i], s2[i]) && types_eq_from(s1, s2, i + 1)
    }
}

/// Decides structural equality of two types.
pub fn type_equals(a: &Type, b: &Type) -> (r: bool)
    ensures
        r == type_eq(*a, *b),
    decreases *a, 0int,
{
    match (a, b) {
        (Type::Int, Type::Int) => true,
        (Type::Float, Type::Float) => true,
        (Type::String, Type::String) => true,
        (Type::Bool, Type::Bool) => true,
        (Type::Char, Type::Char) => true,
        (Type::Array(x), Type::Array(y)) => type_equals(&**x, &**y),
        (Type::Tuple(xs), Type::Tuple(ys)) => type_vec_equals(xs, ys),
        (Type::Custom(x), Type::Custom(y)) => *x == *y,
        (Type::Generic(x), Type::Generic(y)) => {
            let bases_equal = x.base == y.base;
            bases_equal && type_vec_equals(&x.parameters, &y.parameters)
        },
        (Type::Infer, Type::Infer) => true,
        _ => false,
    }
}

/// Decides pairwise structural equality of two type vectors.
pub fn type_vec_equals(xs: &Vec<Type>, ys: &Vec<Type>) -> (r: bool)
    ensures
        r == types_eq(xs@, ys@),
    decreases xs@, xs@.len() as int + 1,
{
    xs.len() == ys.len() && type_vec_equals_from(xs, ys, 0)
}

fn type_vec_equals_from(xs: &Vec<Type>, ys: &Vec<Type>, i: usize) -> (r: bool)
    requires
        xs@.len() == ys@.len(),
    ensures
        r == types_eq_from(xs@, ys@, i as int),
    decreases xs@, xs@.len() - i,
{
    if i >= xs.len() {
        true
    } else {
        type_equals(&xs[i], &ys[i]) && type_vec_equals_from(xs, ys, i + 1)
    }
}

impl core::cmp::PartialEq for Type {
    /// `==` on types is structural equality.
    fn eq(&self, other: &Type) -> (r: bool) {
        type_equals(self, other)
    }
}

impl vstd::std_specs::cmp::PartialEqSpecImpl for Type {
    open spec fn obeys_eq_spec() -> bool {
        true
    }

    open spec fn eq_spec(&self, other: &Type) -> bool {
        type_eq(*self, *other)
    }
}

impl core::cmp::PartialEq for GenericType {
    /// `==` on generic type applications is structural equality.
    fn eq(&self, other: &GenericType) -> (r: bool) {
        self.base == other.base && type_vec_equals(&self.parameters, &other.parameters)
    }
}

impl vstd::std_specs::cmp::PartialEqSpecImpl for GenericType {
    open spec fn obeys_eq_spec() -> bool {
        true
    }

    open spec fn eq_spec(&self, other: &GenericType) -> bool {
        generic_type_eq(*self, *other)
    }
}

/// A run of pairwise structurally equal positions is pairwise structurally
/// equal from its start.
proof fn lemma_types_eq_from_pointwise(s1: Seq<Type>, s2: Seq<Type>, i: int)
    requires
        s1.len() == s2.len(),
        forall|j: int| i <= j < s1.len() ==> type_eq(#[trigger] s1[j], s2[j]),
    ensures
        types_eq_from(s1, s2, i),
    decreases s1.len() - i,
{
    if 0 <= i < s1.len() {
        lemma_types_eq_from_pointwise(s1, s2, i + 1);
    }
}

impl core::clone::Clone for Type {
    /// A cloned type is structurally equal to the original.
    fn clone(&self) -> (r: Self)
        ensures
            type_eq(r, *self),
    {
        clone_type(self)
    }
}

impl core::clone::Clone for GenericType {
    /// A cloned generic type application is structurally equal to the
    /// original.
    fn clone(&self) -> (r: Self)
        ensures
            generic_type_eq(r, *self),
    {
        GenericType { base: self.base.clone(), parameters: clone_type_vec(&self.parameters) }
    }
}

fn clone_type(t: &Type) -> (r: Type)
    ensures
        type_eq(r, *t),
    decreases *t, 0int,
{
    match t {
        Type::Int => Type::Int,
        Type::Float => Type::Float,
        Type::String => Type::String,
        Type::Bool => Type::Bool,
        Type::Char => Type::Char,
        Type::Array(x) => Type::Array(Box::new(clone_type(&**x))),
        Type::Tuple(xs) => Type::Tuple(clone_type_vec(xs)),
        Type::Custom(x) => Type::Custom(x.clone()),
        Type::Generic(g) => Type::Generic(
            GenericType { base: g.base.clone(), parameters: clone_type_vec(&g.parameters) },
        ),
        Type::Infer => Type::Infer,
    }
}

fn clone_type_vec(xs: &Vec<Type>) -> (r: Vec<Type>)
    ensures
        types_eq(r@, xs@),
    decreases xs@, xs@.len() as int + 1,
{
    let mut out: Vec<Type> = Vec::new();
    let n = xs.len();
    for i in 0..n
        invariant
            n == xs@.len(),
            out@.len() == i,
            forall|j: int| 0 <= j < i ==> type_eq(#[trigger] out@[j], xs@[j]),
    {
        out.push(clone_type(&xs[i]));
    }
    proof {
        lemma_types_eq_from_pointwise(out@, xs@, 0);
    }
    out
}

/// Structural equality on types is reflexive: every type equals itself.
pub proof fn lemma_type_eq_reflexive(t: Type)
    ensures
        type_eq(t, t),
    decreases t, 0int,
{
    match t {
        Type::Array(x) => {
            lemma_type_eq_reflexive(*x);
        },
        Type::Tuple(xs) => {
            lemma_types_eq_reflexive(xs@);
        },
        Type::Generic(g) => {
            lemma_types_eq_reflexive(g.parameters@);
        },
        _ => {},
    }
}

/// Pairwise structural equality of type sequences is reflexive.
pub proof fn lemma_types_eq_reflexive(s: Seq<Type>)
    ensures
        types_eq(s, s),
    decreases s, s.len() as int + 1,
{
    lemma_types_eq_from_reflexive(s, 0);
}

proof fn lemma_types_eq_from_reflexive(s: Seq<Type>, i: int)
    ensures
        types_eq_from(s, s, i),
    decreases s, s.len() - i,
{
    if 0 <= i < s.len() {
        lemma_type_eq_reflexive(s[i]);
        lemma_types_eq_from_reflexive(s, i + 1);
    }
}

} // verus!
