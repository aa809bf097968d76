//! Structural type equality.
//!
//! The engines compare types by structure, never by identity: two types are
//! the same exactly when their mathematical models coincide.

use vstd::prelude::*;

use crate::ty::{
    elem_model, elemvec_model, lemma_elems_model, lemma_members_model, lemma_tys_model,
    member_model, membervec_model, names_model, ty_model, tyvec_model, LitValue, Member, TupleElem,
    Ty,
};

verus! {

broadcast use vstd::seq::group_seq_axioms, vstd::std_specs::vec::group_vec_axioms;

/// Equality of literal values: `true` exactly when the models coincide.
pub fn lit_eq(a: &LitValue, b: &LitValue) -> (r: bool)
    ensures
        r == (a@ == b@),
{
    match (a, b) {
        (LitValue::Num(x), LitValue::Num(y)) => *x == *y,
        (LitValue::Str(x), LitValue::Str(y)) => *x == *y,
        (LitValue::Bool(x), LitValue::Bool(y)) => *x == *y,
        (LitValue::BigInt(x), LitValue::BigInt(y)) => *x == *y,
        _ => false,
    }
}

fn label_eq(a: &Option<String>, b: &Option<String>) -> (r: bool)
    ensures
        r == ((match a {
            Some(s) => Some(s@),
            None => None,
        }) == (match b {
            Some(s) => Some(s@),
            None => None,
        })),
{
    match (a, b) {
        (Some(x), Some(y)) => *x == *y,
        (None, None) => true,
        _ => false,
    }
}

fn names_eq(a: &Vec<String>, b: &Vec<String>) -> (r: bool)
    ensures
        r == (names_model(*a) == names_model(*b)),
{
    if a.len() != b.len() {
        return false;
    }
    let mut i: usize = 0;
    while i < a.len()
        invariant
            a@.len() == b@.len(),
            i <= a@.len(),
            forall|j: int| 0 <= j < i ==> a@[j]@ == b@[j]@,
        decreases a@.len() - i,
    {
        let same = a[i] == b[i];
        if !same {
            proof {
                assert(names_model(*a)[i as int] != names_model(*b)[i as int]);
            }
            return false;
        }
        i += 1;
    }
    proof {
        assert(names_model(*a) =~= names_model(*b));
    }
    true
}

/// Structural equality of two type trees: `true` exactly when the models
/// coincide.
pub fn ty_eq(a: &Ty, b: &Ty) -> (r: bool)
    ensures
        r == (a@ == b@),
    decreases a,
{
    match (a, b) {
        (Ty::Keyword(x), Ty::Keyword(y)) => *x == *y,
        (Ty::Lit(x), Ty::Lit(y)) => lit_eq(x, y),
        (Ty::Union(xs), Ty::Union(ys)) => tyvec_eq(xs, ys),
        (Ty::Intersection(xs), Ty::Intersection(ys)) => tyvec_eq(xs, ys),
        (Ty::Tuple(xs), Ty::Tuple(ys)) => elemvec_eq(xs, ys),
        (Ty::TypeLit(xs), Ty::TypeLit(ys)) => membervec_eq(xs, ys),
        (Ty::Array(x), Ty::Array(y)) => ty_eq(x, y),
        (Ty::Function { params: xp, ret: xr }, Ty::Function { params: yp, ret: yr }) => {
            tyvec_eq(xp, yp) && ty_eq(xr, yr)
        },
        (
            Ty::Interface { name: xn, extends: xe, members: xm },
            Ty::Interface { name: yn, extends: ye, members: ym },
        ) => *xn == *yn && names_eq(xe, ye) && membervec_eq(xm, ym),
        (Ty::Class { name: xn, extends: xe }, Ty::Class { name: yn, extends: ye }) => {
            *xn == *yn && names_eq(xe, ye)
        },
        (Ty::Ref(x), Ty::Ref(y)) => *x == *y,
        _ => false,
    }
}

/// Elementwise structural equality of two type vectors.
pub fn tyvec_eq(a: &Vec<Ty>, b: &Vec<Ty>) -> (r: bool)
    ensures
        r == (tyvec_model(*a) == tyvec_model(*b)),
    decreases a,
{
    proof {
        lemma_tys_model(a@);
        lemma_tys_model(b@);
    }
    if a.len() != b.len() {
        return false;
    }
    let mut i: usize = 0;
    while i < a.len()
        invariant
            a@.len() == b@.len(),
            i <= a@.len(),
            forall|j: int| 0 <= j < i ==> ty_model(a@[j]) == ty_model(b@[j]),
        decreases a@.len() - i,
    {
        if !ty_eq(&a[i], &b[i]) {
            proof {
                lemma_tys_model(a@);
                lemma_tys_model(b@);
                assert(tyvec_model(*a)[i as int] != tyvec_model(*b)[i as int]);
            }
            return false;
        }
        i += 1;
    }
    proof {
        lemma_tys_model(a@);
        lemma_tys_model(b@);
        assert(tyvec_model(*a) =~= tyvec_model(*b));
    }
    true
}

/// Structural equality of tuple elements: label and component type.
pub fn elem_eq(a: &TupleElem, b: &TupleElem) -> (r: bool)
    ensures
        r == (a@ == b@),
    decreases a,
{
    label_eq(&a.label, &b.label) && ty_eq(&a.ty, &b.ty)
}

/// Elementwise structural equality of two tuple-element vectors.
pub fn elemvec_eq(a: &Vec<TupleElem>, b: &Vec<TupleElem>) -> (r: bool)
    ensures
        r == (elemvec_model(*a) == elemvec_model(*b)),
    decreases a,
{
    proof {
        lemma_elems_model(a@);
        lemma_elems_model(b@);
    }
    if a.len() != b.len() {
        return false;
    }
    let mut i: usize = 0;
    while i < a.len()
        invariant
            a@.len() == b@.len(),
            i <= a@.len(),
            forall|j: int| 0 <= j < i ==> elem_model(a@[j]) == elem_model(b@[j]),
        decreases a@.len() - i,
    {
        if !elem_eq(&a[i], &b[i]) {
            proof {
                lemma_elems_model(a@);
                lemma_elems_model(b@);
                assert(elemvec_model(*a)[i as int] != elemvec_model(*b)[i as int]);
            }
            return false;
        }
        i += 1;
    }
    proof {
        lemma_elems_model(a@);
        lemma_elems_model(b@);
        assert(elemvec_model(*a) =~= elemvec_model(*b));
    }
    true
}

fn opt_ty_eq(a: &Option<Ty>, b: &Option<Ty>) -> (r: bool)
    ensures
        r == ((match a {
            Some(t) => Some(ty_model(*t)),
            None => None,
        }) == (match b {
            Some(t) => Some(ty_model(*t)),
            None => None,
        })),
    decreases a,
{
    match (a, b) {
        (Some(x), Some(y)) => ty_eq(x, y),
        (None, None) => true,
        _ => false,
    }
}

/// Structural equality of object members.
pub fn member_eq(a: &Member, b: &Member) -> (r: bool)
    ensures
        r == (a@ == b@),
    decreases a,
{
    match (a, b) {
        (
            Member::Property { name: xn, ty: xt, optional: xo },
            Member::Property { name: yn, ty: yt, optional: yo },
        ) => *xn == *yn && *xo == *yo && opt_ty_eq(xt, yt),
        (Member::Index { key: xk, value: xv }, Member::Index { key: yk, value: yv }) => {
            ty_eq(xk, yk) && opt_ty_eq(xv, yv)
        },
        (Member::Method { name: xn }, Member::Method { name: yn }) => *xn == *yn,
        (Member::Call, Member::Call) => true,
        _ => false,
    }
}

/// Elementwise structural equality of two member vectors.
pub fn membervec_eq(a: &Vec<Member>, b: &Vec<Member>) -> (r: bool)
    ensures
        r == (membervec_model(*a) == membervec_model(*b)),
    decreases a,
{
    proof {
        lemma_members_model(a@);
        lemma_members_model(b@);
    }
    if a.len() != b.len() {
        return false;
    }
    let mut i: usize = 0;
    while i < a.len()
        invariant
            a@.len() == b@.len(),
            i <= a@.len(),
            forall|j: int| 0 <= j < i ==> member_model(a@[j]) == member_model(b@[j]),
        decreases a@.len() - i,
    {
        if !member_eq(&a[i], &b[i]) {
            proof {
                lemma_members_model(a@);
                lemma_members_model(b@);
                assert(membervec_model(*a)[i as int] != membervec_model(*b)[i as int]);
            }
            return false;
        }
        i += 1;
    }
    proof {
        lemma_members_model(a@);
        lemma_members_model(b@);
        assert(membervec_model(*a) =~= membervec_model(*b));
    }
    true
}

} // verus!
