//! The union flattening engine.
//!
//! Given a tuple or object-literal type whose components are themselves
//! unions (or the `boolean` keyword, sugar for `true | false`), it builds
//! an equivalent explicit union of concrete tuples / object literals, so
//! that ordinary union-vs-union assignability can apply. Distribution is a
//! cartesian product by recursion: branch order follows declaration order
//! and is deterministic, and a union produced here never directly nests
//! another union (each construction is flattened one level).

use vstd::prelude::*;

use crate::assign::{assign_spec, assign_with_opts};
use crate::env::{normalize, normalize_spec, res_model, EngineError, EnvV, TypeEnv};
use crate::ty::{
    clone_elemvec, clone_membervec, clone_tyvec, deep_clone, elem_clone, elem_model,
    elemvec_model, label_clone, lemma_elems_model, lemma_members_model, lemma_tys_model, member_clone,
    member_model, membervec_model, ty_model, tyvec_model, ElemV, Keyword, LitV, LitValue, Member,
    MemberV, TupleElem, Ty, TyV,
};

verus! {

broadcast use vstd::seq::group_seq_axioms, vstd::std_specs::vec::group_vec_axioms;

/// Model of a `Result` carrying a vector of types.
pub open spec fn vecres_model(r: Result<Vec<Ty>, EngineError>) -> Result<Seq<TyV>, EngineError> {
    match r {
        Ok(v) => Ok(tyvec_model(v)),
        Err(e) => Err(e),
    }
}

/// The expansion of `boolean`: the `true` and `false` literals, in that
/// order.
pub open spec fn bool_expansion() -> Seq<TyV> {
    seq![TyV::Lit(LitV::Bool(true)), TyV::Lit(LitV::Bool(false))]
}

/// The union a component type expands to, if any: `boolean` expands to
/// `true | false`, a type that normalizes to a union expands to its
/// members, and anything else (including a type whose reference cannot be
/// resolved) does not expand.
pub open spec fn expand_union_spec(env: EnvV, t: TyV, fuel: nat) -> Option<Seq<TyV>> {
    match normalize_spec(env, t, fuel) {
        Err(_) => None,
        Ok(n) => match n {
            TyV::Keyword(Keyword::Boolean) => Some(bool_expansion()),
            TyV::Union(ts) => Some(ts),
            _ => None,
        },
    }
}

/// Append one tuple element to a distribution accumulator.
///
/// If the element's type expands to a union of `k` members, the
/// accumulator is distributed into `k` branches, one per member in member
/// order, and the result is their union, flattened one level. Otherwise
/// the element is appended verbatim: into every branch of a union
/// accumulator, or onto a tuple accumulator; any other accumulator shape
/// is a precondition violation.
pub open spec fn append_tuple_spec(env: EnvV, acc: TyV, el: ElemV, fuel: nat) -> Result<
    TyV,
    EngineError,
>
    decreases fuel, acc, 2int,
{
    match expand_union_spec(env, el.ty, fuel) {
        Some(ts) => {
            if fuel == 0 {
                Err(EngineError::ExpansionLimit)
            } else {
                match append_tuple_expand(env, acc, el.label, ts, (fuel - 1) as nat) {
                    Err(e) => Err(e),
                    Ok(branches) => Ok(TyV::Union(flatten_once(branches))),
                }
            }
        },
        None => match acc {
            TyV::Union(bs) => match append_tuple_branches(env, bs, el, fuel) {
                Err(e) => Err(e),
                Ok(bs2) => Ok(TyV::Union(bs2)),
            },
            TyV::Tuple(es) => Ok(TyV::Tuple(es.push(el))),
            _ => Err(EngineError::ShapeMismatch),
        },
    }
}

/// Distribute the accumulator over the expansion members, in member order.
pub open spec fn append_tuple_expand(
    env: EnvV,
    acc: TyV,
    label: Option<Seq<char>>,
    ts: Seq<TyV>,
    fuel: nat,
) -> Result<Seq<TyV>, EngineError>
    decreases fuel, acc, ts.len() + 3,
{
    if ts.len() == 0 {
        Ok(Seq::empty())
    } else {
        match append_tuple_spec(env, acc, ElemV { label, ty: ts[0] }, fuel) {
            Err(e) => Err(e),
            Ok(b) => match append_tuple_expand(env, acc, label, ts.drop_first(), fuel) {
                Err(e) => Err(e),
                Ok(rest) => Ok(seq![b] + rest),
            },
        }
    }
}

/// Append the element into every existing branch of a union accumulator.
pub open spec fn append_tuple_branches(env: EnvV, bs: Seq<TyV>, el: ElemV, fuel: nat) -> Result<
    Seq<TyV>,
    EngineError,
>
    decreases fuel, bs, bs.len(),
{
    if bs.len() == 0 {
        Ok(Seq::empty())
    } else {
        match append_tuple_spec(env, bs[0], el, fuel) {
            Err(e) => Err(e),
            Ok(b) => match append_tuple_branches(env, bs.drop_first(), el, fuel) {
                Err(e) => Err(e),
                Ok(rest) => Ok(seq![b] + rest),
            },
        }
    }
}

/// Flatten one level of union nesting: a member that is itself a union is
/// spliced into the list in place.
pub open spec fn flatten_once(bs: Seq<TyV>) -> Seq<TyV>
    decreases bs.len(),
{
    if bs.len() == 0 {
        Seq::empty()
    } else {
        (match bs[0] {
            TyV::Union(xs) => xs,
            x => seq![x],
        }) + flatten_once(bs.drop_first())
    }
}

/// Append one object member to a distribution accumulator. Only a
/// property member carrying a declared type annotation can trigger union
/// expansion; index, method and call members are always appended verbatim.
pub open spec fn append_type_spec(env: EnvV, acc: TyV, m: MemberV, fuel: nat) -> Result<
    TyV,
    EngineError,
>
    decreases fuel, acc, 2int,
{
    match m {
        MemberV::Property { name, ty: Some(t), optional } => {
            match expand_union_spec(env, t, fuel) {
                Some(ts) => {
                    if fuel == 0 {
                        Err(EngineError::ExpansionLimit)
                    } else {
                        match append_type_expand(env, acc, name, optional, ts, (fuel - 1) as nat) {
                            Err(e) => Err(e),
                            Ok(branches) => Ok(TyV::Union(flatten_once(branches))),
                        }
                    }
                },
                None => append_type_verbatim(env, acc, m, fuel),
            }
        },
        _ => append_type_verbatim(env, acc, m, fuel),
    }
}

/// Append an object member without distribution.
pub open spec fn append_type_verbatim(env: EnvV, acc: TyV, m: MemberV, fuel: nat) -> Result<
    TyV,
    EngineError,
>
    decreases fuel, acc, 1int,
{
    match acc {
        TyV::Union(bs) => match append_type_branches(env, bs, m, fuel) {
            Err(e) => Err(e),
            Ok(bs2) => Ok(TyV::Union(bs2)),
        },
        TyV::TypeLit(ms) => Ok(TyV::TypeLit(ms.push(m))),
        _ => Err(EngineError::ShapeMismatch),
    }
}

/// Distribute the accumulator over the expansion members of a property's
/// declared type, in member order.
pub open spec fn append_type_expand(
    env: EnvV,
    acc: TyV,
    name: Seq<char>,
    optional: bool,
    ts: Seq<TyV>,
    fuel: nat,
) -> Result<Seq<TyV>, EngineError>
    decreases fuel, acc, ts.len() + 3,
{
    if ts.len() == 0 {
        Ok(Seq::empty())
    } else {
        match append_type_spec(
            env,
            acc,
            MemberV::Property { name, ty: Some(ts[0]), optional },
            fuel,
        ) {
            Err(e) => Err(e),
            Ok(b) => match append_type_expand(env, acc, name, optional, ts.drop_first(), fuel) {
                Err(e) => Err(e),
                Ok(rest) => Ok(seq![b] + rest),
            },
        }
    }
}

/// Append the member into every existing branch of a union accumulator.
pub open spec fn append_type_branches(env: EnvV, bs: Seq<TyV>, m: MemberV, fuel: nat) -> Result<
    Seq<TyV>,
    EngineError,
>
    decreases fuel, bs, bs.len(),
{
    if bs.len() == 0 {
        Ok(Seq::empty())
    } else {
        match append_type_spec(env, bs[0], m, fuel) {
            Err(e) => Err(e),
            Ok(b) => match append_type_branches(env, bs.drop_first(), m, fuel) {
                Err(e) => Err(e),
                Ok(rest) => Ok(seq![b] + rest),
            },
        }
    }
}

/// Fold tuple elements into the accumulator in declaration order.
pub open spec fn fold_tuple(env: EnvV, acc: TyV, es: Seq<ElemV>, fuel: nat) -> Result<
    TyV,
    EngineError,
>
    decreases es.len(),
{
    if es.len() == 0 {
        Ok(acc)
    } else {
        match append_tuple_spec(env, acc, es[0], fuel) {
            Err(e) => Err(e),
            Ok(a2) => fold_tuple(env, a2, es.drop_first(), fuel),
        }
    }
}

/// Fold object members into the accumulator in declaration order.
pub open spec fn fold_typelit(env: EnvV, acc: TyV, ms: Seq<MemberV>, fuel: nat) -> Result<
    TyV,
    EngineError,
>
    decreases ms.len(),
{
    if ms.len() == 0 {
        Ok(acc)
    } else {
        match append_type_spec(env, acc, ms[0], fuel) {
            Err(e) => Err(e),
            Ok(a2) => fold_typelit(env, a2, ms.drop_first(), fuel),
        }
    }
}

/// Distribution: normalize, then fold a tuple's elements (or an object
/// literal's members) into an empty accumulator of the same shape. Any
/// other shape passes through unchanged.
pub open spec fn flatten_spec(env: EnvV, t: TyV, fuel: nat) -> Result<TyV, EngineError> {
    match normalize_spec(env, t, fuel) {
        Err(e) => Err(e),
        Ok(n) => match n {
            TyV::Tuple(es) => fold_tuple(env, TyV::Tuple(Seq::empty()), es, fuel),
            TyV::TypeLit(ms) => fold_typelit(env, TyV::TypeLit(Seq::empty()), ms, fuel),
            _ => Ok(n),
        },
    }
}

/// The union-target pre-pass: flatten the candidate; if the flattened
/// candidate is itself a union, delegate the comparison to assignability;
/// otherwise (including when flattening fails) the pre-pass is not
/// applicable and the caller must fall back to ordinary assignability.
pub open spec fn assign_to_union_spec(env: EnvV, target: TyV, cand: TyV, fuel: nat) -> Option<
    Result<(), EngineError>,
>  {
    match flatten_spec(env, cand, fuel) {
        Err(_) => None,
        Ok(f) => if f is Union {
            Some(assign_spec(env, target, f, false, fuel))
        } else {
            None
        },
    }
}

/// Expands `boolean` to `true | false` and hands back the members of a
/// component type that normalizes to a union; anything else yields `None`.
pub fn expand_union_for_assignment(env: &TypeEnv, t: &Ty, fuel: u64) -> (r: Option<Vec<Ty>>)
    ensures
        (match r {
            Some(v) => Some(tyvec_model(v)),
            None => None,
        }) == expand_union_spec(env@, t@, fuel as nat),
{
    match normalize(env, t, fuel) {
        Err(_) => None,
        Ok(n) => match n {
            Ty::Keyword(Keyword::Boolean) => {
                let mut v: Vec<Ty> = Vec::new();
                v.push(Ty::Lit(LitValue::Bool(true)));
                v.push(Ty::Lit(LitValue::Bool(false)));
                proof {
                    lemma_tys_model(v@);
                    assert(tyvec_model(v) =~= bool_expansion());
                }
                Some(v)
            },
            Ty::Union(ts) => Some(ts),
            _ => None,
        },
    }
}

fn flatten_once_at(bs: &Vec<Ty>, i: usize) -> (r: Vec<Ty>)
    requires
        i <= bs@.len(),
    ensures
        tyvec_model(r) == flatten_once(tyvec_model(*bs).skip(i as int)),
    decreases bs@.len() - i,
{
    proof {
        lemma_tys_model(bs@);
    }
    if i == bs.len() {
        let empty: Vec<Ty> = Vec::new();
        proof {
            assert(tyvec_model(*bs).skip(i as int) =~= Seq::<TyV>::empty());
            assert(tyvec_model(empty) =~= Seq::<TyV>::empty());
        }
        empty
    } else {
        proof {
            assert(tyvec_model(*bs).skip(i as int)[0] == ty_model(bs@[i as int]));
            assert(tyvec_model(*bs).skip(i as int).drop_first() =~= tyvec_model(*bs).skip(
                i as int + 1,
            ));
        }
        let mut rest = flatten_once_at(bs, i + 1);
        match &bs[i] {
            Ty::Union(xs) => {
                let mut out = clone_tyvec(xs);
                let ghost a = out@;
                let ghost b = rest@;
                out.append(&mut rest);
                proof {
                    lemma_tys_model(a);
                    lemma_tys_model(b);
                    lemma_tys_model(out@);
                    assert(out@ == a + b);
                    assert(tyvec_model(out) =~= flatten_once(tyvec_model(*bs).skip(i as int)));
                }
                out
            },
            other => {
                let mut out: Vec<Ty> = Vec::new();
                out.push(deep_clone(other));
                let ghost a = out@;
                let ghost b = rest@;
                out.append(&mut rest);
                proof {
                    lemma_tys_model(a);
                    lemma_tys_model(b);
                    lemma_tys_model(out@);
                    assert(out@ == a + b);
                    assert(tyvec_model(out) =~= flatten_once(tyvec_model(*bs).skip(i as int)));
                }
                out
            },
        }
    }
}

/// Append one tuple element to a distribution accumulator, distributing
/// the accumulator when the element's type expands to a union.
pub fn append_tuple_element_to_type(env: &TypeEnv, to: &Ty, el: &TupleElem, fuel: u64) -> (r:
    Result<Ty, EngineError>)
    ensures
        res_model(r) == append_tuple_spec(env@, to@, el@, fuel as nat),
    decreases fuel, to, 2int,
{
    match expand_union_for_assignment(env, &el.ty, fuel) {
        Some(ts) => {
            if fuel == 0 {
                Err(EngineError::ExpansionLimit)
            } else {
                proof {
                    assert(tyvec_model(ts).skip(0) =~= tyvec_model(ts));
                }
                match append_tuple_expand_at(env, to, &el.label, &ts, 0, fuel - 1) {
                    Err(e) => Err(e),
                    Ok(branches) => {
                        proof {
                            assert(tyvec_model(branches).skip(0) =~= tyvec_model(branches));
                        }
                        Ok(Ty::Union(flatten_once_at(&branches, 0)))
                    },
                }
            }
        },
        None => match to {
            Ty::Union(bs) => {
                proof {
                    assert(tyvec_model(*bs).skip(0) =~= tyvec_model(*bs));
                }
                match append_tuple_branches_at(env, bs, el, 0, fuel) {
                    Err(e) => Err(e),
                    Ok(bs2) => Ok(Ty::Union(bs2)),
                }
            },
            Ty::Tuple(es) => {
                let mut out = clone_elemvec(es);
                let ghost pre = out@;
                out.push(elem_clone(el));
                proof {
                    lemma_elems_model(pre);
                    lemma_elems_model(es@);
                    lemma_elems_model(out@);
                    assert(elemvec_model(out) =~= elemvec_model(*es).push(el@));
                }
                Ok(Ty::Tuple(out))
            },
            _ => Err(EngineError::ShapeMismatch),
        },
    }
}

fn append_tuple_expand_at(
    env: &TypeEnv,
    to: &Ty,
    label: &Option<String>,
    ts: &Vec<Ty>,
    i: usize,
    fuel: u64,
) -> (r: Result<Vec<Ty>, EngineError>)
    requires
        i <= ts@.len(),
    ensures
        vecres_model(r) == append_tuple_expand(
            env@,
            to@,
            (match label {
                Some(l) => Some(l@),
                None => None,
            }),
            tyvec_model(*ts).skip(i as int),
            fuel as nat,
        ),
    decreases fuel, to, ts@.len() - i + 3,
{
    proof {
        lemma_tys_model(ts@);
    }
    if i == ts.len() {
        let empty: Vec<Ty> = Vec::new();
        proof {
            assert(tyvec_model(*ts).skip(i as int) =~= Seq::<TyV>::empty());
            assert(tyvec_model(empty) =~= Seq::<TyV>::empty());
        }
        Ok(empty)
    } else {
        proof {
            assert(tyvec_model(*ts).skip(i as int)[0] == ty_model(ts@[i as int]));
            assert(tyvec_model(*ts).skip(i as int).drop_first() =~= tyvec_model(*ts).skip(
                i as int + 1,
            ));
        }
        let piece = TupleElem { label: label_clone(label), ty: deep_clone(&ts[i]) };
        match append_tuple_element_to_type(env, to, &piece, fuel) {
            Err(e) => Err(e),
            Ok(b) => match append_tuple_expand_at(env, to, label, ts, i + 1, fuel) {
                Err(e) => Err(e),
                Ok(mut rest) => {
                    let ghost bm = b@;
                    let ghost pre = rest@;
                    let mut out: Vec<Ty> = Vec::new();
                    out.push(b);
                    let ghost a = out@;
                    out.append(&mut rest);
                    proof {
                        lemma_tys_model(a);
                        lemma_tys_model(pre);
                        lemma_tys_model(out@);
                        assert(out@ == a + pre);
                        assert(tyvec_model(out) =~= append_tuple_expand(
                            env@,
                            to@,
                            (match label {
                                Some(l) => Some(l@),
                                None => None,
                            }),
                            tyvec_model(*ts).skip(i as int),
                            fuel as nat,
                        )->Ok_0);
                    }
                    Ok(out)
                },
            },
        }
    }
}

fn append_tuple_branches_at(env: &TypeEnv, bs: &Vec<Ty>, el: &TupleElem, i: usize, fuel: u64) -> (r:
    Result<Vec<Ty>, EngineError>)
    requires
        i <= bs@.len(),
    ensures
        vecres_model(r) == append_tuple_branches(
            env@,
            tyvec_model(*bs).skip(i as int),
            el@,
            fuel as nat,
        ),
    decreases fuel, bs, bs@.len() - i,
{
    proof {
        lemma_tys_model(bs@);
    }
    if i == bs.len() {
        let empty: Vec<Ty> = Vec::new();
        proof {
            assert(tyvec_model(*bs).skip(i as int) =~= Seq::<TyV>::empty());
            assert(tyvec_model(empty) =~= Seq::<TyV>::empty());
        }
        Ok(empty)
    } else {
        proof {
            assert(tyvec_model(*bs).skip(i as int)[0] == ty_model(bs@[i as int]));
            assert(tyvec_model(*bs).skip(i as int).drop_first() =~= tyvec_model(*bs).skip(
                i as int + 1,
            ));
        }
        match append_tuple_element_to_type(env, &bs[i], el, fuel) {
            Err(e) => Err(e),
            Ok(b) => match append_tuple_branches_at(env, bs, el, i + 1, fuel) {
                Err(e) => Err(e),
                Ok(mut rest) => {
                    let ghost bm = b@;
                    let ghost pre = rest@;
                    let mut out: Vec<Ty> = Vec::new();
                    out.push(b);
                    let ghost a = out@;
                    out.append(&mut rest);
                    proof {
                        lemma_tys_model(a);
                        lemma_tys_model(pre);
                        lemma_tys_model(out@);
                        assert(out@ == a + pre);
                        assert(tyvec_model(out) =~= append_tuple_branches(
                            env@,
                            tyvec_model(*bs).skip(i as int),
                            el@,
                            fuel as nat,
                        )->Ok_0);
                    }
                    Ok(out)
                },
            },
        }
    }
}

/// Append one object member to a distribution accumulator, distributing
/// the accumulator when the member is a property whose declared type
/// expands to a union.
pub fn append_type_element_to_type(env: &TypeEnv, to: &Ty, m: &Member, fuel: u64) -> (r: Result<
    Ty,
    EngineError,
>)
    ensures
        res_model(r) == append_type_spec(env@, to@, m@, fuel as nat),
    decreases fuel, to, 2int,
{
    match m {
        Member::Property { name, ty: Some(t), optional } => {
            match expand_union_for_assignment(env, t, fuel) {
                Some(ts) => {
                    if fuel == 0 {
                        Err(EngineError::ExpansionLimit)
                    } else {
                        proof {
                            assert(tyvec_model(ts).skip(0) =~= tyvec_model(ts));
                        }
                        match append_type_expand_at(env, to, name, *optional, &ts, 0, fuel - 1) {
                            Err(e) => Err(e),
                            Ok(branches) => {
                                proof {
                                    assert(tyvec_model(branches).skip(0) =~= tyvec_model(
                                        branches,
                                    ));
                                }
                                Ok(Ty::Union(flatten_once_at(&branches, 0)))
                            },
                        }
                    }
                },
                None => append_type_verbatim_x(env, to, m, fuel),
            }
        },
        _ => append_type_verbatim_x(env, to, m, fuel),
    }
}

fn append_type_verbatim_x(env: &TypeEnv, to: &Ty, m: &Member, fuel: u64) -> (r: Result<
    Ty,
    EngineError,
>)
    ensures
        res_model(r) == append_type_verbatim(env@, to@, m@, fuel as nat),
    decreases fuel, to, 1int,
{
    match to {
        Ty::Union(bs) => {
            proof {
                assert(tyvec_model(*bs).skip(0) =~= tyvec_model(*bs));
            }
            match append_type_branches_at(env, bs, m, 0, fuel) {
                Err(e) => Err(e),
                Ok(bs2) => Ok(Ty::Union(bs2)),
            }
        },
        Ty::TypeLit(ms) => {
            let mut out = clone_membervec(ms);
            let ghost pre = out@;
            out.push(member_clone(m));
            proof {
                lemma_members_model(pre);
                lemma_members_model(ms@);
                lemma_members_model(out@);
                assert(membervec_model(out) =~= membervec_model(*ms).push(m@));
            }
            Ok(Ty::TypeLit(out))
        },
        _ => Err(EngineError::ShapeMismatch),
    }
}

fn append_type_expand_at(
    env: &TypeEnv,
    to: &Ty,
    name: &String,
    optional: bool,
    ts: &Vec<Ty>,
    i: usize,
    fuel: u64,
) -> (r: Result<Vec<Ty>, EngineError>)
    requires
        i <= ts@.len(),
    ensures
        vecres_model(r) == append_type_expand(
            env@,
            to@,
            name@,
            optional,
            tyvec_model(*ts).skip(i as int),
            fuel as nat,
        ),
    decreases fuel, to, ts@.len() - i + 3,
{
    proof {
        lemma_tys_model(ts@);
    }
    if i == ts.len() {
        let empty: Vec<Ty> = Vec::new();
        proof {
            assert(tyvec_model(*ts).skip(i as int) =~= Seq::<TyV>::empty());
            assert(tyvec_model(empty) =~= Seq::<TyV>::empty());
        }
        Ok(empty)
    } else {
        proof {
            assert(tyvec_model(*ts).skip(i as int)[0] == ty_model(ts@[i as int]));
            assert(tyvec_model(*ts).skip(i as int).drop_first() =~= tyvec_model(*ts).skip(
                i as int + 1,
            ));
        }
        let piece = Member::Property {
            name: name.clone(),
            ty: Some(deep_clone(&ts[i])),
            optional: optional,
        };
        match append_type_element_to_type(env, to, &piece, fuel) {
            Err(e) => Err(e),
            Ok(b) => match append_type_expand_at(env, to, name, optional, ts, i + 1, fuel) {
                Err(e) => Err(e),
                Ok(mut rest) => {
                    let ghost bm = b@;
                    let ghost pre = rest@;
                    let mut out: Vec<Ty> = Vec::new();
                    out.push(b);
                    let ghost a = out@;
                    out.append(&mut rest);
                    proof {
                        lemma_tys_model(a);
                        lemma_tys_model(pre);
                        lemma_tys_model(out@);
                        assert(out@ == a + pre);
                        assert(tyvec_model(out) =~= append_type_expand(
                            env@,
                            to@,
                            name@,
                            optional,
                            tyvec_model(*ts).skip(i as int),
                            fuel as nat,
                        )->Ok_0);
                    }
                    Ok(out)
                },
            },
        }
    }
}

fn append_type_branches_at(env: &TypeEnv, bs: &Vec<Ty>, m: &Member, i: usize, fuel: u64) -> (r:
    Result<Vec<Ty>, EngineError>)
    requires
        i <= bs@.len(),
    ensures
        vecres_model(r) == append_type_branches(
            env@,
            tyvec_model(*bs).skip(i as int),
            m@,
            fuel as nat,
        ),
    decreases fuel, bs, bs@.len() - i,
{
    proof {
        lemma_tys_model(bs@);
    }
    if i == bs.len() {
        let empty: Vec<Ty> = Vec::new();
        proof {
            assert(tyvec_model(*bs).skip(i as int) =~= Seq::<TyV>::empty());
            assert(tyvec_model(empty) =~= Seq::<TyV>::empty());
        }
        Ok(empty)
    } else {
        proof {
            assert(tyvec_model(*bs).skip(i as int)[0] == ty_model(bs@[i as int]));
            assert(tyvec_model(*bs).skip(i as int).drop_first() =~= tyvec_model(*bs).skip(
                i as int + 1,
            ));
        }
        match append_type_element_to_type(env, &bs[i], m, fuel) {
            Err(e) => Err(e),
            Ok(b) => match append_type_branches_at(env, bs, m, i + 1, fuel) {
                Err(e) => Err(e),
                Ok(mut rest) => {
                    let ghost bm = b@;
                    let ghost pre = rest@;
                    let mut out: Vec<Ty> = Vec::new();
                    out.push(b);
                    let ghost a = out@;
                    out.append(&mut rest);
                    proof {
                        lemma_tys_model(a);
                        lemma_tys_model(pre);
                        lemma_tys_model(out@);
                        assert(out@ == a + pre);
                        assert(tyvec_model(out) =~= append_type_branches(
                            env@,
                            tyvec_model(*bs).skip(i as int),
                            m@,
                            fuel as nat,
                        )->Ok_0);
                    }
                    Ok(out)
                },
            },
        }
    }
}

/// Distribution entry: normalize the type, then fold its elements or
/// members into an empty accumulator of the same shape; any other shape
/// passes through unchanged.
pub fn flatten_unions_for_assignment(env: &TypeEnv, t: &Ty, fuel: u64) -> (r: Result<
    Ty,
    EngineError,
>)
    ensures
        res_model(r) == flatten_spec(env@, t@, fuel as nat),
{
    match normalize(env, t, fuel) {
        Err(e) => Err(e),
        Ok(n) => {
            let ghost nm = n@;
            proof {
                assert(normalize_spec(env@, t@, fuel as nat) == Ok::<TyV, EngineError>(nm));
            }
            match n {
            Ty::Tuple(es) => {
                let ghost es_model = elemvec_model(es);
                proof {
                    assert(nm == TyV::Tuple(es_model));
                }
                let ev: Vec<TupleElem> = Vec::new();
                proof {
                    assert(ev@ =~= Seq::<TupleElem>::empty());
                    assert(elemvec_model(ev) == crate::ty::elems_model(ev@));
                    assert(crate::ty::elems_model(ev@) =~= Seq::<ElemV>::empty());
                }
                let mut acc = Ty::Tuple(ev);
                proof {
                    lemma_elems_model(es@);
                    assert(acc@ == TyV::Tuple(Seq::<ElemV>::empty()));
                    assert(es_model.skip(0) =~= es_model);
                }
                let mut i: usize = 0;
                while i < es.len()
                    invariant
                        i <= es@.len(),
                        normalize_spec(env@, t@, fuel as nat) == Ok::<TyV, EngineError>(nm),
                        nm == TyV::Tuple(es_model),
                        es_model == elemvec_model(es),
                        es_model.len() == es@.len(),
                        forall|j: int| 0 <= j < es@.len() ==> es_model[j] == elem_model(es@[j]),
                        fold_tuple(env@, TyV::Tuple(Seq::empty()), es_model, fuel as nat)
                            == fold_tuple(env@, acc@, es_model.skip(i as int), fuel as nat),
                    decreases es@.len() - i,
                {
                    proof {
                        assert(es_model.skip(i as int)[0] == elem_model(es@[i as int]));
                        assert(es_model.skip(i as int).drop_first() =~= es_model.skip(
                            i as int + 1,
                        ));
                    }
                    match append_tuple_element_to_type(env, &acc, &es[i], fuel) {
                        Err(e) => {
                            return Err(e);
                        },
                        Ok(a2) => {
                            acc = a2;
                        },
                    }
                    i += 1;
                }
                proof {
                    assert(es_model.skip(i as int) =~= Seq::<ElemV>::empty());
                }
                Ok(acc)
            },
            Ty::TypeLit(ms) => {
                let ghost ms_model = membervec_model(ms);
                proof {
                    assert(nm == TyV::TypeLit(ms_model));
                }
                let mv: Vec<Member> = Vec::new();
                proof {
                    assert(mv@ =~= Seq::<Member>::empty());
                    assert(membervec_model(mv) == crate::ty::members_model(mv@));
                    assert(crate::ty::members_model(mv@) =~= Seq::<MemberV>::empty());
                }
                let mut acc = Ty::TypeLit(mv);
                proof {
                    lemma_members_model(ms@);
                    assert(acc@ == TyV::TypeLit(Seq::<MemberV>::empty()));
                    assert(ms_model.skip(0) =~= ms_model);
                }
                let mut i: usize = 0;
                while i < ms.len()
                    invariant
                        i <= ms@.len(),
                        normalize_spec(env@, t@, fuel as nat) == Ok::<TyV, EngineError>(nm),
                        nm == TyV::TypeLit(ms_model),
                        ms_model == membervec_model(ms),
                        ms_model.len() == ms@.len(),
                        forall|j: int| 0 <= j < ms@.len() ==> ms_model[j] == member_model(ms@[j]),
                        fold_typelit(env@, TyV::TypeLit(Seq::empty()), ms_model, fuel as nat)
                            == fold_typelit(env@, acc@, ms_model.skip(i as int), fuel as nat),
                    decreases ms@.len() - i,
                {
                    proof {
                        assert(ms_model.skip(i as int)[0] == member_model(ms@[i as int]));
                        assert(ms_model.skip(i as int).drop_first() =~= ms_model.skip(
                            i as int + 1,
                        ));
                    }
                    match append_type_element_to_type(env, &acc, &ms[i], fuel) {
                        Err(e) => {
                            return Err(e);
                        },
                        Ok(a2) => {
                            acc = a2;
                        },
                    }
                    i += 1;
                }
                proof {
                    assert(ms_model.skip(i as int) =~= Seq::<MemberV>::empty());
                }
                Ok(acc)
            },
            other => Ok(other),
        }
        },
    }
}

/// The union-target pre-pass. The caller has already established that the
/// target is a union; the candidate is flattened, and only if the result
/// is itself a union is the comparison delegated to assignability. `None`
/// means the pre-pass is not applicable and the ordinary path must run.
pub fn assign_to_union(env: &TypeEnv, target: &Ty, cand: &Ty, fuel: u64) -> (r: Option<
    Result<(), EngineError>,
>)
    requires
        target@ is Union,
    ensures
        r == assign_to_union_spec(env@, target@, cand@, fuel as nat),
{
    match flatten_unions_for_assignment(env, cand, fuel) {
        Err(_) => None,
        Ok(f) => {
            if crate::ty::is_union(&f) {
                Some(assign_with_opts(env, target, &f, false, fuel))
            } else {
                None
            }
        },
    }
}

} // verus!
