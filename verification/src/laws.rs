//! Laws of the relation engines, stated and proved over the spec models.

use vstd::prelude::*;

use crate::cast::{castable_any_from, castable_any_to, castable_spec, has_overlap_spec};
use crate::env::{extends_spec, normalize_spec, EngineError, EnvV};
use crate::flatten::{
    append_tuple_spec, assign_to_union_spec, bool_expansion, expand_union_spec, flatten_spec,
    fold_tuple,
};
use crate::ty::{ElemV, Keyword, TyV};

verus! {

broadcast use vstd::seq::group_seq_axioms;

/// Boolean sugar equivalence: appending a tuple element whose type is the
/// `boolean` keyword behaves identically to appending one whose type is
/// the explicit union `true | false`.
pub proof fn lemma_boolean_sugar(env: EnvV, acc: TyV, label: Option<Seq<char>>, fuel: nat)
    ensures
        append_tuple_spec(
            env,
            acc,
            ElemV { label, ty: TyV::Keyword(Keyword::Boolean) },
            fuel,
        ) == append_tuple_spec(env, acc, ElemV { label, ty: TyV::Union(bool_expansion()) }, fuel),
{
    assert(normalize_spec(env, TyV::Keyword(Keyword::Boolean), fuel) == Ok::<TyV, EngineError>(
        TyV::Keyword(Keyword::Boolean),
    ));
    assert(normalize_spec(env, TyV::Union(bool_expansion()), fuel) == Ok::<TyV, EngineError>(
        TyV::Union(bool_expansion()),
    ));
    assert(expand_union_spec(env, TyV::Keyword(Keyword::Boolean), fuel) == Some(bool_expansion()));
    assert(expand_union_spec(env, TyV::Union(bool_expansion()), fuel) == Some(bool_expansion()));
}

/// A declared extends relation between two interfaces, in either
/// direction, makes a cast between them legal both ways.
pub proof fn lemma_extends_castable(env: EnvV, from: TyV, to: TyV, fuel: nat)
    requires
        from is Interface,
        to is Interface,
        extends_spec(env, from, to, fuel) == Some(true) || extends_spec(env, to, from, fuel)
            == Some(true),
    ensures
        castable_spec(env, from, to, fuel) == Ok::<bool, EngineError>(true),
{
}

/// A union source is castable exactly when some member is; member
/// queries are evaluated in order, so the law holds whenever every
/// member query succeeds.
pub proof fn lemma_castable_union_source(env: EnvV, fs: Seq<TyV>, to: TyV, fuel: nat)
    requires
        !(to is Ref),
        TyV::Union(fs) != to,
        forall|i: int| 0 <= i < fs.len() ==> (#[trigger] castable_spec(env, fs[i], to, fuel)) is Ok,
    ensures
        castable_spec(env, TyV::Union(fs), to, fuel) == Ok::<bool, EngineError>(
            exists|i: int|
                0 <= i < fs.len() && castable_spec(env, fs[i], to, fuel) == Ok::<bool, EngineError>(
                    true,
                ),
        ),
{
    lemma_any_from(env, fs, to, fuel);
}

proof fn lemma_any_from(env: EnvV, fs: Seq<TyV>, to: TyV, fuel: nat)
    requires
        forall|i: int| 0 <= i < fs.len() ==> (#[trigger] castable_spec(env, fs[i], to, fuel)) is Ok,
    ensures
        castable_any_from(env, fs, to, fuel) == Ok::<bool, EngineError>(
            exists|i: int|
                0 <= i < fs.len() && castable_spec(env, fs[i], to, fuel) == Ok::<bool, EngineError>(
                    true,
                ),
        ),
    decreases fs.len(),
{
    if fs.len() == 0 {
        assert(!(exists|i: int|
            0 <= i < fs.len() && castable_spec(env, fs[i], to, fuel) == Ok::<bool, EngineError>(
                true,
            )));
    } else {
        if castable_spec(env, fs[0], to, fuel) == Ok::<bool, EngineError>(true) {
            assert(exists|i: int|
                0 <= i < fs.len() && castable_spec(env, fs[i], to, fuel) == Ok::<
                    bool,
                    EngineError,
                >(true));
        } else {
            assert(forall|i: int|
                0 <= i < fs.drop_first().len() ==> (#[trigger] castable_spec(
                    env,
                    fs.drop_first()[i],
                    to,
                    fuel,
                )) is Ok) by {
                assert(forall|i: int|
                    0 <= i < fs.drop_first().len() ==> fs.drop_first()[i] == fs[i + 1]);
            }
            lemma_any_from(env, fs.drop_first(), to, fuel);
            if exists|i: int|
                0 <= i < fs.drop_first().len() && castable_spec(env, fs.drop_first()[i], to, fuel)
                    == Ok::<bool, EngineError>(true) {
                let j = choose|i: int|
                    0 <= i < fs.drop_first().len() && castable_spec(
                        env,
                        fs.drop_first()[i],
                        to,
                        fuel,
                    ) == Ok::<bool, EngineError>(true);
                assert(fs[j + 1] == fs.drop_first()[j]);
                assert(exists|i: int|
                    0 <= i < fs.len() && castable_spec(env, fs[i], to, fuel) == Ok::<
                        bool,
                        EngineError,
                    >(true));
            } else {
                if exists|i: int|
                    0 <= i < fs.len() && castable_spec(env, fs[i], to, fuel) == Ok::<
                        bool,
                        EngineError,
                    >(true) {
                    let j = choose|i: int|
                        0 <= i < fs.len() && castable_spec(env, fs[i], to, fuel) == Ok::<
                            bool,
                            EngineError,
                        >(true);
                    assert(j > 0);
                    assert(fs.drop_first()[j - 1] == fs[j]);
                }
            }
        }
    }
}

/// A cast into a union target is legal exactly when some member accepts
/// the source, provided the source is itself no union (member queries run
/// first on a union source) and every member query succeeds.
pub proof fn lemma_castable_union_target(env: EnvV, from: TyV, ts: Seq<TyV>, fuel: nat)
    requires
        !(from is Ref),
        !(from is Union),
        from != TyV::Union(ts),
        ts.len() > 0,
        forall|i: int|
            0 <= i < ts.len() ==> (#[trigger] castable_spec(env, from, ts[i], fuel)) is Ok,
    ensures
        castable_spec(env, from, TyV::Union(ts), fuel) == Ok::<bool, EngineError>(
            exists|i: int|
                0 <= i < ts.len() && castable_spec(env, from, ts[i], fuel) == Ok::<
                    bool,
                    EngineError,
                >(true),
        ),
{
    if crate::cast::is_trivially_castable(from) {
        assert(castable_spec(env, from, ts[0], fuel) == Ok::<bool, EngineError>(true));
        assert(exists|i: int|
            0 <= i < ts.len() && castable_spec(env, from, ts[i], fuel) == Ok::<bool, EngineError>(
                true,
            ));
    } else {
        lemma_any_to(env, from, ts, fuel);
    }
}

proof fn lemma_any_to(env: EnvV, from: TyV, ts: Seq<TyV>, fuel: nat)
    requires
        forall|i: int|
            0 <= i < ts.len() ==> (#[trigger] castable_spec(env, from, ts[i], fuel)) is Ok,
    ensures
        castable_any_to(env, from, ts, fuel) == Ok::<bool, EngineError>(
            exists|i: int|
                0 <= i < ts.len() && castable_spec(env, from, ts[i], fuel) == Ok::<
                    bool,
                    EngineError,
                >(true),
        ),
    decreases ts.len(),
{
    if ts.len() == 0 {
        assert(!(exists|i: int|
            0 <= i < ts.len() && castable_spec(env, from, ts[i], fuel) == Ok::<bool, EngineError>(
                true,
            )));
    } else {
        if castable_spec(env, from, ts[0], fuel) == Ok::<bool, EngineError>(true) {
            assert(exists|i: int|
                0 <= i < ts.len() && castable_spec(env, from, ts[i], fuel) == Ok::<
                    bool,
                    EngineError,
                >(true));
        } else {
            assert(forall|i: int|
                0 <= i < ts.drop_first().len() ==> (#[trigger] castable_spec(
                    env,
                    from,
                    ts.drop_first()[i],
                    fuel,
                )) is Ok) by {
                assert(forall|i: int|
                    0 <= i < ts.drop_first().len() ==> ts.drop_first()[i] == ts[i + 1]);
            }
            lemma_any_to(env, from, ts.drop_first(), fuel);
            if exists|i: int|
                0 <= i < ts.drop_first().len() && castable_spec(env, from, ts.drop_first()[i], fuel)
                    == Ok::<bool, EngineError>(true) {
                let j = choose|i: int|
                    0 <= i < ts.drop_first().len() && castable_spec(
                        env,
                        from,
                        ts.drop_first()[i],
                        fuel,
                    ) == Ok::<bool, EngineError>(true);
                assert(ts[j + 1] == ts.drop_first()[j]);
                assert(exists|i: int|
                    0 <= i < ts.len() && castable_spec(env, from, ts[i], fuel) == Ok::<
                        bool,
                        EngineError,
                    >(true));
            } else {
                if exists|i: int|
                    0 <= i < ts.len() && castable_spec(env, from, ts[i], fuel) == Ok::<
                        bool,
                        EngineError,
                    >(true) {
                    let j = choose|i: int|
                        0 <= i < ts.len() && castable_spec(env, from, ts[i], fuel) == Ok::<
                            bool,
                            EngineError,
                        >(true);
                    assert(j > 0);
                    assert(ts.drop_first()[j - 1] == ts[j]);
                }
            }
        }
    }
}

/// Overlap is symmetric: whenever both directional castability queries
/// succeed, swapping the sides does not change the verdict.
pub proof fn lemma_has_overlap_symmetric(env: EnvV, l: TyV, r: TyV, fuel: nat)
    requires
        castable_spec(env, l, r, fuel) is Ok,
        castable_spec(env, r, l, fuel) is Ok,
    ensures
        has_overlap_spec(env, l, r, fuel) == has_overlap_spec(env, r, l, fuel),
{
}

/// The union-target pre-pass declines when no component of a tuple
/// candidate expands to a union: flattening such a tuple reproduces it,
/// the result is no union, and the pre-pass is not applicable.
pub proof fn lemma_assign_to_union_not_applicable(env: EnvV, target: TyV, cand: TyV, fuel: nat)
    requires
        cand is Tuple,
        forall|i: int|
            0 <= i < cand->Tuple_0.len() ==> (#[trigger] expand_union_spec(
                env,
                cand->Tuple_0[i].ty,
                fuel,
            )) is None,
    ensures
        assign_to_union_spec(env, target, cand, fuel) is None,
{
    assert(normalize_spec(env, cand, fuel) == Ok::<TyV, EngineError>(cand));
    lemma_fold_tuple_no_expansion(env, Seq::empty(), cand->Tuple_0, fuel);
    assert(Seq::<ElemV>::empty() + cand->Tuple_0 =~= cand->Tuple_0);
    assert(flatten_spec(env, cand, fuel) == Ok::<TyV, EngineError>(
        TyV::Tuple(cand->Tuple_0),
    ));
}

/// Folding elements none of which expands onto a tuple accumulator
/// appends them all, in order.
pub proof fn lemma_fold_tuple_no_expansion(env: EnvV, s0: Seq<ElemV>, es: Seq<ElemV>, fuel: nat)
    requires
        forall|i: int|
            0 <= i < es.len() ==> (#[trigger] expand_union_spec(env, es[i].ty, fuel)) is None,
    ensures
        fold_tuple(env, TyV::Tuple(s0), es, fuel) == Ok::<TyV, EngineError>(TyV::Tuple(s0 + es)),
    decreases es.len(),
{
    if es.len() == 0 {
        assert(s0 + es =~= s0);
    } else {
        assert(append_tuple_spec(env, TyV::Tuple(s0), es[0], fuel) == Ok::<TyV, EngineError>(
            TyV::Tuple(s0.push(es[0])),
        ));
        assert(forall|i: int|
            0 <= i < es.drop_first().len() ==> (#[trigger] expand_union_spec(
                env,
                es.drop_first()[i].ty,
                fuel,
            )) is None) by {
            assert(forall|i: int|
                0 <= i < es.drop_first().len() ==> es.drop_first()[i] == es[i + 1]);
        }
        lemma_fold_tuple_no_expansion(env, s0.push(es[0]), es.drop_first(), fuel);
        assert(s0.push(es[0]) + es.drop_first() =~= s0 + es);
    }
}

/// A well-formed distribution accumulator of arity `n`: a tuple of `n`
/// elements, or a union whose branches are all tuples of `n` elements
/// (in particular, never a directly-nested union).
pub open spec fn tuple_branches_len(t: TyV, n: nat) -> bool {
    match t {
        TyV::Tuple(es) => es.len() == n,
        TyV::Union(bs) => forall|i: int|
            0 <= i < bs.len() ==> (#[trigger] bs[i]) is Tuple && bs[i]->Tuple_0.len() == n,
        _ => false,
    }
}

proof fn lemma_flatten_once_arity(bs: Seq<TyV>, n: nat)
    requires
        forall|i: int| 0 <= i < bs.len() ==> tuple_branches_len(#[trigger] bs[i], n),
    ensures
        forall|j: int|
            0 <= j < crate::flatten::flatten_once(bs).len() ==> (
            #[trigger] crate::flatten::flatten_once(bs)[j]) is Tuple
                && crate::flatten::flatten_once(bs)[j]->Tuple_0.len() == n,
    decreases bs.len(),
{
    if bs.len() > 0 {
        assert(forall|i: int|
            0 <= i < bs.drop_first().len() ==> tuple_branches_len(
                #[trigger] bs.drop_first()[i],
                n,
            )) by {
            assert(forall|i: int|
                0 <= i < bs.drop_first().len() ==> bs.drop_first()[i] == bs[i + 1]);
        }
        lemma_flatten_once_arity(bs.drop_first(), n);
        assert(tuple_branches_len(bs[0], n));
    }
}

proof fn lemma_branches_arity(env: EnvV, bs: Seq<TyV>, el: ElemV, fuel: nat, n: nat)
    requires
        expand_union_spec(env, el.ty, fuel) is None,
        forall|i: int| 0 <= i < bs.len() ==> (#[trigger] bs[i]) is Tuple && bs[i]->Tuple_0.len()
            == n,
    ensures
        crate::flatten::append_tuple_branches(env, bs, el, fuel) matches Ok(bs2) ==> bs2.len()
            == bs.len() && forall|i: int|
            0 <= i < bs2.len() ==> (#[trigger] bs2[i]) is Tuple && bs2[i]->Tuple_0.len() == n + 1,
    decreases bs.len(),
{
    if bs.len() > 0 {
        assert(append_tuple_spec(env, bs[0], el, fuel) == Ok::<TyV, EngineError>(
            TyV::Tuple(bs[0]->Tuple_0.push(el)),
        ));
        assert(forall|i: int|
            0 <= i < bs.drop_first().len() ==> (#[trigger] bs.drop_first()[i]) is Tuple
                && bs.drop_first()[i]->Tuple_0.len() == n) by {
            assert(forall|i: int|
                0 <= i < bs.drop_first().len() ==> bs.drop_first()[i] == bs[i + 1]);
        }
        lemma_branches_arity(env, bs.drop_first(), el, fuel, n);
    }
}

proof fn lemma_append_arity(env: EnvV, acc: TyV, el: ElemV, fuel: nat, n: nat)
    requires
        tuple_branches_len(acc, n),
    ensures
        append_tuple_spec(env, acc, el, fuel) matches Ok(r) ==> tuple_branches_len(r, n + 1),
    decreases fuel, acc, 2int,
{
    match expand_union_spec(env, el.ty, fuel) {
        Some(ts) => {
            if fuel > 0 {
                lemma_expand_arity(env, acc, el.label, ts, (fuel - 1) as nat, n);
                match crate::flatten::append_tuple_expand(
                    env,
                    acc,
                    el.label,
                    ts,
                    (fuel - 1) as nat,
                ) {
                    Ok(branches) => {
                        lemma_flatten_once_arity(branches, n + 1);
                    },
                    Err(_) => {},
                }
            }
        },
        None => {
            match acc {
                TyV::Union(bs) => {
                    lemma_branches_arity(env, bs, el, fuel, n);
                },
                _ => {},
            }
        },
    }
}

proof fn lemma_expand_arity(
    env: EnvV,
    acc: TyV,
    label: Option<Seq<char>>,
    ts: Seq<TyV>,
    fuel: nat,
    n: nat,
)
    requires
        tuple_branches_len(acc, n),
    ensures
        crate::flatten::append_tuple_expand(env, acc, label, ts, fuel) matches Ok(bs) ==> forall|
            i: int,
        | 0 <= i < bs.len() ==> tuple_branches_len(#[trigger] bs[i], n + 1),
    decreases fuel, acc, ts.len() + 3,
{
    if ts.len() > 0 {
        lemma_append_arity(env, acc, ElemV { label, ty: ts[0] }, fuel, n);
        lemma_expand_arity(env, acc, label, ts.drop_first(), fuel, n);
        match crate::flatten::append_tuple_expand(env, acc, label, ts, fuel) {
            Ok(bs) => {
                match append_tuple_spec(env, acc, ElemV { label, ty: ts[0] }, fuel) {
                    Ok(b) => {
                        match crate::flatten::append_tuple_expand(
                            env,
                            acc,
                            label,
                            ts.drop_first(),
                            fuel,
                        ) {
                            Ok(rest) => {
                                assert(bs == seq![b] + rest);
                                assert(forall|i: int|
                                    0 <= i < bs.len() ==> tuple_branches_len(
                                        #[trigger] bs[i],
                                        n + 1,
                                    )) by {
                                    assert(bs[0] == b);
                                    assert(forall|i: int|
                                        1 <= i < bs.len() ==> bs[i] == rest[i - 1]);
                                }
                            },
                            Err(_) => {},
                        }
                    },
                    Err(_) => {},
                }
            },
            Err(_) => {},
        }
    }
}

proof fn lemma_fold_arity(env: EnvV, acc: TyV, es: Seq<ElemV>, fuel: nat, n: nat)
    requires
        tuple_branches_len(acc, n),
    ensures
        fold_tuple(env, acc, es, fuel) matches Ok(r) ==> tuple_branches_len(r, n + es.len()),
    decreases es.len(),
{
    if es.len() > 0 {
        lemma_append_arity(env, acc, es[0], fuel, n);
        match append_tuple_spec(env, acc, es[0], fuel) {
            Ok(a2) => {
                lemma_fold_arity(env, a2, es.drop_first(), fuel, n + 1);
            },
            Err(_) => {},
        }
    }
}

/// Arity preservation: every branch of the union produced by
/// distributing an `n`-element tuple is itself an `n`-element tuple, and
/// the produced union never directly nests another union.
pub proof fn lemma_distribute_arity(env: EnvV, t: TyV, fuel: nat)
    requires
        t is Tuple,
    ensures
        flatten_spec(env, t, fuel) matches Ok(r) ==> tuple_branches_len(r, t->Tuple_0.len()),
{
    assert(normalize_spec(env, t, fuel) == Ok::<TyV, EngineError>(t));
    assert(tuple_branches_len(TyV::Tuple(Seq::empty()), 0));
    lemma_fold_arity(env, TyV::Tuple(Seq::empty()), t->Tuple_0, fuel, 0);
}

proof fn lemma_normalize_not_ref(env: EnvV, t: TyV, fuel: nat)
    ensures
        normalize_spec(env, t, fuel) matches Ok(n) ==> !(n is Ref),
    decreases fuel,
{
    if t is Ref && fuel > 0 {
        match crate::env::lookup_spec(env, t->Ref_0) {
            Some(d) => {
                lemma_normalize_not_ref(env, d, (fuel - 1) as nat);
            },
            None => {},
        }
    }
}

proof fn lemma_append_tuple_shape(env: EnvV, acc: TyV, el: ElemV, fuel: nat)
    ensures
        append_tuple_spec(env, acc, el, fuel) matches Ok(b) ==> (b is Union || (acc is Tuple
            && expand_union_spec(env, el.ty, fuel) is None && b == TyV::Tuple(
            acc->Tuple_0.push(el),
        ))),
{
}

proof fn lemma_fold_tuple_union(env: EnvV, u: TyV, es: Seq<ElemV>, fuel: nat)
    requires
        u is Union,
    ensures
        fold_tuple(env, u, es, fuel) matches Ok(r) ==> r is Union,
    decreases es.len(),
{
    if es.len() > 0 {
        lemma_append_tuple_shape(env, u, es[0], fuel);
        match append_tuple_spec(env, u, es[0], fuel) {
            Ok(a2) => {
                lemma_fold_tuple_union(env, a2, es.drop_first(), fuel);
            },
            Err(_) => {},
        }
    }
}

proof fn lemma_fold_tuple_shape(env: EnvV, s0: Seq<ElemV>, es: Seq<ElemV>, fuel: nat)
    ensures
        fold_tuple(env, TyV::Tuple(s0), es, fuel) matches Ok(r) ==> (r is Union || (r
            == TyV::Tuple(s0 + es) && forall|i: int|
            0 <= i < es.len() ==> (#[trigger] expand_union_spec(env, es[i].ty, fuel)) is None)),
    decreases es.len(),
{
    if es.len() == 0 {
        assert(s0 + es =~= s0);
    } else {
        lemma_append_tuple_shape(env, TyV::Tuple(s0), es[0], fuel);
        match append_tuple_spec(env, TyV::Tuple(s0), es[0], fuel) {
            Ok(b) => {
                if b is Union {
                    lemma_fold_tuple_union(env, b, es.drop_first(), fuel);
                } else {
                    lemma_fold_tuple_shape(env, s0.push(es[0]), es.drop_first(), fuel);
                    match fold_tuple(env, b, es.drop_first(), fuel) {
                        Ok(r) => {
                            if !(r is Union) {
                                assert(s0.push(es[0]) + es.drop_first() =~= s0 + es);
                                assert(forall|i: int|
                                    0 <= i < es.len() ==> (#[trigger] expand_union_spec(
                                        env,
                                        es[i].ty,
                                        fuel,
                                    )) is None) by {
                                    assert(forall|i: int|
                                        1 <= i < es.len() ==> es[i] == es.drop_first()[i - 1]);
                                }
                            }
                        },
                        Err(_) => {},
                    }
                }
            },
            Err(_) => {},
        }
    }
}

/// A member that triggers distribution: a property whose declared type
/// expands to a union.
pub open spec fn member_expands(env: EnvV, m: crate::ty::MemberV, fuel: nat) -> bool {
    m matches crate::ty::MemberV::Property { ty: Some(t), .. } && expand_union_spec(
        env,
        t,
        fuel,
    ) is Some
}

proof fn lemma_append_type_shape(env: EnvV, acc: TyV, m: crate::ty::MemberV, fuel: nat)
    ensures
        crate::flatten::append_type_spec(env, acc, m, fuel) matches Ok(b) ==> (b is Union || (
        acc is TypeLit && !member_expands(env, m, fuel) && b == TyV::TypeLit(
            acc->TypeLit_0.push(m),
        ))),
{
}

proof fn lemma_fold_typelit_union(env: EnvV, u: TyV, ms: Seq<crate::ty::MemberV>, fuel: nat)
    requires
        u is Union,
    ensures
        crate::flatten::fold_typelit(env, u, ms, fuel) matches Ok(r) ==> r is Union,
    decreases ms.len(),
{
    if ms.len() > 0 {
        lemma_append_type_shape(env, u, ms[0], fuel);
        match crate::flatten::append_type_spec(env, u, ms[0], fuel) {
            Ok(a2) => {
                lemma_fold_typelit_union(env, a2, ms.drop_first(), fuel);
            },
            Err(_) => {},
        }
    }
}

proof fn lemma_fold_typelit_shape(
    env: EnvV,
    s0: Seq<crate::ty::MemberV>,
    ms: Seq<crate::ty::MemberV>,
    fuel: nat,
)
    ensures
        crate::flatten::fold_typelit(env, TyV::TypeLit(s0), ms, fuel) matches Ok(r) ==> (
        r is Union || (r == TyV::TypeLit(s0 + ms) && forall|i: int|
            0 <= i < ms.len() ==> !member_expands(env, #[trigger] ms[i], fuel))),
    decreases ms.len(),
{
    if ms.len() == 0 {
        assert(s0 + ms =~= s0);
    } else {
        lemma_append_type_shape(env, TyV::TypeLit(s0), ms[0], fuel);
        match crate::flatten::append_type_spec(env, TyV::TypeLit(s0), ms[0], fuel) {
            Ok(b) => {
                if b is Union {
                    lemma_fold_typelit_union(env, b, ms.drop_first(), fuel);
                } else {
                    lemma_fold_typelit_shape(env, s0.push(ms[0]), ms.drop_first(), fuel);
                    match crate::flatten::fold_typelit(env, b, ms.drop_first(), fuel) {
                        Ok(r) => {
                            if !(r is Union) {
                                assert(s0.push(ms[0]) + ms.drop_first() =~= s0 + ms);
                                assert(forall|i: int|
                                    0 <= i < ms.len() ==> !member_expands(
                                        env,
                                        #[trigger] ms[i],
                                        fuel,
                                    )) by {
                                    assert(forall|i: int|
                                        1 <= i < ms.len() ==> ms[i] == ms.drop_first()[i - 1]);
                                }
                            }
                        },
                        Err(_) => {},
                    }
                }
            },
            Err(_) => {},
        }
    }
}

proof fn lemma_fold_typelit_no_expansion(
    env: EnvV,
    s0: Seq<crate::ty::MemberV>,
    ms: Seq<crate::ty::MemberV>,
    fuel: nat,
)
    requires
        forall|i: int| 0 <= i < ms.len() ==> !member_expands(env, #[trigger] ms[i], fuel),
    ensures
        crate::flatten::fold_typelit(env, TyV::TypeLit(s0), ms, fuel) == Ok::<TyV, EngineError>(
            TyV::TypeLit(s0 + ms),
        ),
    decreases ms.len(),
{
    if ms.len() == 0 {
        assert(s0 + ms =~= s0);
    } else {
        assert(crate::flatten::append_type_verbatim(env, TyV::TypeLit(s0), ms[0], fuel) == Ok::<
            TyV,
            EngineError,
        >(TyV::TypeLit(s0.push(ms[0]))));
        assert(crate::flatten::append_type_spec(env, TyV::TypeLit(s0), ms[0], fuel) == Ok::<
            TyV,
            EngineError,
        >(TyV::TypeLit(s0.push(ms[0]))));
        assert(forall|i: int|
            0 <= i < ms.drop_first().len() ==> !member_expands(
                env,
                #[trigger] ms.drop_first()[i],
                fuel,
            )) by {
            assert(forall|i: int|
                0 <= i < ms.drop_first().len() ==> ms.drop_first()[i] == ms[i + 1]);
        }
        lemma_fold_typelit_no_expansion(env, s0.push(ms[0]), ms.drop_first(), fuel);
        assert(s0.push(ms[0]) + ms.drop_first() =~= s0 + ms);
    }
}

/// Idempotence: distributing a type a second time changes nothing. A
/// first distribution either produced a union (which passes through
/// unchanged) or reproduced a tuple / object literal none of whose
/// components expands, and a second fold then reproduces it again.
pub proof fn lemma_distribute_idempotent(env: EnvV, t: TyV, fuel: nat)
    ensures
        flatten_spec(env, t, fuel) matches Ok(r) ==> flatten_spec(env, r, fuel) == flatten_spec(
            env,
            t,
            fuel,
        ),
{
    lemma_normalize_not_ref(env, t, fuel);
    match normalize_spec(env, t, fuel) {
        Ok(n) => {
            match n {
                TyV::Tuple(es) => {
                    lemma_fold_tuple_shape(env, Seq::empty(), es, fuel);
                    match fold_tuple(env, TyV::Tuple(Seq::empty()), es, fuel) {
                        Ok(r) => {
                            if r is Union {
                                assert(normalize_spec(env, r, fuel) == Ok::<TyV, EngineError>(r));
                            } else {
                                assert(Seq::<ElemV>::empty() + es =~= es);
                                assert(r == TyV::Tuple(es));
                                assert(normalize_spec(env, r, fuel) == Ok::<TyV, EngineError>(r));
                                lemma_fold_tuple_no_expansion(env, Seq::empty(), es, fuel);
                            }
                        },
                        Err(_) => {},
                    }
                },
                TyV::TypeLit(ms) => {
                    lemma_fold_typelit_shape(env, Seq::empty(), ms, fuel);
                    match crate::flatten::fold_typelit(env, TyV::TypeLit(Seq::empty()), ms, fuel) {
                        Ok(r) => {
                            if r is Union {
                                assert(normalize_spec(env, r, fuel) == Ok::<TyV, EngineError>(r));
                            } else {
                                assert(Seq::<crate::ty::MemberV>::empty() + ms =~= ms);
                                assert(r == TyV::TypeLit(ms));
                                assert(normalize_spec(env, r, fuel) == Ok::<TyV, EngineError>(r));
                                lemma_fold_typelit_no_expansion(env, Seq::empty(), ms, fuel);
                            }
                        },
                        Err(_) => {},
                    }
                },
                _ => {
                    assert(normalize_spec(env, n, fuel) == Ok::<TyV, EngineError>(n));
                },
            }
        },
        Err(_) => {},
    }
}

} // verus!
