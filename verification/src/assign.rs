//! Structural assignability.
//!
//! The relation engines re-enter general assignability at two points: the
//! union flattening engine delegates its terminal union-vs-union comparison
//! here, and the castability engine consults it as a fallback (in a
//! for-castability mode that also accepts declared-extends-compatible
//! nominal pairs in either direction). This is a conservative structural
//! core of that relation: identity, `any`, literal widening, unions,
//! tuples, arrays, object shapes by property, and nominal extends.

use vstd::prelude::*;

use crate::env::{
    nominal_extends, nominal_name, normalize, normalize_spec, reaches, reaches_from, EngineError,
    EnvV, TypeEnv,
};
use crate::eq::ty_eq;
use crate::ty::{
    elem_model, elemvec_model, he, hes, hm, hms, ht, hts, lemma_elems_model, lemma_members_model,
    lemma_tys_model, member_model, membervec_model, opt_ht, ty_model, tyvec_model, Keyword, LitV,
    LitValue, Member, TupleElem, Ty, TyV,
};

verus! {

broadcast use vstd::seq::group_seq_axioms, vstd::std_specs::vec::group_vec_axioms;

/// A literal value widens to the keyword of its own primitive kind.
pub open spec fn lit_widens(l: LitV, k: Keyword) -> bool {
    match (l, k) {
        (LitV::Num(_), Keyword::Number) => true,
        (LitV::Str(_), Keyword::Str) => true,
        (LitV::Bool(_), Keyword::Boolean) => true,
        (LitV::BigInt(_), Keyword::BigInt) => true,
        _ => false,
    }
}

/// Whether the candidate may be used where the target is expected.
///
/// Ordered rules: structural identity; `any` on either side; reference
/// resolution; a candidate union must assign memberwise; a union target
/// accepts a candidate assignable to any member; literal widening; tuples
/// pointwise at equal arity; arrays by element; a tuple assigns to an array
/// elementwise; object shapes by required properties; nominal shapes by
/// name or declared extends (and, in for-castability mode, declared
/// extends in either direction).
pub open spec fn assign_spec(env: EnvV, target: TyV, cand: TyV, for_cast: bool, fuel: nat) -> Result<
    (),
    EngineError,
>
    decreases fuel, ht(target) + ht(cand), 0int,
{
    if cand == target {
        Ok(())
    } else if cand == TyV::Keyword(Keyword::Any) || target == TyV::Keyword(Keyword::Any) {
        Ok(())
    } else if target is Ref {
        if fuel == 0 {
            Err(EngineError::ExpansionLimit)
        } else {
            match normalize_spec(env, target, fuel) {
                Err(e) => Err(e),
                Ok(t2) => assign_spec(env, t2, cand, for_cast, (fuel - 1) as nat),
            }
        }
    } else if cand is Ref {
        if fuel == 0 {
            Err(EngineError::ExpansionLimit)
        } else {
            match normalize_spec(env, cand, fuel) {
                Err(e) => Err(e),
                Ok(c2) => assign_spec(env, target, c2, for_cast, (fuel - 1) as nat),
            }
        }
    } else if cand is Union {
        assign_all_from(env, target, cand->Union_0, for_cast, fuel)
    } else if target is Union {
        assign_any_to(env, target->Union_0, cand, for_cast, fuel)
    } else {
        match (target, cand) {
            (TyV::Keyword(k), TyV::Lit(l)) => if lit_widens(l, k) {
                Ok(())
            } else {
                Err(EngineError::NotAssignable)
            },
            (TyV::Tuple(tes), TyV::Tuple(ces)) => if tes.len() == ces.len() {
                assign_elems(env, tes, ces, for_cast, fuel)
            } else {
                Err(EngineError::NotAssignable)
            },
            (TyV::Array(te), TyV::Array(ce)) => assign_spec(env, *te, *ce, for_cast, fuel),
            (TyV::Array(te), TyV::Tuple(ces)) => assign_elems_to(env, *te, ces, for_cast, fuel),
            (TyV::TypeLit(tms), TyV::TypeLit(cms)) => assign_props(env, tms, cms, for_cast, fuel),
            _ => {
                if nominal_name(target) is Some && nominal_name(cand) is Some {
                    if nominal_name(cand) == nominal_name(target) || reaches(
                        env,
                        nominal_extends(cand),
                        nominal_name(target)->Some_0,
                        fuel,
                    ) || (for_cast && reaches(
                        env,
                        nominal_extends(target),
                        nominal_name(cand)->Some_0,
                        fuel,
                    )) {
                        Ok(())
                    } else {
                        Err(EngineError::NotAssignable)
                    }
                } else {
                    Err(EngineError::NotAssignable)
                }
            },
        }
    }
}

/// Every member of a candidate union must assign to the target; the first
/// failure is reported.
pub open spec fn assign_all_from(
    env: EnvV,
    target: TyV,
    cs: Seq<TyV>,
    for_cast: bool,
    fuel: nat,
) -> Result<(), EngineError>
    decreases fuel, ht(target) + hts(cs), cs.len() + 1,
{
    if cs.len() == 0 {
        Ok(())
    } else {
        match assign_spec(env, target, cs[0], for_cast, fuel) {
            Err(e) => Err(e),
            Ok(_) => assign_all_from(env, target, cs.drop_first(), for_cast, fuel),
        }
    }
}

/// A candidate assigns to a union target when it assigns to some member.
pub open spec fn assign_any_to(env: EnvV, ts: Seq<TyV>, cand: TyV, for_cast: bool, fuel: nat) -> Result<
    (),
    EngineError,
>
    decreases fuel, hts(ts) + ht(cand), ts.len() + 1,
{
    if ts.len() == 0 {
        Err(EngineError::NotAssignable)
    } else if assign_spec(env, ts[0], cand, for_cast, fuel) is Ok {
        Ok(())
    } else {
        assign_any_to(env, ts.drop_first(), cand, for_cast, fuel)
    }
}

/// Tuples assign pointwise, in declaration order; the first failing
/// position is reported.
pub open spec fn assign_elems(
    env: EnvV,
    tes: Seq<crate::ty::ElemV>,
    ces: Seq<crate::ty::ElemV>,
    for_cast: bool,
    fuel: nat,
) -> Result<(), EngineError>
    decreases fuel, hes(tes) + hes(ces), 0int,
    via assign_elems_dec
{
    if tes.len() == 0 || ces.len() == 0 {
        Ok(())
    } else {
        match assign_spec(env, tes[0].ty, ces[0].ty, for_cast, fuel) {
            Err(e) => Err(e),
            Ok(_) => assign_elems(env, tes.drop_first(), ces.drop_first(), for_cast, fuel),
        }
    }
}

/// Every tuple element must assign to the array's element type.
pub open spec fn assign_elems_to(
    env: EnvV,
    te: TyV,
    ces: Seq<crate::ty::ElemV>,
    for_cast: bool,
    fuel: nat,
) -> Result<(), EngineError>
    decreases fuel, ht(te) + hes(ces), 0int,
    via assign_elems_to_dec
{
    if ces.len() == 0 {
        Ok(())
    } else {
        match assign_spec(env, te, ces[0].ty, for_cast, fuel) {
            Err(e) => Err(e),
            Ok(_) => assign_elems_to(env, te, ces.drop_first(), for_cast, fuel),
        }
    }
}

/// Search the candidate members for a property of the given name and check
/// its annotation against the target property's annotation.
pub open spec fn assign_prop_in(
    env: EnvV,
    tt: TyV,
    n: Seq<char>,
    cms: Seq<crate::ty::MemberV>,
    optional: bool,
    for_cast: bool,
    fuel: nat,
) -> Result<(), EngineError>
    decreases fuel, ht(tt) + hms(cms), 0int,
    via assign_prop_in_dec
{
    if cms.len() == 0 {
        if optional {
            Ok(())
        } else {
            Err(EngineError::NotAssignable)
        }
    } else {
        match cms[0] {
            crate::ty::MemberV::Property { name, ty, .. } => if name == n {
                match ty {
                    Some(ct) => assign_spec(env, tt, ct, for_cast, fuel),
                    None => Ok(()),
                }
            } else {
                assign_prop_in(env, tt, n, cms.drop_first(), optional, for_cast, fuel)
            },
            _ => assign_prop_in(env, tt, n, cms.drop_first(), optional, for_cast, fuel),
        }
    }
}

/// Every annotated property the target shape requires must be present in
/// the candidate shape with an assignable annotation; index, method and
/// call members do not constrain the candidate.
pub open spec fn assign_props(
    env: EnvV,
    tms: Seq<crate::ty::MemberV>,
    cms: Seq<crate::ty::MemberV>,
    for_cast: bool,
    fuel: nat,
) -> Result<(), EngineError>
    decreases fuel, hms(tms) + hms(cms), tms.len() + 1,
    via assign_props_dec
{
    if tms.len() == 0 {
        Ok(())
    } else {
        let head = match tms[0] {
            crate::ty::MemberV::Property { name, ty: Some(tt), optional } => assign_prop_in(
                env,
                tt,
                name,
                cms,
                optional,
                for_cast,
                fuel,
            ),
            _ => Ok(()),
        };
        match head {
            Err(e) => Err(e),
            Ok(_) => assign_props(env, tms.drop_first(), cms, for_cast, fuel),
        }
    }
}

#[via_fn]
proof fn assign_elems_dec(
    env: EnvV,
    tes: Seq<crate::ty::ElemV>,
    ces: Seq<crate::ty::ElemV>,
    for_cast: bool,
    fuel: nat,
) {
    if tes.len() > 0 && ces.len() > 0 {
        assert(hes(tes) == he(tes[0]) + hes(tes.drop_first()));
        assert(he(tes[0]) == 1 + ht(tes[0].ty));
        assert(hes(ces) == he(ces[0]) + hes(ces.drop_first()));
        assert(he(ces[0]) == 1 + ht(ces[0].ty));
    }
}

#[via_fn]
proof fn assign_elems_to_dec(
    env: EnvV,
    te: TyV,
    ces: Seq<crate::ty::ElemV>,
    for_cast: bool,
    fuel: nat,
) {
    if ces.len() > 0 {
        assert(hes(ces) == he(ces[0]) + hes(ces.drop_first()));
        assert(he(ces[0]) == 1 + ht(ces[0].ty));
    }
}

#[via_fn]
proof fn assign_prop_in_dec(
    env: EnvV,
    tt: TyV,
    n: Seq<char>,
    cms: Seq<crate::ty::MemberV>,
    optional: bool,
    for_cast: bool,
    fuel: nat,
) {
    if cms.len() > 0 {
        assert(hms(cms) == hm(cms[0]) + hms(cms.drop_first()));
        match cms[0] {
            crate::ty::MemberV::Property { ty, .. } => {
                assert(hm(cms[0]) == 1 + opt_ht(ty));
                match ty {
                    Some(ct) => {
                        assert(opt_ht(ty) == 1 + ht(ct));
                    },
                    None => {},
                }
            },
            _ => {},
        }
    }
}

#[via_fn]
proof fn assign_props_dec(
    env: EnvV,
    tms: Seq<crate::ty::MemberV>,
    cms: Seq<crate::ty::MemberV>,
    for_cast: bool,
    fuel: nat,
) {
    if tms.len() > 0 {
        assert(hms(tms) == hm(tms[0]) + hms(tms.drop_first()));
        match tms[0] {
            crate::ty::MemberV::Property { ty, .. } => {
                assert(hm(tms[0]) == 1 + opt_ht(ty));
                match ty {
                    Some(tt) => {
                        assert(opt_ht(ty) == 1 + ht(tt));
                    },
                    None => {},
                }
            },
            _ => {},
        }
    }
}

/// Executable literal-widening test.
pub(crate) fn lit_widens_x(l: &LitValue, k: Keyword) -> (r: bool)
    ensures
        r == lit_widens(l@, k),
{
    match (l, k) {
        (LitValue::Num(_), Keyword::Number) => true,
        (LitValue::Str(_), Keyword::Str) => true,
        (LitValue::Bool(_), Keyword::Boolean) => true,
        (LitValue::BigInt(_), Keyword::BigInt) => true,
        _ => false,
    }
}

/// General assignability: whether a value of the candidate type may be
/// used where the target type is expected. In for-castability mode,
/// declared-extends-compatible nominal pairs are acceptable in either
/// direction.
#[verifier::rlimit(60)]
pub fn assign_with_opts(env: &TypeEnv, target: &Ty, cand: &Ty, for_cast: bool, fuel: u64) -> (r:
    Result<(), EngineError>)
    ensures
        r == assign_spec(env@, target@, cand@, for_cast, fuel as nat),
    decreases fuel, ht(target@) + ht(cand@), 0int,
{
    if ty_eq(cand, target) {
        Ok(())
    } else if matches!(cand, Ty::Keyword(Keyword::Any)) || matches!(
        target,
        Ty::Keyword(Keyword::Any),
    ) {
        Ok(())
    } else if matches!(target, Ty::Ref(_)) {
        if fuel == 0 {
            Err(EngineError::ExpansionLimit)
        } else {
            match normalize(env, target, fuel) {
                Err(e) => Err(e),
                Ok(t2) => {
                    let rr = assign_with_opts(env, &t2, cand, for_cast, fuel - 1);
                    proof {
                        assert(assign_spec(env@, target@, cand@, for_cast, fuel as nat)
                            == assign_spec(env@, t2@, cand@, for_cast, (fuel as nat - 1) as nat));
                    }
                    rr
                },
            }
        }
    } else if matches!(cand, Ty::Ref(_)) {
        if fuel == 0 {
            Err(EngineError::ExpansionLimit)
        } else {
            match normalize(env, cand, fuel) {
                Err(e) => Err(e),
                Ok(c2) => assign_with_opts(env, target, &c2, for_cast, fuel - 1),
            }
        }
    } else {
        match (target, cand) {
            (_, Ty::Union(cs)) => {
                proof {
                    assert(tyvec_model(*cs).skip(0) =~= tyvec_model(*cs));
                }
                assign_all_from_at(env, target, cs, 0, for_cast, fuel)
            },
            (Ty::Union(ts), _) => {
                proof {
                    assert(tyvec_model(*ts).skip(0) =~= tyvec_model(*ts));
                }
                assign_any_to_at(env, ts, cand, 0, for_cast, fuel)
            },
            (Ty::Keyword(k), Ty::Lit(l)) => {
                if lit_widens_x(l, *k) {
                    Ok(())
                } else {
                    Err(EngineError::NotAssignable)
                }
            },
            (Ty::Tuple(tes), Ty::Tuple(ces)) => {
                if tes.len() == ces.len() {
                    proof {
                        lemma_elems_model(tes@);
                        lemma_elems_model(ces@);
                        assert(elemvec_model(*tes).skip(0) =~= elemvec_model(*tes));
                        assert(elemvec_model(*ces).skip(0) =~= elemvec_model(*ces));
                    }
                    assign_elems_at(env, tes, ces, 0, for_cast, fuel)
                } else {
                    proof {
                        lemma_elems_model(tes@);
                        lemma_elems_model(ces@);
                    }
                    Err(EngineError::NotAssignable)
                }
            },
            (Ty::Array(te), Ty::Array(ce)) => assign_with_opts(env, te, ce, for_cast, fuel),
            (Ty::Array(te), Ty::Tuple(ces)) => {
                proof {
                    assert(elemvec_model(*ces).skip(0) =~= elemvec_model(*ces));
                }
                assign_elems_to_at(env, te, ces, 0, for_cast, fuel)
            },
            (Ty::TypeLit(tms), Ty::TypeLit(cms)) => {
                proof {
                    assert(membervec_model(*tms).skip(0) =~= membervec_model(*tms));
                }
                assign_props_at(env, tms, cms, 0, for_cast, fuel)
            },
            _ => {
                let t_nominal: Option<(&String, &Vec<String>)> = match target {
                    Ty::Interface { name, extends, members: _ } => Some((name, extends)),
                    Ty::Class { name, extends } => Some((name, extends)),
                    _ => None,
                };
                let c_nominal: Option<(&String, &Vec<String>)> = match cand {
                    Ty::Interface { name, extends, members: _ } => Some((name, extends)),
                    Ty::Class { name, extends } => Some((name, extends)),
                    _ => None,
                };
                match (t_nominal, c_nominal) {
                    (Some((tn, te)), Some((cn, ce))) => {
                        if *cn == *tn {
                            Ok(())
                        } else if reaches_from(env, ce, tn, fuel) {
                            Ok(())
                        } else if for_cast && reaches_from(env, te, cn, fuel) {
                            Ok(())
                        } else {
                            Err(EngineError::NotAssignable)
                        }
                    },
                    _ => Err(EngineError::NotAssignable),
                }
            },
        }
    }
}

fn assign_all_from_at(
    env: &TypeEnv,
    target: &Ty,
    cs: &Vec<Ty>,
    i: usize,
    for_cast: bool,
    fuel: u64,
) -> (r: Result<(), EngineError>)
    requires
        i <= cs@.len(),
    ensures
        r == assign_all_from(env@, target@, tyvec_model(*cs).skip(i as int), for_cast, fuel as nat),
    decreases fuel, ht(target@) + hts(tyvec_model(*cs).skip(i as int)), cs@.len() - i + 1,
{
    proof {
        lemma_tys_model(cs@);
    }
    if i == cs.len() {
        proof {
            assert(tyvec_model(*cs).skip(i as int) =~= Seq::<TyV>::empty());
        }
        Ok(())
    } else {
        proof {
            assert(tyvec_model(*cs).skip(i as int)[0] == ty_model(cs@[i as int]));
            assert(tyvec_model(*cs).skip(i as int).drop_first() =~= tyvec_model(*cs).skip(
                i as int + 1,
            ));
        }
        match assign_with_opts(env, target, &cs[i], for_cast, fuel) {
            Err(e) => Err(e),
            Ok(_) => assign_all_from_at(env, target, cs, i + 1, for_cast, fuel),
        }
    }
}

fn assign_any_to_at(env: &TypeEnv, ts: &Vec<Ty>, cand: &Ty, i: usize, for_cast: bool, fuel: u64) -> (r:
    Result<(), EngineError>)
    requires
        i <= ts@.len(),
    ensures
        r == assign_any_to(env@, tyvec_model(*ts).skip(i as int), cand@, for_cast, fuel as nat),
    decreases fuel, hts(tyvec_model(*ts).skip(i as int)) + ht(cand@), ts@.len() - i + 1,
{
    proof {
        lemma_tys_model(ts@);
    }
    if i == ts.len() {
        proof {
            assert(tyvec_model(*ts).skip(i as int) =~= Seq::<TyV>::empty());
        }
        Err(EngineError::NotAssignable)
    } else {
        proof {
            assert(tyvec_model(*ts).skip(i as int)[0] == ty_model(ts@[i as int]));
            assert(tyvec_model(*ts).skip(i as int).drop_first() =~= tyvec_model(*ts).skip(
                i as int + 1,
            ));
        }
        let head = assign_with_opts(env, &ts[i], cand, for_cast, fuel);
        if matches!(head, Ok(_)) {
            Ok(())
        } else {
            assign_any_to_at(env, ts, cand, i + 1, for_cast, fuel)
        }
    }
}

fn assign_elems_at(
    env: &TypeEnv,
    tes: &Vec<TupleElem>,
    ces: &Vec<TupleElem>,
    i: usize,
    for_cast: bool,
    fuel: u64,
) -> (r: Result<(), EngineError>)
    requires
        i <= tes@.len(),
        i <= ces@.len(),
    ensures
        r == assign_elems(
            env@,
            elemvec_model(*tes).skip(i as int),
            elemvec_model(*ces).skip(i as int),
            for_cast,
            fuel as nat,
        ),
    decreases fuel, hes(elemvec_model(*tes).skip(i as int)) + hes(
        elemvec_model(*ces).skip(i as int),
    ), tes@.len() - i + 1,
{
    proof {
        lemma_elems_model(tes@);
        lemma_elems_model(ces@);
    }
    if i == tes.len() || i == ces.len() {
        proof {
            if i == tes.len() {
                assert(elemvec_model(*tes).skip(i as int) =~= Seq::<crate::ty::ElemV>::empty());
            } else {
                assert(elemvec_model(*ces).skip(i as int) =~= Seq::<crate::ty::ElemV>::empty());
            }
        }
        Ok(())
    } else {
        proof {
            let tsk = elemvec_model(*tes).skip(i as int);
            let csk = elemvec_model(*ces).skip(i as int);
            assert(tsk[0] == elem_model(tes@[i as int]));
            assert(csk[0] == elem_model(ces@[i as int]));
            assert(tsk.drop_first() =~= elemvec_model(*tes).skip(i as int + 1));
            assert(csk.drop_first() =~= elemvec_model(*ces).skip(i as int + 1));
            assert(hes(tsk) == he(tsk[0]) + hes(tsk.drop_first()));
            assert(he(tsk[0]) == 1 + ht(tsk[0].ty));
            assert(hes(csk) == he(csk[0]) + hes(csk.drop_first()));
            assert(he(csk[0]) == 1 + ht(csk[0].ty));
        }
        match assign_with_opts(env, &tes[i].ty, &ces[i].ty, for_cast, fuel) {
            Err(e) => Err(e),
            Ok(_) => assign_elems_at(env, tes, ces, i + 1, for_cast, fuel),
        }
    }
}

fn assign_elems_to_at(
    env: &TypeEnv,
    te: &Ty,
    ces: &Vec<TupleElem>,
    i: usize,
    for_cast: bool,
    fuel: u64,
) -> (r: Result<(), EngineError>)
    requires
        i <= ces@.len(),
    ensures
        r == assign_elems_to(
            env@,
            te@,
            elemvec_model(*ces).skip(i as int),
            for_cast,
            fuel as nat,
        ),
    decreases fuel, ht(te@) + hes(elemvec_model(*ces).skip(i as int)), ces@.len() - i + 1,
{
    proof {
        lemma_elems_model(ces@);
    }
    if i == ces.len() {
        proof {
            assert(elemvec_model(*ces).skip(i as int) =~= Seq::<crate::ty::ElemV>::empty());
        }
        Ok(())
    } else {
        proof {
            let csk = elemvec_model(*ces).skip(i as int);
            assert(csk[0] == elem_model(ces@[i as int]));
            assert(csk.drop_first() =~= elemvec_model(*ces).skip(i as int + 1));
            assert(hes(csk) == he(csk[0]) + hes(csk.drop_first()));
            assert(he(csk[0]) == 1 + ht(csk[0].ty));
        }
        match assign_with_opts(env, te, &ces[i].ty, for_cast, fuel) {
            Err(e) => Err(e),
            Ok(_) => assign_elems_to_at(env, te, ces, i + 1, for_cast, fuel),
        }
    }
}

fn assign_prop_in_at(
    env: &TypeEnv,
    tt: &Ty,
    n: &String,
    cms: &Vec<Member>,
    j: usize,
    optional: bool,
    for_cast: bool,
    fuel: u64,
) -> (r: Result<(), EngineError>)
    requires
        j <= cms@.len(),
    ensures
        r == assign_prop_in(
            env@,
            tt@,
            n@,
            membervec_model(*cms).skip(j as int),
            optional,
            for_cast,
            fuel as nat,
        ),
    decreases fuel, ht(tt@) + hms(membervec_model(*cms).skip(j as int)), cms@.len() - j + 1,
{
    proof {
        lemma_members_model(cms@);
    }
    if j == cms.len() {
        proof {
            assert(membervec_model(*cms).skip(j as int) =~= Seq::<crate::ty::MemberV>::empty());
        }
        if optional {
            Ok(())
        } else {
            Err(EngineError::NotAssignable)
        }
    } else {
        proof {
            let msk = membervec_model(*cms).skip(j as int);
            assert(msk[0] == member_model(cms@[j as int]));
            assert(msk.drop_first() =~= membervec_model(*cms).skip(j as int + 1));
            assert(hms(msk) == hm(msk[0]) + hms(msk.drop_first()));
        }
        match &cms[j] {
            Member::Property { name, ty, optional: _ } => {
                if *name == *n {
                    match ty {
                        Some(ct) => {
                            proof {
                                let msk = membervec_model(*cms).skip(j as int);
                                assert(hm(msk[0]) == 1 + opt_ht(
                                    member_model(cms@[j as int])->Property_ty,
                                ));
                                assert(opt_ht(member_model(cms@[j as int])->Property_ty) == 1
                                    + ht(ct@));
                            }
                            assign_with_opts(env, tt, ct, for_cast, fuel)
                        },
                        None => Ok(()),
                    }
                } else {
                    assign_prop_in_at(env, tt, n, cms, j + 1, optional, for_cast, fuel)
                }
            },
            _ => assign_prop_in_at(env, tt, n, cms, j + 1, optional, for_cast, fuel),
        }
    }
}

fn assign_props_at(
    env: &TypeEnv,
    tms: &Vec<Member>,
    cms: &Vec<Member>,
    i: usize,
    for_cast: bool,
    fuel: u64,
) -> (r: Result<(), EngineError>)
    requires
        i <= tms@.len(),
    ensures
        r == assign_props(
            env@,
            membervec_model(*tms).skip(i as int),
            membervec_model(*cms),
            for_cast,
            fuel as nat,
        ),
    decreases fuel, hms(membervec_model(*tms).skip(i as int)) + hms(membervec_model(*cms)), tms@.len()
        - i + 1,
{
    proof {
        lemma_members_model(tms@);
    }
    if i == tms.len() {
        proof {
            assert(membervec_model(*tms).skip(i as int) =~= Seq::<crate::ty::MemberV>::empty());
        }
        Ok(())
    } else {
        proof {
            let msk = membervec_model(*tms).skip(i as int);
            assert(msk[0] == member_model(tms@[i as int]));
            assert(msk.drop_first() =~= membervec_model(*tms).skip(i as int + 1));
            assert(hms(msk) == hm(msk[0]) + hms(msk.drop_first()));
        }
        let head: Result<(), EngineError> = match &tms[i] {
            Member::Property { name, ty: Some(tt), optional } => {
                proof {
                    let msk = membervec_model(*tms).skip(i as int);
                    assert(hm(msk[0]) == 1 + opt_ht(member_model(tms@[i as int])->Property_ty));
                    assert(opt_ht(member_model(tms@[i as int])->Property_ty) == 1 + ht(tt@));
                    assert(membervec_model(*cms).skip(0) =~= membervec_model(*cms));
                }
                assign_prop_in_at(env, tt, name, cms, 0, *optional, for_cast, fuel)
            },
            _ => Ok(()),
        };
        match head {
            Err(e) => Err(e),
            Ok(_) => assign_props_at(env, tms, cms, i + 1, for_cast, fuel),
        }
    }
}

} // verus!
