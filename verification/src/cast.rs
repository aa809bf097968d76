//! The castability engine.
//!
//! Decides whether an explicit type assertion `<to>value-of-type(from)` is
//! legal under the overlap rule: the assertion is permitted when the two
//! types could plausibly denote overlapping runtime values, even though
//! neither need be a subtype of the other. The decision is an ordered rule
//! table; rule order is load-bearing, since the later coarse rules would
//! shadow the earlier precise ones.

use vstd::prelude::*;
use vstd::string::StringExecFns;

use crate::assign::{assign_spec, assign_with_opts};
use crate::env::{
    extends_q, extends_spec, lookup, lookup_spec, normalize, normalize_spec, res_model,
    EngineError, EnvV, TypeEnv,
};
use crate::eq::ty_eq;
use crate::ty::{
    deep_clone, elem_model, elemvec_model, he, hes, ht, hts, lemma_members_model, lemma_tys_model,
    member_model, membervec_model, ty_model, tyvec_model, ElemV, Keyword, LitV, LitValue, Member,
    MemberV, TupleElem, Ty, TyV,
};

verus! {

broadcast use vstd::seq::group_seq_axioms, vstd::std_specs::vec::group_vec_axioms, vstd::string::group_string_axioms;

/// Soft cast diagnostics: recoverable, reported without unwinding.
#[derive(Clone, Copy, PartialEq, Eq, Structural, Debug)]
pub enum CastError {
    /// Tuple-to-tuple cast with different arities.
    InvalidTupleCast,
    /// No accept path applies: the two types cannot overlap.
    NonOverlappingTypeCast,
}

/// `any`, `null` and `undefined` overlap with every type.
pub open spec fn is_trivially_castable(t: TyV) -> bool {
    t == TyV::Keyword(Keyword::Any) || t == TyV::Keyword(Keyword::Null) || t == TyV::Keyword(
        Keyword::Undefined,
    )
}

/// Number-like: the number keyword or a number literal.
pub open spec fn is_num(t: TyV) -> bool {
    t is Keyword && t->Keyword_0 == Keyword::Number || t matches TyV::Lit(LitV::Num(_))
}

/// What the dedicated numeric right-hand-side check accepts: number-like
/// targets.
pub open spec fn numeric_rhs(t: TyV) -> bool {
    is_num(t)
}

/// Two literals of the same primitive kind (number, string or bigint).
pub open spec fn same_lit_kind(a: TyV, b: TyV) -> bool {
    (a matches TyV::Lit(LitV::Num(_)) && b matches TyV::Lit(LitV::Num(_))) || (a matches TyV::Lit(
        LitV::Str(_),
    ) && b matches TyV::Lit(LitV::Str(_))) || (a matches TyV::Lit(LitV::BigInt(_))
        && b matches TyV::Lit(LitV::BigInt(_)))
}

/// A literal that widens to the keyword on the other side.
pub open spec fn lit_to_keyword(from: TyV, to: TyV) -> bool {
    from matches TyV::Lit(l) && to matches TyV::Keyword(k) && crate::assign::lit_widens(l, k)
}

/// String-like: the string keyword or a string literal.
pub open spec fn is_str_like(t: TyV) -> bool {
    t == TyV::Keyword(Keyword::Str) || t matches TyV::Lit(LitV::Str(_))
}

/// All members of the sequence are string-like.
pub open spec fn all_str_like(ts: Seq<TyV>) -> bool
    decreases ts.len(),
{
    if ts.len() == 0 {
        true
    } else {
        is_str_like(ts[0]) && all_str_like(ts.drop_first())
    }
}

/// String-like, or a union composed only of string-like members.
pub open spec fn is_str_or_union(t: TyV) -> bool {
    is_str_like(t) || (t matches TyV::Union(ts) && all_str_like(ts))
}

/// An index-signature conflict between two object shapes: some pair of
/// index signatures with structurally identical key types whose annotated
/// value types are mutually non-assignable in either direction.
pub open spec fn index_conflict_pair(env: EnvV, lm: MemberV, rm: MemberV, fuel: nat) -> bool {
    lm matches MemberV::Index { key: lk, value: Some(lv) } && rm matches MemberV::Index {
        key: rk,
        value: Some(rv),
    } && lk == rk && assign_spec(env, lv, rv, false, fuel) is Err && assign_spec(
        env,
        rv,
        lv,
        false,
        fuel,
    ) is Err
}

/// Whether `lm` conflicts with any member of `rms`.
pub open spec fn conflicts_with_any(env: EnvV, lm: MemberV, rms: Seq<MemberV>, fuel: nat) -> bool
    decreases rms.len(),
{
    if rms.len() == 0 {
        false
    } else {
        index_conflict_pair(env, lm, rms[0], fuel) || conflicts_with_any(
            env,
            lm,
            rms.drop_first(),
            fuel,
        )
    }
}

/// Whether any pair of members from the two shapes conflicts.
pub open spec fn has_index_conflict(env: EnvV, lms: Seq<MemberV>, rms: Seq<MemberV>, fuel: nat) -> bool
    decreases lms.len(),
{
    if lms.len() == 0 {
        false
    } else {
        conflicts_with_any(env, lms[0], rms, fuel) || has_index_conflict(
            env,
            lms.drop_first(),
            rms,
            fuel,
        )
    }
}

/// The ordered castability rule table.
///
/// 1. `any` / `null` / `undefined` sources, and structurally identical
///    sides, are trivially castable.
/// 2. A literal widens to the keyword of its kind.
/// 3. Two distinct literals of the same primitive kind are vetoed.
/// 4. A function type casts to an interface literally called `Function`.
/// 5. Two function types are otherwise not castable.
/// 6. A reference on either side is resolved before any structural rule.
/// 7. Object shapes with an index-signature conflict are vetoed.
/// 8. Any other two object shapes are castable: a deliberately coarse
///    approximation this engine commits to.
/// 9. A union source is castable when any member is.
/// 10. A union or intersection target is castable when any member accepts
///     the source.
/// 11. A number-like source is castable to a number-like target.
/// 12. A class does not cast to a bare interface or object shape.
/// 13. A declared extends relation in either direction accepts the cast.
/// 14. Otherwise, for-castability assignability decides.
pub open spec fn castable_spec(env: EnvV, from: TyV, to: TyV, fuel: nat) -> Result<
    bool,
    EngineError,
>
    decreases fuel, ht(from) + ht(to), 0int,
{
    if is_trivially_castable(from) || from == to {
        Ok(true)
    } else if lit_to_keyword(from, to) {
        Ok(true)
    } else if same_lit_kind(from, to) {
        Ok(false)
    } else if from is Function && to is Interface && crate::env::nominal_name(to) == Some(
        "Function"@,
    ) {
        Ok(true)
    } else if from is Function && to is Function {
        Ok(false)
    } else if from is Ref {
        if fuel == 0 {
            Err(EngineError::ExpansionLimit)
        } else {
            match normalize_spec(env, from, fuel) {
                Err(e) => Err(e),
                Ok(f2) => castable_spec(env, f2, to, (fuel - 1) as nat),
            }
        }
    } else if to is Ref {
        if fuel == 0 {
            Err(EngineError::ExpansionLimit)
        } else {
            match normalize_spec(env, to, fuel) {
                Err(e) => Err(e),
                Ok(t2) => castable_spec(env, from, t2, (fuel - 1) as nat),
            }
        }
    } else if from is TypeLit && to is TypeLit {
        if has_index_conflict(env, from->TypeLit_0, to->TypeLit_0, fuel) {
            Ok(false)
        } else {
            Ok(true)
        }
    } else if from is Union {
        castable_any_from(env, from->Union_0, to, fuel)
    } else if to is Union {
        castable_any_to(env, from, to->Union_0, fuel)
    } else if to is Intersection {
        castable_any_to(env, from, to->Intersection_0, fuel)
    } else if is_num(from) && numeric_rhs(to) {
        Ok(true)
    } else if from is Class && (to is Interface || to is TypeLit) {
        Ok(false)
    } else if extends_spec(env, from, to, fuel) == Some(true) || extends_spec(env, to, from, fuel)
        == Some(true) {
        Ok(true)
    } else if assign_spec(env, from, to, true, fuel) is Ok {
        Ok(true)
    } else {
        Ok(false)
    }
}

/// A union source casts when any member does, in member order, stopping
/// at the first success; a resolution failure in an earlier member aborts
/// the query.
pub open spec fn castable_any_from(env: EnvV, fs: Seq<TyV>, to: TyV, fuel: nat) -> Result<
    bool,
    EngineError,
>
    decreases fuel, hts(fs) + ht(to), fs.len() + 1,
{
    if fs.len() == 0 {
        Ok(false)
    } else {
        match castable_spec(env, fs[0], to, fuel) {
            Err(e) => Err(e),
            Ok(true) => Ok(true),
            Ok(false) => castable_any_from(env, fs.drop_first(), to, fuel),
        }
    }
}

/// A union or intersection target accepts when any member does, in member
/// order, stopping at the first success.
pub open spec fn castable_any_to(env: EnvV, from: TyV, ts: Seq<TyV>, fuel: nat) -> Result<
    bool,
    EngineError,
>
    decreases fuel, ht(from) + hts(ts), ts.len() + 1,
{
    if ts.len() == 0 {
        Ok(false)
    } else {
        match castable_spec(env, from, ts[0], fuel) {
            Err(e) => Err(e),
            Ok(true) => Ok(true),
            Ok(false) => castable_any_to(env, from, ts.drop_first(), fuel),
        }
    }
}

/// Overlap: structural equality, or castability in either direction.
/// Symmetric by construction whenever both directional queries succeed.
pub open spec fn has_overlap_spec(env: EnvV, l: TyV, r: TyV, fuel: nat) -> Result<
    bool,
    EngineError,
> {
    if l == r {
        Ok(true)
    } else {
        match castable_spec(env, l, r, fuel) {
            Err(e) => Err(e),
            Ok(true) => Ok(true),
            Ok(false) => castable_spec(env, r, l, fuel),
        }
    }
}

fn is_trivially_castable_x(t: &Ty) -> (r: bool)
    ensures
        r == is_trivially_castable(t@),
{
    match t {
        Ty::Keyword(Keyword::Any) => true,
        Ty::Keyword(Keyword::Null) => true,
        Ty::Keyword(Keyword::Undefined) => true,
        _ => false,
    }
}

fn same_lit_kind_x(a: &Ty, b: &Ty) -> (r: bool)
    ensures
        r == same_lit_kind(a@, b@),
{
    match (a, b) {
        (Ty::Lit(LitValue::Num(_)), Ty::Lit(LitValue::Num(_))) => true,
        (Ty::Lit(LitValue::Str(_)), Ty::Lit(LitValue::Str(_))) => true,
        (Ty::Lit(LitValue::BigInt(_)), Ty::Lit(LitValue::BigInt(_))) => true,
        _ => false,
    }
}

fn is_num_x(t: &Ty) -> (r: bool)
    ensures
        r == is_num(t@),
{
    match t {
        Ty::Keyword(Keyword::Number) => true,
        Ty::Lit(LitValue::Num(_)) => true,
        _ => false,
    }
}

fn index_conflict_pair_x(env: &TypeEnv, lm: &Member, rm: &Member, fuel: u64) -> (r: bool)
    ensures
        r == index_conflict_pair(env@, lm@, rm@, fuel as nat),
{
    match (lm, rm) {
        (
            Member::Index { key: lk, value: Some(lv) },
            Member::Index { key: rk, value: Some(rv) },
        ) => {
            if ty_eq(lk, rk) {
                let a = assign_with_opts(env, lv, rv, false, fuel);
                if matches!(a, Err(_)) {
                    let b = assign_with_opts(env, rv, lv, false, fuel);
                    matches!(b, Err(_))
                } else {
                    false
                }
            } else {
                false
            }
        },
        _ => false,
    }
}

fn conflicts_with_any_at(env: &TypeEnv, lm: &Member, rms: &Vec<Member>, j: usize, fuel: u64) -> (r:
    bool)
    requires
        j <= rms@.len(),
    ensures
        r == conflicts_with_any(env@, lm@, membervec_model(*rms).skip(j as int), fuel as nat),
    decreases rms@.len() - j,
{
    proof {
        lemma_members_model(rms@);
    }
    if j == rms.len() {
        proof {
            assert(membervec_model(*rms).skip(j as int) =~= Seq::<MemberV>::empty());
        }
        false
    } else {
        proof {
            assert(membervec_model(*rms).skip(j as int)[0] == member_model(rms@[j as int]));
            assert(membervec_model(*rms).skip(j as int).drop_first() =~= membervec_model(
                *rms,
            ).skip(j as int + 1));
        }
        if index_conflict_pair_x(env, lm, &rms[j], fuel) {
            true
        } else {
            conflicts_with_any_at(env, lm, rms, j + 1, fuel)
        }
    }
}

fn has_index_conflict_at(env: &TypeEnv, lms: &Vec<Member>, rms: &Vec<Member>, i: usize, fuel: u64) -> (r:
    bool)
    requires
        i <= lms@.len(),
    ensures
        r == has_index_conflict(
            env@,
            membervec_model(*lms).skip(i as int),
            membervec_model(*rms),
            fuel as nat,
        ),
    decreases lms@.len() - i,
{
    proof {
        lemma_members_model(lms@);
    }
    if i == lms.len() {
        proof {
            assert(membervec_model(*lms).skip(i as int) =~= Seq::<MemberV>::empty());
        }
        false
    } else {
        proof {
            assert(membervec_model(*lms).skip(i as int)[0] == member_model(lms@[i as int]));
            assert(membervec_model(*lms).skip(i as int).drop_first() =~= membervec_model(
                *lms,
            ).skip(i as int + 1));
            assert(membervec_model(*rms).skip(0) =~= membervec_model(*rms));
        }
        if conflicts_with_any_at(env, &lms[i], rms, 0, fuel) {
            true
        } else {
            has_index_conflict_at(env, lms, rms, i + 1, fuel)
        }
    }
}

/// The ordered castability rule table: whether a value of type `from` may
/// legally be asserted to type `to`.
#[verifier::rlimit(60)]
pub fn castable(env: &TypeEnv, from: &Ty, to: &Ty, fuel: u64) -> (r: Result<bool, EngineError>)
    ensures
        r == castable_spec(env@, from@, to@, fuel as nat),
    decreases fuel, ht(from@) + ht(to@), 0int,
{
    if is_trivially_castable_x(from) || ty_eq(from, to) {
        return Ok(true);
    }
    if let (Ty::Lit(l), Ty::Keyword(k)) = (from, to) {
        if crate::assign::lit_widens_x(l, *k) {
            return Ok(true);
        }
    }
    if same_lit_kind_x(from, to) {
        return Ok(false);
    }
    if matches!(from, Ty::Function { .. }) {
        if let Ty::Interface { name, extends: _, members: _ } = to {
            let fname: String = String::from_str("Function");
            if *name == fname {
                return Ok(true);
            }
        }
    }
    if matches!(from, Ty::Function { .. }) && matches!(to, Ty::Function { .. }) {
        return Ok(false);
    }
    if matches!(from, Ty::Ref(_)) {
        if fuel == 0 {
            return Err(EngineError::ExpansionLimit);
        }
        return match normalize(env, from, fuel) {
            Err(e) => Err(e),
            Ok(f2) => castable(env, &f2, to, fuel - 1),
        };
    }
    if matches!(to, Ty::Ref(_)) {
        if fuel == 0 {
            return Err(EngineError::ExpansionLimit);
        }
        return match normalize(env, to, fuel) {
            Err(e) => Err(e),
            Ok(t2) => castable(env, from, &t2, fuel - 1),
        };
    }
    if let (Ty::TypeLit(lms), Ty::TypeLit(rms)) = (from, to) {
        proof {
            assert(membervec_model(*lms).skip(0) =~= membervec_model(*lms));
        }
        if has_index_conflict_at(env, lms, rms, 0, fuel) {
            return Ok(false);
        } else {
            return Ok(true);
        }
    }
    if let Ty::Union(fs) = from {
        proof {
            assert(tyvec_model(*fs).skip(0) =~= tyvec_model(*fs));
        }
        return castable_any_from_at(env, fs, to, 0, fuel);
    }
    if let Ty::Union(ts) = to {
        proof {
            assert(tyvec_model(*ts).skip(0) =~= tyvec_model(*ts));
        }
        return castable_any_to_at(env, from, ts, 0, fuel);
    }
    if let Ty::Intersection(ts) = to {
        proof {
            assert(tyvec_model(*ts).skip(0) =~= tyvec_model(*ts));
        }
        return castable_any_to_at(env, from, ts, 0, fuel);
    }
    if is_num_x(from) && is_num_x(to) {
        return Ok(true);
    }
    if matches!(from, Ty::Class { .. }) && (matches!(to, Ty::Interface { .. }) || matches!(
        to,
        Ty::TypeLit(_),
    )) {
        return Ok(false);
    }
    let fwd = extends_q(env, from, to, fuel);
    if matches!(fwd, Some(true)) {
        return Ok(true);
    }
    let bwd = extends_q(env, to, from, fuel);
    if matches!(bwd, Some(true)) {
        return Ok(true);
    }
    let fallback = assign_with_opts(env, from, to, true, fuel);
    if matches!(fallback, Ok(_)) {
        Ok(true)
    } else {
        Ok(false)
    }
}

fn castable_any_from_at(env: &TypeEnv, fs: &Vec<Ty>, to: &Ty, i: usize, fuel: u64) -> (r: Result<
    bool,
    EngineError,
>)
    requires
        i <= fs@.len(),
    ensures
        r == castable_any_from(env@, tyvec_model(*fs).skip(i as int), to@, fuel as nat),
    decreases fuel, hts(tyvec_model(*fs).skip(i as int)) + ht(to@), fs@.len() - i + 1,
{
    proof {
        lemma_tys_model(fs@);
    }
    if i == fs.len() {
        proof {
            assert(tyvec_model(*fs).skip(i as int) =~= Seq::<TyV>::empty());
        }
        Ok(false)
    } else {
        proof {
            assert(tyvec_model(*fs).skip(i as int)[0] == ty_model(fs@[i as int]));
            assert(tyvec_model(*fs).skip(i as int).drop_first() =~= tyvec_model(*fs).skip(
                i as int + 1,
            ));
        }
        match castable(env, &fs[i], to, fuel) {
            Err(e) => Err(e),
            Ok(true) => Ok(true),
            Ok(false) => castable_any_from_at(env, fs, to, i + 1, fuel),
        }
    }
}

fn castable_any_to_at(env: &TypeEnv, from: &Ty, ts: &Vec<Ty>, i: usize, fuel: u64) -> (r: Result<
    bool,
    EngineError,
>)
    requires
        i <= ts@.len(),
    ensures
        r == castable_any_to(env@, from@, tyvec_model(*ts).skip(i as int), fuel as nat),
    decreases fuel, ht(from@) + hts(tyvec_model(*ts).skip(i as int)), ts@.len() - i + 1,
{
    proof {
        lemma_tys_model(ts@);
    }
    if i == ts.len() {
        proof {
            assert(tyvec_model(*ts).skip(i as int) =~= Seq::<TyV>::empty());
        }
        Ok(false)
    } else {
        proof {
            assert(tyvec_model(*ts).skip(i as int)[0] == ty_model(ts@[i as int]));
            assert(tyvec_model(*ts).skip(i as int).drop_first() =~= tyvec_model(*ts).skip(
                i as int + 1,
            ));
        }
        match castable(env, from, &ts[i], fuel) {
            Err(e) => Err(e),
            Ok(true) => Ok(true),
            Ok(false) => castable_any_to_at(env, from, ts, i + 1, fuel),
        }
    }
}

/// Overlap query: structural equality or castability in either direction.
pub fn has_overlap(env: &TypeEnv, l: &Ty, r: &Ty, fuel: u64) -> (res: Result<bool, EngineError>)
    ensures
        res == has_overlap_spec(env@, l@, r@, fuel as nat),
{
    if ty_eq(l, r) {
        Ok(true)
    } else {
        match castable(env, l, r, fuel) {
            Err(e) => Err(e),
            Ok(true) => Ok(true),
            Ok(false) => castable(env, r, l, fuel),
        }
    }
}

/// Whether the sequence holds a member structurally identical to `t`.
pub open spec fn contains_ty(ts: Seq<TyV>, t: TyV) -> bool {
    exists|i: int| 0 <= i < ts.len() && ts[i] == t
}

/// The closing accept paths of cast validation: a declared extends
/// relation in either direction, else the castability verdict; exhaustion
/// raises the non-overlap diagnostic.
pub open spec fn validate_tail_spec(env: EnvV, orig: TyV, casted: TyV, fuel: nat) -> Result<
    (),
    CastError,
> {
    if extends_spec(env, orig, casted, fuel) == Some(true) || extends_spec(
        env,
        casted,
        orig,
        fuel,
    ) == Some(true) {
        Ok(())
    } else {
        match castable_spec(env, orig, casted, fuel) {
            Ok(true) => Ok(()),
            _ => Err(CastError::NonOverlappingTypeCast),
        }
    }
}

/// Cast validity, evaluated as a short-circuiting accept-path list.
///
/// Accept paths, in order: a string-like original asserted to exactly the
/// string keyword; a union original with a member structurally identical
/// to the asserted type; tuple-to-tuple casts of equal arity valid at
/// every position (unequal arity is the hard tuple diagnostic);
/// tuple-to-array casts whose first tuple element equals the array
/// element; then the extends/castability tail.
pub open spec fn validate_inner_spec(env: EnvV, orig: TyV, casted: TyV, fuel: nat) -> Result<
    (),
    CastError,
>
    decreases ht(orig) + ht(casted),
{
    if is_str_or_union(orig) && casted == TyV::Keyword(Keyword::Str) {
        Ok(())
    } else if orig is Union && contains_ty(orig->Union_0, casted) {
        Ok(())
    } else if casted is Tuple && orig is Tuple {
        if casted->Tuple_0.len() != orig->Tuple_0.len() {
            Err(CastError::InvalidTupleCast)
        } else if inner_elems_ok(env, orig->Tuple_0, casted->Tuple_0, fuel) {
            Ok(())
        } else {
            validate_tail_spec(env, orig, casted, fuel)
        }
    } else if casted is Array && orig is Tuple && orig->Tuple_0.len() > 0 && orig->Tuple_0[0].ty
        == *casted->Array_0 {
        Ok(())
    } else {
        validate_tail_spec(env, orig, casted, fuel)
    }
}

/// Every tuple position satisfies the same-direction cast-validity rule.
pub open spec fn inner_elems_ok(env: EnvV, rt: Seq<ElemV>, lt: Seq<ElemV>, fuel: nat) -> bool
    decreases hes(rt) + hes(lt),
    via inner_elems_ok_dec
{
    if rt.len() == 0 || lt.len() == 0 {
        true
    } else {
        validate_inner_spec(env, rt[0].ty, lt[0].ty, fuel) is Ok && inner_elems_ok(
            env,
            rt.drop_first(),
            lt.drop_first(),
            fuel,
        )
    }
}

#[via_fn]
proof fn inner_elems_ok_dec(env: EnvV, rt: Seq<ElemV>, lt: Seq<ElemV>, fuel: nat) {
    if rt.len() > 0 && lt.len() > 0 {
        assert(hes(rt) == he(rt[0]) + hes(rt.drop_first()));
        assert(he(rt[0]) == 1 + ht(rt[0].ty));
        assert(hes(lt) == he(lt[0]) + hes(lt.drop_first()));
        assert(he(lt[0]) == 1 + ht(lt[0].ty));
    }
}

/// Cast validity of an assertion between two concrete types.
pub fn validate_type_cast_inner(env: &TypeEnv, orig: &Ty, casted: &Ty, fuel: u64) -> (r: Result<
    (),
    CastError,
>)
    ensures
        r == validate_inner_spec(env@, orig@, casted@, fuel as nat),
    decreases ht(orig@) + ht(casted@),
{
    if is_str_or_union_x(orig) && matches!(casted, Ty::Keyword(Keyword::Str)) {
        return Ok(());
    }
    if let Ty::Union(ts) = orig {
        if contains_ty_x(ts, casted) {
            return Ok(());
        }
    }
    if let (Ty::Tuple(lt), Ty::Tuple(rt)) = (casted, orig) {
        proof {
            crate::ty::lemma_elems_model(lt@);
            crate::ty::lemma_elems_model(rt@);
            assert(elemvec_model(*lt) == crate::ty::elems_model(lt@));
            assert(elemvec_model(*rt) == crate::ty::elems_model(rt@));
        }
        if lt.len() != rt.len() {
            return Err(CastError::InvalidTupleCast);
        }
        proof {
            assert(elemvec_model(*rt).skip(0) =~= elemvec_model(*rt));
            assert(elemvec_model(*lt).skip(0) =~= elemvec_model(*lt));
        }
        if inner_elems_ok_at(env, rt, lt, 0, fuel) {
            return Ok(());
        }
        return validate_tail_x(env, orig, casted, fuel);
    }
    if let (Ty::Array(ae), Ty::Tuple(rt)) = (casted, orig) {
        proof {
            crate::ty::lemma_elems_model(rt@);
            assert(elemvec_model(*rt) == crate::ty::elems_model(rt@));
        }
        if rt.len() > 0 {
            proof {
                assert(orig@->Tuple_0[0] == elem_model(rt@[0]));
                assert(elem_model(rt@[0]).ty == ty_model(rt@[0].ty));
            }
            if ty_eq(&rt[0].ty, ae) {
                return Ok(());
            }
        }
    }
    validate_tail_x(env, orig, casted, fuel)
}

fn validate_tail_x(env: &TypeEnv, orig: &Ty, casted: &Ty, fuel: u64) -> (r: Result<(), CastError>)
    ensures
        r == validate_tail_spec(env@, orig@, casted@, fuel as nat),
{
    let fwd = extends_q(env, orig, casted, fuel);
    if matches!(fwd, Some(true)) {
        return Ok(());
    }
    let bwd = extends_q(env, casted, orig, fuel);
    if matches!(bwd, Some(true)) {
        return Ok(());
    }
    match castable(env, orig, casted, fuel) {
        Ok(true) => Ok(()),
        _ => Err(CastError::NonOverlappingTypeCast),
    }
}

fn is_str_like_x(t: &Ty) -> (r: bool)
    ensures
        r == is_str_like(t@),
{
    match t {
        Ty::Keyword(Keyword::Str) => true,
        Ty::Lit(LitValue::Str(_)) => true,
        _ => false,
    }
}

fn is_str_or_union_x(t: &Ty) -> (r: bool)
    ensures
        r == is_str_or_union(t@),
{
    if is_str_like_x(t) {
        return true;
    }
    match t {
        Ty::Union(ts) => {
            proof {
                lemma_tys_model(ts@);
                assert(tyvec_model(*ts).skip(0) =~= tyvec_model(*ts));
            }
            all_str_like_at(ts, 0)
        },
        _ => false,
    }
}

fn all_str_like_at(ts: &Vec<Ty>, i: usize) -> (r: bool)
    requires
        i <= ts@.len(),
    ensures
        r == all_str_like(tyvec_model(*ts).skip(i as int)),
    decreases ts@.len() - i,
{
    proof {
        lemma_tys_model(ts@);
    }
    if i == ts.len() {
        proof {
            assert(tyvec_model(*ts).skip(i as int) =~= Seq::<TyV>::empty());
        }
        true
    } else {
        proof {
            assert(tyvec_model(*ts).skip(i as int)[0] == ty_model(ts@[i as int]));
            assert(tyvec_model(*ts).skip(i as int).drop_first() =~= tyvec_model(*ts).skip(
                i as int + 1,
            ));
        }
        is_str_like_x(&ts[i]) && all_str_like_at(ts, i + 1)
    }
}

fn contains_ty_x(ts: &Vec<Ty>, t: &Ty) -> (r: bool)
    ensures
        r == contains_ty(tyvec_model(*ts), t@),
{
    proof {
        lemma_tys_model(ts@);
    }
    let mut i: usize = 0;
    while i < ts.len()
        invariant
            i <= ts@.len(),
            forall|j: int| 0 <= j < i ==> tyvec_model(*ts)[j] != t@,
            tyvec_model(*ts).len() == ts@.len(),
            forall|j: int|
                0 <= j < ts@.len() ==> tyvec_model(*ts)[j] == crate::ty::ty_model(ts@[j]),
        decreases ts@.len() - i,
    {
        if ty_eq(&ts[i], t) {
            proof {
                assert(tyvec_model(*ts)[i as int] == t@);
            }
            return true;
        }
        i += 1;
    }
    false
}

fn inner_elems_ok_at(env: &TypeEnv, rt: &Vec<TupleElem>, lt: &Vec<TupleElem>, i: usize, fuel: u64) -> (r:
    bool)
    requires
        i <= rt@.len(),
        i <= lt@.len(),
    ensures
        r == inner_elems_ok(
            env@,
            elemvec_model(*rt).skip(i as int),
            elemvec_model(*lt).skip(i as int),
            fuel as nat,
        ),
    decreases hes(elemvec_model(*rt).skip(i as int)) + hes(elemvec_model(*lt).skip(i as int)),
{
    proof {
        crate::ty::lemma_elems_model(rt@);
        crate::ty::lemma_elems_model(lt@);
    }
    if i == rt.len() || i == lt.len() {
        proof {
            if i == rt.len() {
                assert(elemvec_model(*rt).skip(i as int) =~= Seq::<ElemV>::empty());
            } else {
                assert(elemvec_model(*lt).skip(i as int) =~= Seq::<ElemV>::empty());
            }
        }
        true
    } else {
        proof {
            let rsk = elemvec_model(*rt).skip(i as int);
            let lsk = elemvec_model(*lt).skip(i as int);
            assert(rsk[0] == elem_model(rt@[i as int]));
            assert(lsk[0] == elem_model(lt@[i as int]));
            assert(rsk.drop_first() =~= elemvec_model(*rt).skip(i as int + 1));
            assert(lsk.drop_first() =~= elemvec_model(*lt).skip(i as int + 1));
            assert(hes(rsk) == he(rsk[0]) + hes(rsk.drop_first()));
            assert(he(rsk[0]) == 1 + ht(rsk[0].ty));
            assert(hes(lsk) == he(lsk[0]) + hes(lsk.drop_first()));
            assert(he(lsk[0]) == 1 + ht(lsk[0].ty));
        }
        let head = validate_type_cast_inner(env, &rt[i].ty, &lt[i].ty, fuel);
        if matches!(head, Ok(_)) {
            inner_elems_ok_at(env, rt, lt, i + 1, fuel)
        } else {
            false
        }
    }
}

/// One-level member normalization of a union's members.
pub open spec fn norm_members(env: EnvV, ts: Seq<TyV>, fuel: nat) -> Result<Seq<TyV>, EngineError>
    decreases ts.len(),
{
    if ts.len() == 0 {
        Ok(Seq::empty())
    } else {
        match normalize_spec(env, ts[0], fuel) {
            Err(e) => Err(e),
            Ok(n) => match norm_members(env, ts.drop_first(), fuel) {
                Err(e) => Err(e),
                Ok(rest) => Ok(seq![n] + rest),
            },
        }
    }
}

/// The expansion this engine applies to the original type of a cast:
/// resolve the head reference, and, for a union, resolve each member's
/// head reference.
pub open spec fn expand_for_cast(env: EnvV, t: TyV, fuel: nat) -> Result<TyV, EngineError> {
    match normalize_spec(env, t, fuel) {
        Err(e) => Err(e),
        Ok(n) => if n is Union {
            match norm_members(env, n->Union_0, fuel) {
                Err(e) => Err(e),
                Ok(ns) => Ok(TyV::Union(ns)),
            }
        } else {
            Ok(n)
        },
    }
}

/// The shape the asserted type resolves to: a reference naming a class is
/// replaced by that class's instance shape; everything else is kept as
/// written (and never re-expanded by later paths).
pub open spec fn resolve_asserted(env: EnvV, t: TyV) -> TyV {
    match t {
        TyV::Ref(n) => match lookup_spec(env, n) {
            Some(d) => if d is Class {
                d
            } else {
                t
            },
            None => t,
        },
        _ => t,
    }
}

/// The verdict and resulting type of a whole cast validation: the
/// asserted type is always returned as the expression's static type; a
/// failed validation only carries a soft diagnostic beside it.
pub open spec fn validate_cast_spec(env: EnvV, orig: TyV, casted: TyV, fuel: nat) -> Result<
    (TyV, Option<CastError>),
    EngineError,
> {
    match expand_for_cast(env, orig, fuel) {
        Err(e) => Err(e),
        Ok(ox) => {
            let cx = resolve_asserted(env, casted);
            match validate_inner_spec(env, ox, cx, fuel) {
                Ok(_) => Ok((cx, None)),
                Err(ce) => Ok((cx, Some(ce))),
            }
        },
    }
}

fn norm_members_at(env: &TypeEnv, ts: &Vec<Ty>, i: usize, fuel: u64) -> (r: Result<
    Vec<Ty>,
    EngineError,
>)
    requires
        i <= ts@.len(),
    ensures
        (match r {
            Ok(v) => Ok(tyvec_model(v)),
            Err(e) => Err(e),
        }) == norm_members(env@, tyvec_model(*ts).skip(i as int), fuel as nat),
    decreases ts@.len() - i,
{
    proof {
        lemma_tys_model(ts@);
    }
    if i == ts.len() {
        let empty: Vec<Ty> = Vec::new();
        proof {
            assert(tyvec_model(*ts).skip(i as int) =~= Seq::<TyV>::empty());
            assert(tyvec_model(empty) =~= Seq::<TyV>::empty());
        }
        Ok(empty)
    } else {
        proof {
            assert(tyvec_model(*ts).skip(i as int)[0] == ty_model(ts@[i as int]));
            assert(tyvec_model(*ts).skip(i as int).drop_first() =~= tyvec_model(*ts).skip(
                i as int + 1,
            ));
        }
        match normalize(env, &ts[i], fuel) {
            Err(e) => Err(e),
            Ok(n) => match norm_members_at(env, ts, i + 1, fuel) {
                Err(e) => Err(e),
                Ok(mut rest) => {
                    let ghost pre = rest@;
                    let mut out: Vec<Ty> = Vec::new();
                    out.push(n);
                    let ghost a = out@;
                    out.append(&mut rest);
                    proof {
                        lemma_tys_model(a);
                        lemma_tys_model(pre);
                        lemma_tys_model(out@);
                        assert(out@ == a + pre);
                        assert(tyvec_model(out) =~= norm_members(
                            env@,
                            tyvec_model(*ts).skip(i as int),
                            fuel as nat,
                        )->Ok_0);
                    }
                    Ok(out)
                },
            },
        }
    }
}

fn expand_for_cast_x(env: &TypeEnv, t: &Ty, fuel: u64) -> (r: Result<Ty, EngineError>)
    ensures
        res_model(r) == expand_for_cast(env@, t@, fuel as nat),
{
    match normalize(env, t, fuel) {
        Err(e) => Err(e),
        Ok(n) => match n {
            Ty::Union(ts) => {
                proof {
                    assert(tyvec_model(ts).skip(0) =~= tyvec_model(ts));
                }
                match norm_members_at(env, &ts, 0, fuel) {
                    Err(e) => Err(e),
                    Ok(ns) => Ok(Ty::Union(ns)),
                }
            },
            other => Ok(other),
        },
    }
}

fn resolve_asserted_x(env: &TypeEnv, t: &Ty) -> (r: Ty)
    ensures
        r@ == resolve_asserted(env@, t@),
{
    match t {
        Ty::Ref(n) => match lookup(env, n) {
            Some(d) => {
                if matches!(d, Ty::Class { .. }) {
                    d
                } else {
                    deep_clone(t)
                }
            },
            None => deep_clone(t),
        },
        _ => deep_clone(t),
    }
}

/// Validate a type assertion. The cast never fails the compilation: the
/// asserted type is returned as the expression's static type
/// unconditionally, with the soft diagnostic beside it when no accept
/// path applied. A hard error arises only when the original type cannot
/// be expanded.
pub fn validate_type_cast(env: &TypeEnv, orig: &Ty, casted: &Ty, fuel: u64) -> (r: Result<
    (Ty, Option<CastError>),
    EngineError,
>)
    ensures
        (match r {
            Ok(p) => Ok::<(TyV, Option<CastError>), EngineError>((p.0@, p.1)),
            Err(e) => Err(e),
        }) == validate_cast_spec(env@, orig@, casted@, fuel as nat),
{
    match expand_for_cast_x(env, orig, fuel) {
        Err(e) => Err(e),
        Ok(ox) => {
            let cx = resolve_asserted_x(env, casted);
            match validate_type_cast_inner(env, &ox, &cx, fuel) {
                Ok(_) => Ok((cx, None)),
                Err(ce) => Ok((cx, Some(ce))),
            }
        },
    }
}

} // verus!
