//! The type tree: a closed, tagged variant set of structural type shapes,
//! together with its mathematical model.
//!
//! Every executable shape (`Ty`, `TupleElem`, `Member`, `LitValue`) has a
//! spec-level twin (`TyV`, `ElemV`, `MemberV`, `LitV`) built from `Seq` and
//! `int`; the contracts of the whole crate speak about those models.

use vstd::prelude::*;

verus! {

broadcast use vstd::seq::group_seq_axioms, vstd::std_specs::vec::group_vec_axioms;

/// Primitive keyword types: built-in base types of the language.
#[derive(Clone, Copy, PartialEq, Eq, Structural, Debug)]
pub enum Keyword {
    Any,
    Null,
    Undefined,
    Boolean,
    Number,
    Str,
    BigInt,
}

/// A literal type, inhabited by exactly one concrete value.
///
/// Numeric and big-integer literal values are carried as `i64`: the engine
/// only ever compares literal values for equality.
#[derive(Debug)]
pub enum LitValue {
    Num(i64),
    Str(String),
    Bool(bool),
    BigInt(i64),
}

/// One element of a tuple type: an optional label and a component type.
#[derive(Debug)]
pub struct TupleElem {
    pub label: Option<String>,
    pub ty: Ty,
}

/// One member of an object/type-literal shape.
#[derive(Debug)]
pub enum Member {
    /// A named property with an optional declared type annotation.
    Property { name: String, ty: Option<Ty>, optional: bool },
    /// An index signature: key type and optional value type annotation.
    Index { key: Ty, value: Option<Ty> },
    /// A named method member; the engine never distributes or inspects it.
    Method { name: String },
    /// A call signature member.
    Call,
}

/// A structural type shape. The tree is immutable: the engines build new
/// trees rather than mutating caller-owned ones.
#[derive(Debug)]
pub enum Ty {
    Keyword(Keyword),
    Lit(LitValue),
    /// Ordered members, declaration order preserved; "one of".
    Union(Vec<Ty>),
    /// Ordered members; "all of".
    Intersection(Vec<Ty>),
    /// Fixed-length ordered elements.
    Tuple(Vec<TupleElem>),
    /// Object / type-literal shape.
    TypeLit(Vec<Member>),
    /// Unbounded homogeneous sequence.
    Array(Box<Ty>),
    /// Function type: parameters and return type.
    Function { params: Vec<Ty>, ret: Box<Ty> },
    /// Named nominal interface with a declared extends list.
    Interface { name: String, extends: Vec<String>, members: Vec<Member> },
    /// Named nominal class with a declared extends list.
    Class { name: String, extends: Vec<String> },
    /// Unresolved reference to a named definition; must be resolved through
    /// the environment before structural inspection.
    Ref(String),
}

/// Spec model of a literal value.
pub enum LitV {
    Num(int),
    Str(Seq<char>),
    Bool(bool),
    BigInt(int),
}

/// Spec model of a tuple element.
#[verifier::ext_equal]
pub struct ElemV {
    pub label: Option<Seq<char>>,
    pub ty: TyV,
}

/// Spec model of an object member.
#[verifier::ext_equal]
pub enum MemberV {
    Property { name: Seq<char>, ty: Option<TyV>, optional: bool },
    Index { key: TyV, value: Option<TyV> },
    Method { name: Seq<char> },
    Call,
}

/// Spec model of a type shape.
#[verifier::ext_equal]
pub enum TyV {
    Keyword(Keyword),
    Lit(LitV),
    Union(Seq<TyV>),
    Intersection(Seq<TyV>),
    Tuple(Seq<ElemV>),
    TypeLit(Seq<MemberV>),
    Array(Box<TyV>),
    Function { params: Seq<TyV>, ret: Box<TyV> },
    Interface { name: Seq<char>, extends: Seq<Seq<char>>, members: Seq<MemberV> },
    Class { name: Seq<char>, extends: Seq<Seq<char>> },
    Ref(Seq<char>),
}

/// Mathematical model of a literal value.
pub open spec fn lit_model(l: LitValue) -> LitV {
    match l {
        LitValue::Num(n) => LitV::Num(n as int),
        LitValue::Str(s) => LitV::Str(s@),
        LitValue::Bool(b) => LitV::Bool(b),
        LitValue::BigInt(n) => LitV::BigInt(n as int),
    }
}

/// Mathematical model of a type shape.
pub open spec fn ty_model(t: Ty) -> TyV
    decreases t,
{
    match t {
        Ty::Keyword(k) => TyV::Keyword(k),
        Ty::Lit(l) => TyV::Lit(lit_model(l)),
        Ty::Union(ts) => TyV::Union(tyvec_model(ts)),
        Ty::Intersection(ts) => TyV::Intersection(tyvec_model(ts)),
        Ty::Tuple(es) => TyV::Tuple(elemvec_model(es)),
        Ty::TypeLit(ms) => TyV::TypeLit(membervec_model(ms)),
        Ty::Array(t0) => TyV::Array(Box::new(ty_model(*t0))),
        Ty::Function { params, ret } => TyV::Function {
            params: tyvec_model(params),
            ret: Box::new(ty_model(*ret)),
        },
        Ty::Interface { name, extends, members } => TyV::Interface {
            name: name@,
            extends: names_model(extends),
            members: membervec_model(members),
        },
        Ty::Class { name, extends } => TyV::Class { name: name@, extends: names_model(extends) },
        Ty::Ref(n) => TyV::Ref(n@),
    }
}

/// Model of a vector of types, elementwise.
pub open spec fn tyvec_model(v: Vec<Ty>) -> Seq<TyV>
    decreases v,
{
    tys_model(v@)
}

/// Model of a sequence of types, elementwise.
pub open spec fn tys_model(s: Seq<Ty>) -> Seq<TyV>
    decreases s,
{
    if s.len() == 0 {
        Seq::empty()
    } else {
        tys_model(s.drop_last()).push(ty_model(s[s.len() - 1]))
    }
}

/// Mathematical model of a tuple element.
pub open spec fn elem_model(e: TupleElem) -> ElemV
    decreases e,
{
    ElemV {
        label: match e.label {
            Some(l) => Some(l@),
            None => None,
        },
        ty: ty_model(e.ty),
    }
}

/// Model of a vector of tuple elements, elementwise.
pub open spec fn elemvec_model(v: Vec<TupleElem>) -> Seq<ElemV>
    decreases v,
{
    elems_model(v@)
}

/// Model of a sequence of tuple elements, elementwise.
pub open spec fn elems_model(s: Seq<TupleElem>) -> Seq<ElemV>
    decreases s,
{
    if s.len() == 0 {
        Seq::empty()
    } else {
        elems_model(s.drop_last()).push(elem_model(s[s.len() - 1]))
    }
}

/// Mathematical model of an object member.
pub open spec fn member_model(m: Member) -> MemberV
    decreases m,
{
    match m {
        Member::Property { name, ty, optional } => MemberV::Property {
            name: name@,
            ty: match ty {
                Some(t) => Some(ty_model(t)),
                None => None,
            },
            optional: optional,
        },
        Member::Index { key, value } => MemberV::Index {
            key: ty_model(key),
            value: match value {
                Some(t) => Some(ty_model(t)),
                None => None,
            },
        },
        Member::Method { name } => MemberV::Method { name: name@ },
        Member::Call => MemberV::Call,
    }
}

/// Model of a vector of object members, elementwise.
pub open spec fn membervec_model(v: Vec<Member>) -> Seq<MemberV>
    decreases v,
{
    members_model(v@)
}

/// Model of a sequence of object members, elementwise.
pub open spec fn members_model(s: Seq<Member>) -> Seq<MemberV>
    decreases s,
{
    if s.len() == 0 {
        Seq::empty()
    } else {
        members_model(s.drop_last()).push(member_model(s[s.len() - 1]))
    }
}

/// Model of a vector of names, elementwise.
pub open spec fn names_model(v: Vec<String>) -> Seq<Seq<char>> {
    Seq::new(v@.len(), |i: int| v@[i]@)
}

/// The elementwise models index as expected.
pub broadcast proof fn lemma_tys_model(s: Seq<Ty>)
    ensures
        #[trigger] tys_model(s).len() == s.len(),
        forall|i: int| 0 <= i < s.len() ==> tys_model(s)[i] == ty_model(s[i]),
    decreases s.len(),
{
    if s.len() > 0 {
        lemma_tys_model(s.drop_last());
    }
}

/// The elementwise tuple-element models index as expected.
pub broadcast proof fn lemma_elems_model(s: Seq<TupleElem>)
    ensures
        #[trigger] elems_model(s).len() == s.len(),
        forall|i: int| 0 <= i < s.len() ==> elems_model(s)[i] == elem_model(s[i]),
    decreases s.len(),
{
    if s.len() > 0 {
        lemma_elems_model(s.drop_last());
    }
}

/// The elementwise member models index as expected.
pub broadcast proof fn lemma_members_model(s: Seq<Member>)
    ensures
        #[trigger] members_model(s).len() == s.len(),
        forall|i: int| 0 <= i < s.len() ==> members_model(s)[i] == member_model(s[i]),
    decreases s.len(),
{
    if s.len() > 0 {
        lemma_members_model(s.drop_last());
    }
}

impl View for LitValue {
    type V = LitV;

    open spec fn view(&self) -> LitV {
        lit_model(*self)
    }
}

impl View for Ty {
    type V = TyV;

    open spec fn view(&self) -> TyV {
        ty_model(*self)
    }
}

impl View for TupleElem {
    type V = ElemV;

    open spec fn view(&self) -> ElemV {
        elem_model(*self)
    }
}

impl View for Member {
    type V = MemberV;

    open spec fn view(&self) -> MemberV {
        member_model(*self)
    }
}

/// An engine result is `true` exactly when the modelled type is a union.
pub fn is_union(t: &Ty) -> (r: bool)
    ensures
        r == (t@ is Union),
{
    match t {
        Ty::Union(_) => true,
        _ => false,
    }
}

/// Structural copy of a literal value.
pub fn lit_clone(l: &LitValue) -> (r: LitValue)
    ensures
        r@ == l@,
{
    match l {
        LitValue::Num(n) => LitValue::Num(*n),
        LitValue::Str(s) => LitValue::Str(s.clone()),
        LitValue::Bool(b) => LitValue::Bool(*b),
        LitValue::BigInt(n) => LitValue::BigInt(*n),
    }
}

pub(crate) fn label_clone(l: &Option<String>) -> (r: Option<String>)
    ensures
        (match r {
            Some(s) => Some(s@),
            None => None,
        }) == (match l {
            Some(s) => Some(s@),
            None => None,
        }),
{
    match l {
        Some(s) => Some(s.clone()),
        None => None,
    }
}

pub(crate) fn names_clone(v: &Vec<String>) -> (r: Vec<String>)
    ensures
        names_model(r) == names_model(*v),
{
    let mut out: Vec<String> = Vec::new();
    let mut i: usize = 0;
    while i < v.len()
        invariant
            i <= v@.len(),
            out@.len() == i,
            forall|j: int| 0 <= j < i ==> out@[j]@ == v@[j]@,
        decreases v@.len() - i,
    {
        out.push(v[i].clone());
        i += 1;
    }
    proof {
        assert(names_model(out) =~= names_model(*v));
    }
    out
}

/// Structural copy of a whole type tree: the copy has the same model.
/// The engines build new candidate trees by copy-then-extend and never
/// mutate caller-owned trees.
pub fn deep_clone(t: &Ty) -> (r: Ty)
    ensures
        r@ == t@,
    decreases t,
{
    match t {
        Ty::Keyword(k) => Ty::Keyword(*k),
        Ty::Lit(l) => Ty::Lit(lit_clone(l)),
        Ty::Union(ts) => Ty::Union(clone_tyvec(ts)),
        Ty::Intersection(ts) => Ty::Intersection(clone_tyvec(ts)),
        Ty::Tuple(es) => Ty::Tuple(clone_elemvec(es)),
        Ty::TypeLit(ms) => Ty::TypeLit(clone_membervec(ms)),
        Ty::Array(t0) => Ty::Array(Box::new(deep_clone(t0))),
        Ty::Function { params, ret } => Ty::Function {
            params: clone_tyvec(params),
            ret: Box::new(deep_clone(ret)),
        },
        Ty::Interface { name, extends, members } => Ty::Interface {
            name: name.clone(),
            extends: names_clone(extends),
            members: clone_membervec(members),
        },
        Ty::Class { name, extends } => Ty::Class {
            name: name.clone(),
            extends: names_clone(extends),
        },
        Ty::Ref(n) => Ty::Ref(n.clone()),
    }
}

/// Structural copy of a vector of types.
pub fn clone_tyvec(v: &Vec<Ty>) -> (r: Vec<Ty>)
    ensures
        tyvec_model(r) == tyvec_model(*v),
    decreases v,
{
    let mut out: Vec<Ty> = Vec::new();
    let mut i: usize = 0;
    while i < v.len()
        invariant
            i <= v@.len(),
            out@.len() == i,
            forall|j: int| 0 <= j < i ==> out@[j]@ == v@[j]@,
        decreases v@.len() - i,
    {
        let c = deep_clone(&v[i]);
        out.push(c);
        i += 1;
    }
    proof {
        lemma_tys_model(out@);
        lemma_tys_model(v@);
        assert(tys_model(out@) =~= tys_model(v@));
        assert(tyvec_model(out) == tyvec_model(*v));
    }
    out
}

/// Structural copy of a tuple element.
pub fn elem_clone(e: &TupleElem) -> (r: TupleElem)
    ensures
        r@ == e@,
    decreases e,
{
    TupleElem { label: label_clone(&e.label), ty: deep_clone(&e.ty) }
}

/// Structural copy of a vector of tuple elements.
pub fn clone_elemvec(v: &Vec<TupleElem>) -> (r: Vec<TupleElem>)
    ensures
        elemvec_model(r) == elemvec_model(*v),
    decreases v,
{
    let mut out: Vec<TupleElem> = Vec::new();
    let mut i: usize = 0;
    while i < v.len()
        invariant
            i <= v@.len(),
            out@.len() == i,
            forall|j: int| 0 <= j < i ==> out@[j]@ == v@[j]@,
        decreases v@.len() - i,
    {
        let c = elem_clone(&v[i]);
        out.push(c);
        i += 1;
    }
    proof {
        lemma_elems_model(out@);
        lemma_elems_model(v@);
        assert(elems_model(out@) =~= elems_model(v@));
        assert(elemvec_model(out) == elemvec_model(*v));
    }
    out
}

fn opt_ty_clone(o: &Option<Ty>) -> (r: Option<Ty>)
    ensures
        (match r {
            Some(x) => Some(x@),
            None => None,
        }) == (match o {
            Some(x) => Some(x@),
            None => None,
        }),
    decreases o,
{
    match o {
        Some(x) => Some(deep_clone(x)),
        None => None,
    }
}

/// Structural copy of an object member.
pub fn member_clone(m: &Member) -> (r: Member)
    ensures
        r@ == m@,
    decreases m,
{
    match m {
        Member::Property { name, ty, optional } => Member::Property {
            name: name.clone(),
            ty: opt_ty_clone(ty),
            optional: *optional,
        },
        Member::Index { key, value } => Member::Index {
            key: deep_clone(key),
            value: opt_ty_clone(value),
        },
        Member::Method { name } => Member::Method { name: name.clone() },
        Member::Call => Member::Call,
    }
}

/// Structural copy of a vector of object members.
pub fn clone_membervec(v: &Vec<Member>) -> (r: Vec<Member>)
    ensures
        membervec_model(r) == membervec_model(*v),
    decreases v,
{
    let mut out: Vec<Member> = Vec::new();
    let mut i: usize = 0;
    while i < v.len()
        invariant
            i <= v@.len(),
            out@.len() == i,
            forall|j: int| 0 <= j < i ==> out@[j]@ == v@[j]@,
        decreases v@.len() - i,
    {
        let c = member_clone(&v[i]);
        out.push(c);
        i += 1;
    }
    proof {
        lemma_members_model(out@);
        lemma_members_model(v@);
        assert(members_model(out@) =~= members_model(v@));
        assert(membervec_model(out) == membervec_model(*v));
    }
    out
}

/// Height of a type value: the termination measure the relation engines
/// decrease when they recurse into members of unions, tuples and shapes.
pub open spec fn ht(t: TyV) -> nat
    decreases t,
{
    match t {
        TyV::Keyword(_) => 1,
        TyV::Lit(_) => 1,
        TyV::Union(ts) => 1 + hts(ts),
        TyV::Intersection(ts) => 1 + hts(ts),
        TyV::Tuple(es) => 1 + hes(es),
        TyV::TypeLit(ms) => 1 + hms(ms),
        TyV::Array(t0) => 1 + ht(*t0),
        TyV::Function { params, ret } => 1 + hts(params) + ht(*ret),
        TyV::Interface { members, .. } => 1 + hms(members),
        TyV::Class { .. } => 1,
        TyV::Ref(_) => 1,
    }
}

/// Summed height of a sequence of types.
pub open spec fn hts(s: Seq<TyV>) -> nat
    decreases s,
{
    if s.len() == 0 {
        0
    } else {
        ht(s[0]) + hts(s.drop_first())
    }
}

/// Height of a tuple element.
pub open spec fn he(e: ElemV) -> nat
    decreases e,
{
    1 + ht(e.ty)
}

/// Summed height of a sequence of tuple elements.
pub open spec fn hes(s: Seq<ElemV>) -> nat
    decreases s,
{
    if s.len() == 0 {
        0
    } else {
        he(s[0]) + hes(s.drop_first())
    }
}

/// Height of an optional type annotation.
pub open spec fn opt_ht(o: Option<TyV>) -> nat
    decreases o,
{
    match o {
        Some(t) => 1 + ht(t),
        None => 0,
    }
}

/// Height of an object member.
pub open spec fn hm(m: MemberV) -> nat
    decreases m,
{
    match m {
        MemberV::Property { ty, .. } => 1 + opt_ht(ty),
        MemberV::Index { key, value } => 1 + ht(key) + opt_ht(value),
        MemberV::Method { .. } => 1,
        MemberV::Call => 1,
    }
}

/// Summed height of a sequence of object members.
pub open spec fn hms(s: Seq<MemberV>) -> nat
    decreases s,
{
    if s.len() == 0 {
        0
    } else {
        hm(s[0]) + hms(s.drop_first())
    }
}

/// Every element's height is bounded by the summed height.
pub proof fn lemma_hts_index(s: Seq<TyV>, i: int)
    requires
        0 <= i < s.len(),
    ensures
        ht(s[i]) <= hts(s),
    decreases s.len(),
{
    if i > 0 {
        lemma_hts_index(s.drop_first(), i - 1);
    }
}

/// Every tuple element's height is bounded by the summed height.
pub proof fn lemma_hes_index(s: Seq<ElemV>, i: int)
    requires
        0 <= i < s.len(),
    ensures
        he(s[i]) <= hes(s),
    decreases s.len(),
{
    if i > 0 {
        lemma_hes_index(s.drop_first(), i - 1);
    }
}

/// Every member's height is bounded by the summed height.
pub proof fn lemma_hms_index(s: Seq<MemberV>, i: int)
    requires
        0 <= i < s.len(),
    ensures
        hm(s[i]) <= hms(s),
    decreases s.len(),
{
    if i > 0 {
        lemma_hms_index(s.drop_first(), i - 1);
    }
}

} // verus!
