//! The host environment: named nominal definitions (interfaces, classes,
//! aliases) that `Ref` types resolve against, reference normalization, and
//! the nominal extends relation.
//!
//! Resolution is fuel-bounded: a reference chain longer than the supplied
//! fuel (for example a cyclic alias) yields `EngineError::ExpansionLimit`
//! instead of diverging.

use vstd::prelude::*;

use crate::ty::{deep_clone, names_clone, names_model, ty_model, Ty, TyV};

verus! {

broadcast use vstd::seq::group_seq_axioms, vstd::std_specs::vec::group_vec_axioms;

/// Hard failures of the relation engines: the caller violated a
/// precondition or a delegated resolution genuinely failed.
#[derive(Clone, Copy, PartialEq, Eq, Structural, Debug)]
pub enum EngineError {
    /// A `Ref` names no definition in the environment.
    UnresolvedRef,
    /// Reference resolution exceeded the fuel bound (for example a cyclic
    /// alias chain).
    ExpansionLimit,
    /// A distribution accumulator had an unexpected shape at a terminal
    /// append.
    ShapeMismatch,
    /// The candidate is not assignable to the target.
    NotAssignable,
}

/// Model of a `Result` whose payload is a type.
pub open spec fn res_model(r: Result<Ty, EngineError>) -> Result<TyV, EngineError> {
    match r {
        Ok(t) => Ok(ty_model(t)),
        Err(e) => Err(e),
    }
}

/// One named definition of the host program.
pub struct TypeDef {
    pub name: String,
    pub ty: Ty,
}

/// Spec model of a named definition.
pub struct DefV {
    pub name: Seq<char>,
    pub ty: TyV,
}

/// The set of named definitions a `Ref` can resolve to, in declaration
/// order; the first definition of a name wins.
pub struct TypeEnv {
    pub defs: Vec<TypeDef>,
}

/// Spec model of the environment.
pub struct EnvV {
    pub defs: Seq<DefV>,
}

/// Mathematical model of a definition.
pub open spec fn def_model(d: TypeDef) -> DefV {
    DefV { name: d.name@, ty: ty_model(d.ty) }
}

/// Model of a sequence of definitions, elementwise.
pub open spec fn defs_model(s: Seq<TypeDef>) -> Seq<DefV>
    decreases s,
{
    if s.len() == 0 {
        Seq::empty()
    } else {
        defs_model(s.drop_last()).push(def_model(s[s.len() - 1]))
    }
}

/// The elementwise definition models index as expected.
pub broadcast proof fn lemma_defs_model(s: Seq<TypeDef>)
    ensures
        #[trigger] defs_model(s).len() == s.len(),
        forall|i: int| 0 <= i < s.len() ==> defs_model(s)[i] == def_model(s[i]),
    decreases s.len(),
{
    if s.len() > 0 {
        lemma_defs_model(s.drop_last());
    }
}

impl View for TypeEnv {
    type V = EnvV;

    open spec fn view(&self) -> EnvV {
        EnvV { defs: defs_model(self.defs@) }
    }
}

/// The definition a name resolves to: the first definition carrying that
/// name, if any.
pub open spec fn lookup_defs(defs: Seq<DefV>, n: Seq<char>) -> Option<TyV>
    decreases defs.len(),
{
    if defs.len() == 0 {
        None
    } else if defs[0].name == n {
        Some(defs[0].ty)
    } else {
        lookup_defs(defs.drop_first(), n)
    }
}

/// What a name denotes in the environment.
pub open spec fn lookup_spec(env: EnvV, n: Seq<char>) -> Option<TyV> {
    lookup_defs(env.defs, n)
}

fn lookup_at(env: &TypeEnv, i: usize, n: &String) -> (r: Option<Ty>)
    requires
        i <= env.defs@.len(),
    ensures
        (match r {
            Some(t) => Some(ty_model(t)),
            None => None,
        }) == lookup_defs(env@.defs.skip(i as int), n@),
    decreases env.defs@.len() - i,
{
    proof {
        lemma_defs_model(env.defs@);
    }
    if i == env.defs.len() {
        proof {
            assert(env@.defs.skip(i as int) =~= Seq::<DefV>::empty());
        }
        None
    } else {
        proof {
            assert(env@.defs.skip(i as int)[0] == env@.defs[i as int]);
            assert(env@.defs.skip(i as int).drop_first() =~= env@.defs.skip(i as int + 1));
        }
        let d = &env.defs[i];
        if d.name == *n {
            Some(deep_clone(&d.ty))
        } else {
            lookup_at(env, i + 1, n)
        }
    }
}

/// Resolve a name to a structural copy of its definition.
pub fn lookup(env: &TypeEnv, n: &String) -> (r: Option<Ty>)
    ensures
        (match r {
            Some(t) => Some(ty_model(t)),
            None => None,
        }) == lookup_spec(env@, n@),
{
    proof {
        assert(env@.defs.skip(0) =~= env@.defs);
    }
    lookup_at(env, 0, n)
}

/// Reference normalization: resolve the type while its head is a `Ref`,
/// consuming one unit of fuel per resolution step. Every other shape is
/// already concrete and is returned unchanged.
pub open spec fn normalize_spec(env: EnvV, t: TyV, fuel: nat) -> Result<TyV, EngineError>
    decreases fuel,
{
    match t {
        TyV::Ref(n) => {
            if fuel == 0 {
                Err(EngineError::ExpansionLimit)
            } else {
                match lookup_spec(env, n) {
                    None => Err(EngineError::UnresolvedRef),
                    Some(d) => normalize_spec(env, d, (fuel - 1) as nat),
                }
            }
        },
        _ => Ok(t),
    }
}

/// Resolve lazy reference wrappers to a concrete shape.
pub fn normalize(env: &TypeEnv, t: &Ty, fuel: u64) -> (r: Result<Ty, EngineError>)
    ensures
        res_model(r) == normalize_spec(env@, t@, fuel as nat),
    decreases fuel,
{
    match t {
        Ty::Ref(n) => {
            if fuel == 0 {
                Err(EngineError::ExpansionLimit)
            } else {
                match lookup(env, n) {
                    None => Err(EngineError::UnresolvedRef),
                    Some(d) => normalize(env, &d, fuel - 1),
                }
            }
        },
        _ => Ok(deep_clone(t)),
    }
}

/// The declared parents of a name: the extends list of the interface or
/// class it denotes, empty for anything else.
pub open spec fn parents_spec(env: EnvV, n: Seq<char>) -> Seq<Seq<char>> {
    match lookup_spec(env, n) {
        Some(TyV::Interface { extends, .. }) => extends,
        Some(TyV::Class { extends, .. }) => extends,
        _ => Seq::empty(),
    }
}

fn parents(env: &TypeEnv, n: &String) -> (r: Vec<String>)
    ensures
        names_model(r) == parents_spec(env@, n@),
{
    match lookup(env, n) {
        Some(Ty::Interface { name: _, extends, members: _ }) => extends,
        Some(Ty::Class { name: _, extends }) => extends,
        _ => {
            let empty: Vec<String> = Vec::new();
            proof {
                assert(names_model(empty) =~= Seq::<Seq<char>>::empty());
            }
            empty
        },
    }
}

/// Transitive reachability of `target` through declared extends edges,
/// starting from the names in `from`; fuel bounds the edge depth.
pub open spec fn reaches(env: EnvV, from: Seq<Seq<char>>, target: Seq<char>, fuel: nat) -> bool
    decreases fuel, from.len(),
{
    if from.len() == 0 {
        false
    } else {
        from[0] == target || (fuel > 0 && reaches(
            env,
            parents_spec(env, from[0]),
            target,
            (fuel - 1) as nat,
        )) || reaches(env, from.drop_first(), target, fuel)
    }
}

fn reach_from(env: &TypeEnv, names: &Vec<String>, i: usize, target: &String, fuel: u64) -> (r:
    bool)
    requires
        i <= names@.len(),
    ensures
        r == reaches(env@, names_model(*names).skip(i as int), target@, fuel as nat),
    decreases fuel, names@.len() - i,
{
    proof {
        assert(names_model(*names).len() == names@.len());
    }
    if i == names.len() {
        proof {
            assert(names_model(*names).skip(i as int) =~= Seq::<Seq<char>>::empty());
        }
        false
    } else {
        proof {
            assert(names_model(*names).skip(i as int)[0] == names@[i as int]@);
            assert(names_model(*names).skip(i as int).drop_first() =~= names_model(
                *names,
            ).skip(i as int + 1));
        }
        if names[i] == *target {
            true
        } else if fuel > 0 && {
            let ps = parents(env, &names[i]);
            proof {
                assert(names_model(ps).skip(0) =~= names_model(ps));
            }
            reach_from(env, &ps, 0, target, fuel - 1)
        } {
            true
        } else {
            reach_from(env, names, i + 1, target, fuel)
        }
    }
}

/// Whether the names in `from` transitively reach `target` through
/// declared extends edges.
pub fn reaches_from(env: &TypeEnv, from: &Vec<String>, target: &String, fuel: u64) -> (r: bool)
    ensures
        r == reaches(env@, names_model(*from), target@, fuel as nat),
{
    proof {
        assert(names_model(*from).skip(0) =~= names_model(*from));
    }
    reach_from(env, from, 0, target, fuel)
}

/// The name of a nominal shape, if the type is one.
pub open spec fn nominal_name(t: TyV) -> Option<Seq<char>> {
    match t {
        TyV::Interface { name, .. } => Some(name),
        TyV::Class { name, .. } => Some(name),
        _ => None,
    }
}

/// The declared extends list a nominal shape carries.
pub open spec fn nominal_extends(t: TyV) -> Seq<Seq<char>> {
    match t {
        TyV::Interface { extends, .. } => extends,
        TyV::Class { extends, .. } => extends,
        _ => Seq::empty(),
    }
}

/// The nominal extends query: `None` when either side is not a nominal
/// shape (the relation is inapplicable), otherwise whether `sub`'s declared
/// parents transitively reach `sup`'s name.
pub open spec fn extends_spec(env: EnvV, sub: TyV, sup: TyV, fuel: nat) -> Option<bool> {
    if nominal_name(sub) is Some && nominal_name(sup) is Some {
        Some(reaches(env, nominal_extends(sub), nominal_name(sup)->Some_0, fuel))
    } else {
        None
    }
}

/// Nominal subtype query between two type values.
pub fn extends_q(env: &TypeEnv, sub: &Ty, sup: &Ty, fuel: u64) -> (r: Option<bool>)
    ensures
        r == extends_spec(env@, sub@, sup@, fuel as nat),
{
    let sup_name: &String = match sup {
        Ty::Interface { name, extends: _, members: _ } => name,
        Ty::Class { name, extends: _ } => name,
        _ => {
            return None;
        },
    };
    let sub_extends: &Vec<String> = match sub {
        Ty::Interface { name: _, extends, members: _ } => extends,
        Ty::Class { name: _, extends } => extends,
        _ => {
            return None;
        },
    };
    proof {
        assert(names_model(*sub_extends).skip(0) =~= names_model(*sub_extends));
    }
    Some(reach_from(env, sub_extends, 0, sup_name, fuel))
}

} // verus!
