//! The class binder: turns one exported class declaration into a
//! declaration ready for assembly.
//!
//! A bound class always gets an opaque handle type and exactly one
//! constructor binding (its explicit constructor, or a synthesized
//! zero-argument one). Methods are bound only when public — members
//! written without an accessibility keyword count as public —
//! protected and private methods are dropped without a diagnostic.
//! Every method of the class whose parameters are all simple named
//! identifiers takes part in overload naming, whatever its visibility,
//! so a private overload still shapes the names of its public
//! siblings. Two public methods resolving to the same binding
//! identifier are refused as a fatal error rather than silently
//! disambiguated further.

use vstd::prelude::*;

use crate::ast::{
    members_view, pats_view, ClassDecl, ClassMemberView, ParamPatView, Visibility,
};
use crate::doc::{
    diags_view, methods_view, BoundMethod, BoundMethodView, Declaration, DeclarationView,
    DeclaredConstructor, DeclaredConstructorView, Diagnostic, DiagnosticKind, DiagnosticView,
    FatalError, FatalErrorView, Signature, SignatureView,
};
use crate::ast::ClassMember;
use crate::mapper::{map_return_opt, spec_map_return};
use crate::params::{
    bind_params, lemma_bind_params_ok_all_named, spec_bind_params,
};
use crate::resolver::{
    resolved_name, sigs_view, spec_resolved_name, strings_view, MethodSig, MethodSigView,
};

verus! {

/// Whether a member with this accessibility is bound: public members
/// and members without an accessibility keyword are.
pub open spec fn spec_is_public(v: Option<Visibility>) -> bool {
    match v {
        Option::None => true,
        Option::Some(Visibility::Public) => true,
        Option::Some(Visibility::Protected) => false,
        Option::Some(Visibility::Private) => false,
    }
}

/// Whether every parameter is a simple named identifier (annotated or
/// not).
pub open spec fn spec_all_named(ps: Seq<ParamPatView>) -> bool {
    forall|i: int| 0 <= i < ps.len() ==> (#[trigger] ps[i]) is Named
}

/// The name of a named parameter pattern.
pub open spec fn spec_pat_name(p: ParamPatView) -> Seq<char> {
    match p {
        ParamPatView::Named { name, .. } => name,
        _ => Seq::empty(),
    }
}

pub open spec fn spec_pat_names(ps: Seq<ParamPatView>) -> Seq<Seq<char>> {
    ps.map_values(|p: ParamPatView| spec_pat_name(p))
}

/// The methods taking part in overload naming, in declaration order:
/// every method member whose parameters are all named identifiers,
/// whatever its visibility.
pub open spec fn spec_naming(ms: Seq<ClassMemberView>) -> Seq<MethodSigView>
    decreases ms.len(),
{
    if ms.len() == 0 {
        Seq::empty()
    } else {
        let rest = spec_naming(ms.drop_last());
        match ms.last() {
            ClassMemberView::Method { name, params, .. } => {
                if spec_all_named(params) {
                    rest.push(MethodSigView { name, param_names: spec_pat_names(params) })
                } else {
                    rest
                }
            },
            _ => rest,
        }
    }
}

/// The binder's running state after some prefix of the member list:
/// the constructor found so far, the bound methods, the diagnostics,
/// and how many naming-relevant methods have been passed.
#[verifier::ext_equal]
pub struct ClassAccView {
    pub constructor: Option<DeclaredConstructorView>,
    pub methods: Seq<BoundMethodView>,
    pub diags: Seq<DiagnosticView>,
    pub seen: nat,
}

/// What binding the first `k` members of `all` yields, for a class
/// named `class_name` whose full member list is `all` (overload naming
/// looks at the whole class, so later members shape earlier names).
pub open spec fn spec_bind_members(
    all: Seq<ClassMemberView>,
    k: int,
    class_name: Seq<char>,
) -> Result<ClassAccView, FatalErrorView>
    decreases k,
{
    if k <= 0 {
        Result::Ok(
            ClassAccView {
                constructor: Option::None,
                methods: Seq::empty(),
                diags: Seq::empty(),
                seen: 0,
            },
        )
    } else {
        match spec_bind_members(all, k - 1, class_name) {
            Result::Err(e) => Result::Err(e),
            Result::Ok(acc) => match all[k - 1] {
                ClassMemberView::Constructor { params } => {
                    if acc.constructor is None {
                        match spec_bind_params(params, class_name) {
                            Result::Err(e) => Result::Err(e),
                            Result::Ok(ps) => Result::Ok(
                                ClassAccView {
                                    constructor: Option::Some(
                                        DeclaredConstructorView {
                                            params: ps,
                                            preceding_methods: acc.methods.len(),
                                        },
                                    ),
                                    ..acc
                                },
                            ),
                        }
                    } else {
                        Result::Ok(
                            ClassAccView {
                                diags: acc.diags.push(
                                    DiagnosticView {
                                        kind: DiagnosticKind::ExtraConstructor,
                                        detail: class_name,
                                    },
                                ),
                                ..acc
                            },
                        )
                    }
                },
                ClassMemberView::Method { name, visibility, params, ret } => {
                    if spec_is_public(visibility) {
                        match spec_bind_params(params, name) {
                            Result::Err(e) => Result::Err(e),
                            Result::Ok(ps) => Result::Ok(
                                ClassAccView {
                                    methods: acc.methods.push(
                                        BoundMethodView {
                                            declared_name: name,
                                            binding_name: spec_resolved_name(
                                                spec_naming(all),
                                                acc.seen as int,
                                            ),
                                            signature: SignatureView {
                                                params: ps,
                                                ret: spec_map_return(ret),
                                            },
                                        },
                                    ),
                                    seen: acc.seen + 1,
                                    ..acc
                                },
                            ),
                        }
                    } else {
                        if spec_all_named(params) {
                            Result::Ok(ClassAccView { seen: acc.seen + 1, ..acc })
                        } else {
                            Result::Ok(acc)
                        }
                    }
                },
                ClassMemberView::Property { name, visibility } => {
                    if spec_is_public(visibility) {
                        Result::Ok(
                            ClassAccView {
                                diags: acc.diags.push(
                                    DiagnosticView {
                                        kind: DiagnosticKind::PublicProperty,
                                        detail: name,
                                    },
                                ),
                                ..acc
                            },
                        )
                    } else {
                        Result::Ok(acc)
                    }
                },
                ClassMemberView::Unsupported { description } => Result::Ok(
                    ClassAccView {
                        diags: acc.diags.push(
                            DiagnosticView {
                                kind: DiagnosticKind::UnsupportedMember,
                                detail: description,
                            },
                        ),
                        ..acc
                    },
                ),
            },
        }
    }
}

/// The binding identifiers of the bound methods, in order.
pub open spec fn spec_binding_names(ms: Seq<BoundMethodView>) -> Seq<Seq<char>> {
    ms.map_values(|m: BoundMethodView| m.binding_name)
}

/// The first name that repeats an earlier one, scanning left to right.
pub open spec fn spec_first_dup(names: Seq<Seq<char>>) -> Option<Seq<char>>
    decreases names.len(),
{
    if names.len() == 0 {
        Option::None
    } else {
        match spec_first_dup(names.drop_last()) {
            Option::Some(n) => Option::Some(n),
            Option::None => {
                if names.drop_last().contains(names.last()) {
                    Option::Some(names.last())
                } else {
                    Option::None
                }
            },
        }
    }
}

/// What binding a whole class yields: its declaration and the
/// diagnostics its members raised, or the first fatal error — a
/// member's parameter fault in declaration order, or, all members
/// binding, a duplicated resolved binding identifier.
pub open spec fn spec_bind_class(c: crate::ast::ClassDeclView) -> Result<
    (DeclarationView, Seq<DiagnosticView>),
    FatalErrorView,
> {
    match spec_bind_members(c.members, c.members.len() as int, c.name) {
        Result::Err(e) => Result::Err(e),
        Result::Ok(acc) => match spec_first_dup(spec_binding_names(acc.methods)) {
            Option::Some(n) => Result::Err(
                FatalErrorView::DuplicateBindingName { class: c.name, binding_name: n },
            ),
            Option::None => Result::Ok(
                (
                    DeclarationView::Class {
                        name: c.name,
                        constructor: acc.constructor,
                        methods: acc.methods,
                    },
                    acc.diags,
                ),
            ),
        },
    }
}

/// Once a prefix of the member list fails to bind, the whole list
/// fails with that same (first) error.
pub proof fn lemma_bind_members_err_extends(
    all: Seq<ClassMemberView>,
    k1: int,
    k2: int,
    class_name: Seq<char>,
)
    requires
        0 <= k1 <= k2,
        spec_bind_members(all, k1, class_name) is Err,
    ensures
        spec_bind_members(all, k2, class_name) == spec_bind_members(all, k1, class_name),
    decreases k2 - k1,
{
    if k1 < k2 {
        lemma_bind_members_err_extends(all, k1, k2 - 1, class_name);
    }
}

/// The naming-method count grows with the member prefix.
pub proof fn lemma_naming_len_mono(ms: Seq<ClassMemberView>, k1: int, k2: int)
    requires
        0 <= k1 <= k2 <= ms.len(),
    ensures
        spec_naming(ms.take(k1)).len() <= spec_naming(ms.take(k2)).len(),
    decreases k2 - k1,
{
    if k1 < k2 {
        lemma_naming_len_mono(ms, k1, k2 - 1);
        assert(ms.take(k2).drop_last() =~= ms.take(k2 - 1));
    }
}

/// After an `Ok` prefix, `seen` counts exactly the naming-relevant
/// methods among the first `k` members.
pub proof fn lemma_bind_members_seen(all: Seq<ClassMemberView>, k: int, class_name: Seq<char>)
    requires
        0 <= k <= all.len(),
        spec_bind_members(all, k, class_name) is Ok,
    ensures
        spec_bind_members(all, k, class_name)->Ok_0.seen == spec_naming(all.take(k)).len(),
    decreases k,
{
    if k > 0 {
        lemma_bind_members_seen(all, k - 1, class_name);
        assert(all.take(k).drop_last() =~= all.take(k - 1));
        assert(all.take(k).last() == all[k - 1]);
        match all[k - 1] {
            ClassMemberView::Method { name, visibility, params, ret } => {
                if spec_is_public(visibility) {
                    match spec_bind_params(params, name) {
                        Result::Ok(_) => {
                            lemma_bind_params_ok_all_named(params, name);
                            assert(spec_all_named(params));
                        },
                        Result::Err(_) => {},
                    }
                }
            },
            _ => {},
        }
    }
}

/// Whether every parameter is a simple named identifier.
pub fn all_named(ps: &Vec<crate::ast::ParamPat>) -> (r: bool)
    ensures
        r == spec_all_named(pats_view(ps@)),
{
    let mut i: usize = 0;
    while i < ps.len()
        invariant
            i <= ps.len(),
            forall|k: int| 0 <= k < i ==> (#[trigger] pats_view(ps@)[k]) is Named,
        decreases ps.len() - i,
    {
        match &ps[i] {
            crate::ast::ParamPat::Named { .. } => {},
            _ => {
                proof {
                    assert(!(pats_view(ps@)[i as int] is Named));
                }
                return false;
            },
        }
        i += 1;
    }
    true
}

/// The parameter names of an all-named parameter list, in order.
fn pat_names(ps: &Vec<crate::ast::ParamPat>) -> (r: Vec<String>)
    requires
        spec_all_named(pats_view(ps@)),
    ensures
        strings_view(r@) == spec_pat_names(pats_view(ps@)),
{
    let mut out: Vec<String> = Vec::new();
    proof {
        assert(strings_view(out@) =~= spec_pat_names(pats_view(ps@)).take(0));
    }
    let mut i: usize = 0;
    while i < ps.len()
        invariant
            i <= ps.len(),
            spec_all_named(pats_view(ps@)),
            out@.len() == i,
            strings_view(out@) == spec_pat_names(pats_view(ps@)).take(i as int),
        decreases ps.len() - i,
    {
        let ghost prev = out@;
        match &ps[i] {
            crate::ast::ParamPat::Named { name, .. } => {
                out.push(name.clone());
            },
            _ => {
                proof {
                    assert(pats_view(ps@)[i as int] is Named);
                }
                unreached()
            },
        }
        proof {
            assert(strings_view(out@) =~= strings_view(prev).push(out@[i as int]@));
            assert(spec_pat_names(pats_view(ps@)).take(i + 1) =~= spec_pat_names(
                pats_view(ps@),
            ).take(i as int).push(spec_pat_name(pats_view(ps@)[i as int])));
        }
        i += 1;
    }
    proof {
        assert(spec_pat_names(pats_view(ps@)).take(ps.len() as int) =~= spec_pat_names(
            pats_view(ps@),
        ));
    }
    out
}

/// The naming view of a class's member list: one entry per method
/// member whose parameters are all named, in declaration order.
fn naming_sigs(members: &Vec<ClassMember>) -> (r: Vec<MethodSig>)
    ensures
        sigs_view(r@) == spec_naming(members_view(members@)),
{
    let ghost mv = members_view(members@);
    let mut out: Vec<MethodSig> = Vec::new();
    proof {
        assert(mv.take(0) =~= Seq::<ClassMemberView>::empty());
        assert(sigs_view(out@) =~= spec_naming(mv.take(0)));
    }
    let mut i: usize = 0;
    while i < members.len()
        invariant
            i <= members.len(),
            mv == members_view(members@),
            sigs_view(out@) == spec_naming(mv.take(i as int)),
        decreases members.len() - i,
    {
        proof {
            assert(mv.take(i + 1).drop_last() =~= mv.take(i as int));
            assert(mv.take(i + 1).last() == mv[i as int]);
        }
        match &members[i] {
            ClassMember::Method { name, params, .. } => {
                if all_named(params) {
                    let ghost prev = out@;
                    let names = pat_names(params);
                    out.push(MethodSig { name: name.clone(), param_names: names });
                    proof {
                        assert(sigs_view(out@) =~= sigs_view(prev).push(out@[out@.len() - 1]@));
                    }
                }
            },
            _ => {},
        }
        i += 1;
    }
    proof {
        assert(mv.take(members.len() as int) =~= mv);
    }
    out
}

/// The first binding identifier among the bound methods that repeats
/// an earlier one.
fn first_dup_binding_name(methods: &Vec<BoundMethod>) -> (r: Option<String>)
    ensures
        ({
            let names = spec_binding_names(methods_view(methods@));
            match (r, spec_first_dup(names)) {
                (Option::Some(s), Option::Some(n)) => s@ == n,
                (Option::None, Option::None) => true,
                _ => false,
            }
        }),
{
    let ghost names = spec_binding_names(methods_view(methods@));
    let mut j: usize = 0;
    while j < methods.len()
        invariant
            j <= methods.len(),
            names == spec_binding_names(methods_view(methods@)),
            spec_first_dup(names.take(j as int)) is None,
        decreases methods.len() - j,
    {
        proof {
            assert(names.take(j + 1).drop_last() =~= names.take(j as int));
            assert(names.take(j + 1).last() == names[j as int]);
        }
        let mut k: usize = 0;
        while k < j
            invariant
                k <= j < methods.len(),
                names == spec_binding_names(methods_view(methods@)),
                spec_first_dup(names.take(j as int)) is None,
                forall|t: int| 0 <= t < k ==> names.take(j as int)[t] != names[j as int],
            decreases j - k,
        {
            if methods[k].binding_name == methods[j].binding_name {
                proof {
                    assert(names.take(j + 1).drop_last() =~= names.take(j as int));
                    assert(names.take(j + 1).last() == names[j as int]);
                    assert(names.take(j as int)[k as int] == names[j as int]);
                    assert(names.take(j as int).contains(names[j as int]));
                    assert(spec_first_dup(names.take(j + 1)) == Option::Some(names[j as int]));
                    lemma_first_dup_extends(names, j + 1);
                }
                return Option::Some(methods[j].binding_name.clone());
            }
            k += 1;
        }
        proof {
            assert(forall|t: int|
                0 <= t < j ==> names.take(j as int)[t] == #[trigger] names[t]);
            assert(!names.take(j as int).contains(names[j as int])) by {
                if names.take(j as int).contains(names[j as int]) {
                    let t = choose|t: int|
                        0 <= t < j && names.take(j as int)[t] == names[j as int];
                    assert(names.take(j as int)[t] != names[j as int]);
                }
            }
        }
        j += 1;
    }
    proof {
        assert(names.take(methods.len() as int) =~= names);
    }
    Option::None
}

/// Once a prefix of the names holds a duplicate, the whole list
/// reports that same (first) duplicate.
pub proof fn lemma_first_dup_extends(names: Seq<Seq<char>>, k: int)
    requires
        0 <= k <= names.len(),
        spec_first_dup(names.take(k)) is Some,
    ensures
        spec_first_dup(names) == spec_first_dup(names.take(k)),
    decreases names.len() - k,
{
    if k < names.len() {
        assert(names.take(k + 1).drop_last() =~= names.take(k));
        lemma_first_dup_extends(names, k + 1);
    } else {
        assert(names.take(k) =~= names);
    }
}

/// Spec view of the binder's running state, as the executable loop
/// holds it.
pub open spec fn acc_view(
    constructor: Option<DeclaredConstructor>,
    methods: Seq<BoundMethod>,
    diags: Seq<Diagnostic>,
    seen: nat,
) -> ClassAccView {
    ClassAccView {
        constructor: match constructor {
            Option::Some(ct) => Option::Some(ct@),
            Option::None => Option::None,
        },
        methods: methods_view(methods),
        diags: diags_view(diags),
        seen: seen,
    }
}

/// Binds one exported class declaration: its opaque handle, its
/// constructor if declared, and its public methods with resolved
/// binding identifiers — or the first fatal fault of its member list.
pub fn bind_class(c: &ClassDecl) -> (r: Result<(Declaration, Vec<Diagnostic>), FatalError>)
    ensures
        ({
            match (r, spec_bind_class(c@)) {
                (Result::Ok((d, dg)), Result::Ok((sd, sdg))) => d@ == sd && diags_view(dg@)
                    == sdg,
                (Result::Err(e), Result::Err(se)) => e@ == se,
                _ => false,
            }
        }),
{
    let ghost mv = members_view(c.members@);
    let naming = naming_sigs(&c.members);
    let mut constructor: Option<DeclaredConstructor> = Option::None;
    let mut methods: Vec<BoundMethod> = Vec::new();
    let mut diags: Vec<Diagnostic> = Vec::new();
    let mut seen: usize = 0;
    proof {
        assert(methods_view(methods@) =~= Seq::<BoundMethodView>::empty());
        assert(diags_view(diags@) =~= Seq::<DiagnosticView>::empty());
        assert(spec_bind_members(mv, 0, c.name@) == Result::<
            ClassAccView,
            FatalErrorView,
        >::Ok(acc_view(Option::None, methods@, diags@, 0)));
    }
    let mut i: usize = 0;
    while i < c.members.len()
        invariant
            i <= c.members.len(),
            mv == members_view(c.members@),
            sigs_view(naming@) == spec_naming(mv),
            seen <= i,
            spec_bind_members(mv, i as int, c.name@) == Result::<
                ClassAccView,
                FatalErrorView,
            >::Ok(acc_view(constructor, methods@, diags@, seen as nat)),
        decreases c.members.len() - i,
    {
        proof {
            assert(mv[i as int] == c.members@[i as int]@);
        }
        match &c.members[i] {
            ClassMember::Constructor { params } => {
                if constructor.is_none() {
                    match bind_params(params, &c.name) {
                        Result::Ok(ps) => {
                            constructor = Option::Some(
                                DeclaredConstructor {
                                    params: ps,
                                    preceding_methods: methods.len(),
                                },
                            );
                        },
                        Result::Err(e) => {
                            proof {
                                lemma_bind_members_err_extends(
                                    mv,
                                    i + 1,
                                    c.members@.len() as int,
                                    c.name@,
                                );
                            }
                            return Result::Err(e);
                        },
                    }
                } else {
                    let ghost prevd = diags@;
                    diags.push(
                        Diagnostic {
                            kind: DiagnosticKind::ExtraConstructor,
                            detail: c.name.clone(),
                        },
                    );
                    proof {
                        assert(diags_view(diags@) =~= diags_view(prevd).push(
                            diags@[diags@.len() - 1]@,
                        ));
                    }
                }
            },
            ClassMember::Method { name, visibility, params, ret } => {
                if is_public(*visibility) {
                    match bind_params(params, name) {
                        Result::Ok(ps) => {
                            proof {
                                lemma_bind_params_ok_all_named(pats_view(params@), name@);
                                lemma_bind_members_seen(mv, i as int, c.name@);
                                assert(mv.take(i + 1).drop_last() =~= mv.take(i as int));
                                assert(mv.take(i + 1).last() == mv[i as int]);
                                lemma_bind_members_seen(mv, i + 1, c.name@);
                                lemma_naming_len_mono(mv, i + 1, mv.len() as int);
                                assert(mv.take(mv.len() as int) =~= mv);
                                assert((seen as int) < spec_naming(mv).len());
                            }
                            let binding_name = resolved_name(&naming, seen);
                            let ghost prevm = methods@;
                            methods.push(
                                BoundMethod {
                                    declared_name: name.clone(),
                                    binding_name,
                                    signature: Signature {
                                        params: ps,
                                        ret: map_return_opt(ret),
                                    },
                                },
                            );
                            seen += 1;
                            proof {
                                assert(methods_view(methods@) =~= methods_view(prevm).push(
                                    methods@[methods@.len() - 1]@,
                                ));
                            }
                        },
                        Result::Err(e) => {
                            proof {
                                lemma_bind_members_err_extends(
                                    mv,
                                    i + 1,
                                    c.members@.len() as int,
                                    c.name@,
                                );
                            }
                            return Result::Err(e);
                        },
                    }
                } else {
                    if all_named(params) {
                        seen += 1;
                    }
                }
            },
            ClassMember::Property { name, visibility } => {
                if is_public(*visibility) {
                    let ghost prevd = diags@;
                    diags.push(
                        Diagnostic { kind: DiagnosticKind::PublicProperty, detail: name.clone() },
                    );
                    proof {
                        assert(diags_view(diags@) =~= diags_view(prevd).push(
                            diags@[diags@.len() - 1]@,
                        ));
                    }
                }
            },
            ClassMember::Unsupported { description } => {
                let ghost prevd = diags@;
                diags.push(
                    Diagnostic {
                        kind: DiagnosticKind::UnsupportedMember,
                        detail: description.clone(),
                    },
                );
                proof {
                    assert(diags_view(diags@) =~= diags_view(prevd).push(
                        diags@[diags@.len() - 1]@,
                    ));
                }
            },
        }
        i += 1;
    }
    proof {
        assert(mv.len() == c.members.len());
    }
    match first_dup_binding_name(&methods) {
        Option::Some(n) => Result::Err(
            FatalError::DuplicateBindingName { class: c.name.clone(), binding_name: n },
        ),
        Option::None => Result::Ok(
            (
                Declaration::Class { name: c.name.clone(), constructor, methods },
                diags,
            ),
        ),
    }
}

/// Whether a member with this accessibility is bound.
pub fn is_public(v: Option<Visibility>) -> (r: bool)
    ensures
        r == spec_is_public(v),
{
    match v {
        Option::None => true,
        Option::Some(Visibility::Public) => true,
        Option::Some(Visibility::Protected) => false,
        Option::Some(Visibility::Private) => false,
    }
}

} // verus!
