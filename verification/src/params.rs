//! Binding of declared parameter lists.
//!
//! A parameter is bound only when it is a simple named identifier with
//! an explicit type annotation. Anything else — a destructuring
//! pattern, a rest parameter, a missing annotation — is a fatal
//! translation error: a wrong parameter count or type would break the
//! call contract, so no graceful degradation is possible here. The
//! first offending parameter, in declaration order, decides the error.

use vstd::prelude::*;

use crate::ast::{pats_view, ParamPat, ParamPatView};
use crate::doc::{params_view, BindingParam, BindingParamView, FatalError, FatalErrorView};
use crate::mapper::{map_type, spec_map_type};

verus! {

/// What binding one parameter yields: the bound parameter, or the
/// fatal error naming `callable` as the owner of the parameter list.
pub open spec fn spec_bind_param(p: ParamPatView, callable: Seq<char>) -> Result<
    BindingParamView,
    FatalErrorView,
> {
    match p {
        ParamPatView::Named { name, ty: Option::Some(t) } => Result::Ok(
            BindingParamView { name, ty: spec_map_type(t) },
        ),
        ParamPatView::Named { name, ty: Option::None } => Result::Err(
            FatalErrorView::MissingAnnotation { callable, param: name },
        ),
        ParamPatView::Destructured => Result::Err(
            FatalErrorView::DestructuredParam { callable },
        ),
        ParamPatView::Rest => Result::Err(FatalErrorView::RestParam { callable }),
    }
}

/// What binding a parameter list yields: the bound parameters in
/// order, or the error of the first parameter that cannot be bound.
pub open spec fn spec_bind_params(ps: Seq<ParamPatView>, callable: Seq<char>) -> Result<
    Seq<BindingParamView>,
    FatalErrorView,
>
    decreases ps.len(),
{
    if ps.len() == 0 {
        Result::Ok(Seq::empty())
    } else {
        match spec_bind_params(ps.drop_last(), callable) {
            Result::Err(e) => Result::Err(e),
            Result::Ok(bs) => match spec_bind_param(ps.last(), callable) {
                Result::Err(e) => Result::Err(e),
                Result::Ok(b) => Result::Ok(bs.push(b)),
            },
        }
    }
}

/// Once a prefix of the parameter list fails to bind, the whole list
/// fails with that same (first) error.
pub proof fn lemma_bind_params_err_extends(ps: Seq<ParamPatView>, callable: Seq<char>, k: int)
    requires
        0 <= k <= ps.len(),
        spec_bind_params(ps.take(k), callable) is Err,
    ensures
        spec_bind_params(ps, callable) == spec_bind_params(ps.take(k), callable),
    decreases ps.len() - k,
{
    if k < ps.len() {
        assert(ps.take(k + 1).drop_last() =~= ps.take(k));
        lemma_bind_params_err_extends(ps, callable, k + 1);
    } else {
        assert(ps.take(k) =~= ps);
    }
}

/// A parameter list that binds as a whole has every parameter a named,
/// annotated identifier.
pub proof fn lemma_bind_params_ok_all_named(ps: Seq<ParamPatView>, callable: Seq<char>)
    requires
        spec_bind_params(ps, callable) is Ok,
    ensures
        forall|i: int|
            0 <= i < ps.len() ==> (#[trigger] ps[i]) matches ParamPatView::Named {
                ty: Option::Some(_),
                ..
            },
    decreases ps.len(),
{
    if ps.len() > 0 {
        lemma_bind_params_ok_all_named(ps.drop_last(), callable);
        assert(forall|i: int|
            0 <= i < ps.len() - 1 ==> #[trigger] ps[i] == ps.drop_last()[i]);
        assert(spec_bind_param(ps.last(), callable) is Ok);
        assert(ps.last() matches ParamPatView::Named { ty: Option::Some(_), .. });
        assert(ps[ps.len() - 1] == ps.last());
    }
}

/// Binds one parameter, or reports why it cannot be bound, charging
/// the error to `callable`.
pub fn bind_param(p: &ParamPat, callable: &String) -> (r: Result<BindingParam, FatalError>)
    ensures
        ({
            match (r, spec_bind_param(p@, callable@)) {
                (Result::Ok(b), Result::Ok(sb)) => b@ == sb,
                (Result::Err(e), Result::Err(se)) => e@ == se,
                _ => false,
            }
        }),
{
    match p {
        ParamPat::Named { name, ty: Option::Some(t) } => Result::Ok(
            BindingParam { name: name.clone(), ty: map_type(t) },
        ),
        ParamPat::Named { name, ty: Option::None } => Result::Err(
            FatalError::MissingAnnotation { callable: callable.clone(), param: name.clone() },
        ),
        ParamPat::Destructured => Result::Err(
            FatalError::DestructuredParam { callable: callable.clone() },
        ),
        ParamPat::Rest => Result::Err(FatalError::RestParam { callable: callable.clone() }),
    }
}

/// Binds a whole parameter list in declaration order, stopping at the
/// first parameter that cannot be bound.
pub fn bind_params(ps: &Vec<ParamPat>, callable: &String) -> (r: Result<
    Vec<BindingParam>,
    FatalError,
>)
    ensures
        ({
            match (r, spec_bind_params(pats_view(ps@), callable@)) {
                (Result::Ok(bs), Result::Ok(sbs)) => params_view(bs@) == sbs,
                (Result::Err(e), Result::Err(se)) => e@ == se,
                _ => false,
            }
        }),
{
    let ghost pv = pats_view(ps@);
    let mut out: Vec<BindingParam> = Vec::new();
    proof {
        assert(pv.take(0) =~= Seq::<ParamPatView>::empty());
        assert(params_view(out@) =~= Seq::<BindingParamView>::empty());
    }
    let mut i: usize = 0;
    while i < ps.len()
        invariant
            i <= ps.len(),
            pv == pats_view(ps@),
            spec_bind_params(pv.take(i as int), callable@) == Result::<
                Seq<BindingParamView>,
                FatalErrorView,
            >::Ok(params_view(out@)),
        decreases ps.len() - i,
    {
        match bind_param(&ps[i], callable) {
            Result::Ok(b) => {
                let ghost prev = out@;
                let ghost bv = b@;
                out.push(b);
                proof {
                    assert(out@ == prev.push(out@[out@.len() - 1]));
                    assert(params_view(out@) =~= params_view(prev).push(bv));
                    assert(pv.take(i + 1).drop_last() =~= pv.take(i as int));
                    assert(pv.take(i + 1).last() == pv[i as int]);
                }
            },
            Result::Err(e) => {
                proof {
                    assert(pv.take(i + 1).drop_last() =~= pv.take(i as int));
                    lemma_bind_params_err_extends(pv, callable@, i + 1);
                }
                return Result::Err(e);
            },
        }
        i += 1;
    }
    proof {
        assert(pv.take(ps.len() as int) =~= pv);
    }
    Result::Ok(out)
}

} // verus!
