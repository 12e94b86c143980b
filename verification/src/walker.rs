//! The declaration walker: selects, from the top-level items of a
//! parsed module in source order, the exported function and class
//! declarations, and binds each.
//!
//! Imports and non-exported statements are skipped silently; any other
//! exported declaration kind raises a non-fatal diagnostic and is
//! omitted. A parameter fault anywhere aborts the walk with the fatal
//! error of the first offending item.

use vstd::prelude::*;

use crate::ast::{items_view, ModuleItem, ModuleItemView};
use crate::binder::{bind_class, spec_bind_class};
use crate::doc::{
    diags_view, Declaration, DeclarationView, Diagnostic, DiagnosticKind, DiagnosticView,
    FatalError, FatalErrorView, Signature, SignatureView,
};
use crate::mapper::{map_return_opt, spec_map_return};
use crate::params::{bind_params, spec_bind_params};

verus! {

/// Spec view of a declaration list.
pub open spec fn decls_view(ds: Seq<Declaration>) -> Seq<DeclarationView> {
    ds.map_values(|d: Declaration| d@)
}

/// What walking the first `k` items of `items` yields: the bound
/// declarations and the diagnostics in source order, or the first
/// fatal error.
pub open spec fn spec_walk(items: Seq<ModuleItemView>, k: int) -> Result<
    (Seq<DeclarationView>, Seq<DiagnosticView>),
    FatalErrorView,
>
    decreases k,
{
    if k <= 0 {
        Result::Ok((Seq::empty(), Seq::empty()))
    } else {
        match spec_walk(items, k - 1) {
            Result::Err(e) => Result::Err(e),
            Result::Ok((decls, diags)) => match items[k - 1] {
                ModuleItemView::ExportedFunction(f) => {
                    match spec_bind_params(f.params, f.name) {
                        Result::Err(e) => Result::Err(e),
                        Result::Ok(ps) => Result::Ok(
                            (
                                decls.push(
                                    DeclarationView::Function {
                                        name: f.name,
                                        signature: SignatureView {
                                            params: ps,
                                            ret: spec_map_return(f.ret),
                                        },
                                    },
                                ),
                                diags,
                            ),
                        ),
                    }
                },
                ModuleItemView::ExportedClass(c) => {
                    match spec_bind_class(c) {
                        Result::Err(e) => Result::Err(e),
                        Result::Ok((d, ds)) => Result::Ok((decls.push(d), diags + ds)),
                    }
                },
                ModuleItemView::Import => Result::Ok((decls, diags)),
                ModuleItemView::Statement => Result::Ok((decls, diags)),
                ModuleItemView::ExportedUnsupported { description } => Result::Ok(
                    (
                        decls,
                        diags.push(
                            DiagnosticView {
                                kind: DiagnosticKind::UnsupportedExport,
                                detail: description,
                            },
                        ),
                    ),
                ),
            },
        }
    }
}

/// What walking a whole module yields.
pub open spec fn spec_walk_module(items: Seq<ModuleItemView>) -> Result<
    (Seq<DeclarationView>, Seq<DiagnosticView>),
    FatalErrorView,
> {
    spec_walk(items, items.len() as int)
}

/// Once a prefix of the items fails, the whole walk fails with that
/// same (first) error.
pub proof fn lemma_walk_err_extends(items: Seq<ModuleItemView>, k1: int, k2: int)
    requires
        0 <= k1 <= k2,
        spec_walk(items, k1) is Err,
    ensures
        spec_walk(items, k2) == spec_walk(items, k1),
    decreases k2 - k1,
{
    if k1 < k2 {
        lemma_walk_err_extends(items, k1, k2 - 1);
    }
}

/// Walks the top-level items of a module in source order, binding
/// every exported function and class, skipping imports and statements,
/// and reporting any other exported declaration kind.
pub fn walk_module(items: &Vec<ModuleItem>) -> (r: Result<
    (Vec<Declaration>, Vec<Diagnostic>),
    FatalError,
>)
    ensures
        ({
            match (r, spec_walk_module(items_view(items@))) {
                (Result::Ok((ds, dg)), Result::Ok((sds, sdg))) => decls_view(ds@) == sds
                    && diags_view(dg@) == sdg,
                (Result::Err(e), Result::Err(se)) => e@ == se,
                _ => false,
            }
        }),
{
    let ghost iv = items_view(items@);
    let mut decls: Vec<Declaration> = Vec::new();
    let mut diags: Vec<Diagnostic> = Vec::new();
    proof {
        assert(decls_view(decls@) =~= Seq::<DeclarationView>::empty());
        assert(diags_view(diags@) =~= Seq::<DiagnosticView>::empty());
    }
    let mut i: usize = 0;
    while i < items.len()
        invariant
            i <= items.len(),
            iv == items_view(items@),
            spec_walk(iv, i as int) == Result::<
                (Seq<DeclarationView>, Seq<DiagnosticView>),
                FatalErrorView,
            >::Ok((decls_view(decls@), diags_view(diags@))),
        decreases items.len() - i,
    {
        proof {
            assert(iv[i as int] == items@[i as int]@);
        }
        match &items[i] {
            ModuleItem::ExportedFunction(f) => {
                match bind_params(&f.params, &f.name) {
                    Result::Ok(ps) => {
                        let ghost prev = decls@;
                        decls.push(
                            Declaration::Function {
                                name: f.name.clone(),
                                signature: Signature { params: ps, ret: map_return_opt(&f.ret) },
                            },
                        );
                        proof {
                            assert(decls_view(decls@) =~= decls_view(prev).push(
                                decls@[decls@.len() - 1]@,
                            ));
                        }
                    },
                    Result::Err(e) => {
                        proof {
                            lemma_walk_err_extends(iv, i + 1, iv.len() as int);
                        }
                        return Result::Err(e);
                    },
                }
            },
            ModuleItem::ExportedClass(c) => {
                match bind_class(c) {
                    Result::Ok((d, mut ds)) => {
                        let ghost prevdecl = decls@;
                        let ghost prevdiag = diags@;
                        let ghost dsv = ds@;
                        decls.push(d);
                        diags.append(&mut ds);
                        proof {
                            assert(decls_view(decls@) =~= decls_view(prevdecl).push(
                                decls@[decls@.len() - 1]@,
                            ));
                            assert(diags_view(prevdiag + dsv) =~= diags_view(prevdiag)
                                + diags_view(dsv));
                        }
                    },
                    Result::Err(e) => {
                        proof {
                            lemma_walk_err_extends(iv, i + 1, iv.len() as int);
                        }
                        return Result::Err(e);
                    },
                }
            },
            ModuleItem::Import => {},
            ModuleItem::Statement => {},
            ModuleItem::ExportedUnsupported { description } => {
                let ghost prev = diags@;
                diags.push(
                    Diagnostic {
                        kind: DiagnosticKind::UnsupportedExport,
                        detail: description.clone(),
                    },
                );
                proof {
                    assert(diags_view(diags@) =~= diags_view(prev).push(
                        diags@[diags@.len() - 1]@,
                    ));
                }
            },
        }
        i += 1;
    }
    Result::Ok((decls, diags))
}

} // verus!
