//! The type mapper: turns one declared type node into a binding type,
//! and a declared return annotation into a return descriptor,
//! unwrapping a single-argument `Promise<T>` into an asynchronous
//! return of `T`.
//!
//! Mapping is total: every node shape the mapper does not recognize
//! degrades to [`BindingType::Opaque`] rather than failing, because the
//! translator's job is best-effort interop, not full type fidelity.

use vstd::prelude::*;

use crate::ast::{KeywordKind, TypeNode, TypeNodeView};
use crate::doc::{BindingType, ReturnDesc};

verus! {

/// What [`map_type`] returns: the four supported keyword types map to
/// their binding types, every other shape to `Opaque`.
pub open spec fn spec_map_type(t: TypeNodeView) -> BindingType {
    match t {
        TypeNodeView::Keyword(KeywordKind::Void) => BindingType::Unit,
        TypeNodeView::Keyword(KeywordKind::Number) => BindingType::Float64,
        TypeNodeView::Keyword(KeywordKind::Str) => BindingType::Utf8String,
        TypeNodeView::Keyword(KeywordKind::Bool) => BindingType::Boolean,
        TypeNodeView::Keyword(KeywordKind::OtherKeyword) => BindingType::Opaque,
        TypeNodeView::Reference { .. } => BindingType::Opaque,
        TypeNodeView::Other => BindingType::Opaque,
    }
}

/// A type node is a supported keyword exactly when it is one of the
/// four keywords the mapper represents precisely.
pub open spec fn is_supported_keyword(t: TypeNodeView) -> bool {
    match t {
        TypeNodeView::Keyword(k) => k != KeywordKind::OtherKeyword,
        _ => false,
    }
}

/// The inner type of a deferred-value reference: `Some(T)` exactly for
/// a reference named `Promise` with exactly one type argument. A
/// `Promise` with zero or several arguments is not unwrapped.
pub open spec fn spec_promise_inner(t: TypeNodeView) -> Option<TypeNodeView> {
    match t {
        TypeNodeView::Reference { name, args } => {
            if name == "Promise"@ && args.len() == 1 {
                Option::Some(args[0])
            } else {
                Option::None
            }
        },
        _ => Option::None,
    }
}

/// What [`map_return`] returns: no annotation maps to `Missing`, a
/// single-argument `Promise<T>` to `Async` of `T`'s mapping, and any
/// other node to `Sync` of its own mapping.
pub open spec fn spec_map_return(rt: Option<TypeNodeView>) -> ReturnDesc {
    match rt {
        Option::None => ReturnDesc::Missing,
        Option::Some(t) => match spec_promise_inner(t) {
            Option::Some(inner) => ReturnDesc::Async(spec_map_type(inner)),
            Option::None => ReturnDesc::Sync(spec_map_type(t)),
        },
    }
}

/// Maps one declared type node to its binding type. Total: never
/// fails, unsupported shapes degrade to `Opaque`.
pub fn map_type(t: &TypeNode) -> (r: BindingType)
    ensures
        r == spec_map_type(t@),
{
    match t {
        TypeNode::Keyword(KeywordKind::Void) => BindingType::Unit,
        TypeNode::Keyword(KeywordKind::Number) => BindingType::Float64,
        TypeNode::Keyword(KeywordKind::Str) => BindingType::Utf8String,
        TypeNode::Keyword(KeywordKind::Bool) => BindingType::Boolean,
        TypeNode::Keyword(KeywordKind::OtherKeyword) => BindingType::Opaque,
        TypeNode::Reference { .. } => BindingType::Opaque,
        TypeNode::Other => BindingType::Opaque,
    }
}

/// Returns the inner type of a single-argument `Promise<T>` reference,
/// and `None` for every other node.
pub fn promise_inner(t: &TypeNode) -> (r: Option<&TypeNode>)
    ensures
        ({
            match (r, spec_promise_inner(t@)) {
                (Option::Some(u), Option::Some(v)) => u@ == v,
                (Option::None, Option::None) => true,
                _ => false,
            }
        }),
{
    match t {
        TypeNode::Reference { name, args } => {
            let promise = String::from_str("Promise");
            if args.len() == 1 && *name == promise {
                Option::Some(&args[0])
            } else {
                Option::None
            }
        },
        _ => Option::None,
    }
}

/// Spec view of an optional borrowed type node, as handed to
/// [`map_return`].
pub open spec fn opt_ref_ty_view(rt: Option<&TypeNode>) -> Option<TypeNodeView> {
    match rt {
        Option::Some(t) => Option::Some(t@),
        Option::None => Option::None,
    }
}

/// Maps a declared return annotation (or its absence) to a return
/// descriptor, unwrapping a single-argument `Promise<T>` into an
/// asynchronous return.
pub fn map_return(rt: Option<&TypeNode>) -> (r: ReturnDesc)
    ensures
        r == spec_map_return(opt_ref_ty_view(rt)),
{
    match rt {
        Option::None => ReturnDesc::Missing,
        Option::Some(t) => {
            match promise_inner(t) {
                Option::Some(inner) => ReturnDesc::Async(map_type(inner)),
                Option::None => ReturnDesc::Sync(map_type(t)),
            }
        },
    }
}

/// [`map_return`] on an owned optional annotation, as the walker and
/// binder hold it.
pub fn map_return_opt(rt: &Option<TypeNode>) -> (r: ReturnDesc)
    ensures
        r == spec_map_return(crate::ast::opt_ty_view(*rt)),
{
    let a = rt.as_ref();
    proof {
        assert(opt_ref_ty_view(a) == crate::ast::opt_ty_view(*rt));
    }
    map_return(a)
}

/// Type-mapping totality: each supported keyword maps to its
/// documented binding type, and every unsupported node shape maps to
/// `Opaque` — the mapper never fails.
pub proof fn lemma_map_type_totality()
    ensures
        spec_map_type(TypeNodeView::Keyword(KeywordKind::Void)) == BindingType::Unit,
        spec_map_type(TypeNodeView::Keyword(KeywordKind::Number)) == BindingType::Float64,
        spec_map_type(TypeNodeView::Keyword(KeywordKind::Str)) == BindingType::Utf8String,
        spec_map_type(TypeNodeView::Keyword(KeywordKind::Bool)) == BindingType::Boolean,
        forall|t: TypeNodeView| !is_supported_keyword(t) ==> spec_map_type(t) == BindingType::Opaque,
{
}

/// Promise unwrapping: a single-argument `Promise<T>` return maps to an
/// asynchronous binding returning `T`'s mapping — in particular
/// `Promise<string>` to an asynchronous owned string and
/// `Promise<void>` to an asynchronous no-value return — while a bare
/// `Promise` without type arguments is not unwrapped and degrades to a
/// synchronous `Opaque`.
pub proof fn lemma_promise_unwrapping()
    ensures
        forall|args: Seq<TypeNodeView>|
            args.len() == 1 ==> spec_map_return(
                Option::Some(TypeNodeView::Reference { name: "Promise"@, args }),
            ) == ReturnDesc::Async(spec_map_type(#[trigger] args[0])),
        spec_map_return(
            Option::Some(
                TypeNodeView::Reference {
                    name: "Promise"@,
                    args: seq![TypeNodeView::Keyword(KeywordKind::Str)],
                },
            ),
        ) == ReturnDesc::Async(BindingType::Utf8String),
        spec_map_return(
            Option::Some(
                TypeNodeView::Reference {
                    name: "Promise"@,
                    args: seq![TypeNodeView::Keyword(KeywordKind::Void)],
                },
            ),
        ) == ReturnDesc::Async(BindingType::Unit),
        spec_map_return(
            Option::Some(TypeNodeView::Reference { name: "Promise"@, args: Seq::empty() }),
        ) == ReturnDesc::Sync(BindingType::Opaque),
{
}

} // verus!
