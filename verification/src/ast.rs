//! The input model: a closed tagged-variant representation of the
//! declaration surface this translator understands.
//!
//! A parser front end (outside this library) turns declaration source
//! text into these plain values; the translator never sees source text
//! itself. Each executable type carries a spec-level mirror (`...View`)
//! over `Seq` so that contracts can speak about values mathematically.

use vstd::prelude::*;

verus! {

/// The keyword types the mapper distinguishes. Every keyword that is
/// not one of the four supported ones is `OtherKeyword`.
#[derive(Clone, Copy, Debug, PartialEq, Eq, Structural)]
pub enum KeywordKind {
    Void,
    Number,
    Str,
    Bool,
    OtherKeyword,
}

/// One declared type node. Only the shapes the translator inspects are
/// distinguished: keyword types, named type references with their
/// argument lists (the shape `Promise<T>` arrives as), and everything
/// else (object literals, unions, arrays, ...) collapsed to `Other`.
#[derive(Debug, PartialEq, Eq)]
pub enum TypeNode {
    Keyword(KeywordKind),
    Reference { name: String, args: Vec<TypeNode> },
    Other,
}

/// Spec mirror of [`TypeNode`].
#[verifier::ext_equal]
pub enum TypeNodeView {
    Keyword(KeywordKind),
    Reference { name: Seq<char>, args: Seq<TypeNodeView> },
    Other,
}

pub open spec fn ty_view(t: TypeNode) -> TypeNodeView
    decreases t,
{
    match t {
        TypeNode::Keyword(k) => TypeNodeView::Keyword(k),
        TypeNode::Reference { name, args } => TypeNodeView::Reference {
            name: name@,
            // The range test keeps the recursion on elements of `args`,
            // which the termination check asks for; an index outside the
            // range is never read.
            args: Seq::new(
                args@.len(),
                |i: int|
                    if 0 <= i < args@.len() {
                        ty_view(args@[i])
                    } else {
                        TypeNodeView::Other
                    },
            ),
        },
        TypeNode::Other => TypeNodeView::Other,
    }
}

impl View for TypeNode {
    type V = TypeNodeView;

    open spec fn view(&self) -> TypeNodeView {
        ty_view(*self)
    }
}

/// One declared parameter pattern. The translator binds only simple
/// named identifiers with a type annotation; the other shapes are kept
/// apart so they can be refused precisely.
#[derive(Debug, PartialEq, Eq)]
pub enum ParamPat {
    /// `name: ty` — a plain identifier, with its annotation if any.
    Named { name: String, ty: Option<TypeNode> },
    /// An object or array destructuring pattern.
    Destructured,
    /// A rest (`...`) parameter.
    Rest,
}

/// Spec mirror of [`ParamPat`].
#[verifier::ext_equal]
pub enum ParamPatView {
    Named { name: Seq<char>, ty: Option<TypeNodeView> },
    Destructured,
    Rest,
}

impl View for ParamPat {
    type V = ParamPatView;

    open spec fn view(&self) -> ParamPatView {
        match self {
            ParamPat::Named { name, ty } => ParamPatView::Named {
                name: name@,
                ty: match ty {
                    Option::Some(t) => Option::Some(ty_view(*t)),
                    Option::None => Option::None,
                },
            },
            ParamPat::Destructured => ParamPatView::Destructured,
            ParamPat::Rest => ParamPatView::Rest,
        }
    }
}

pub open spec fn pats_view(ps: Seq<ParamPat>) -> Seq<ParamPatView> {
    ps.map_values(|p: ParamPat| p@)
}

/// An exported function declaration: name, parameters in order, and
/// the declared return type if one was written.
#[derive(Debug, PartialEq, Eq)]
pub struct FunctionDecl {
    pub name: String,
    pub params: Vec<ParamPat>,
    pub ret: Option<TypeNode>,
}

/// Spec mirror of [`FunctionDecl`].
#[verifier::ext_equal]
pub struct FunctionDeclView {
    pub name: Seq<char>,
    pub params: Seq<ParamPatView>,
    pub ret: Option<TypeNodeView>,
}

pub open spec fn opt_ty_view(t: Option<TypeNode>) -> Option<TypeNodeView> {
    match t {
        Option::Some(t) => Option::Some(ty_view(t)),
        Option::None => Option::None,
    }
}

impl View for FunctionDecl {
    type V = FunctionDeclView;

    open spec fn view(&self) -> FunctionDeclView {
        FunctionDeclView {
            name: self.name@,
            params: pats_view(self.params@),
            ret: opt_ty_view(self.ret),
        }
    }
}

/// A member's declared accessibility. Members written without one
/// default to public; the input model keeps the distinction as
/// `Option<Visibility>` and the binder applies the default.
#[derive(Clone, Copy, Debug, PartialEq, Eq, Structural)]
pub enum Visibility {
    Public,
    Protected,
    Private,
}

/// One member of an exported class declaration.
#[derive(Debug, PartialEq, Eq)]
pub enum ClassMember {
    Constructor { params: Vec<ParamPat> },
    Method {
        name: String,
        visibility: Option<Visibility>,
        params: Vec<ParamPat>,
        ret: Option<TypeNode>,
    },
    /// A class field. Fields have no binding form; public ones are
    /// reported, non-public ones dropped.
    Property { name: String, visibility: Option<Visibility> },
    /// Any member shape the binder does not model (an index signature,
    /// a static block, ...), with a description for the diagnostic.
    Unsupported { description: String },
}

/// Spec mirror of [`ClassMember`].
#[verifier::ext_equal]
pub enum ClassMemberView {
    Constructor { params: Seq<ParamPatView> },
    Method {
        name: Seq<char>,
        visibility: Option<Visibility>,
        params: Seq<ParamPatView>,
        ret: Option<TypeNodeView>,
    },
    Property { name: Seq<char>, visibility: Option<Visibility> },
    Unsupported { description: Seq<char> },
}

impl View for ClassMember {
    type V = ClassMemberView;

    open spec fn view(&self) -> ClassMemberView {
        match self {
            ClassMember::Constructor { params } => ClassMemberView::Constructor {
                params: pats_view(params@),
            },
            ClassMember::Method { name, visibility, params, ret } => ClassMemberView::Method {
                name: name@,
                visibility: *visibility,
                params: pats_view(params@),
                ret: opt_ty_view(*ret),
            },
            ClassMember::Property { name, visibility } => ClassMemberView::Property {
                name: name@,
                visibility: *visibility,
            },
            ClassMember::Unsupported { description } => ClassMemberView::Unsupported {
                description: description@,
            },
        }
    }
}

pub open spec fn members_view(ms: Seq<ClassMember>) -> Seq<ClassMemberView> {
    ms.map_values(|m: ClassMember| m@)
}

/// An exported class declaration: its name and its members in source
/// order.
#[derive(Debug, PartialEq, Eq)]
pub struct ClassDecl {
    pub name: String,
    pub members: Vec<ClassMember>,
}

/// Spec mirror of [`ClassDecl`].
#[verifier::ext_equal]
pub struct ClassDeclView {
    pub name: Seq<char>,
    pub members: Seq<ClassMemberView>,
}

impl View for ClassDecl {
    type V = ClassDeclView;

    open spec fn view(&self) -> ClassDeclView {
        ClassDeclView { name: self.name@, members: members_view(self.members@) }
    }
}

/// One top-level item of the parsed module, in source order.
#[derive(Debug, PartialEq, Eq)]
pub enum ModuleItem {
    ExportedFunction(FunctionDecl),
    ExportedClass(ClassDecl),
    /// An import declaration; skipped without a diagnostic.
    Import,
    /// A non-exported statement; skipped without a diagnostic.
    Statement,
    /// Any other exported declaration kind (an ambient namespace, a
    /// re-export, ...), with a description for the diagnostic.
    ExportedUnsupported { description: String },
}

/// Spec mirror of [`ModuleItem`].
#[verifier::ext_equal]
pub enum ModuleItemView {
    ExportedFunction(FunctionDeclView),
    ExportedClass(ClassDeclView),
    Import,
    Statement,
    ExportedUnsupported { description: Seq<char> },
}

impl View for ModuleItem {
    type V = ModuleItemView;

    open spec fn view(&self) -> ModuleItemView {
        match self {
            ModuleItem::ExportedFunction(f) => ModuleItemView::ExportedFunction(f@),
            ModuleItem::ExportedClass(c) => ModuleItemView::ExportedClass(c@),
            ModuleItem::Import => ModuleItemView::Import,
            ModuleItem::Statement => ModuleItemView::Statement,
            ModuleItem::ExportedUnsupported { description } => {
                ModuleItemView::ExportedUnsupported { description: description@ }
            },
        }
    }
}

pub open spec fn items_view(items: Seq<ModuleItem>) -> Seq<ModuleItemView> {
    items.map_values(|it: ModuleItem| it@)
}

} // verus!
