//! The output model: the binding document the translator produces,
//! together with the intermediate declaration shapes, the non-fatal
//! diagnostics, and the fatal error type.
//!
//! Each executable type carries a spec-level mirror (`...View`) used by
//! the contracts.

use vstd::prelude::*;

verus! {

/// The closed set of value representations a binding can use.
#[derive(Clone, Copy, Debug, PartialEq, Eq, Structural)]
pub enum BindingType {
    /// No value ("void").
    Unit,
    /// A 64-bit floating-point number on the host side.
    Float64,
    /// Owned UTF-8 string data.
    Utf8String,
    Boolean,
    /// Any declared type the mapper cannot represent precisely.
    Opaque,
}

/// How a callable's result is described.
#[derive(Clone, Copy, Debug, PartialEq, Eq, Structural)]
pub enum ReturnDesc {
    /// The declaration carries no return type annotation at all.
    Missing,
    /// An ordinary synchronous return.
    Sync(BindingType),
    /// The declared return was `Promise<T>` with exactly one type
    /// argument; the binding is an asynchronous operation yielding `T`.
    Async(BindingType),
}

/// One bound parameter: its name and its mapped type.
#[derive(Debug, PartialEq, Eq)]
pub struct BindingParam {
    pub name: String,
    pub ty: BindingType,
}

/// Spec mirror of [`BindingParam`].
#[verifier::ext_equal]
pub struct BindingParamView {
    pub name: Seq<char>,
    pub ty: BindingType,
}

impl View for BindingParam {
    type V = BindingParamView;

    open spec fn view(&self) -> BindingParamView {
        BindingParamView { name: self.name@, ty: self.ty }
    }
}

/// An ordered parameter list plus the return descriptor.
#[derive(Debug, PartialEq, Eq)]
pub struct Signature {
    pub params: Vec<BindingParam>,
    pub ret: ReturnDesc,
}

/// Spec mirror of [`Signature`].
#[verifier::ext_equal]
pub struct SignatureView {
    pub params: Seq<BindingParamView>,
    pub ret: ReturnDesc,
}

pub open spec fn params_view(ps: Seq<BindingParam>) -> Seq<BindingParamView> {
    ps.map_values(|p: BindingParam| p@)
}

impl View for Signature {
    type V = SignatureView;

    open spec fn view(&self) -> SignatureView {
        SignatureView { params: params_view(self.params@), ret: self.ret }
    }
}

/// One public method of a class, ready for emission: the name it is
/// invoked by in the external engine, the host-visible binding
/// identifier the overload resolver assigned, and the bound signature.
#[derive(Debug, PartialEq, Eq)]
pub struct BoundMethod {
    pub declared_name: String,
    pub binding_name: String,
    pub signature: Signature,
}

/// Spec mirror of [`BoundMethod`].
#[verifier::ext_equal]
pub struct BoundMethodView {
    pub declared_name: Seq<char>,
    pub binding_name: Seq<char>,
    pub signature: SignatureView,
}

impl View for BoundMethod {
    type V = BoundMethodView;

    open spec fn view(&self) -> BoundMethodView {
        BoundMethodView {
            declared_name: self.declared_name@,
            binding_name: self.binding_name@,
            signature: self.signature@,
        }
    }
}

/// The class's explicit constructor, as declared: its bound
/// parameters, and how many of the class's bound methods are declared
/// before it — the constructor binding keeps its member position when
/// the class is assembled.
#[derive(Debug, PartialEq, Eq)]
pub struct DeclaredConstructor {
    pub params: Vec<BindingParam>,
    pub preceding_methods: usize,
}

/// Spec mirror of [`DeclaredConstructor`].
#[verifier::ext_equal]
pub struct DeclaredConstructorView {
    pub params: Seq<BindingParamView>,
    pub preceding_methods: nat,
}

impl View for DeclaredConstructor {
    type V = DeclaredConstructorView;

    open spec fn view(&self) -> DeclaredConstructorView {
        DeclaredConstructorView {
            params: params_view(self.params@),
            preceding_methods: self.preceding_methods as nat,
        }
    }
}

/// One supported exported declaration, after walking and binding.
#[derive(Debug, PartialEq, Eq)]
pub enum Declaration {
    Function { name: String, signature: Signature },
    /// `constructor` holds the class's explicit constructor, or `None`
    /// when the class declares none (a zero-argument constructor is
    /// then synthesized at assembly, after the member bindings).
    /// `methods` holds the bound (public) methods in declaration order.
    Class {
        name: String,
        constructor: Option<DeclaredConstructor>,
        methods: Vec<BoundMethod>,
    },
}

/// Spec mirror of [`Declaration`].
#[verifier::ext_equal]
pub enum DeclarationView {
    Function { name: Seq<char>, signature: SignatureView },
    Class {
        name: Seq<char>,
        constructor: Option<DeclaredConstructorView>,
        methods: Seq<BoundMethodView>,
    },
}

pub open spec fn methods_view(ms: Seq<BoundMethod>) -> Seq<BoundMethodView> {
    ms.map_values(|m: BoundMethod| m@)
}

impl View for Declaration {
    type V = DeclarationView;

    open spec fn view(&self) -> DeclarationView {
        match self {
            Declaration::Function { name, signature } => DeclarationView::Function {
                name: name@,
                signature: signature@,
            },
            Declaration::Class { name, constructor, methods } => DeclarationView::Class {
                name: name@,
                constructor: match constructor {
                    Option::Some(ct) => Option::Some(ct@),
                    Option::None => Option::None,
                },
                methods: methods_view(methods@),
            },
        }
    }
}

/// One emitted binding, in rendering-ready form.
#[derive(Debug, PartialEq, Eq)]
pub enum Binding {
    /// A free function of the external module.
    Function { name: String, signature: Signature },
    /// The host-side opaque handle type standing for instances of one
    /// bound class.
    OpaqueType { name: String },
    /// A constructor returning the handle type named `class_name`.
    Constructor { class_name: String, params: Vec<BindingParam> },
    /// A method invoked on a `class_name` receiver. It is called
    /// `declared_name` in the external engine and `binding_name` on the
    /// host side.
    Method {
        class_name: String,
        binding_name: String,
        declared_name: String,
        signature: Signature,
    },
}

/// Spec mirror of [`Binding`].
#[verifier::ext_equal]
pub enum BindingView {
    Function { name: Seq<char>, signature: SignatureView },
    OpaqueType { name: Seq<char> },
    Constructor { class_name: Seq<char>, params: Seq<BindingParamView> },
    Method {
        class_name: Seq<char>,
        binding_name: Seq<char>,
        declared_name: Seq<char>,
        signature: SignatureView,
    },
}

impl View for Binding {
    type V = BindingView;

    open spec fn view(&self) -> BindingView {
        match self {
            Binding::Function { name, signature } => BindingView::Function {
                name: name@,
                signature: signature@,
            },
            Binding::OpaqueType { name } => BindingView::OpaqueType { name: name@ },
            Binding::Constructor { class_name, params } => BindingView::Constructor {
                class_name: class_name@,
                params: params_view(params@),
            },
            Binding::Method { class_name, binding_name, declared_name, signature } => {
                BindingView::Method {
                    class_name: class_name@,
                    binding_name: binding_name@,
                    declared_name: declared_name@,
                    signature: signature@,
                }
            },
        }
    }
}

/// The finished document: every emitted binding, in source order,
/// scoped to the named external module.
#[derive(Debug, PartialEq, Eq)]
pub struct BindingDocument {
    pub module_name: String,
    pub bindings: Vec<Binding>,
}

/// Spec mirror of [`BindingDocument`].
#[verifier::ext_equal]
pub struct BindingDocumentView {
    pub module_name: Seq<char>,
    pub bindings: Seq<BindingView>,
}

pub open spec fn bindings_view(bs: Seq<Binding>) -> Seq<BindingView> {
    bs.map_values(|b: Binding| b@)
}

impl View for BindingDocument {
    type V = BindingDocumentView;

    open spec fn view(&self) -> BindingDocumentView {
        BindingDocumentView { module_name: self.module_name@, bindings: bindings_view(self.bindings@) }
    }
}

/// What kind of construct a non-fatal diagnostic reports.
#[derive(Clone, Copy, Debug, PartialEq, Eq, Structural)]
pub enum DiagnosticKind {
    /// An exported declaration of a kind the walker does not support
    /// (an ambient namespace, for example); the item is omitted.
    UnsupportedExport,
    /// A public class field; fields have no binding form yet.
    PublicProperty,
    /// A class member of a kind the binder does not support.
    UnsupportedMember,
    /// A constructor beyond the class's first; only the first is bound.
    ExtraConstructor,
}

/// A non-fatal finding: translation went on, the offending construct
/// was omitted. `detail` describes the offending node (its name, or a
/// description of its kind).
#[derive(Debug, PartialEq, Eq)]
pub struct Diagnostic {
    pub kind: DiagnosticKind,
    pub detail: String,
}

/// Spec mirror of [`Diagnostic`].
#[verifier::ext_equal]
pub struct DiagnosticView {
    pub kind: DiagnosticKind,
    pub detail: Seq<char>,
}

impl View for Diagnostic {
    type V = DiagnosticView;

    open spec fn view(&self) -> DiagnosticView {
        DiagnosticView { kind: self.kind, detail: self.detail@ }
    }
}

pub open spec fn diags_view(ds: Seq<Diagnostic>) -> Seq<DiagnosticView> {
    ds.map_values(|d: Diagnostic| d@)
}

/// A fatal translation failure: no document is produced. A wrong
/// parameter list would yield a binding with the wrong arity, so the
/// translator refuses rather than guesses. `callable` names the
/// function, method, or (for constructors) class whose parameter list
/// is at fault.
#[derive(Debug, PartialEq, Eq)]
pub enum FatalError {
    /// A parameter written as a destructuring pattern.
    DestructuredParam { callable: String },
    /// A rest (`...`) parameter.
    RestParam { callable: String },
    /// A simple named parameter without a type annotation.
    MissingAnnotation { callable: String, param: String },
    /// Two overloads of one class resolved to the same host-visible
    /// binding identifier; the translator refuses to pick silently.
    DuplicateBindingName { class: String, binding_name: String },
}

/// Spec mirror of [`FatalError`].
#[verifier::ext_equal]
pub enum FatalErrorView {
    DestructuredParam { callable: Seq<char> },
    RestParam { callable: Seq<char> },
    MissingAnnotation { callable: Seq<char>, param: Seq<char> },
    DuplicateBindingName { class: Seq<char>, binding_name: Seq<char> },
}

impl View for FatalError {
    type V = FatalErrorView;

    open spec fn view(&self) -> FatalErrorView {
        match self {
            FatalError::DestructuredParam { callable } => FatalErrorView::DestructuredParam {
                callable: callable@,
            },
            FatalError::RestParam { callable } => FatalErrorView::RestParam { callable: callable@ },
            FatalError::MissingAnnotation { callable, param } => FatalErrorView::MissingAnnotation {
                callable: callable@,
                param: param@,
            },
            FatalError::DuplicateBindingName { class, binding_name } => {
                FatalErrorView::DuplicateBindingName {
                    class: class@,
                    binding_name: binding_name@,
                }
            },
        }
    }
}

} // verus!
