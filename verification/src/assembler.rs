//! The binding document assembler, and the top-level translation
//! entry point.
//!
//! Assembly is pure concatenation: each declaration contributes its
//! bindings — one function binding, or a class's opaque handle type
//! followed by its member bindings in declaration order, an explicit
//! constructor keeping its member position and a synthesized one
//! coming after the members — with no reordering, deduplication, or
//! cross-declaration analysis.

use vstd::prelude::*;

use crate::ast::{items_view, ModuleItem, ModuleItemView};
use crate::doc::{
    bindings_view, diags_view, methods_view, Binding, BindingDocument, BindingDocumentView,
    BindingParam, BindingParamView, BindingView, BoundMethod, BoundMethodView, Declaration,
    DeclarationView, DeclaredConstructorView, Diagnostic, DiagnosticView, FatalError,
    FatalErrorView, Signature,
};
use crate::walker::{decls_view, spec_walk_module, walk_module};

verus! {

/// The method bindings of a class, one per bound method, in order.
pub open spec fn spec_method_bindings(
    class_name: Seq<char>,
    ms: Seq<BoundMethodView>,
) -> Seq<BindingView> {
    ms.map_values(
        |m: BoundMethodView|
            BindingView::Method {
                class_name: class_name,
                binding_name: m.binding_name,
                declared_name: m.declared_name,
                signature: m.signature,
            },
    )
}

/// The bindings of one bound class: the opaque handle type first,
/// then the member bindings in declaration order — an explicit
/// constructor stands among the method bindings at its member
/// position — and, for a class that declares no constructor, the
/// synthesized zero-argument constructor after the member bindings.
pub open spec fn spec_class_bindings(
    name: Seq<char>,
    constructor: Option<DeclaredConstructorView>,
    methods: Seq<BoundMethodView>,
) -> Seq<BindingView> {
    let mb = spec_method_bindings(name, methods);
    match constructor {
        Option::Some(ct) => {
            let k = if ct.preceding_methods <= mb.len() {
                ct.preceding_methods as int
            } else {
                mb.len() as int
            };
            seq![BindingView::OpaqueType { name }] + mb.take(k) + seq![
                BindingView::Constructor { class_name: name, params: ct.params },
            ] + mb.skip(k)
        },
        Option::None => seq![BindingView::OpaqueType { name }] + mb + seq![
            BindingView::Constructor { class_name: name, params: Seq::empty() },
        ],
    }
}

/// The bindings one declaration contributes: a function binding, or —
/// for a class — its opaque handle type, exactly one constructor
/// binding returning that handle, and its method bindings.
pub open spec fn spec_decl_bindings(d: DeclarationView) -> Seq<BindingView> {
    match d {
        DeclarationView::Function { name, signature } => seq![
            BindingView::Function { name, signature },
        ],
        DeclarationView::Class { name, constructor, methods } => spec_class_bindings(
            name,
            constructor,
            methods,
        ),
    }
}

/// The concatenation, in declaration order, of every declaration's
/// bindings.
pub open spec fn spec_assemble_bindings(decls: Seq<DeclarationView>) -> Seq<BindingView>
    decreases decls.len(),
{
    if decls.len() == 0 {
        Seq::empty()
    } else {
        spec_assemble_bindings(decls.drop_last()) + spec_decl_bindings(decls.last())
    }
}

/// What assembling yields: the per-declaration binding sequences
/// concatenated in order, tagged with the module name.
pub open spec fn spec_assemble(
    module_name: Seq<char>,
    decls: Seq<DeclarationView>,
) -> BindingDocumentView {
    BindingDocumentView { module_name: module_name, bindings: spec_assemble_bindings(decls) }
}

/// Copies a bound parameter list.
fn clone_params(ps: &Vec<BindingParam>) -> (r: Vec<BindingParam>)
    ensures
        r@ == ps@,
{
    let mut out: Vec<BindingParam> = Vec::new();
    let mut i: usize = 0;
    while i < ps.len()
        invariant
            i <= ps.len(),
            out@ == ps@.take(i as int),
        decreases ps.len() - i,
    {
        out.push(BindingParam { name: ps[i].name.clone(), ty: ps[i].ty });
        proof {
            assert(out@ =~= ps@.take(i + 1));
        }
        i += 1;
    }
    proof {
        assert(ps@.take(ps.len() as int) =~= ps@);
    }
    out
}

/// Appends the bindings of the methods with indices `from..to`, each
/// invoked on a `class_name` receiver.
fn push_method_bindings(
    out: &mut Vec<Binding>,
    class_name: &String,
    methods: &Vec<BoundMethod>,
    from: usize,
    to: usize,
)
    requires
        from <= to <= methods@.len(),
    ensures
        bindings_view(final(out)@) == bindings_view(old(out)@) + spec_method_bindings(
            class_name@,
            methods_view(methods@),
        ).subrange(from as int, to as int),
{
    let ghost mb = spec_method_bindings(class_name@, methods_view(methods@));
    let ghost prev = out@;
    proof {
        assert(mb.subrange(from as int, from as int) =~= Seq::<BindingView>::empty());
        assert(bindings_view(out@) =~= bindings_view(prev) + mb.subrange(
            from as int,
            from as int,
        ));
    }
    let mut k: usize = from;
    while k < to
        invariant
            from <= k <= to <= methods@.len(),
            mb == spec_method_bindings(class_name@, methods_view(methods@)),
            bindings_view(out@) == bindings_view(prev) + mb.subrange(from as int, k as int),
        decreases to - k,
    {
        let ghost mid = out@;
        let m = &methods[k];
        out.push(
            Binding::Method {
                class_name: class_name.clone(),
                binding_name: m.binding_name.clone(),
                declared_name: m.declared_name.clone(),
                signature: Signature {
                    params: clone_params(&m.signature.params),
                    ret: m.signature.ret,
                },
            },
        );
        proof {
            assert(mb[k as int] == BindingView::Method {
                class_name: class_name@,
                binding_name: methods@[k as int]@.binding_name,
                declared_name: methods@[k as int]@.declared_name,
                signature: methods@[k as int]@.signature,
            });
            assert(bindings_view(out@) =~= bindings_view(mid).push(mb[k as int]));
            assert(mb.subrange(from as int, k + 1) =~= mb.subrange(from as int, k as int).push(
                mb[k as int],
            ));
        }
        k += 1;
    }
}

/// Appends the bindings of one declaration to the document under
/// construction.
fn push_decl_bindings(out: &mut Vec<Binding>, d: &Declaration)
    ensures
        bindings_view(final(out)@) == bindings_view(old(out)@) + spec_decl_bindings(d@),
{
    let ghost prev = out@;
    match d {
        Declaration::Function { name, signature } => {
            out.push(
                Binding::Function {
                    name: name.clone(),
                    signature: Signature {
                        params: clone_params(&signature.params),
                        ret: signature.ret,
                    },
                },
            );
            proof {
                assert(bindings_view(out@) =~= bindings_view(prev) + spec_decl_bindings(d@));
            }
        },
        Declaration::Class { name, constructor, methods } => {
            let ghost mb = spec_method_bindings(name@, methods_view(methods@));
            out.push(Binding::OpaqueType { name: name.clone() });
            proof {
                assert(bindings_view(out@) =~= bindings_view(prev) + seq![
                    BindingView::OpaqueType { name: name@ },
                ]);
            }
            match constructor {
                Option::Some(ct) => {
                    let k = if ct.preceding_methods <= methods.len() {
                        ct.preceding_methods
                    } else {
                        methods.len()
                    };
                    push_method_bindings(out, name, methods, 0, k);
                    let ghost mid = out@;
                    out.push(
                        Binding::Constructor {
                            class_name: name.clone(),
                            params: clone_params(&ct.params),
                        },
                    );
                    proof {
                        assert(bindings_view(out@) =~= bindings_view(mid).push(
                            BindingView::Constructor { class_name: name@, params: ct@.params },
                        ));
                    }
                    push_method_bindings(out, name, methods, k, methods.len());
                    proof {
                        assert(mb.take(k as int) == mb.subrange(0, k as int));
                        assert(mb.skip(k as int) == mb.subrange(k as int, mb.len() as int));
                        assert(d@ matches DeclarationView::Class { .. });
                        assert(d@->Class_constructor == Option::Some(ct@));
                        assert(bindings_view(out@) =~= bindings_view(prev)
                            + spec_class_bindings(
                            name@,
                            Option::Some(ct@),
                            methods_view(methods@),
                        ));
                        assert(bindings_view(out@) =~= bindings_view(prev)
                            + spec_decl_bindings(d@));
                    }
                },
                Option::None => {
                    push_method_bindings(out, name, methods, 0, methods.len());
                    let ghost mid = out@;
                    out.push(
                        Binding::Constructor { class_name: name.clone(), params: Vec::new() },
                    );
                    proof {
                        assert(bindings_view(out@) =~~= bindings_view(mid).push(
                            BindingView::Constructor {
                                class_name: name@,
                                params: Seq::empty(),
                            },
                        ));
                        assert(mb.subrange(0, mb.len() as int) =~= mb);
                        assert(d@ matches DeclarationView::Class { .. });
                        assert(d@->Class_constructor is None);
                        assert(bindings_view(out@) =~= bindings_view(prev)
                            + spec_class_bindings(name@, Option::None, methods_view(methods@)));
                        assert(bindings_view(out@) =~= bindings_view(prev)
                            + spec_decl_bindings(d@));
                    }
                },
            }
        },
    }
}

/// Assembles the walker's declarations into the binding document for
/// the named external module: pure concatenation, preserving source
/// order.
pub fn assemble(module_name: &str, decls: &Vec<Declaration>) -> (r: BindingDocument)
    ensures
        r@ == spec_assemble(module_name@, decls_view(decls@)),
{
    let ghost dv = decls_view(decls@);
    let mut bindings: Vec<Binding> = Vec::new();
    proof {
        assert(bindings_view(bindings@) =~= Seq::<BindingView>::empty());
        assert(spec_assemble_bindings(dv.take(0)) =~= Seq::<BindingView>::empty());
    }
    let mut i: usize = 0;
    while i < decls.len()
        invariant
            i <= decls.len(),
            dv == decls_view(decls@),
            bindings_view(bindings@) == spec_assemble_bindings(dv.take(i as int)),
        decreases decls.len() - i,
    {
        push_decl_bindings(&mut bindings, &decls[i]);
        proof {
            assert(dv.take(i + 1).drop_last() =~= dv.take(i as int));
            assert(dv.take(i + 1).last() == dv[i as int]);
        }
        i += 1;
    }
    proof {
        assert(dv.take(decls.len() as int) =~= dv);
    }
    BindingDocument { module_name: module_name.to_owned(), bindings }
}

/// The result of one whole translation: the document, and the
/// non-fatal diagnostics raised along the way.
#[derive(Debug, PartialEq, Eq)]
pub struct ModuleTranslation {
    pub document: BindingDocument,
    pub diagnostics: Vec<Diagnostic>,
}

/// Spec mirror of [`ModuleTranslation`].
#[verifier::ext_equal]
pub struct ModuleTranslationView {
    pub document: BindingDocumentView,
    pub diagnostics: Seq<DiagnosticView>,
}

impl View for ModuleTranslation {
    type V = ModuleTranslationView;

    open spec fn view(&self) -> ModuleTranslationView {
        ModuleTranslationView { document: self.document@, diagnostics: diags_view(self.diagnostics@) }
    }
}

/// What translating a module yields: walking then assembling, a pure
/// function of the module name and the items.
pub open spec fn spec_translate(module_name: Seq<char>, items: Seq<ModuleItemView>) -> Result<
    ModuleTranslationView,
    FatalErrorView,
> {
    match spec_walk_module(items) {
        Result::Err(e) => Result::Err(e),
        Result::Ok((decls, diags)) => Result::Ok(
            ModuleTranslationView { document: spec_assemble(module_name, decls), diagnostics: diags },
        ),
    }
}

/// Translates one parsed module into the binding document scoped to
/// `module_name`, or fails with the module's first fatal fault. The
/// result is a pure function of the arguments: no state survives a
/// call.
pub fn translate(module_name: &str, items: &Vec<ModuleItem>) -> (r: Result<
    ModuleTranslation,
    FatalError,
>)
    ensures
        ({
            match (r, spec_translate(module_name@, items_view(items@))) {
                (Result::Ok(t), Result::Ok(st)) => t@ == st,
                (Result::Err(e), Result::Err(se)) => e@ == se,
                _ => false,
            }
        }),
{
    match walk_module(items) {
        Result::Err(e) => Result::Err(e),
        Result::Ok((decls, diags)) => {
            let document = assemble(module_name, &decls);
            Result::Ok(ModuleTranslation { document, diagnostics: diags })
        },
    }
}

} // verus!
