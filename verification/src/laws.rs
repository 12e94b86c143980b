//! Laws of the translation as a whole, stated over the spec model
//! that every executable function's contract is pinned to.

use vstd::prelude::*;

use crate::assembler::{
    spec_assemble, spec_decl_bindings, spec_translate, ModuleTranslationView,
};
use crate::ast::{ClassDeclView, ClassMemberView, ModuleItemView};
use crate::binder::{spec_bind_class, spec_bind_members, spec_is_public};
use crate::doc::{
    BindingParamView, BindingView, DeclarationView, DiagnosticKind, FatalErrorView, SignatureView,
};
use crate::mapper::spec_map_return;
use crate::params::spec_bind_params;
use crate::walker::{spec_walk, spec_walk_module};

verus! {

/// Determinism: the translation is a pure function of the module name
/// and the items, so any two results obtained from equal inputs — in
/// particular, from translating the same module twice — are equal.
pub proof fn lemma_translate_deterministic(
    module_name: Seq<char>,
    items: Seq<ModuleItemView>,
    r1: Result<ModuleTranslationView, FatalErrorView>,
    r2: Result<ModuleTranslationView, FatalErrorView>,
)
    requires
        r1 == spec_translate(module_name, items),
        r2 == spec_translate(module_name, items),
    ensures
        r1 == r2,
{
}

/// Idempotent re-assembly: assembling the same walker output again
/// yields the same document — the assembler holds no hidden state.
pub proof fn lemma_assemble_idempotent(
    module_name: Seq<char>,
    decls: Seq<DeclarationView>,
    d1: crate::doc::BindingDocumentView,
    d2: crate::doc::BindingDocumentView,
)
    requires
        d1 == spec_assemble(module_name, decls),
        d2 == spec_assemble(module_name, decls),
    ensures
        d1 == d2,
{
}

/// The declarations of the supported exported items among the first
/// `k`, in source order: one per exported function or class, nothing
/// for anything else.
pub open spec fn spec_exported_decls(items: Seq<ModuleItemView>, k: int) -> Seq<DeclarationView>
    decreases k,
{
    if k <= 0 {
        Seq::empty()
    } else {
        let rest = spec_exported_decls(items, k - 1);
        match items[k - 1] {
            ModuleItemView::ExportedFunction(f) => rest.push(
                DeclarationView::Function {
                    name: f.name,
                    signature: SignatureView {
                        params: spec_bind_params(f.params, f.name)->Ok_0,
                        ret: spec_map_return(f.ret),
                    },
                },
            ),
            ModuleItemView::ExportedClass(c) => rest.push(spec_bind_class(c)->Ok_0.0),
            _ => rest,
        }
    }
}

proof fn lemma_walk_exported_prefix(items: Seq<ModuleItemView>, k: int)
    requires
        0 <= k,
        spec_walk(items, k) is Ok,
    ensures
        spec_walk(items, k)->Ok_0.0 == spec_exported_decls(items, k),
    decreases k,
{
    if k > 0 {
        lemma_walk_exported_prefix(items, k - 1);
    }
}

/// Order preservation: when the walk succeeds, its declarations are
/// exactly those of the supported exported items, in source order —
/// and the document then concatenates their binding sequences in that
/// same order (the definition of assembly).
pub proof fn lemma_order_preservation(items: Seq<ModuleItemView>)
    requires
        spec_walk_module(items) is Ok,
    ensures
        spec_walk_module(items)->Ok_0.0 == spec_exported_decls(items, items.len() as int),
{
    lemma_walk_exported_prefix(items, items.len() as int);
}

/// Order preservation, at the document: a successful translation's
/// bindings are the per-declaration binding sequences of the supported
/// exported items, concatenated in source order.
pub proof fn lemma_document_order(module_name: Seq<char>, items: Seq<ModuleItemView>)
    requires
        spec_translate(module_name, items) is Ok,
    ensures
        spec_translate(module_name, items)->Ok_0.document.bindings
            == crate::assembler::spec_assemble_bindings(
            spec_exported_decls(items, items.len() as int),
        ),
{
    lemma_order_preservation(items);
}

/// The index of the first constructor member among the first `k`, or
/// `-1` when there is none.
pub open spec fn spec_first_ctor(ms: Seq<ClassMemberView>, k: int) -> int
    decreases k,
{
    if k <= 0 {
        -1
    } else {
        let r = spec_first_ctor(ms, k - 1);
        if r != -1 {
            r
        } else if ms[k - 1] is Constructor {
            k - 1
        } else {
            -1
        }
    }
}

proof fn lemma_bind_members_ctor(all: Seq<ClassMemberView>, k: int, class_name: Seq<char>)
    requires
        0 <= k,
        spec_bind_members(all, k, class_name) is Ok,
    ensures
        ({
            let acc = spec_bind_members(all, k, class_name)->Ok_0;
            let f = spec_first_ctor(all, k);
            &&& (acc.constructor is None <==> f == -1)
            &&& (f != -1 ==> {
                &&& 0 <= f < k
                &&& all[f] is Constructor
                &&& acc.constructor matches Option::Some(ct)
                &&& ct.params == spec_bind_params(all[f]->Constructor_params, class_name)->Ok_0
                &&& ct.preceding_methods <= acc.methods.len()
            })
        }),
    decreases k,
{
    if k > 0 {
        lemma_bind_members_ctor(all, k - 1, class_name);
    }
}

/// How many constructor bindings a binding sequence holds.
pub open spec fn spec_count_ctor_bindings(bs: Seq<BindingView>) -> nat
    decreases bs.len(),
{
    if bs.len() == 0 {
        0
    } else {
        spec_count_ctor_bindings(bs.drop_last()) + if bs.last() is Constructor {
            1nat
        } else {
            0nat
        }
    }
}

proof fn lemma_count_ctor_concat(a: Seq<BindingView>, b: Seq<BindingView>)
    ensures
        spec_count_ctor_bindings(a + b) == spec_count_ctor_bindings(a)
            + spec_count_ctor_bindings(b),
    decreases b.len(),
{
    if b.len() == 0 {
        assert(a + b =~= a);
    } else {
        lemma_count_ctor_concat(a, b.drop_last());
        assert((a + b).drop_last() =~= a + b.drop_last());
        assert((a + b).last() == b.last());
    }
}

proof fn lemma_count_ctor_none(bs: Seq<BindingView>)
    requires
        forall|i: int| 0 <= i < bs.len() ==> !((#[trigger] bs[i]) is Constructor),
    ensures
        spec_count_ctor_bindings(bs) == 0,
    decreases bs.len(),
{
    if bs.len() > 0 {
        assert(forall|i: int|
            0 <= i < bs.len() - 1 ==> #[trigger] bs.drop_last()[i] == bs[i]);
        lemma_count_ctor_none(bs.drop_last());
        assert(bs.last() == bs[bs.len() - 1]);
    }
}

proof fn lemma_method_bindings_no_ctor(class_name: Seq<char>, ms: Seq<crate::doc::BoundMethodView>)
    ensures
        ({
            let mb = crate::assembler::spec_method_bindings(class_name, ms);
            forall|i: int| 0 <= i < mb.len() ==> !((#[trigger] mb[i]) is Constructor)
        }),
{
}

/// Default-constructor synthesis: every successfully bound class
/// yields exactly one constructor binding, returning the class's own
/// handle type. A class without an explicit constructor gets the
/// synthesized zero-argument one, placed after the member bindings; a
/// class with an explicit constructor gets exactly that constructor's
/// bound parameters, at the constructor's member position, and no
/// synthesized duplicate.
pub proof fn lemma_default_constructor_synthesis(c: ClassDeclView)
    requires
        spec_bind_class(c) is Ok,
    ensures
        ({
            let acc = spec_bind_members(c.members, c.members.len() as int, c.name)->Ok_0;
            let bs = spec_decl_bindings(spec_bind_class(c)->Ok_0.0);
            let f = spec_first_ctor(c.members, c.members.len() as int);
            &&& spec_count_ctor_bindings(bs) == 1
            &&& bs.len() == 2 + acc.methods.len()
            &&& bs[0] == BindingView::OpaqueType { name: c.name }
            &&& (f == -1 ==> bs.last() == BindingView::Constructor {
                class_name: c.name,
                params: Seq::<BindingParamView>::empty(),
            })
            &&& (f != -1 ==> {
                &&& acc.constructor matches Option::Some(ct)
                &&& bs[1 + ct.preceding_methods as int] == BindingView::Constructor {
                    class_name: c.name,
                    params: spec_bind_params(c.members[f]->Constructor_params, c.name)->Ok_0,
                }
            })
        }),
{
    let acc = spec_bind_members(c.members, c.members.len() as int, c.name)->Ok_0;
    lemma_bind_members_ctor(c.members, c.members.len() as int, c.name);
    let d = spec_bind_class(c)->Ok_0.0;
    let bs = spec_decl_bindings(d);
    let f = spec_first_ctor(c.members, c.members.len() as int);
    let opaque = seq![BindingView::OpaqueType { name: c.name }];
    let mb = crate::assembler::spec_method_bindings(c.name, acc.methods);
    lemma_method_bindings_no_ctor(c.name, acc.methods);
    assert(spec_count_ctor_bindings(Seq::<BindingView>::empty()) == 0);
    match acc.constructor {
        Option::Some(ct) => {
            let k = ct.preceding_methods as int;
            let ctor = seq![
                BindingView::Constructor { class_name: c.name, params: ct.params },
            ];
            assert(bs == opaque + mb.take(k) + ctor + mb.skip(k));
            assert(forall|i: int|
                0 <= i < mb.take(k).len() ==> !((#[trigger] mb.take(k)[i]) is Constructor));
            assert(forall|i: int|
                0 <= i < mb.skip(k).len() ==> !((#[trigger] mb.skip(k)[i]) is Constructor));
            lemma_count_ctor_none(mb.take(k));
            lemma_count_ctor_none(mb.skip(k));
            assert(opaque.drop_last() =~= Seq::<BindingView>::empty());
            assert(spec_count_ctor_bindings(opaque) == 0);
            assert(ctor.drop_last() =~= Seq::<BindingView>::empty());
            assert(spec_count_ctor_bindings(ctor) == 1);
            lemma_count_ctor_concat(opaque, mb.take(k));
            lemma_count_ctor_concat(opaque + mb.take(k), ctor);
            lemma_count_ctor_concat(opaque + mb.take(k) + ctor, mb.skip(k));
            assert(spec_count_ctor_bindings(bs) == 1);
            assert(bs.len() == 2 + acc.methods.len());
            assert(bs[0] == opaque[0]);
            assert(bs[1 + k] == ctor[0]);
        },
        Option::None => {
            let ctor = seq![
                BindingView::Constructor {
                    class_name: c.name,
                    params: Seq::<BindingParamView>::empty(),
                },
            ];
            assert(bs == opaque + mb + ctor);
            lemma_count_ctor_none(mb);
            assert(opaque.drop_last() =~= Seq::<BindingView>::empty());
            assert(spec_count_ctor_bindings(opaque) == 0);
            assert(ctor.drop_last() =~= Seq::<BindingView>::empty());
            assert(spec_count_ctor_bindings(ctor) == 1);
            lemma_count_ctor_concat(opaque, mb);
            lemma_count_ctor_concat(opaque + mb, ctor);
            assert(spec_count_ctor_bindings(bs) == 1);
            assert(bs.len() == 2 + acc.methods.len());
            assert(bs[0] == opaque[0]);
            assert(bs.last() == ctor[0]);
        },
    }
}

/// The public (or unmarked) method members among the first `k`, in
/// declaration order.
pub open spec fn spec_public_methods(ms: Seq<ClassMemberView>, k: int) -> Seq<ClassMemberView>
    decreases k,
{
    if k <= 0 {
        Seq::empty()
    } else {
        let rest = spec_public_methods(ms, k - 1);
        match ms[k - 1] {
            ClassMemberView::Method { visibility, .. } => {
                if spec_is_public(visibility) {
                    rest.push(ms[k - 1])
                } else {
                    rest
                }
            },
            _ => rest,
        }
    }
}

proof fn lemma_bind_members_methods(all: Seq<ClassMemberView>, k: int, class_name: Seq<char>)
    requires
        0 <= k,
        spec_bind_members(all, k, class_name) is Ok,
    ensures
        ({
            let acc = spec_bind_members(all, k, class_name)->Ok_0;
            let pubs = spec_public_methods(all, k);
            &&& acc.methods.len() == pubs.len()
            &&& forall|j: int|
                0 <= j < pubs.len() ==> {
                    let m = #[trigger] pubs[j];
                    &&& m is Method
                    &&& acc.methods[j].declared_name == m->Method_name
                    &&& acc.methods[j].signature == SignatureView {
                        params: spec_bind_params(m->Method_params, m->Method_name)->Ok_0,
                        ret: spec_map_return(m->Method_ret),
                    }
                }
            &&& forall|j: int|
                0 <= j < acc.diags.len() ==> {
                    let kd = (#[trigger] acc.diags[j]).kind;
                    ||| kd == DiagnosticKind::PublicProperty
                    ||| kd == DiagnosticKind::ExtraConstructor
                    ||| kd == DiagnosticKind::UnsupportedMember
                }
        }),
    decreases k,
{
    if k > 0 {
        lemma_bind_members_methods(all, k - 1, class_name);
    }
}

/// Visibility filtering: a successfully bound class binds exactly its
/// public methods — members without an accessibility keyword counting
/// as public — one binding each, in declaration order, each carrying
/// its declared name and its mapped signature. Protected and private
/// methods yield no binding and no diagnostic: every diagnostic the
/// binder raises concerns a property, an extra constructor, or an
/// unsupported member kind, never a dropped method.
pub proof fn lemma_visibility_filtering(c: ClassDeclView)
    requires
        spec_bind_class(c) is Ok,
    ensures
        ({
            let methods = spec_bind_class(c)->Ok_0.0->Class_methods;
            let diags = spec_bind_class(c)->Ok_0.1;
            let pubs = spec_public_methods(c.members, c.members.len() as int);
            &&& methods.len() == pubs.len()
            &&& forall|j: int|
                0 <= j < pubs.len() ==> {
                    let m = #[trigger] pubs[j];
                    &&& m is Method
                    &&& methods[j].declared_name == m->Method_name
                    &&& methods[j].signature == SignatureView {
                        params: spec_bind_params(m->Method_params, m->Method_name)->Ok_0,
                        ret: spec_map_return(m->Method_ret),
                    }
                }
            &&& forall|j: int|
                0 <= j < diags.len() ==> {
                    let kd = (#[trigger] diags[j]).kind;
                    ||| kd == DiagnosticKind::PublicProperty
                    ||| kd == DiagnosticKind::ExtraConstructor
                    ||| kd == DiagnosticKind::UnsupportedMember
                }
        }),
{
    lemma_bind_members_methods(c.members, c.members.len() as int, c.name);
}

} // verus!

