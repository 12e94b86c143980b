//! Concrete checks of the library's stated properties: determinism,
//! order preservation, promise unwrapping, constructor synthesis,
//! overload disambiguation, visibility filtering, and idempotent
//! re-assembly.

use typescript_wasm_bindgen::assembler::{assemble, translate};
use typescript_wasm_bindgen::ast::{
    ClassDecl, ClassMember, FunctionDecl, KeywordKind, ModuleItem, ParamPat, TypeNode, Visibility,
};
use typescript_wasm_bindgen::doc::Binding;
use typescript_wasm_bindgen::walker::walk_module;

fn kw(k: KeywordKind) -> TypeNode {
    TypeNode::Keyword(k)
}

fn param(name: &str, ty: TypeNode) -> ParamPat {
    ParamPat::Named { name: name.to_string(), ty: Some(ty) }
}

fn fun(name: &str, params: Vec<ParamPat>, ret: Option<TypeNode>) -> ModuleItem {
    ModuleItem::ExportedFunction(FunctionDecl { name: name.to_string(), params, ret })
}

fn method(name: &str, params: Vec<ParamPat>, ret: Option<TypeNode>) -> ClassMember {
    ClassMember::Method { name: name.to_string(), visibility: None, params, ret }
}

fn sample_module() -> Vec<ModuleItem> {
    vec![
        fun("first", vec![param("x", kw(KeywordKind::Number))], Some(kw(KeywordKind::Str))),
        ModuleItem::Import,
        ModuleItem::ExportedClass(ClassDecl {
            name: "Widget".to_string(),
            members: vec![
                ClassMember::Constructor { params: vec![] },
                method("go", vec![], None),
            ],
        }),
        ModuleItem::Statement,
        fun("last", vec![], Some(kw(KeywordKind::Bool))),
    ]
}

#[test]
fn determinism_same_input_same_document() {
    let t1 = translate("mod", &sample_module()).unwrap();
    let t2 = translate("mod", &sample_module()).unwrap();
    assert_eq!(t1.document, t2.document);
    assert_eq!(t1.diagnostics, t2.diagnostics);
}

#[test]
fn order_preservation() {
    let t = translate("mod", &sample_module()).unwrap();
    let tops: Vec<&str> = t
        .document
        .bindings
        .iter()
        .map(|b| match b {
            Binding::Function { name, .. } => name.as_str(),
            Binding::OpaqueType { name } => name.as_str(),
            Binding::Constructor { class_name, .. } => class_name.as_str(),
            Binding::Method { class_name, .. } => class_name.as_str(),
        })
        .collect();
    assert_eq!(tops, vec!["first", "Widget", "Widget", "Widget", "last"]);
}

#[test]
fn overload_disambiguation_widget_render() {
    // class Widget { render(): string; render(scale: number): string;
    //                render(scale: number, label: string): string; }
    let items = vec![ModuleItem::ExportedClass(ClassDecl {
        name: "Widget".to_string(),
        members: vec![
            method("render", vec![], Some(kw(KeywordKind::Str))),
            method(
                "render",
                vec![param("scale", kw(KeywordKind::Number))],
                Some(kw(KeywordKind::Str)),
            ),
            method(
                "render",
                vec![
                    param("scale", kw(KeywordKind::Number)),
                    param("label", kw(KeywordKind::Str)),
                ],
                Some(kw(KeywordKind::Str)),
            ),
        ],
    })];
    let t = translate("widgets", &items).unwrap();
    let names: Vec<(&str, &str)> = t
        .document
        .bindings
        .iter()
        .filter_map(|b| match b {
            Binding::Method { binding_name, declared_name, .. } => {
                Some((binding_name.as_str(), declared_name.as_str()))
            }
            _ => None,
        })
        .collect();
    assert_eq!(
        names,
        vec![
            ("render", "render"),
            ("render_with_scale", "render"),
            ("render_with_scale_and_label", "render"),
        ]
    );
}

#[test]
fn visibility_filtering_private_dropped() {
    // A public go() and a private secret(): one method binding, no
    // diagnostic.
    let items = vec![ModuleItem::ExportedClass(ClassDecl {
        name: "c".to_string(),
        members: vec![
            ClassMember::Method {
                name: "go".to_string(),
                visibility: Some(Visibility::Public),
                params: vec![],
                ret: None,
            },
            ClassMember::Method {
                name: "secret".to_string(),
                visibility: Some(Visibility::Private),
                params: vec![],
                ret: None,
            },
        ],
    })];
    let t = translate("m", &items).unwrap();
    let methods: Vec<&str> = t
        .document
        .bindings
        .iter()
        .filter_map(|b| match b {
            Binding::Method { binding_name, .. } => Some(binding_name.as_str()),
            _ => None,
        })
        .collect();
    assert_eq!(methods, vec!["go"]);
    assert!(t.diagnostics.is_empty());
}

#[test]
fn default_constructor_synthesis() {
    // No explicit constructor: exactly one zero-argument constructor
    // binding returning the handle type.
    let items = vec![ModuleItem::ExportedClass(ClassDecl {
        name: "c".to_string(),
        members: vec![method("m", vec![], None)],
    })];
    let t = translate("m", &items).unwrap();
    let ctors: Vec<&Binding> = t
        .document
        .bindings
        .iter()
        .filter(|b| matches!(b, Binding::Constructor { .. }))
        .collect();
    assert_eq!(ctors.len(), 1);
    match ctors[0] {
        Binding::Constructor { class_name, params } => {
            assert_eq!(class_name, "c");
            assert!(params.is_empty());
        }
        _ => unreachable!(),
    }
    // The synthesized constructor stands after the member bindings.
    assert!(matches!(t.document.bindings.last(), Some(Binding::Constructor { .. })));
}

#[test]
fn declared_constructor_keeps_member_position() {
    // A constructor declared after a method keeps its member position
    // among the bindings.
    let items = vec![ModuleItem::ExportedClass(ClassDecl {
        name: "c".to_string(),
        members: vec![
            method("early", vec![], None),
            ClassMember::Constructor { params: vec![param("n", kw(KeywordKind::Number))] },
            method("late", vec![], None),
        ],
    })];
    let t = translate("m", &items).unwrap();
    let shapes: Vec<&str> = t
        .document
        .bindings
        .iter()
        .map(|b| match b {
            Binding::OpaqueType { .. } => "type",
            Binding::Method { binding_name, .. } => binding_name.as_str(),
            Binding::Constructor { .. } => "new",
            Binding::Function { .. } => "fn",
        })
        .collect();
    assert_eq!(shapes, vec!["type", "early", "new", "late"]);
}

#[test]
fn explicit_constructor_no_synthesized_duplicate() {
    let items = vec![ModuleItem::ExportedClass(ClassDecl {
        name: "c".to_string(),
        members: vec![ClassMember::Constructor {
            params: vec![param("n", kw(KeywordKind::Number))],
        }],
    })];
    let t = translate("m", &items).unwrap();
    let ctors: Vec<&Binding> = t
        .document
        .bindings
        .iter()
        .filter(|b| matches!(b, Binding::Constructor { .. }))
        .collect();
    assert_eq!(ctors.len(), 1);
    match ctors[0] {
        Binding::Constructor { params, .. } => {
            assert_eq!(params.len(), 1);
            assert_eq!(params[0].name, "n");
        }
        _ => unreachable!(),
    }
}

#[test]
fn idempotent_reassembly() {
    // Re-running the assembler over the same walker output yields the
    // same document.
    let items = sample_module();
    let (decls, _diags) = walk_module(&items).unwrap();
    let d1 = assemble("mod", &decls);
    let d2 = assemble("mod", &decls);
    assert_eq!(d1, d2);
    assert_eq!(d1, translate("mod", &items).unwrap().document);
}

#[test]
fn private_overload_shapes_public_name() {
    // A private zero-parameter overload is the base of its group, so
    // the public overload still gets the `_with_` suffix, while only
    // the public one is bound.
    let items = vec![ModuleItem::ExportedClass(ClassDecl {
        name: "c".to_string(),
        members: vec![
            ClassMember::Method {
                name: "render".to_string(),
                visibility: Some(Visibility::Private),
                params: vec![],
                ret: None,
            },
            ClassMember::Method {
                name: "render".to_string(),
                visibility: Some(Visibility::Public),
                params: vec![param("scale", kw(KeywordKind::Number))],
                ret: None,
            },
        ],
    })];
    let t = translate("m", &items).unwrap();
    let methods: Vec<&str> = t
        .document
        .bindings
        .iter()
        .filter_map(|b| match b {
            Binding::Method { binding_name, .. } => Some(binding_name.as_str()),
            _ => None,
        })
        .collect();
    assert_eq!(methods, vec!["render_with_scale"]);
}

#[test]
fn positional_fallback_when_no_added_names() {
    // Two overloads with identical parameter names: the non-base one
    // adds no new name and falls back to its group position.
    let items = vec![ModuleItem::ExportedClass(ClassDecl {
        name: "c".to_string(),
        members: vec![
            method("m", vec![param("x", kw(KeywordKind::Number))], None),
            method("m", vec![param("x", kw(KeywordKind::Str))], None),
        ],
    })];
    let t = translate("m", &items).unwrap();
    let methods: Vec<&str> = t
        .document
        .bindings
        .iter()
        .filter_map(|b| match b {
            Binding::Method { binding_name, .. } => Some(binding_name.as_str()),
            _ => None,
        })
        .collect();
    assert_eq!(methods, vec!["m", "m_1"]);
}

#[test]
fn empty_module_empty_document() {
    let items: Vec<ModuleItem> = vec![];
    let t = translate("empty", &items).unwrap();
    assert_eq!(t.document.module_name, "empty");
    assert!(t.document.bindings.is_empty());
    assert!(t.diagnostics.is_empty());
}
