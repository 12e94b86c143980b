//! The original end-to-end scenarios, stated against the binding
//! document the translator produces.

use typescript_wasm_bindgen::assembler::translate;
use typescript_wasm_bindgen::ast::{
    ClassDecl, ClassMember, FunctionDecl, KeywordKind, ModuleItem, ParamPat, TypeNode, Visibility,
};
use typescript_wasm_bindgen::doc::{
    Binding, BindingParam, BindingType, ReturnDesc, Signature,
};

fn kw(k: KeywordKind) -> TypeNode {
    TypeNode::Keyword(k)
}

fn param(name: &str, ty: TypeNode) -> ParamPat {
    ParamPat::Named { name: name.to_string(), ty: Some(ty) }
}

fn bparam(name: &str, ty: BindingType) -> BindingParam {
    BindingParam { name: name.to_string(), ty }
}

fn fun(name: &str, params: Vec<ParamPat>, ret: Option<TypeNode>) -> ModuleItem {
    ModuleItem::ExportedFunction(FunctionDecl { name: name.to_string(), params, ret })
}

fn method(name: &str, params: Vec<ParamPat>, ret: Option<TypeNode>) -> ClassMember {
    ClassMember::Method { name: name.to_string(), visibility: None, params, ret }
}

fn promise_of(t: TypeNode) -> TypeNode {
    TypeNode::Reference { name: "Promise".to_string(), args: vec![t] }
}

#[test]
fn test_function() {
    // export function test(): void;
    let items = vec![fun("test", vec![], Some(kw(KeywordKind::Void)))];
    let t = translate("test", &items).unwrap();
    assert_eq!(t.document.module_name, "test");
    assert_eq!(
        t.document.bindings,
        vec![Binding::Function {
            name: "test".to_string(),
            signature: Signature { params: vec![], ret: ReturnDesc::Sync(BindingType::Unit) },
        }]
    );
    assert!(t.diagnostics.is_empty());
}

#[test]
fn test_function_params() {
    // export function test(a: number, b: boolean, c: string): void;
    let items = vec![fun(
        "test",
        vec![
            param("a", kw(KeywordKind::Number)),
            param("b", kw(KeywordKind::Bool)),
            param("c", kw(KeywordKind::Str)),
        ],
        Some(kw(KeywordKind::Void)),
    )];
    let t = translate("test", &items).unwrap();
    assert_eq!(
        t.document.bindings,
        vec![Binding::Function {
            name: "test".to_string(),
            signature: Signature {
                params: vec![
                    bparam("a", BindingType::Float64),
                    bparam("b", BindingType::Boolean),
                    bparam("c", BindingType::Utf8String),
                ],
                ret: ReturnDesc::Sync(BindingType::Unit),
            },
        }]
    );
}

#[test]
fn test_complex_type() {
    // export function test(a?: null | { [index: string]: string; }): string;
    // The union type has no precise representation and degrades to an
    // opaque value rather than failing.
    let items = vec![fun(
        "test",
        vec![param("a", TypeNode::Other)],
        Some(kw(KeywordKind::Str)),
    )];
    let t = translate("test", &items).unwrap();
    assert_eq!(
        t.document.bindings,
        vec![Binding::Function {
            name: "test".to_string(),
            signature: Signature {
                params: vec![bparam("a", BindingType::Opaque)],
                ret: ReturnDesc::Sync(BindingType::Utf8String),
            },
        }]
    );
    assert!(t.diagnostics.is_empty());
}

#[test]
fn test_class() {
    // export class test {};
    let items = vec![ModuleItem::ExportedClass(ClassDecl {
        name: "test".to_string(),
        members: vec![],
    })];
    let t = translate("test", &items).unwrap();
    assert_eq!(
        t.document.bindings,
        vec![
            Binding::OpaqueType { name: "test".to_string() },
            Binding::Constructor { class_name: "test".to_string(), params: vec![] },
        ]
    );
}

#[test]
fn test_class_constructor() {
    // export class test { constructor(test: string) {} };
    let items = vec![ModuleItem::ExportedClass(ClassDecl {
        name: "test".to_string(),
        members: vec![ClassMember::Constructor {
            params: vec![param("test", kw(KeywordKind::Str))],
        }],
    })];
    let t = translate("test", &items).unwrap();
    assert_eq!(
        t.document.bindings,
        vec![
            Binding::OpaqueType { name: "test".to_string() },
            Binding::Constructor {
                class_name: "test".to_string(),
                params: vec![bparam("test", BindingType::Utf8String)],
            },
        ]
    );
}

#[test]
fn test_class_method() {
    // export class test {
    //     constructor(test: string) {}
    //     test(test: number): string {}
    //     test1(test: number) {}
    // };
    let items = vec![ModuleItem::ExportedClass(ClassDecl {
        name: "test".to_string(),
        members: vec![
            ClassMember::Constructor { params: vec![param("test", kw(KeywordKind::Str))] },
            method(
                "test",
                vec![param("test", kw(KeywordKind::Number))],
                Some(kw(KeywordKind::Str)),
            ),
            method("test1", vec![param("test", kw(KeywordKind::Number))], None),
        ],
    })];
    let t = translate("test", &items).unwrap();
    assert_eq!(
        t.document.bindings,
        vec![
            Binding::OpaqueType { name: "test".to_string() },
            Binding::Constructor {
                class_name: "test".to_string(),
                params: vec![bparam("test", BindingType::Utf8String)],
            },
            Binding::Method {
                class_name: "test".to_string(),
                binding_name: "test".to_string(),
                declared_name: "test".to_string(),
                signature: Signature {
                    params: vec![bparam("test", BindingType::Float64)],
                    ret: ReturnDesc::Sync(BindingType::Utf8String),
                },
            },
            Binding::Method {
                class_name: "test".to_string(),
                binding_name: "test1".to_string(),
                declared_name: "test1".to_string(),
                signature: Signature {
                    params: vec![bparam("test", BindingType::Float64)],
                    ret: ReturnDesc::Missing,
                },
            },
        ]
    );
}

#[test]
fn test_class_method_overload() {
    // export class test {
    //     constructor(test: string) {}
    //     test(): string {}
    //     test(test: number): string {}
    //     test(test: number, test1: string) {}
    // };
    let items = vec![ModuleItem::ExportedClass(ClassDecl {
        name: "test".to_string(),
        members: vec![
            ClassMember::Constructor { params: vec![param("test", kw(KeywordKind::Str))] },
            method("test", vec![], Some(kw(KeywordKind::Str))),
            method(
                "test",
                vec![param("test", kw(KeywordKind::Number))],
                Some(kw(KeywordKind::Str)),
            ),
            method(
                "test",
                vec![
                    param("test", kw(KeywordKind::Number)),
                    param("test1", kw(KeywordKind::Str)),
                ],
                None,
            ),
        ],
    })];
    let t = translate("test", &items).unwrap();
    let names: Vec<(String, String)> = t
        .document
        .bindings
        .iter()
        .filter_map(|b| match b {
            Binding::Method { binding_name, declared_name, .. } => {
                Some((binding_name.clone(), declared_name.clone()))
            }
            _ => None,
        })
        .collect();
    assert_eq!(
        names,
        vec![
            ("test".to_string(), "test".to_string()),
            ("test_with_test".to_string(), "test".to_string()),
            ("test_with_test_and_test1".to_string(), "test".to_string()),
        ]
    );
}

#[test]
fn test_async_function() {
    // export function test(): Promise<void>;
    let items = vec![fun("test", vec![], Some(promise_of(kw(KeywordKind::Void))))];
    let t = translate("test", &items).unwrap();
    assert_eq!(
        t.document.bindings,
        vec![Binding::Function {
            name: "test".to_string(),
            signature: Signature { params: vec![], ret: ReturnDesc::Async(BindingType::Unit) },
        }]
    );
}

#[test]
fn test_async_member_function() {
    // export class test { async test(): Promise<void>; };
    let items = vec![ModuleItem::ExportedClass(ClassDecl {
        name: "test".to_string(),
        members: vec![method("test", vec![], Some(promise_of(kw(KeywordKind::Void))))],
    })];
    let t = translate("test", &items).unwrap();
    assert_eq!(
        t.document.bindings,
        vec![
            Binding::OpaqueType { name: "test".to_string() },
            Binding::Method {
                class_name: "test".to_string(),
                binding_name: "test".to_string(),
                declared_name: "test".to_string(),
                signature: Signature {
                    params: vec![],
                    ret: ReturnDesc::Async(BindingType::Unit),
                },
            },
            Binding::Constructor { class_name: "test".to_string(), params: vec![] },
        ]
    );
}

#[test]
fn codegen_test_function() {
    // export function test(): void; — document shape only.
    let items = vec![fun("test", vec![], Some(kw(KeywordKind::Void)))];
    let t = translate("test", &items).unwrap();
    assert_eq!(t.document.bindings.len(), 1);
    assert!(matches!(t.document.bindings[0], Binding::Function { .. }));
}

#[test]
fn codegen_test_function_params() {
    // export function test(a: number, b: boolean, c: string): void;
    let items = vec![fun(
        "test",
        vec![
            param("a", kw(KeywordKind::Number)),
            param("b", kw(KeywordKind::Bool)),
            param("c", kw(KeywordKind::Str)),
        ],
        Some(kw(KeywordKind::Void)),
    )];
    let t = translate("test", &items).unwrap();
    match &t.document.bindings[0] {
        Binding::Function { signature, .. } => {
            assert_eq!(
                signature.params.iter().map(|p| p.ty).collect::<Vec<_>>(),
                vec![BindingType::Float64, BindingType::Boolean, BindingType::Utf8String]
            );
        }
        other => panic!("expected a function binding, got {:?}", other),
    }
}

#[test]
fn codegen_test_class_constructor() {
    // export class test { constructor() {} };
    let items = vec![ModuleItem::ExportedClass(ClassDecl {
        name: "test".to_string(),
        members: vec![ClassMember::Constructor { params: vec![] }],
    })];
    let t = translate("test", &items).unwrap();
    assert_eq!(
        t.document.bindings,
        vec![
            Binding::OpaqueType { name: "test".to_string() },
            Binding::Constructor { class_name: "test".to_string(), params: vec![] },
        ]
    );
}

#[test]
fn unmarked_visibility_defaults_to_public() {
    let items = vec![ModuleItem::ExportedClass(ClassDecl {
        name: "c".to_string(),
        members: vec![ClassMember::Method {
            name: "m".to_string(),
            visibility: None,
            params: vec![],
            ret: None,
        }],
    })];
    let t = translate("m", &items).unwrap();
    assert_eq!(
        t.document.bindings.iter().filter(|b| matches!(b, Binding::Method { .. })).count(),
        1
    );
}

#[test]
fn protected_method_dropped_silently() {
    let items = vec![ModuleItem::ExportedClass(ClassDecl {
        name: "c".to_string(),
        members: vec![ClassMember::Method {
            name: "m".to_string(),
            visibility: Some(Visibility::Protected),
            params: vec![],
            ret: None,
        }],
    })];
    let t = translate("m", &items).unwrap();
    assert!(t.document.bindings.iter().all(|b| !matches!(b, Binding::Method { .. })));
    assert!(t.diagnostics.is_empty());
}
