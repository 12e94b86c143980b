//! The fatal paths and the non-fatal diagnostics.

use typescript_wasm_bindgen::assembler::translate;
use typescript_wasm_bindgen::ast::{
    ClassDecl, ClassMember, FunctionDecl, KeywordKind, ModuleItem, ParamPat, TypeNode, Visibility,
};
use typescript_wasm_bindgen::doc::{Binding, DiagnosticKind, FatalError};

fn kw(k: KeywordKind) -> TypeNode {
    TypeNode::Keyword(k)
}

fn param(name: &str, ty: TypeNode) -> ParamPat {
    ParamPat::Named { name: name.to_string(), ty: Some(ty) }
}

fn fun(name: &str, params: Vec<ParamPat>, ret: Option<TypeNode>) -> ModuleItem {
    ModuleItem::ExportedFunction(FunctionDecl { name: name.to_string(), params, ret })
}

fn method(name: &str, params: Vec<ParamPat>, ret: Option<TypeNode>) -> ClassMember {
    ClassMember::Method { name: name.to_string(), visibility: None, params, ret }
}

#[test]
fn destructured_parameter_is_fatal() {
    // export function f({a}: {a: number}): void; — no partial binding.
    let items = vec![
        fun("f", vec![ParamPat::Destructured], Some(kw(KeywordKind::Void))),
        fun("ok", vec![], None),
    ];
    let err = translate("m", &items).unwrap_err();
    assert_eq!(err, FatalError::DestructuredParam { callable: "f".to_string() });
}

#[test]
fn rest_parameter_is_fatal() {
    let items = vec![fun("g", vec![ParamPat::Rest], None)];
    let err = translate("m", &items).unwrap_err();
    assert_eq!(err, FatalError::RestParam { callable: "g".to_string() });
}

#[test]
fn unannotated_parameter_is_fatal() {
    let items = vec![fun(
        "h",
        vec![ParamPat::Named { name: "x".to_string(), ty: None }],
        None,
    )];
    let err = translate("m", &items).unwrap_err();
    assert_eq!(
        err,
        FatalError::MissingAnnotation { callable: "h".to_string(), param: "x".to_string() }
    );
}

#[test]
fn first_offending_parameter_decides() {
    let items = vec![fun(
        "f",
        vec![
            param("a", kw(KeywordKind::Number)),
            ParamPat::Named { name: "b".to_string(), ty: None },
            ParamPat::Rest,
        ],
        None,
    )];
    let err = translate("m", &items).unwrap_err();
    assert_eq!(
        err,
        FatalError::MissingAnnotation { callable: "f".to_string(), param: "b".to_string() }
    );
}

#[test]
fn constructor_parameter_fault_charged_to_class() {
    let items = vec![ModuleItem::ExportedClass(ClassDecl {
        name: "c".to_string(),
        members: vec![ClassMember::Constructor { params: vec![ParamPat::Destructured] }],
    })];
    let err = translate("m", &items).unwrap_err();
    assert_eq!(err, FatalError::DestructuredParam { callable: "c".to_string() });
}

#[test]
fn method_parameter_fault_charged_to_method() {
    let items = vec![ModuleItem::ExportedClass(ClassDecl {
        name: "c".to_string(),
        members: vec![method("m", vec![ParamPat::Rest], None)],
    })];
    let err = translate("m", &items).unwrap_err();
    assert_eq!(err, FatalError::RestParam { callable: "m".to_string() });
}

#[test]
fn private_method_bad_parameter_never_fails() {
    // A private method with an unsupported parameter is dropped
    // entirely; the class still binds.
    let items = vec![ModuleItem::ExportedClass(ClassDecl {
        name: "c".to_string(),
        members: vec![
            ClassMember::Method {
                name: "secret".to_string(),
                visibility: Some(Visibility::Private),
                params: vec![ParamPat::Destructured],
                ret: None,
            },
            method("go", vec![], None),
        ],
    })];
    let t = translate("m", &items).unwrap();
    let methods: Vec<&str> = t
        .document
        .bindings
        .iter()
        .filter_map(|b| match b {
            Binding::Method { binding_name, .. } => Some(binding_name.as_str()),
            _ => None,
        })
        .collect();
    assert_eq!(methods, vec!["go"]);
}

#[test]
fn duplicate_binding_name_is_fatal() {
    // Group `f` resolves its second overload to `f_with_a`, which
    // collides with the lone method of that very name: refused rather
    // than silently disambiguated further.
    let items = vec![ModuleItem::ExportedClass(ClassDecl {
        name: "c".to_string(),
        members: vec![
            method("f", vec![], None),
            method("f", vec![param("a", kw(KeywordKind::Number))], None),
            method("f_with_a", vec![param("b", kw(KeywordKind::Number))], None),
        ],
    })];
    let err = translate("m", &items).unwrap_err();
    assert_eq!(
        err,
        FatalError::DuplicateBindingName {
            class: "c".to_string(),
            binding_name: "f_with_a".to_string(),
        }
    );
}

#[test]
fn unsupported_export_reported_and_omitted() {
    let items = vec![
        ModuleItem::ExportedUnsupported { description: "ambient namespace ns".to_string() },
        fun("ok", vec![], None),
    ];
    let t = translate("m", &items).unwrap();
    assert_eq!(t.document.bindings.len(), 1);
    assert_eq!(t.diagnostics.len(), 1);
    assert_eq!(t.diagnostics[0].kind, DiagnosticKind::UnsupportedExport);
    assert_eq!(t.diagnostics[0].detail, "ambient namespace ns");
}

#[test]
fn public_property_reported_private_property_silent() {
    let items = vec![ModuleItem::ExportedClass(ClassDecl {
        name: "c".to_string(),
        members: vec![
            ClassMember::Property { name: "shown".to_string(), visibility: None },
            ClassMember::Property {
                name: "hidden".to_string(),
                visibility: Some(Visibility::Private),
            },
        ],
    })];
    let t = translate("m", &items).unwrap();
    assert_eq!(t.diagnostics.len(), 1);
    assert_eq!(t.diagnostics[0].kind, DiagnosticKind::PublicProperty);
    assert_eq!(t.diagnostics[0].detail, "shown");
}

#[test]
fn unsupported_member_reported() {
    let items = vec![ModuleItem::ExportedClass(ClassDecl {
        name: "c".to_string(),
        members: vec![ClassMember::Unsupported { description: "index signature".to_string() }],
    })];
    let t = translate("m", &items).unwrap();
    assert_eq!(t.diagnostics.len(), 1);
    assert_eq!(t.diagnostics[0].kind, DiagnosticKind::UnsupportedMember);
    assert_eq!(t.diagnostics[0].detail, "index signature");
}

#[test]
fn extra_constructor_reported_first_bound() {
    let items = vec![ModuleItem::ExportedClass(ClassDecl {
        name: "c".to_string(),
        members: vec![
            ClassMember::Constructor { params: vec![param("a", kw(KeywordKind::Number))] },
            ClassMember::Constructor { params: vec![] },
        ],
    })];
    let t = translate("m", &items).unwrap();
    let ctors: Vec<&Binding> = t
        .document
        .bindings
        .iter()
        .filter(|b| matches!(b, Binding::Constructor { .. }))
        .collect();
    assert_eq!(ctors.len(), 1);
    match ctors[0] {
        Binding::Constructor { params, .. } => assert_eq!(params.len(), 1),
        _ => unreachable!(),
    }
    assert_eq!(t.diagnostics.len(), 1);
    assert_eq!(t.diagnostics[0].kind, DiagnosticKind::ExtraConstructor);
}

#[test]
fn imports_and_statements_skipped_without_diagnostic() {
    let items = vec![ModuleItem::Import, ModuleItem::Statement];
    let t = translate("m", &items).unwrap();
    assert!(t.document.bindings.is_empty());
    assert!(t.diagnostics.is_empty());
}
