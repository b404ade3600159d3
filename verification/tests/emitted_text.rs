use enumify_struct::enumify_struct;
use enumify_struct::merge::{MergeStatement, MergeStrategy};
use enumify_struct::params::ArgumentToken;
use enumify_struct::record::{
    Annotation, Field, FieldType, ItemKind, RecordDescription, TypeShape, Visibility,
};
use proc_macro2::TokenStream;
use syn::parse::Parser;

fn path(text: &str, last: &str) -> FieldType {
    FieldType { text: text.to_string(), shape: TypeShape::Path(vec![last.to_string()]) }
}

fn annotation(name: &str, arguments: &[&str]) -> Annotation {
    let text = if arguments.is_empty() {
        format!("#[{}]", name)
    } else {
        format!("#[{}({})]", name, arguments.join(", "))
    };
    Annotation {
        name: name.to_string(),
        arguments: arguments.iter().map(|a| a.to_string()).collect(),
        text,
    }
}

fn field(name: Option<&str>, ty: FieldType, annotations: Vec<Annotation>) -> Field {
    Field { annotations, visibility: Visibility::Inherited, name: name.map(|n| n.to_string()), ty }
}

fn settings() -> RecordDescription {
    RecordDescription {
        name: "Settings".to_string(),
        kind: ItemKind::NamedStruct,
        derived: vec!["Debug".to_string()],
        impl_generics: "< 'a , T : Clone >".to_string(),
        type_generics: "< 'a , T >".to_string(),
        fields: vec![
            field(Some("name"), path("& 'a str", "str"), vec![annotation("enumify_skip_wrap", &[])]),
            field(
                Some("inner"),
                path("Option < Inner < T > >", "Option"),
                vec![
                    annotation("cfg", &["feature = \"inner\""]),
                    annotation("enumify_rename", &["InnerPatch"]),
                    annotation("enumify_wrap", &[]),
                ],
            ),
            field(Some("level"), path("u8", "u8"), vec![]),
            field(
                Some("extra"),
                path("Option < Inner < T > >", "Option"),
                vec![annotation("enumify_rename", &["(Inner < T >)"])],
            ),
            field(
                Some("deep"),
                path("Inner < T >", "Inner"),
                vec![
                    annotation("enumify_rename", &["InnerPatch"]),
                    annotation("cfg", &["unix"]),
                    annotation("enumify_wrap", &[]),
                ],
            ),
        ],
    }
}

fn attr() -> Vec<ArgumentToken> {
    vec![
        ArgumentToken::Ident("Option".to_string()),
        ArgumentToken::Comma,
        ArgumentToken::Ident("SettingsPatch".to_string()),
    ]
}

fn tokens(text: &str) -> String {
    text.parse::<TokenStream>().unwrap().to_string()
}

fn statement(strategy: MergeStrategy, member: &str, guard: Option<Annotation>) -> String {
    MergeStatement { member: member.to_string(), strategy, guard }.render()
}

#[test]
fn each_strategy_gives_the_tokens_of_its_statement() {
    let cases = [
        (MergeStrategy::Overwrite, "t . x = self . x ;"),
        (MergeStrategy::ApplyNested, "self . x . apply_to (& mut t . x) ;"),
        (
            MergeStrategy::ApplyIfPresent,
            "if let (Some (inner) , Some (target)) = (self . x , & mut t . x) \
             { inner . apply_to (target) ; }",
        ),
        (
            MergeStrategy::ResolveThenApply,
            "let inner = self . x . resolve_to_base () ; inner . apply_to (& mut t . x) ;",
        ),
        (MergeStrategy::ResolveAndOverwrite, "t . x = self . x . resolve_to_base () ;"),
        (
            MergeStrategy::ApplyOrInstall,
            "if let Some (existing) = & mut t . x { self . x . apply_to (existing) ; } \
             else { t . x = self . x . try_into () . ok () ; }",
        ),
    ];
    for (strategy, expected) in cases {
        assert_eq!(tokens(&statement(strategy, "x", None)), tokens(expected));
        assert_eq!(tokens(&strategy.render(&"x".to_string())), tokens(expected));
    }
    let guard = annotation("cfg", &["unix"]);
    assert_eq!(
        tokens(&statement(MergeStrategy::Overwrite, "0", Some(guard.clone()))),
        tokens("#[cfg(unix)] { t.0 = self.0; }")
    );
    assert_eq!(
        tokens(&statement(MergeStrategy::ResolveThenApply, "x", Some(guard))),
        tokens("#[cfg(unix)] { let inner = self.x.resolve_to_base(); inner.apply_to(&mut t.x); }")
    );
}

fn body_of(implementation: &syn::ItemImpl) -> &Vec<syn::Stmt> {
    match &implementation.items[1] {
        syn::ImplItem::Fn(method) => {
            assert_eq!(method.sig.ident, "apply_to");
            assert_eq!(method.sig.inputs.len(), 2);
            &method.block.stmts
        }
        _ => panic!("the second item is the method"),
    }
}

#[test]
fn the_implementation_is_an_impl_with_the_statements_of_the_fields() {
    let output = enumify_struct(&attr(), &settings()).unwrap();
    let implementation: syn::ItemImpl =
        syn::parse_str(&output.generated.implementation).unwrap();
    assert_eq!(implementation.generics.params.len(), 2);
    let (_, applicable, _) = implementation.trait_.as_ref().unwrap();
    let names: Vec<String> = applicable.segments.iter().map(|s| s.ident.to_string()).collect();
    assert_eq!(names, vec!["enumify_struct", "Applicable"]);
    match &*implementation.self_ty {
        syn::Type::Path(overlay) => {
            assert_eq!(overlay.path.segments.last().unwrap().ident, "SettingsPatch")
        }
        _ => panic!("the overlay is named by a path"),
    }
    assert_eq!(implementation.items.len(), 2);
    match &implementation.items[0] {
        syn::ImplItem::Type(base) => {
            assert_eq!(base.ident, "Base");
            match &base.ty {
                syn::Type::Path(record) => {
                    assert_eq!(record.path.segments.last().unwrap().ident, "Settings")
                }
                _ => panic!("the base is named by a path"),
            }
        }
        _ => panic!("the first item is the base type"),
    }
    let body = body_of(&implementation);
    assert_eq!(body.len(), 5);
    assert!(matches!(&body[0], syn::Stmt::Expr(syn::Expr::Assign(_), Some(_))));
    match &body[1] {
        syn::Stmt::Expr(syn::Expr::Block(guarded), _) => {
            assert_eq!(guarded.attrs.len(), 1);
            assert_eq!(guarded.block.stmts.len(), 1);
            assert!(matches!(&guarded.block.stmts[0], syn::Stmt::Expr(syn::Expr::If(_), _)));
        }
        _ => panic!("a statement under a condition stands in a block"),
    }
    assert!(matches!(&body[2], syn::Stmt::Expr(syn::Expr::Assign(_), Some(_))));
    match &body[3] {
        syn::Stmt::Expr(syn::Expr::If(install), _) => {
            assert!(install.attrs.is_empty());
            assert!(install.else_branch.is_some());
        }
        _ => panic!("an apply-or-install field is folded by an `if let` with an `else`"),
    }
    match &body[4] {
        syn::Stmt::Expr(syn::Expr::Block(guarded), _) => {
            assert_eq!(guarded.attrs.len(), 1);
            assert_eq!(guarded.block.stmts.len(), 2);
        }
        _ => panic!("statements under a condition stand in a block"),
    }
    let statements: Vec<String> =
        output.generated.statements.iter().map(|s| s.render()).collect();
    assert_eq!(
        statements,
        vec![
            "t.name = self.name;",
            "#[cfg(feature = \"inner\")] { if let (Some(inner), Some(target)) = \
             (self.inner, &mut t.inner) { inner.apply_to(target); } }",
            "t.level = self.level.resolve_to_base();",
            "if let Some(existing) = &mut t.extra { self.extra.apply_to(existing); } \
             else { t.extra = self.extra.try_into().ok(); }",
            "#[cfg(unix)] { let inner = self.deep.resolve_to_base(); \
             inner.apply_to(&mut t.deep); }",
        ]
    );
}

#[test]
fn the_overlay_types_and_the_derive_annotation_are_read_as_such() {
    let output = enumify_struct(&attr(), &settings()).unwrap();
    let expected =
        ["& 'a str", "Option<InnerPatch>", "Option<u8>", "(Inner < T >)", "Option<InnerPatch>"];
    for (made, text) in output.generated.record.fields.iter().zip(expected) {
        assert_eq!(made.ty.text, text);
        assert!(syn::parse_str::<syn::Type>(&made.ty.text).is_ok());
    }
    assert_eq!(output.generated.derive_annotation, "#[derive(Clone, PartialEq, )]");
    let attributes =
        syn::Attribute::parse_outer.parse_str(&output.generated.derive_annotation).unwrap();
    assert_eq!(attributes.len(), 1);
    assert!(attributes[0].path().is_ident("derive"));
    let mut derived = Vec::new();
    attributes[0]
        .parse_nested_meta(|meta| {
            derived.push(meta.path.get_ident().unwrap().to_string());
            Ok(())
        })
        .unwrap();
    assert_eq!(derived, vec!["Clone", "PartialEq"]);
}

#[test]
fn positional_members_are_read_as_tuple_fields() {
    let pair = RecordDescription {
        name: "Pair".to_string(),
        kind: ItemKind::TupleStruct,
        derived: vec![],
        impl_generics: String::new(),
        type_generics: String::new(),
        fields: vec![
            field(None, path("u8", "u8"), vec![]),
            field(None, path("u16", "u16"), vec![annotation("cfg", &["unix"])]),
        ],
    };
    let output =
        enumify_struct(&vec![ArgumentToken::Ident("Marker".to_string())], &pair).unwrap();
    let implementation: syn::ItemImpl =
        syn::parse_str(&output.generated.implementation).unwrap();
    let body = body_of(&implementation);
    assert_eq!(body.len(), 2);
    match &body[1] {
        syn::Stmt::Expr(syn::Expr::Block(guarded), _) => {
            assert_eq!(guarded.attrs.len(), 1);
            match &guarded.block.stmts[0] {
                syn::Stmt::Expr(syn::Expr::Assign(assign), Some(_)) => {
                    assert!(assign.attrs.is_empty());
                    assert!(matches!(&*assign.left, syn::Expr::Field(_)));
                }
                _ => panic!("a wrapped plain field is assigned"),
            }
        }
        _ => panic!("a statement under a condition stands in a block"),
    }
    let empty_derives = RecordDescription {
        derived: vec!["Clone".to_string(), "Debug".to_string(), "PartialEq".to_string()],
        ..pair
    };
    let output =
        enumify_struct(&vec![ArgumentToken::Ident("Marker".to_string())], &empty_derives).unwrap();
    assert_eq!(output.generated.derive_annotation, "#[derive()]");
    assert!(syn::Attribute::parse_outer.parse_str(&output.generated.derive_annotation).is_ok());
}
