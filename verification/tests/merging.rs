use enumify_struct::merge::MergeStrategy;
use enumify_struct::params::ArgumentToken;
use enumify_struct::record::{
    Annotation, Field, FieldType, ItemKind, RecordDescription, TypeShape, Visibility,
};
use enumify_struct::{
    apply_if_present, apply_nested, apply_or_install, enumify_struct, overwrite,
    resolve_and_overwrite, resolve_then_apply, Applicable, ResolveToBase,
};

#[derive(Debug, Clone, PartialEq)]
struct Leaf {
    v: i32,
    w: i32,
}

// The overlay of `Leaf` under `(Option, LeafOverlay, false)`.
#[derive(Debug, Clone, PartialEq)]
struct LeafOverlay {
    pub v: i32,
    pub w: i32,
}

impl Applicable for LeafOverlay {
    type Base = Leaf;
    fn apply_to(self, t: &mut Self::Base) {
        t.v = self.v;
        t.w = self.w;
    }
}

impl TryFrom<LeafOverlay> for Leaf {
    type Error = String;
    fn try_from(overlay: LeafOverlay) -> Result<Leaf, String> {
        if overlay.v < 0 {
            Err("negative".to_string())
        } else {
            Ok(Leaf { v: overlay.v, w: overlay.w })
        }
    }
}

#[derive(Debug, Clone, PartialEq)]
struct Inner {
    p: Option<Leaf>,
    q: Option<Leaf>,
}

// The overlay of `Inner` under `(Option, InnerOverlay)`, both fields renamed
// to `LeafOverlay` and wrapped.
#[derive(Debug, Clone, PartialEq)]
struct InnerOverlay {
    pub p: Option<LeafOverlay>,
    pub q: Option<LeafOverlay>,
}

impl Applicable for InnerOverlay {
    type Base = Inner;
    fn apply_to(self, t: &mut Self::Base) {
        if let (Some(inner), Some(target)) = (self.p, &mut t.p) {
            inner.apply_to(target);
        }
        if let (Some(inner), Some(target)) = (self.q, &mut t.q) {
            inner.apply_to(target);
        }
    }
}

#[derive(Debug, Clone, PartialEq)]
struct Outer {
    inner: Inner,
    n: i32,
}

// The overlay of `Outer` under `(Option, OuterOverlay, false)`, `inner`
// renamed to `InnerOverlay`.
#[derive(Debug, Clone, PartialEq)]
struct OuterOverlay {
    pub inner: InnerOverlay,
    pub n: i32,
}

impl Applicable for OuterOverlay {
    type Base = Outer;
    fn apply_to(self, t: &mut Self::Base) {
        self.inner.apply_to(&mut t.inner);
        t.n = self.n;
    }
}

#[derive(Debug, Clone, PartialEq)]
enum Given<T> {
    Value(T),
    Twice(T),
}

impl ResolveToBase<i32> for Given<i32> {
    fn resolve_to_base(&self) -> i32 {
        match self {
            Given::Value(v) => *v,
            Given::Twice(v) => 2 * *v,
        }
    }
}

impl ResolveToBase<LeafOverlay> for Given<LeafOverlay> {
    fn resolve_to_base(&self) -> LeafOverlay {
        match self {
            Given::Value(v) => v.clone(),
            Given::Twice(v) => LeafOverlay { v: 2 * v.v, w: 2 * v.w },
        }
    }
}

fn path(text: &str, last: &str) -> FieldType {
    FieldType { text: text.to_string(), shape: TypeShape::Path(vec![last.to_string()]) }
}

fn annotation(name: &str, arguments: &[&str]) -> Annotation {
    let text = if arguments.is_empty() {
        format!("#[{}]", name)
    } else {
        format!("#[{}({})]", name, arguments.join(", "))
    };
    Annotation {
        name: name.to_string(),
        arguments: arguments.iter().map(|a| a.to_string()).collect(),
        text,
    }
}

fn field(name: &str, ty: FieldType, annotations: Vec<Annotation>) -> Field {
    Field { annotations, visibility: Visibility::Inherited, name: Some(name.to_string()), ty }
}

fn record(name: &str, fields: Vec<Field>) -> RecordDescription {
    RecordDescription {
        name: name.to_string(),
        kind: ItemKind::NamedStruct,
        derived: vec![],
        impl_generics: String::new(),
        type_generics: String::new(),
        fields,
    }
}

fn arguments(marker: &str, overlay: &str, wrap: bool) -> Vec<ArgumentToken> {
    vec![
        ArgumentToken::Ident(marker.to_string()),
        ArgumentToken::Comma,
        ArgumentToken::Ident(overlay.to_string()),
        ArgumentToken::Comma,
        ArgumentToken::Bool(wrap),
    ]
}

fn some_base() -> Inner {
    Inner { p: Some(Leaf { v: 1, w: 2 }), q: Some(Leaf { v: 3, w: 4 }) }
}

#[test]
fn the_hand_written_overlays_are_what_the_generator_gives() {
    let leaf = record("Leaf", vec![
        field("v", path("i32", "i32"), vec![]),
        field("w", path("i32", "i32"), vec![]),
    ]);
    let output = enumify_struct(&arguments("Option", "LeafOverlay", false), &leaf).unwrap();
    assert_eq!(
        output.generated.implementation,
        "impl  enumify_struct::Applicable for LeafOverlay  { type Base = Leaf ; \
         fn apply_to(self, t: &mut Self::Base) { \
         t.v = self.v; t.w = self.w; } }"
    );

    let gated = || vec![annotation("enumify_rename", &["LeafOverlay"]), annotation("enumify_wrap", &[])];
    let inner = record("Inner", vec![
        field("p", path("Option<Leaf>", "Option"), gated()),
        field("q", path("Option<Leaf>", "Option"), gated()),
    ]);
    let output = enumify_struct(&arguments("Option", "InnerOverlay", true), &inner).unwrap();
    let types: Vec<&str> =
        output.generated.record.fields.iter().map(|f| f.ty.text.as_str()).collect();
    assert_eq!(types, vec!["Option<LeafOverlay>", "Option<LeafOverlay>"]);
    assert_eq!(
        output.generated.implementation,
        "impl  enumify_struct::Applicable for InnerOverlay  { type Base = Inner ; \
         fn apply_to(self, t: &mut Self::Base) { \
         if let (Some(inner), Some(target)) = (self.p, &mut t.p) { inner.apply_to(target); } \
         if let (Some(inner), Some(target)) = (self.q, &mut t.q) { inner.apply_to(target); } } }"
    );

    let outer = record("Outer", vec![
        field("inner", path("Inner", "Inner"), vec![annotation("enumify_rename", &["InnerOverlay"])]),
        field("n", path("i32", "i32"), vec![]),
    ]);
    let output = enumify_struct(&arguments("Option", "OuterOverlay", false), &outer).unwrap();
    let types: Vec<&str> =
        output.generated.record.fields.iter().map(|f| f.ty.text.as_str()).collect();
    assert_eq!(types, vec!["InnerOverlay", "i32"]);
    assert_eq!(
        output.generated.implementation,
        "impl  enumify_struct::Applicable for OuterOverlay  { type Base = Outer ; \
         fn apply_to(self, t: &mut Self::Base) { \
         self.inner.apply_to(&mut t.inner); t.n = self.n; } }"
    );
}

#[test]
fn an_absent_overlay_leaves_the_base() {
    for base in [some_base(), Inner { p: None, q: Some(Leaf { v: 7, w: 8 }) }, Inner { p: None, q: None }] {
        let built = InnerOverlay { p: None, q: None }.build(base.clone());
        assert_eq!(built, base);
    }
}

#[test]
fn plain_fields_take_the_overlay_value() {
    for base in [Leaf { v: 1, w: 2 }, Leaf { v: -5, w: 0 }, Leaf { v: 9, w: 9 }] {
        let built = LeafOverlay { v: 9, w: 40 }.build(base);
        assert_eq!(built.v, 9);
        assert_eq!(built.w, 40);
    }
    let mut x = 3;
    overwrite(&mut x, 11);
    assert_eq!(x, 11);
}

#[test]
fn a_nested_overlay_changes_only_what_it_sets() {
    let base = Outer { inner: some_base(), n: 0 };
    let overlay = OuterOverlay {
        inner: InnerOverlay { p: Some(LeafOverlay { v: 10, w: 20 }), q: None },
        n: 5,
    };
    let built = overlay.build(base);
    assert_eq!(built.inner.p, Some(Leaf { v: 10, w: 20 }));
    assert_eq!(built.inner.q, Some(Leaf { v: 3, w: 4 }));
    assert_eq!(built.n, 5);
}

#[test]
fn presence_gates_the_merge() {
    let mut both = Some(Leaf { v: 1, w: 2 });
    apply_if_present(&mut both, Some(LeafOverlay { v: 5, w: 6 }));
    assert_eq!(both, Some(Leaf { v: 5, w: 6 }));

    let mut no_overlay = Some(Leaf { v: 1, w: 2 });
    apply_if_present::<LeafOverlay>(&mut no_overlay, None);
    assert_eq!(no_overlay, Some(Leaf { v: 1, w: 2 }));

    let mut no_base: Option<Leaf> = None;
    apply_if_present(&mut no_base, Some(LeafOverlay { v: 5, w: 6 }));
    assert_eq!(no_base, None);

    let mut neither: Option<Leaf> = None;
    apply_if_present::<LeafOverlay>(&mut neither, None);
    assert_eq!(neither, None);
}

#[test]
fn apply_or_install_fills_an_absent_field() {
    let mut present = Some(Leaf { v: 1, w: 2 });
    apply_or_install(&mut present, LeafOverlay { v: 5, w: 6 });
    assert_eq!(present, Some(Leaf { v: 5, w: 6 }));

    let mut absent: Option<Leaf> = None;
    apply_or_install(&mut absent, LeafOverlay { v: 5, w: 6 });
    assert_eq!(absent, Some(Leaf { v: 5, w: 6 }));

    let mut stays_absent: Option<Leaf> = None;
    apply_or_install(&mut stays_absent, LeafOverlay { v: -1, w: 6 });
    assert_eq!(stays_absent, None);
}

#[test]
fn resolving_strategies_use_the_resolved_value() {
    let mut x = 1;
    resolve_and_overwrite(&mut x, Given::Value(4));
    assert_eq!(x, 4);
    resolve_and_overwrite(&mut x, Given::Twice(4));
    assert_eq!(x, 8);

    let mut leaf = Leaf { v: 1, w: 2 };
    resolve_then_apply(&mut leaf, Given::Twice(LeafOverlay { v: 3, w: 4 }));
    assert_eq!(leaf, Leaf { v: 6, w: 8 });
}

#[test]
fn every_combination_has_its_strategy() {
    let table = [
        (true, false, true, MergeStrategy::ApplyOrInstall),
        (true, false, false, MergeStrategy::Overwrite),
        (false, false, true, MergeStrategy::ApplyNested),
        (false, false, false, MergeStrategy::Overwrite),
        (true, true, true, MergeStrategy::ApplyIfPresent),
        (false, true, true, MergeStrategy::ResolveThenApply),
        (false, true, false, MergeStrategy::ResolveAndOverwrite),
        (true, true, false, MergeStrategy::ResolveAndOverwrite),
    ];
    for (is_marker, is_wrapped, is_nested, expected) in table {
        assert_eq!(MergeStrategy::select(is_marker, is_wrapped, is_nested), expected);
    }
    let x = "x".to_string();
    assert_eq!(MergeStrategy::Overwrite.render(&x), "t.x = self.x;");
    assert_eq!(MergeStrategy::ApplyNested.render(&x), "self.x.apply_to(&mut t.x);");
    assert_eq!(
        MergeStrategy::ApplyIfPresent.render(&x),
        "if let (Some(inner), Some(target)) = (self.x, &mut t.x) { inner.apply_to(target); }"
    );
    assert_eq!(
        MergeStrategy::ResolveThenApply.render(&x),
        "let inner = self.x.resolve_to_base(); inner.apply_to(&mut t.x);"
    );
    assert_eq!(
        MergeStrategy::ResolveAndOverwrite.render(&"c".to_string()),
        "t.c = self.c.resolve_to_base();"
    );
    assert_eq!(
        MergeStrategy::ApplyOrInstall.render(&x),
        "if let Some(existing) = &mut t.x { self.x.apply_to(existing); } \
         else { t.x = self.x.try_into().ok(); }"
    );
}

struct Slot<B> {
    x: B,
}

struct SlotOverlay<O> {
    x: O,
}

#[test]
fn each_statement_does_what_its_function_states() {
    // overwrite
    let (mut t, this) = (Slot { x: 1 }, SlotOverlay { x: 7 });
    let mut stated = t.x;
    overwrite(&mut stated, this.x);
    t.x = this.x;
    assert_eq!(t.x, stated);

    // apply_nested
    let (mut t, this) = (Slot { x: Leaf { v: 1, w: 2 } }, SlotOverlay { x: LeafOverlay { v: 3, w: 4 } });
    let mut stated = t.x.clone();
    apply_nested(&mut stated, this.x.clone());
    this.x.apply_to(&mut t.x);
    assert_eq!(t.x, stated);

    // apply_if_present
    for base in [Some(Leaf { v: 1, w: 2 }), None] {
        for overlay in [Some(LeafOverlay { v: 3, w: 4 }), None] {
            let (mut t, this) = (Slot { x: base.clone() }, SlotOverlay { x: overlay.clone() });
            let mut stated = base.clone();
            apply_if_present(&mut stated, overlay);
            if let (Some(inner), Some(target)) = (this.x, &mut t.x) {
                inner.apply_to(target);
            }
            assert_eq!(t.x, stated);
        }
    }

    // resolve_then_apply
    let (mut t, this) =
        (Slot { x: Leaf { v: 1, w: 2 } }, SlotOverlay { x: Given::Twice(LeafOverlay { v: 3, w: 4 }) });
    let mut stated = t.x.clone();
    resolve_then_apply(&mut stated, this.x.clone());
    let inner = this.x.resolve_to_base();
    inner.apply_to(&mut t.x);
    assert_eq!(t.x, stated);

    // resolve_and_overwrite
    let (mut t, this) = (Slot { x: 1 }, SlotOverlay { x: Given::Twice(21) });
    let mut stated = t.x;
    resolve_and_overwrite(&mut stated, this.x.clone());
    t.x = this.x.resolve_to_base();
    assert_eq!(t.x, stated);

    // apply_or_install
    for base in [Some(Leaf { v: 1, w: 2 }), None] {
        for overlay in [LeafOverlay { v: 3, w: 4 }, LeafOverlay { v: -3, w: 4 }] {
            let (mut t, this) = (Slot { x: base.clone() }, SlotOverlay { x: overlay.clone() });
            let mut stated = base.clone();
            apply_or_install(&mut stated, overlay);
            if let Some(existing) = &mut t.x {
                this.x.apply_to(existing);
            } else {
                t.x = this.x.try_into().ok();
            }
            assert_eq!(t.x, stated);
        }
    }
}
