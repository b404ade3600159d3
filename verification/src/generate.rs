//! From a record and an invocation's arguments to the record's overlay.

use crate::derive::{
    added_derives, derive_annotation_text, derives_to_add, extra_traits_are_derived_once,
    occurrences, render_derive_annotation,
};
use crate::classify::names_marker;
use crate::error::{viewed, GenerationError, UnsupportedType};
use crate::merge::{
    implementation_text, render_implementation, statement_of, MergeStatement,
    MergeStatementModel, MergeStrategy,
};
use crate::params::{
    configured, decoded, default_derives, default_derives_are_distinct, ArgumentToken,
    ArgumentTokenModel, Configuration, ConfigurationModel, MacroParameters,
};
use crate::policy::{
    classify_field, decided_guard, is_guard, is_rename,
    last_index_is_of_kind, member_of, policy_of, FieldPolicyModel,
};
use crate::record::{
    copy_texts, AnnotationModel, Field, FieldModel, ItemKind, RecordDescription, RecordModel,
};
use crate::strip::{stripped, stripping_keeps_the_guards};
use crate::synth::{clean_field, cleaned_field, make_overlay_field, overlay_field};
use crate::text::copy_text;
use vstd::prelude::*;

verus! {

/// The policies of the fields, each at its position; the error of the first
/// field that has one.
pub open spec fn policies_of(fields: Seq<FieldModel>, configuration: ConfigurationModel) -> Result<
    Seq<FieldPolicyModel>,
    GenerationError,
>
    decreases fields.len(),
{
    if fields.len() == 0 {
        Ok(Seq::empty())
    } else {
        match policies_of(fields.drop_last(), configuration) {
            Err(error) => Err(error),
            Ok(policies) => match policy_of(
                fields.last(),
                (fields.len() - 1) as nat,
                configuration,
            ) {
                Err(error) => Err(error),
                Ok(policy) => Ok(policies.push(policy)),
            },
        }
    }
}

/// What a walk over the fields of a record gives: the fields that the record
/// keeps, those of the overlay, and the statements that fold the overlay onto
/// the base, each list in the order of the fields.
#[derive(Debug, PartialEq, Eq)]
pub struct FieldWalk {
    pub cleaned: Vec<Field>,
    pub overlay: Vec<Field>,
    pub statements: Vec<MergeStatement>,
}

/// The model of a walk over the fields: texts as sequences of characters, lists as
/// sequences.
pub struct FieldWalkModel {
    pub cleaned: Seq<FieldModel>,
    pub overlay: Seq<FieldModel>,
    pub statements: Seq<MergeStatementModel>,
}

impl View for FieldWalk {
    type V = FieldWalkModel;

    open spec fn view(&self) -> FieldWalkModel {
        FieldWalkModel {
            cleaned: self.cleaned.deep_view(),
            overlay: self.overlay.deep_view(),
            statements: self.statements.deep_view(),
        }
    }
}

/// The three lists for fields of these policies.
pub open spec fn walk_of(
    fields: Seq<FieldModel>,
    policies: Seq<FieldPolicyModel>,
    configuration: ConfigurationModel,
) -> FieldWalkModel {
    FieldWalkModel {
        cleaned: Seq::new(fields.len(), |i: int| cleaned_field(fields[i])),
        overlay: Seq::new(fields.len(), |i: int| overlay_field(fields[i], policies[i], configuration)),
        statements: Seq::new(fields.len(), |i: int| statement_of(policies[i])),
    }
}

/// What walking the fields gives.
pub open spec fn walked(fields: Seq<FieldModel>, configuration: ConfigurationModel) -> Result<
    FieldWalkModel,
    GenerationError,
> {
    match policies_of(fields, configuration) {
        Err(error) => Err(error),
        Ok(policies) => Ok(walk_of(fields, policies, configuration)),
    }
}

/// Walks the fields once, and makes for each its two fields and its
/// statement; stops at the first field that has an error.
pub fn walk_fields(fields: &Vec<Field>, configuration: &Configuration) -> (walk: Result<
    FieldWalk,
    GenerationError,
>)
    ensures
        viewed(walk) == walked(fields.deep_view(), configuration@),
{
    let ghost all = fields.deep_view();
    let ghost mut policies: Seq<FieldPolicyModel> = Seq::empty();
    let mut cleaned: Vec<Field> = Vec::new();
    let mut overlay: Vec<Field> = Vec::new();
    let mut statements: Vec<MergeStatement> = Vec::new();
    let mut i: usize = 0;
    while i < fields.len()
        invariant
            i <= fields.len(),
            all == fields.deep_view(),
            policies.len() == i,
            policies_of(all.take(i as int), configuration@) == Ok::<
                Seq<FieldPolicyModel>,
                GenerationError,
            >(policies),
            cleaned.len() == i,
            overlay.len() == i,
            statements.len() == i,
            forall|j: int| 0 <= j < i ==> cleaned[j]@ == cleaned_field(all[j]),
            forall|j: int|
                0 <= j < i ==> overlay[j]@ == overlay_field(all[j], policies[j], configuration@),
            forall|j: int| 0 <= j < i ==> statements[j]@ == statement_of(policies[j]),
        decreases fields.len() - i,
    {
        proof {
            assert(all.take(i as int + 1).drop_last() =~= all.take(i as int));
        }
        let field = &fields[i];
        let policy = match classify_field(field, i, configuration) {
            Ok(policy) => policy,
            Err(error) => {
                proof {
                    failure_stays(all, configuration@, i as int + 1);
                }
                return Err(error);
            },
        };
        cleaned.push(clean_field(field));
        overlay.push(make_overlay_field(field, &policy, configuration));
        statements.push(MergeStatement::new(&policy));
        proof {
            policies = policies.push(policy@);
        }
        i += 1;
    }
    proof {
        assert(all.take(i as int) =~= all);
        let walk = FieldWalk { cleaned, overlay, statements };
        assert(walk@.cleaned =~= walk_of(all, policies, configuration@).cleaned);
        assert(walk@.overlay =~= walk_of(all, policies, configuration@).overlay);
        assert(walk@.statements =~= walk_of(all, policies, configuration@).statements);
    }
    Ok(FieldWalk { cleaned, overlay, statements })
}

/// An error among the first fields is the error of all the fields.
pub proof fn failure_stays(fields: Seq<FieldModel>, configuration: ConfigurationModel, count: int)
    requires
        0 <= count <= fields.len(),
        policies_of(fields.take(count), configuration) is Err,
    ensures
        policies_of(fields, configuration) == policies_of(fields.take(count), configuration),
    decreases fields.len() - count,
{
    if count < fields.len() {
        assert(fields.take(count + 1).drop_last() =~= fields.take(count));
        failure_stays(fields, configuration, count + 1);
    } else {
        assert(fields.take(count) =~= fields);
    }
}

/// The overlay of a record, with what makes it applicable to the record.
#[derive(Debug, PartialEq, Eq)]
pub struct GeneratedOverlay {
    /// The overlay record; its derived traits are those of the record and,
    /// after them, the added ones.
    pub record: RecordDescription,
    /// The traits that the overlay derives and the record does not.
    pub added_derives: Vec<String>,
    /// The annotation that derives the added traits, in source text.
    pub derive_annotation: String,
    /// The statements that fold the overlay onto the base, one for each field.
    pub statements: Vec<MergeStatement>,
    /// The implementation that holds the statements, in source text.
    pub implementation: String,
}

/// The model of a generated overlay: texts as sequences of characters, lists as
/// sequences.
pub struct GeneratedOverlayModel {
    pub record: RecordModel,
    pub added_derives: Seq<Seq<char>>,
    pub derive_annotation: Seq<char>,
    pub statements: Seq<MergeStatementModel>,
    pub implementation: Seq<char>,
}

impl View for GeneratedOverlay {
    type V = GeneratedOverlayModel;

    open spec fn view(&self) -> GeneratedOverlayModel {
        GeneratedOverlayModel {
            record: self.record@,
            added_derives: self.added_derives.deep_view(),
            derive_annotation: self.derive_annotation@,
            statements: self.statements.deep_view(),
            implementation: self.implementation@,
        }
    }
}

/// What a generation gives: the record without the generator's own
/// annotations, and its overlay.
#[derive(Debug, PartialEq, Eq)]
pub struct EnumifyStructOutput {
    pub original: RecordDescription,
    pub generated: GeneratedOverlay,
}

/// The model of what a generation gives: texts as sequences of characters, lists as
/// sequences.
pub struct EnumifyStructOutputModel {
    pub original: RecordModel,
    pub generated: GeneratedOverlayModel,
}

impl View for EnumifyStructOutput {
    type V = EnumifyStructOutputModel;

    open spec fn view(&self) -> EnumifyStructOutputModel {
        EnumifyStructOutputModel { original: self.original@, generated: self.generated@ }
    }
}

/// A record has named or positional fields.
pub open spec fn is_record(kind: ItemKind) -> bool {
    kind == ItemKind::NamedStruct || kind == ItemKind::TupleStruct
}

/// The two records and the implementation, from what the walk over the
/// fields gave.
pub open spec fn output_of(
    input: RecordModel,
    configuration: ConfigurationModel,
    walk: FieldWalkModel,
) -> EnumifyStructOutputModel {
    let added = added_derives(configuration.extra_derives, input.derived);
    EnumifyStructOutputModel {
        original: RecordModel { fields: walk.cleaned, ..input },
        generated: GeneratedOverlayModel {
            record: RecordModel {
                name: configuration.overlay_name,
                derived: input.derived + added,
                fields: walk.overlay,
                ..input
            },
            added_derives: added,
            derive_annotation: derive_annotation_text(added),
            statements: walk.statements,
            implementation: implementation_text(
                input.name,
                configuration.overlay_name,
                input.impl_generics,
                input.type_generics,
                walk.statements,
            ),
        },
    }
}

/// What a record gives under a configuration: an error for an item that is
/// no record, else the error of its first field that has one, else the output.
pub open spec fn assembled(input: RecordModel, configuration: ConfigurationModel) -> Result<
    EnumifyStructOutputModel,
    GenerationError,
> {
    if !is_record(input.kind) {
        Err(GenerationError::NotARecord)
    } else {
        match walked(input.fields, configuration) {
            Err(error) => Err(error),
            Ok(walk) => Ok(output_of(input, configuration, walk)),
        }
    }
}

/// What an invocation gives: the error of the arguments if they have one,
/// else what the record gives under the configuration that they decode to.
pub open spec fn enumified(tokens: Seq<ArgumentTokenModel>, input: RecordModel) -> Result<
    EnumifyStructOutputModel,
    GenerationError,
> {
    match decoded(tokens) {
        Err(error) => Err(error),
        Ok(parameters) => assembled(input, configured(parameters, input.name)),
    }
}

/// The first list followed by the second.
pub fn join_texts(first: &Vec<String>, second: &Vec<String>) -> (joined: Vec<String>)
    ensures
        joined.deep_view() == first.deep_view() + second.deep_view(),
{
    let mut joined = copy_texts(first);
    let mut i: usize = 0;
    while i < second.len()
        invariant
            i <= second.len(),
            joined.deep_view() == first.deep_view() + second.deep_view().take(i as int),
        decreases second.len() - i,
    {
        let ghost before = joined.deep_view();
        joined.push(copy_text(&second[i]));
        assert(joined.deep_view() =~= before.push(second[i as int]@));
        assert(second.deep_view().take(i as int + 1) =~= second.deep_view().take(i as int).push(
            second[i as int]@,
        ));
        i += 1;
    }
    joined
}

/// Makes the overlay of a record under a configuration.
pub fn assemble(input: &RecordDescription, configuration: &Configuration) -> (output: Result<
    EnumifyStructOutput,
    GenerationError,
>)
    ensures
        viewed(output) == assembled(input@, configuration@),
{
    match input.kind {
        ItemKind::NamedStruct => {},
        ItemKind::TupleStruct => {},
        _ => {
            return Err(GenerationError::NotARecord);
        },
    }
    let walk = match walk_fields(&input.fields, configuration) {
        Ok(walk) => walk,
        Err(error) => {
            return Err(error);
        },
    };
    let added = derives_to_add(&configuration.extra_derives, &input.derived);
    let derive_annotation = render_derive_annotation(&added);
    let implementation = render_implementation(
        &input.name,
        &configuration.overlay_name,
        &input.impl_generics,
        &input.type_generics,
        &walk.statements,
    );
    let original = RecordDescription {
        name: copy_text(&input.name),
        kind: input.kind,
        derived: copy_texts(&input.derived),
        impl_generics: copy_text(&input.impl_generics),
        type_generics: copy_text(&input.type_generics),
        fields: walk.cleaned,
    };
    let record = RecordDescription {
        name: copy_text(&configuration.overlay_name),
        kind: input.kind,
        derived: join_texts(&input.derived, &added),
        impl_generics: copy_text(&input.impl_generics),
        type_generics: copy_text(&input.type_generics),
        fields: walk.overlay,
    };
    Ok(
        EnumifyStructOutput {
            original,
            generated: GeneratedOverlay {
                record,
                added_derives: added,
                derive_annotation,
                statements: walk.statements,
                implementation,
            },
        },
    )
}

/// Generates the overlay of a record from the arguments of an invocation.
pub fn enumify_struct(attr: &Vec<ArgumentToken>, input: &RecordDescription) -> (output: Result<
    EnumifyStructOutput,
    GenerationError,
>)
    ensures
        viewed(output) == enumified(attr.deep_view(), input@),
{
    let parameters = match MacroParameters::parse(attr) {
        Ok(parameters) => parameters,
        Err(error) => {
            return Err(error);
        },
    };
    let configuration = Configuration::new(parameters, &input.name);
    assemble(input, &configuration)
}

/// The policies are found field by field: they are as many as the fields and
/// the policy at a position is that of the field there; an error is that of
/// the first field that has one.
pub proof fn policies_are_per_field(fields: Seq<FieldModel>, configuration: ConfigurationModel)
    ensures
        match policies_of(fields, configuration) {
            Ok(policies) => {
                &&& policies.len() == fields.len()
                &&& forall|i: int|
                    0 <= i < fields.len() ==> policy_of(
                        #[trigger] fields[i],
                        i as nat,
                        configuration,
                    ) == Ok::<FieldPolicyModel, GenerationError>(policies[i])
            },
            Err(error) => exists|i: int|
                {
                    &&& 0 <= i < fields.len()
                    &&& policy_of(#[trigger] fields[i], i as nat, configuration) == Err::<
                        FieldPolicyModel,
                        GenerationError,
                    >(error)
                    &&& forall|j: int|
                        0 <= j < i ==> policy_of(#[trigger] fields[j], j as nat, configuration)
                            is Ok
                },
        },
    decreases fields.len(),
{
    if fields.len() > 0 {
        let front = fields.drop_last();
        policies_are_per_field(front, configuration);
        assert forall|i: int| 0 <= i < front.len() implies front[i] == fields[i] by {}
    }
}

/// The record and its overlay stay in step with the record that was read:
/// field for field they keep its order, its names and, on both, the
/// annotations that are no helpers, in their order; the record keeps its
/// types and visibilities too; and the statement at a position reaches the
/// field at that position.
pub proof fn records_stay_in_step(input: RecordModel, configuration: ConfigurationModel)
    requires
        assembled(input, configuration) is Ok,
    ensures
        ({
            let output = assembled(input, configuration)->Ok_0;
            let overlay = output.generated.record;
            &&& output.original.fields.len() == input.fields.len()
            &&& overlay.fields.len() == input.fields.len()
            &&& output.generated.statements.len() == input.fields.len()
            &&& output.original.name == input.name
            &&& overlay.name == configuration.overlay_name
            &&& forall|i: int|
                #![trigger input.fields[i]]
                0 <= i < input.fields.len() ==> {
                    &&& output.original.fields[i].name == input.fields[i].name
                    &&& output.original.fields[i].ty == input.fields[i].ty
                    &&& output.original.fields[i].visibility == input.fields[i].visibility
                    &&& overlay.fields[i].name == input.fields[i].name
                    &&& output.original.fields[i].annotations == stripped(
                        input.fields[i].annotations,
                    )
                    &&& overlay.fields[i].annotations == output.original.fields[i].annotations
                    &&& output.generated.statements[i].member == member_of(
                        input.fields[i],
                        i as nat,
                    )
                }
        }),
{
    policies_are_per_field(input.fields, configuration);
}

/// The conditions of compilation of a field stay with it on both records,
/// all of them and in their order, and the statement for the field is
/// compiled under the field's last condition: under none where the field has
/// none.
pub proof fn guards_are_propagated(input: RecordModel, configuration: ConfigurationModel, i: int)
    requires
        assembled(input, configuration) is Ok,
        0 <= i < input.fields.len(),
    ensures
        ({
            let output = assembled(input, configuration)->Ok_0;
            let declared = input.fields[i].annotations;
            let statement = output.generated.statements[i];
            let guard = |annotation: AnnotationModel| is_guard(annotation);
            &&& output.original.fields[i].annotations.filter(guard) == declared.filter(guard)
            &&& output.generated.record.fields[i].annotations.filter(guard) == declared.filter(
                guard,
            )
            &&& statement.guard == decided_guard(declared)
            &&& statement.guard is None <==> forall|k: int|
                0 <= k < declared.len() ==> !is_guard(#[trigger] declared[k])
            &&& statement.guard matches Some(kept) ==> is_guard(kept) && declared.contains(kept)
        }),
{
    policies_are_per_field(input.fields, configuration);
    let declared = input.fields[i].annotations;
    stripping_keeps_the_guards(declared);
    last_index_is_of_kind(declared, |a: AnnotationModel| is_guard(a));
}

/// A plain field, one whose type is not the marker type and which is not
/// renamed, is overwritten whatever the base held: the statement for it
/// assigns the overlay's value where the overlay keeps the field's type, and
/// what that value resolves to where the overlay wraps it.
pub proof fn plain_fields_are_overwritten(
    input: RecordModel,
    configuration: ConfigurationModel,
    i: int,
)
    requires
        assembled(input, configuration) is Ok,
        0 <= i < input.fields.len(),
        names_marker(input.fields[i].ty.shape, configuration.marker) == Ok::<
            bool,
            UnsupportedType,
        >(false),
        forall|k: int|
            0 <= k < input.fields[i].annotations.len() ==> !is_rename(
                #[trigger] input.fields[i].annotations[k],
            ),
    ensures
        ({
            let output = assembled(input, configuration)->Ok_0;
            let statement = output.generated.statements[i];
            let made = output.generated.record.fields[i];
            let member = member_of(input.fields[i], i as nat);
            let declared = input.fields[i].ty.text;
            ||| {
                &&& statement.strategy == MergeStrategy::Overwrite
                &&& statement.strategy.text(member) == "t."@ + member + " = self."@ + member
                    + ";"@
                &&& made.ty.text == declared
            }
            ||| {
                &&& statement.strategy == MergeStrategy::ResolveAndOverwrite
                &&& statement.strategy.text(member) == "t."@ + member + " = self."@ + member
                    + ".resolve_to_base();"@
                &&& made.ty.text == configuration.marker + "<"@ + declared + ">"@
            }
        }),
{
    policies_are_per_field(input.fields, configuration);
    last_index_is_of_kind(input.fields[i].annotations, |a: AnnotationModel| is_rename(a));
}

/// The overlay derives each of the traits that every overlay derives once,
/// unless the record itself derives it: then as often as the record does.
pub proof fn overlay_derives_each_default_once(
    tokens: Seq<ArgumentTokenModel>,
    input: RecordModel,
    name: Seq<char>,
)
    requires
        enumified(tokens, input) is Ok,
        default_derives().contains(name),
    ensures
        occurrences(enumified(tokens, input)->Ok_0.generated.record.derived, name)
            == if input.derived.contains(name) {
            occurrences(input.derived, name)
        } else {
            1
        },
{
    default_derives_are_distinct();
    extra_traits_are_derived_once(default_derives(), input.derived, name);
}

} // verus!
