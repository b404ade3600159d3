//! How one field of an overlay is folded onto the base, and the source text
//! that does it. In that text `self` is the overlay and `t` the base.

use crate::policy::{FieldPolicy, FieldPolicyModel};
use crate::record::{Annotation, AnnotationModel};
use crate::text::copy_text;
use vstd::prelude::*;
use vstd::string::*;

verus! {

/// The ways in which a field of the overlay is folded onto the base. What
/// each does to the field is stated by the function of that name in
/// `crate::apply`.
#[derive(Debug, Clone, Copy, PartialEq, Eq, Structural)]
pub enum MergeStrategy {
    /// A present field has the nested overlay applied to it; an absent one
    /// receives what the nested overlay converts to, if it converts.
    ApplyOrInstall,
    /// The field takes the overlay's value.
    Overwrite,
    /// The nested overlay is applied to the field.
    ApplyNested,
    /// The nested overlay is applied where both it and the field are present.
    ApplyIfPresent,
    /// The overlay's value resolves to a nested overlay, which is applied to
    /// the field.
    ResolveThenApply,
    /// The field takes what the overlay's value resolves to.
    ResolveAndOverwrite,
}

/// The strategy for a field, by whether its declared type is the marker type,
/// whether the overlay wraps it, and whether it is itself an overlay.
pub open spec fn strategy_for(is_marker: bool, is_wrapped: bool, is_nested: bool) -> MergeStrategy {
    if is_wrapped {
        if !is_nested {
            MergeStrategy::ResolveAndOverwrite
        } else if is_marker {
            MergeStrategy::ApplyIfPresent
        } else {
            MergeStrategy::ResolveThenApply
        }
    } else if !is_nested {
        MergeStrategy::Overwrite
    } else if is_marker {
        MergeStrategy::ApplyOrInstall
    } else {
        MergeStrategy::ApplyNested
    }
}

impl MergeStrategy {
    /// Picks the strategy for a field.
    pub fn select(is_marker: bool, is_wrapped: bool, is_nested: bool) -> (strategy: MergeStrategy)
        ensures
            strategy == strategy_for(is_marker, is_wrapped, is_nested),
    {
        match (is_marker, is_wrapped, is_nested) {
            (true, false, true) => MergeStrategy::ApplyOrInstall,
            (true, false, false) => MergeStrategy::Overwrite,
            (false, false, true) => MergeStrategy::ApplyNested,
            (false, false, false) => MergeStrategy::Overwrite,
            (true, true, true) => MergeStrategy::ApplyIfPresent,
            (false, true, true) => MergeStrategy::ResolveThenApply,
            (_, true, false) => MergeStrategy::ResolveAndOverwrite,
        }
    }

    /// The source text that folds the field `member` by this strategy.
    pub open spec fn text(self, member: Seq<char>) -> Seq<char> {
        match self {
            MergeStrategy::ApplyOrInstall => "if let Some(existing) = &mut t."@ + member
                + " { self."@ + member + ".apply_to(existing); } else { t."@ + member
                + " = self."@ + member + ".try_into().ok(); }"@,
            MergeStrategy::Overwrite => "t."@ + member + " = self."@ + member + ";"@,
            MergeStrategy::ApplyNested => "self."@ + member + ".apply_to(&mut t."@ + member
                + ");"@,
            MergeStrategy::ApplyIfPresent => "if let (Some(inner), Some(target)) = (self."@
                + member + ", &mut t."@ + member + ") { inner.apply_to(target); }"@,
            MergeStrategy::ResolveThenApply => "let inner = self."@ + member
                + ".resolve_to_base(); inner.apply_to(&mut t."@ + member + ");"@,
            MergeStrategy::ResolveAndOverwrite => "t."@ + member + " = self."@ + member
                + ".resolve_to_base();"@,
        }
    }

    /// Writes the source text that folds the field `member` by this strategy.
    pub fn render(self, member: &String) -> (text: String)
        ensures
            text@ == self.text(member@),
    {
        let member = member.as_str();
        match self {
            MergeStrategy::ApplyOrInstall => {
                let mut text = String::from_str("if let Some(existing) = &mut t.");
                text.append(member);
                text.append(" { self.");
                text.append(member);
                text.append(".apply_to(existing); } else { t.");
                text.append(member);
                text.append(" = self.");
                text.append(member);
                text.append(".try_into().ok(); }");
                text
            },
            MergeStrategy::Overwrite => {
                let mut text = String::from_str("t.");
                text.append(member);
                text.append(" = self.");
                text.append(member);
                text.append(";");
                text
            },
            MergeStrategy::ApplyNested => {
                let mut text = String::from_str("self.");
                text.append(member);
                text.append(".apply_to(&mut t.");
                text.append(member);
                text.append(");");
                text
            },
            MergeStrategy::ApplyIfPresent => {
                let mut text = String::from_str("if let (Some(inner), Some(target)) = (self.");
                text.append(member);
                text.append(", &mut t.");
                text.append(member);
                text.append(") { inner.apply_to(target); }");
                text
            },
            MergeStrategy::ResolveThenApply => {
                let mut text = String::from_str("let inner = self.");
                text.append(member);
                text.append(".resolve_to_base(); inner.apply_to(&mut t.");
                text.append(member);
                text.append(");");
                text
            },
            MergeStrategy::ResolveAndOverwrite => {
                let mut text = String::from_str("t.");
                text.append(member);
                text.append(" = self.");
                text.append(member);
                text.append(".resolve_to_base();");
                text
            },
        }
    }
}

/// The statement that folds one field onto the base.
#[derive(Debug, PartialEq, Eq)]
pub struct MergeStatement {
    /// How the field is reached: its identifier, or its position.
    pub member: String,
    pub strategy: MergeStrategy,
    /// The condition under which the statement is compiled.
    pub guard: Option<Annotation>,
}

/// The model of a merge statement: texts as sequences of characters, lists as
/// sequences.
pub struct MergeStatementModel {
    pub member: Seq<char>,
    pub strategy: MergeStrategy,
    pub guard: Option<AnnotationModel>,
}

impl View for MergeStatement {
    type V = MergeStatementModel;

    open spec fn view(&self) -> MergeStatementModel {
        MergeStatementModel {
            member: self.member@,
            strategy: self.strategy,
            guard: self.guard.deep_view(),
        }
    }
}

impl DeepView for MergeStatement {
    type V = MergeStatementModel;

    open spec fn deep_view(&self) -> MergeStatementModel {
        self.view()
    }
}

/// The statement for a field of this policy: it reaches the field as the
/// policy does, and it is compiled under the condition that the field is.
pub open spec fn statement_of(policy: FieldPolicyModel) -> MergeStatementModel {
    MergeStatementModel {
        member: policy.member,
        strategy: strategy_for(policy.is_marker, policy.wrap, policy.rename is Some),
        guard: policy.guard,
    }
}

/// The statement in source text. Under a condition it stands in a block
/// with the condition before it, so that nothing of it is compiled where the
/// condition does not hold: before a bare assignment or `if` the condition
/// would cover the first operand only, or be refused.
pub open spec fn statement_text(statement: MergeStatementModel) -> Seq<char> {
    let merge = statement.strategy.text(statement.member);
    match statement.guard {
        None => merge,
        Some(guard) => guard.text + " { "@ + merge + " }"@,
    }
}

/// The statements in source text, in their order, a space after each.
pub open spec fn body_text(statements: Seq<MergeStatementModel>) -> Seq<char>
    decreases statements.len(),
{
    if statements.len() == 0 {
        Seq::empty()
    } else {
        body_text(statements.drop_last()) + statement_text(statements.last()) + " "@
    }
}

impl MergeStatement {
    /// The statement for a field of this policy.
    pub fn new(policy: &FieldPolicy) -> (statement: MergeStatement)
        ensures
            statement@ == statement_of(policy@),
    {
        let guard = match &policy.guard {
            Some(annotation) => Some(annotation.clone()),
            None => None,
        };
        MergeStatement {
            member: copy_text(&policy.member),
            strategy: MergeStrategy::select(policy.is_marker, policy.wrap, policy.rename.is_some()),
            guard,
        }
    }

    /// Writes the statement as source text.
    pub fn render(&self) -> (text: String)
        ensures
            text@ == statement_text(self@),
    {
        let merge = self.strategy.render(&self.member);
        match &self.guard {
            None => merge,
            Some(guard) => {
                let mut text = copy_text(&guard.text);
                text.append(" { ");
                text.append(merge.as_str());
                text.append(" }");
                text
            },
        }
    }
}

/// Writes the statements as source text, in their order.
pub fn render_body(statements: &Vec<MergeStatement>) -> (text: String)
    ensures
        text@ == body_text(statements.deep_view()),
{
    let ghost all = statements.deep_view();
    let mut text = String::new();
    let mut i: usize = 0;
    while i < statements.len()
        invariant
            i <= statements.len(),
            all == statements.deep_view(),
            text@ == body_text(all.take(i as int)),
        decreases statements.len() - i,
    {
        proof {
            assert(all.take(i as int + 1).drop_last() =~= all.take(i as int));
        }
        let statement = statements[i].render();
        text.append(statement.as_str());
        text.append(" ");
        i += 1;
    }
    assert(all.take(i as int) =~= all);
    text
}

/// The implementation that makes the overlay applicable to the record, in
/// source text.
pub open spec fn implementation_text(
    record_name: Seq<char>,
    overlay_name: Seq<char>,
    impl_generics: Seq<char>,
    type_generics: Seq<char>,
    statements: Seq<MergeStatementModel>,
) -> Seq<char> {
    "impl "@ + impl_generics + " enumify_struct::Applicable for "@ + overlay_name + " "@
        + type_generics + " { type Base = "@ + record_name + " "@ + type_generics
        + "; fn apply_to(self, t: &mut Self::Base) { "@ + body_text(statements) + "} }"@
}

/// Writes the implementation that makes the overlay applicable to the record.
pub fn render_implementation(
    record_name: &String,
    overlay_name: &String,
    impl_generics: &String,
    type_generics: &String,
    statements: &Vec<MergeStatement>,
) -> (text: String)
    ensures
        text@ == implementation_text(
            record_name@,
            overlay_name@,
            impl_generics@,
            type_generics@,
            statements.deep_view(),
        ),
{
    let body = render_body(statements);
    let mut text = String::from_str("impl ");
    text.append(impl_generics.as_str());
    text.append(" enumify_struct::Applicable for ");
    text.append(overlay_name.as_str());
    text.append(" ");
    text.append(type_generics.as_str());
    text.append(" { type Base = ");
    text.append(record_name.as_str());
    text.append(" ");
    text.append(type_generics.as_str());
    text.append("; fn apply_to(self, t: &mut Self::Base) { ");
    text.append(body.as_str());
    text.append("} }");
    text
}

/// A field that is not itself an overlay is overwritten, whatever the base
/// held: with the overlay's value where the overlay does not wrap the field,
/// with what that value resolves to where it does.
pub proof fn plain_field_is_overwritten(policy: FieldPolicyModel)
    requires
        policy.rename is None,
    ensures
        statement_of(policy).strategy == if policy.wrap {
            MergeStrategy::ResolveAndOverwrite
        } else {
            MergeStrategy::Overwrite
        },
{
}

/// Presence is asked for only in a field whose declared type is the marker
/// type and which is itself an overlay.
pub proof fn presence_is_asked_of_marker_fields(policy: FieldPolicyModel)
    ensures
        (statement_of(policy).strategy == MergeStrategy::ApplyIfPresent || statement_of(
            policy,
        ).strategy == MergeStrategy::ApplyOrInstall) <==> (policy.is_marker && policy.rename
            is Some),
{
}

} // verus!
