//! The instrumentation attribute put above the rewritten function.

use crate::text::{extend, join, joined};
use vstd::prelude::*;
use vstd::string::*;

verus! {

/// The field declarations that every emitted attribute starts with: four
/// with a value, then eight that are only declared and get their value
/// while the function runs.
pub open spec fn vocabulary() -> Seq<Seq<char>> {
    seq![
        "span.kind = \"client\""@,
        "span.type = \"sql\""@,
        "component = \"sqlx\""@,
        "operation = \"sqlx.query\""@,
        "peer.hostname"@,
        "peer.service"@,
        "out.host"@,
        "out.port"@,
        "db.system"@,
        "db.instance"@,
        "db.name"@,
        "db.statement"@,
    ]
}

/// Writes the fixed field declarations.
pub fn vocabulary_fields() -> (fields: Vec<String>)
    ensures
        fields.deep_view() == vocabulary(),
{
    let mut fields: Vec<String> = Vec::new();
    fields.push(String::from_str("span.kind = \"client\""));
    fields.push(String::from_str("span.type = \"sql\""));
    fields.push(String::from_str("component = \"sqlx\""));
    fields.push(String::from_str("operation = \"sqlx.query\""));
    fields.push(String::from_str("peer.hostname"));
    fields.push(String::from_str("peer.service"));
    fields.push(String::from_str("out.host"));
    fields.push(String::from_str("out.port"));
    fields.push(String::from_str("db.system"));
    fields.push(String::from_str("db.instance"));
    fields.push(String::from_str("db.name"));
    fields.push(String::from_str("db.statement"));
    fields
}

/// The instrumentation attribute: what stands inside its `fields(..)`, and
/// the arguments that follow.
#[derive(Clone, Debug, PartialEq, Eq)]
pub struct InstrumentAttribute {
    /// What `fields(..)` holds, in order, to be separated by commas: the
    /// fixed declarations one by one, then what each `fields(..)` entry of
    /// the invocation held.
    pub fields: Vec<String>,
    /// The arguments after `fields(..)`, in order.
    pub arguments: Vec<String>,
}

/// What an [`InstrumentAttribute`] holds, as sequences of characters.
pub struct InstrumentAttributeView {
    pub fields: Seq<Seq<char>>,
    pub arguments: Seq<Seq<char>>,
}

impl View for InstrumentAttribute {
    type V = InstrumentAttributeView;

    open spec fn view(&self) -> InstrumentAttributeView {
        InstrumentAttributeView {
            fields: self.fields.deep_view(),
            arguments: self.arguments.deep_view(),
        }
    }
}

/// The attribute for an invocation that adds the fields `extra` and passes
/// `pass_through` on: the fixed declarations, then the added ones, and the
/// passed entries as the arguments.
pub open spec fn synthesized(
    extra: Seq<Seq<char>>,
    pass_through: Seq<Seq<char>>,
) -> InstrumentAttributeView {
    InstrumentAttributeView { fields: vocabulary() + extra, arguments: pass_through }
}

/// The `fields(..)` argument of an attribute.
pub open spec fn fields_text(fields: Seq<Seq<char>>) -> Seq<char> {
    "fields("@ + joined(fields, ", "@) + ")"@
}

/// An attribute's source text.
pub open spec fn attribute_text(attribute: InstrumentAttributeView) -> Seq<char> {
    "#[::tracing::instrument("@ + joined(
        seq![fields_text(attribute.fields)] + attribute.arguments,
        ", "@,
    ) + ")]"@
}

impl InstrumentAttribute {
    /// Builds the attribute for an invocation that adds the fields `extra`
    /// and passes `pass_through` on.
    pub fn synthesize(extra: Vec<String>, pass_through: Vec<String>) -> (attribute: Self)
        ensures
            attribute@ == synthesized(extra.deep_view(), pass_through.deep_view()),
    {
        let mut fields = vocabulary_fields();
        let mut extra = extra;
        let ghost fixed = fields.deep_view();
        let ghost added = extra.deep_view();
        fields.append(&mut extra);
        assert(fields.deep_view() == fixed + added);
        InstrumentAttribute { fields, arguments: pass_through }
    }

    /// Writes the attribute out as source text.
    pub fn render(&self) -> (text: String)
        ensures
            text@ == attribute_text(self@),
    {
        let mut declarations = String::from_str("fields(");
        declarations.append(join(&self.fields, ", ").as_str());
        declarations.append(")");
        let mut items: Vec<String> = Vec::new();
        items.push(declarations);
        extend(&mut items, &self.arguments);
        assert(items.deep_view() == seq![fields_text(self@.fields)] + self@.arguments);
        let mut text = String::from_str("#[::tracing::instrument(");
        text.append(join(&items, ", ").as_str());
        text.append(")]");
        text
    }
}

} // verus!
