//! The annotated function, and the statements put at the front of its body.

use crate::text::{extend, join, joined};
use vstd::prelude::*;
use vstd::string::*;

verus! {

/// An attribute that the annotated function already carries.
#[derive(Clone, Debug, PartialEq, Eq)]
pub struct FunctionAttribute {
    /// Whether it is written inside the body (`#![..]`) and not above the
    /// function (`#[..]`).
    pub inner: bool,
    /// The attribute as source text.
    pub text: String,
}

/// What a [`FunctionAttribute`] holds, as a sequence of characters.
pub struct FunctionAttributeView {
    pub inner: bool,
    pub text: Seq<char>,
}

impl View for FunctionAttribute {
    type V = FunctionAttributeView;

    open spec fn view(&self) -> FunctionAttributeView {
        FunctionAttributeView { inner: self.inner, text: self.text@ }
    }
}

impl DeepView for FunctionAttribute {
    type V = FunctionAttributeView;

    open spec fn deep_view(&self) -> FunctionAttributeView {
        self@
    }
}

/// The annotated function, held as source text.
#[derive(Clone, Debug, PartialEq, Eq)]
pub struct TargetFunction {
    /// Its attributes, in the order in which they were read.
    pub attributes: Vec<FunctionAttribute>,
    /// Its visibility and signature: everything between the attributes and
    /// the body.
    pub signature: String,
    /// The statements of its body, in order.
    pub statements: Vec<String>,
}

/// What a [`TargetFunction`] holds, as sequences of characters.
pub struct TargetFunctionView {
    pub attributes: Seq<FunctionAttributeView>,
    pub signature: Seq<char>,
    pub statements: Seq<Seq<char>>,
}

impl View for TargetFunction {
    type V = TargetFunctionView;

    open spec fn view(&self) -> TargetFunctionView {
        TargetFunctionView {
            attributes: self.attributes.deep_view(),
            signature: self.signature@,
            statements: self.statements.deep_view(),
        }
    }
}

/// The expression that reads, with `accessor`, from the connection options
/// of `handle`. A space keeps the last token of `handle` apart from the dot.
pub open spec fn option_read(handle: Seq<char>, accessor: Seq<char>) -> Seq<char> {
    handle + " .connect_options()."@ + accessor
}

/// The expression whose value is recorded under `db.system`: the scheme of
/// the connection URL, but `postgresql` where that scheme is `postgres`. No
/// other scheme is changed.
pub open spec fn system_expression(handle: Seq<char>) -> Seq<char> {
    "match "@ + option_read(handle, "to_url_lossy().scheme()"@)
        + " { \"postgres\" => \"postgresql\", scheme => scheme }"@
}

/// The statement that records the value of the expression `value` under the
/// span field `field`.
pub open spec fn record_statement(field: Seq<char>, value: Seq<char>) -> Seq<char> {
    "::tracing::Span::current().record(\""@ + field + "\", "@ + value + ");"@
}

/// The statements to inject, in the order in which they are put at the front
/// of the body one after another.
pub open spec fn declared_statements(handle: Seq<char>) -> Seq<Seq<char>> {
    seq![
        record_statement("peer.service"@, option_read(handle, "get_database()"@)),
        record_statement("peer.hostname"@, option_read(handle, "get_host()"@)),
        record_statement("out.host"@, option_read(handle, "get_host()"@)),
        record_statement("out.port"@, option_read(handle, "get_port()"@)),
        record_statement("db.instance"@, option_read(handle, "get_database()"@)),
        record_statement("db.name"@, option_read(handle, "get_database()"@)),
        record_statement("db.system"@, system_expression(handle)),
        "use ::sqlx::ConnectOptions;"@,
    ]
}

/// The injected statements in the order in which the body holds them: the
/// statement that brings the connection options into scope comes first,
/// `peer.service` last.
pub open spec fn injected_statements(handle: Seq<char>) -> Seq<Seq<char>> {
    declared_statements(handle).reverse()
}

/// Writes the expression that reads from the connection options.
fn read(handle: &str, accessor: &str) -> (expression: String)
    ensures
        expression@ == option_read(handle@, accessor@),
{
    let mut expression = String::from_str(handle);
    expression.append(" .connect_options().");
    expression.append(accessor);
    expression
}

/// Writes the expression whose value is recorded under `db.system`.
fn system_value(handle: &str) -> (expression: String)
    ensures
        expression@ == system_expression(handle@),
{
    let mut expression = String::from_str("match ");
    expression.append(read(handle, "to_url_lossy().scheme()").as_str());
    expression.append(" { \"postgres\" => \"postgresql\", scheme => scheme }");
    expression
}

/// Writes the statement that records one span field.
fn record(field: &str, value: String) -> (statement: String)
    ensures
        statement@ == record_statement(field@, value@),
{
    let mut statement = String::from_str("::tracing::Span::current().record(\"");
    statement.append(field);
    statement.append("\", ");
    statement.append(value.as_str());
    statement.append(");");
    statement
}

/// Writes the statements to inject for the connection handle `handle`, in the
/// order in which they are to be put at the front of a body.
pub fn declare_statements(handle: &str) -> (statements: Vec<String>)
    ensures
        statements.deep_view() == declared_statements(handle@),
{
    let mut statements: Vec<String> = Vec::new();
    statements.push(record("peer.service", read(handle, "get_database()")));
    statements.push(record("peer.hostname", read(handle, "get_host()")));
    statements.push(record("out.host", read(handle, "get_host()")));
    statements.push(record("out.port", read(handle, "get_port()")));
    statements.push(record("db.instance", read(handle, "get_database()")));
    statements.push(record("db.name", read(handle, "get_database()")));
    statements.push(record("db.system", system_value(handle)));
    statements.push(String::from_str("use ::sqlx::ConnectOptions;"));
    statements
}

/// The texts of the attributes written above the function.
pub open spec fn outer_attributes(attributes: Seq<FunctionAttributeView>) -> Seq<Seq<char>> {
    attributes.filter(|a: FunctionAttributeView| !a.inner).map_values(
        |a: FunctionAttributeView| a.text,
    )
}

/// The texts of the attributes written inside the body.
pub open spec fn inner_attributes(attributes: Seq<FunctionAttributeView>) -> Seq<Seq<char>> {
    attributes.filter(|a: FunctionAttributeView| a.inner).map_values(
        |a: FunctionAttributeView| a.text,
    )
}

/// The pieces of a function's source text: the outer attributes, the
/// signature, and between braces the inner attributes and the statements.
pub open spec fn function_pieces(function: TargetFunctionView) -> Seq<Seq<char>> {
    outer_attributes(function.attributes) + seq![function.signature, "{"@] + inner_attributes(
        function.attributes,
    ) + function.statements + seq!["}"@]
}

/// A function's source text.
pub open spec fn function_text(function: TargetFunctionView) -> Seq<char> {
    joined(function_pieces(function), " "@)
}

impl TargetFunction {
    /// Puts the statements that tag the current span at the front of the
    /// body. Each is inserted before everything that the body holds so far, so
    /// the body begins with them in the reverse of the order declared.
    pub fn inject(&mut self, handle: &str)
        ensures
            final(self)@.statements == injected_statements(handle@) + old(self)@.statements,
            final(self)@.attributes == old(self)@.attributes,
            final(self)@.signature == old(self)@.signature,
    {
        let declared = declare_statements(handle);
        let ghost before = self@.statements;
        let mut i: usize = 0;
        while i < declared.len()
            invariant
                i <= declared.len(),
                self@.statements == declared.deep_view().take(i as int).reverse() + before,
                self@.attributes == old(self)@.attributes,
                self@.signature == old(self)@.signature,
            decreases declared.len() - i,
        {
            let ghost body = self.statements.deep_view();
            let ghost done = declared.deep_view().take(i as int);
            let ghost statement = declared[i as int]@;
            self.statements.insert(0, declared[i].clone());
            proof {
                lemma_reverse_push(done, statement);
                assert(self.statements.deep_view() == seq![statement] + body);
                assert(seq![statement] + (done.reverse() + before) == (seq![statement]
                    + done.reverse()) + before);
            }
            i += 1;
        }
    }

    /// The texts of the attributes that are written inside the body, where
    /// `inner` is set, or above the function, where it is not.
    fn attribute_texts(&self, inner: bool) -> (texts: Vec<String>)
        ensures
            texts.deep_view() == if inner {
                inner_attributes(self@.attributes)
            } else {
                outer_attributes(self@.attributes)
            },
    {
        let mut texts: Vec<String> = Vec::new();
        let mut i: usize = 0;
        while i < self.attributes.len()
            invariant
                i <= self.attributes.len(),
                texts.deep_view() == if inner {
                    inner_attributes(self@.attributes.take(i as int))
                } else {
                    outer_attributes(self@.attributes.take(i as int))
                },
            decreases self.attributes.len() - i,
        {
            proof {
                lemma_attributes_push(self@.attributes.take(i as int), self.attributes[i as int]@);
                assert(self@.attributes.take(i + 1) == self@.attributes.take(i as int).push(
                    self.attributes[i as int]@,
                ));
            }
            if self.attributes[i].inner == inner {
                texts.push(self.attributes[i].text.clone());
            }
            i += 1;
        }
        assert(self@.attributes.take(self.attributes.len() as int) == self@.attributes);
        texts
    }

    /// Writes the function out as source text.
    pub fn render(&self) -> (text: String)
        ensures
            text@ == function_text(self@),
    {
        let mut pieces = self.attribute_texts(false);
        pieces.push(self.signature.clone());
        pieces.push(String::from_str("{"));
        assert(pieces.deep_view() == outer_attributes(self@.attributes) + seq![
            self@.signature,
            "{"@,
        ]);
        let inner = self.attribute_texts(true);
        extend(&mut pieces, &inner);
        extend(&mut pieces, &self.statements);
        pieces.push(String::from_str("}"));
        assert(pieces.deep_view() == function_pieces(self@));
        join(&pieces, " ")
    }
}

/// Reversing puts what was pushed last in front.
proof fn lemma_reverse_push(s: Seq<Seq<char>>, last: Seq<char>)
    ensures
        s.push(last).reverse() == seq![last] + s.reverse(),
{
}

/// How one more attribute changes the outer and the inner attributes.
proof fn lemma_attributes_push(seen: Seq<FunctionAttributeView>, attribute: FunctionAttributeView)
    ensures
        outer_attributes(seen.push(attribute)) == if attribute.inner {
            outer_attributes(seen)
        } else {
            outer_attributes(seen).push(attribute.text)
        },
        inner_attributes(seen.push(attribute)) == if attribute.inner {
            inner_attributes(seen).push(attribute.text)
        } else {
            inner_attributes(seen)
        },
{
    assert(seen.push(attribute).drop_last() == seen);
    reveal(Seq::filter);
}

/// The body holds the injected statements in this order: first the statement
/// that brings the connection options into scope, then the records of
/// `db.system`, `db.name`, `db.instance`, `out.port`, `out.host`,
/// `peer.hostname` and `peer.service`. Each record reads from the connection
/// options of `handle`.
pub proof fn law_injected_order(handle: Seq<char>)
    ensures
        injected_statements(handle) == seq![
            "use ::sqlx::ConnectOptions;"@,
            record_statement("db.system"@, system_expression(handle)),
            record_statement("db.name"@, option_read(handle, "get_database()"@)),
            record_statement("db.instance"@, option_read(handle, "get_database()"@)),
            record_statement("out.port"@, option_read(handle, "get_port()"@)),
            record_statement("out.host"@, option_read(handle, "get_host()"@)),
            record_statement("peer.hostname"@, option_read(handle, "get_host()"@)),
            record_statement("peer.service"@, option_read(handle, "get_database()"@)),
        ],
{
}

} // verus!
