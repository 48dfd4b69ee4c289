//! Rewrites the source of a database-call function so that its tracing span
//! carries the peer and database tags an APM backend expects.
//!
//! The function's body gets, at its front, statements that record on the
//! current span where the connection leads (service, host, port, database
//! system and name). Above the function goes a `tracing::instrument`
//! attribute that declares those fields, together with the fields and the
//! configuration that the invocation supplies.
//!
//! Source text goes in and source text comes out. [`syntax`] reads the text
//! with `syn`; sorting the arguments ([`argument`]), extending the body
//! ([`function`]), building the attribute ([`attribute`]) and writing the
//! result are verified against contracts over sequences of characters.

pub mod argument;
pub mod attribute;
pub mod error;
pub mod function;
pub mod syntax;
pub mod system;
pub mod text;

use crate::argument::{
    all_named, classified, classify, default_handle, extra_fields_of, first_unnamed, handle_of,
    law_default_handle, law_extra_fields_of_one, law_last_binding_wins, law_pass_through_of_one,
    pass_through_of, Argument, ArgumentView, Invocation,
};
use crate::attribute::{
    attribute_text, synthesized, vocabulary, InstrumentAttribute, InstrumentAttributeView,
};
use crate::error::RewriteError;
use crate::function::{
    function_text, injected_statements, law_injected_order, TargetFunction, TargetFunctionView,
};
use crate::syntax::{parse_arguments, parse_function, parsed_arguments, parsed_function};
use vstd::prelude::*;
use vstd::string::*;

verus! {

/// A rewritten function: the instrumentation attribute, and the function
/// with the injected statements in its body.
#[derive(Clone, Debug, PartialEq, Eq)]
pub struct Instrumented {
    /// The attribute that goes above the function.
    pub attribute: InstrumentAttribute,
    /// The function, its body extended.
    pub function: TargetFunction,
}

/// What an [`Instrumented`] holds, as sequences of characters.
pub struct InstrumentedView {
    pub attribute: InstrumentAttributeView,
    pub function: TargetFunctionView,
}

impl View for Instrumented {
    type V = InstrumentedView;

    open spec fn view(&self) -> InstrumentedView {
        InstrumentedView { attribute: self.attribute@, function: self.function@ }
    }
}

/// What rewriting `function` for an invocation with `arguments` gives, where
/// every argument whose name is looked at has a plain name.
pub open spec fn rewritten(
    arguments: Seq<ArgumentView>,
    function: TargetFunctionView,
) -> InstrumentedView {
    let invocation = classified(arguments);
    InstrumentedView {
        attribute: synthesized(invocation.fields, invocation.pass_through),
        function: TargetFunctionView {
            attributes: function.attributes,
            signature: function.signature,
            statements: injected_statements(invocation.handle) + function.statements,
        },
    }
}

/// The source text of a rewritten function: the attribute, then the
/// function.
pub open spec fn instrumented_text(instrumented: InstrumentedView) -> Seq<char> {
    attribute_text(instrumented.attribute) + " "@ + function_text(instrumented.function)
}

impl Instrumented {
    /// Writes the rewritten function out as source text.
    pub fn render(&self) -> (text: String)
        ensures
            text@ == instrumented_text(self@),
    {
        let mut text = self.attribute.render();
        text.append(" ");
        text.append(self.function.render().as_str());
        text
    }
}

/// Rewrites `function` for an invocation with `arguments`.
///
/// Fails, and gives no function, exactly where an argument of the form
/// `name = value` or `name(..)` has a name that is not a single identifier;
/// the error names the first such argument.
pub fn rewrite(arguments: &Vec<Argument>, function: TargetFunction) -> (outcome: Result<
    Instrumented,
    RewriteError,
>)
    ensures
        match outcome {
            Ok(instrumented) => all_named(arguments.deep_view()) && instrumented@ == rewritten(
                arguments.deep_view(),
                function@,
            ),
            Err(RewriteError::UnnamedArgument { index }) => first_unnamed(
                arguments.deep_view(),
                index as int,
            ),
            Err(_) => false,
        },
{
    match classify(arguments) {
        Ok(invocation) => {
            let Invocation { handle, fields, pass_through } = invocation;
            let mut function = function;
            function.inject(handle.as_str());
            let attribute = InstrumentAttribute::synthesize(fields, pass_through);
            Ok(Instrumented { attribute, function })
        },
        Err(error) => Err(error),
    }
}

/// Rewrites the function whose source text is `item` for an invocation
/// whose arguments have the source text `args`, and gives the rewritten
/// function as source text.
///
/// There is no partial output. The rewrite fails where `args` is not a list
/// of attribute entries; else where `item` is not a function definition;
/// else where an argument of the form `name = value` or `name(..)` has a name
/// that is not a single identifier.
pub fn instrument_query(args: &str, item: &str) -> (outcome: Result<String, RewriteError>)
    ensures
        match outcome {
            Ok(text) => {
                &&& parsed_arguments(args@) matches Ok(arguments)
                &&& parsed_function(item@) matches Ok(function)
                &&& all_named(arguments)
                &&& text@ == instrumented_text(rewritten(arguments, function))
            },
            Err(RewriteError::MalformedArguments { message }) => {
                parsed_arguments(args@) == Err::<Seq<ArgumentView>, Seq<char>>(message@)
            },
            Err(RewriteError::MalformedFunction { message }) => {
                &&& parsed_arguments(args@) is Ok
                &&& parsed_function(item@) == Err::<TargetFunctionView, Seq<char>>(message@)
            },
            Err(RewriteError::UnnamedArgument { index }) => {
                &&& parsed_arguments(args@) matches Ok(arguments)
                &&& parsed_function(item@) is Ok
                &&& first_unnamed(arguments, index as int)
            },
        },
{
    let arguments = match parse_arguments(args) {
        Ok(arguments) => arguments,
        Err(error) => {
            return Err(error);
        },
    };
    let function = match parse_function(item) {
        Ok(function) => function,
        Err(error) => {
            return Err(error);
        },
    };
    match rewrite(&arguments, function) {
        Ok(instrumented) => Ok(instrumented.render()),
        Err(error) => Err(error),
    }
}

/// Without arguments, the attribute declares the fixed fields and nothing
/// else, it has no further arguments, and the injected statements read from
/// the connection handle `db`.
pub proof fn law_plain_invocation(function: TargetFunctionView)
    ensures
        rewritten(Seq::empty(), function).attribute.fields == vocabulary(),
        rewritten(Seq::empty(), function).attribute.arguments == Seq::<Seq<char>>::empty(),
        rewritten(Seq::empty(), function).function.statements == injected_statements(
            default_handle(),
        ) + function.statements,
{
}

/// The attribute declares the fixed fields first and then what the
/// `fields(..)` entries hold, and its further arguments are the entries that
/// are passed through.
pub proof fn law_attribute_of_invocation(
    arguments: Seq<ArgumentView>,
    function: TargetFunctionView,
)
    ensures
        rewritten(arguments, function).attribute.fields.take(12) == vocabulary(),
        rewritten(arguments, function).attribute.fields.skip(12) == extra_fields_of(arguments),
        rewritten(arguments, function).attribute.arguments == pass_through_of(arguments),
{
}

/// An invocation whose one argument is `fields(..)`, with something
/// between the brackets, gives an attribute that declares the fixed fields
/// followed by what stands between the brackets.
pub proof fn law_fields_follow_vocabulary(entry: ArgumentView, function: TargetFunctionView)
    requires
        entry.adds_fields(),
    ensures
        rewritten(seq![entry], function).attribute.fields == vocabulary().push(entry->tokens),
        rewritten(seq![entry], function).attribute.arguments == Seq::<Seq<char>>::empty(),
{
    law_extra_fields_of_one(entry);
    law_pass_through_of_one(entry);
}

/// The injected statements stand at the front of the body, directly before
/// the statement that was the first, and the function is otherwise as it
/// was.
pub proof fn law_injected_before_body(arguments: Seq<ArgumentView>, function: TargetFunctionView)
    ensures
        rewritten(arguments, function).function.statements.take(8) == injected_statements(
            handle_of(arguments),
        ),
        rewritten(arguments, function).function.statements.skip(8) == function.statements,
        rewritten(arguments, function).function.attributes == function.attributes,
        rewritten(arguments, function).function.signature == function.signature,
{
    law_injected_order(handle_of(arguments));
}

/// Where `db = value` is the last entry of its kind, every injected record
/// reads from the connection options of `value`.
pub proof fn law_bound_handle_is_used(
    arguments: Seq<ArgumentView>,
    function: TargetFunctionView,
    last: int,
)
    requires
        0 <= last < arguments.len(),
        arguments[last].binds_handle(),
        forall|i: int| last < i < arguments.len() ==> !(#[trigger] arguments[i]).binds_handle(),
    ensures
        rewritten(arguments, function).function.statements == injected_statements(
            arguments[last]->value,
        ) + function.statements,
{
    law_last_binding_wins(arguments, last);
}

/// Where no entry is `db = value`, every injected record reads from the
/// connection options of `db`.
pub proof fn law_default_handle_is_used(arguments: Seq<ArgumentView>, function: TargetFunctionView)
    requires
        forall|i: int| 0 <= i < arguments.len() ==> !(#[trigger] arguments[i]).binds_handle(),
    ensures
        rewritten(arguments, function).function.statements == injected_statements(
            default_handle(),
        ) + function.statements,
{
    law_default_handle(arguments);
}

} // verus!
