//! Reading source text with `syn`.
//!
//! Source text comes in as characters and goes out as the library's own
//! values, which hold text again. What the parser makes of a text is not
//! spelled out here: it is given a name, and the contracts of the library
//! speak of that name.
//!
//! The same text is read the same way as long as `proc-macro2` splits text
//! into tokens and writes tokens out with its own lexer and printer, and not
//! with a compiler's. This crate takes `proc-macro2` without its
//! `proc-macro` feature, which gives that. In a build where another crate
//! switches the feature on, it holds outside a procedural macro, and inside
//! one only after a call of `proc_macro2::fallback::force()`: a caller that
//! runs inside a procedural macro makes that call first.
//!
//! The parser descends into nested text by recursion and sets no limit to
//! the depth: text nested some tens of thousands of brackets deep exhausts
//! the stack, as it would exhaust memory, and gives no outcome at all.

use crate::argument::{Argument, ArgumentView};
use crate::error::RewriteError;
use crate::function::{FunctionAttribute, TargetFunction, TargetFunctionView};
use quote::ToTokens;
use syn::parse::Parser;
use syn::punctuated::Punctuated;
use syn::token::Comma;
use syn::{AttrStyle, ItemFn, Meta};
use vstd::prelude::*;

verus! {

/// What `syn` makes of `text` read as a comma-separated list of attribute
/// entries: the entries in order, or the parser's complaint.
pub uninterp spec fn parsed_arguments(text: Seq<char>) -> Result<Seq<ArgumentView>, Seq<char>>;

/// What `syn` makes of `text` read as a function definition: the function,
/// or the parser's complaint.
pub uninterp spec fn parsed_function(text: Seq<char>) -> Result<TargetFunctionView, Seq<char>>;

/// The view of what reading an argument list gave.
pub open spec fn arguments_view(outcome: Result<Vec<Argument>, String>) -> Result<
    Seq<ArgumentView>,
    Seq<char>,
> {
    match outcome {
        Ok(arguments) => Ok(arguments.deep_view()),
        Err(message) => Err(message@),
    }
}

/// The view of what reading a function gave.
pub open spec fn function_view(outcome: Result<TargetFunction, String>) -> Result<
    TargetFunctionView,
    Seq<char>,
> {
    match outcome {
        Ok(function) => Ok(function@),
        Err(message) => Err(message@),
    }
}

/// Calls `syn::punctuated::Punctuated::<Meta, Comma>::parse_terminated` on
/// `text`, through `syn::parse::Parser::parse_str`. Each `syn::Meta` found
/// becomes an [`Argument`] of the same form: `text` is the entry written out
/// with `quote::ToTokens::to_token_stream`, `name` is what
/// `syn::Path::get_ident` gives for the entry's path, and `value` and
/// `tokens` are the entry's expression and token list, written out. A
/// failure is handed on as the message that `syn::Error` displays.
///
/// Not proved, and believed by the verifier: that the outcome depends on
/// `text` alone, which holds while `proc-macro2` reads and writes with its
/// own lexer and printer (see the module's description). Nothing else is
/// claimed of it.
#[verifier::external_body]
fn read_arguments(text: &str) -> (outcome: Result<Vec<Argument>, String>)
    ensures
        arguments_view(outcome) == parsed_arguments(text@),
{
    let entries = Punctuated::<Meta, Comma>::parse_terminated.parse_str(text);
    let entries = entries.map_err(|error| error.to_string())?;
    Ok(entries.iter().map(|meta| {
        let text = meta.to_token_stream().to_string();
        let name = meta.path().get_ident().map(|ident| ident.to_string());
        match meta {
            Meta::Path(_) => Argument::Path { text },
            Meta::NameValue(pair) => {
                Argument::NameValue { name, value: pair.value.to_token_stream().to_string(), text }
            },
            Meta::List(list) => Argument::List { name, tokens: list.tokens.to_string(), text },
        }
    }).collect())
}

/// Calls `syn::parse_str::<syn::ItemFn>` on `text`. The function found
/// becomes a [`TargetFunction`]: each of its attributes, its visibility
/// followed by its signature, and each statement of its body are written
/// out with `quote::ToTokens`; an attribute is `inner` where its
/// `syn::AttrStyle` is `Inner`. A failure is handed on as the message that
/// `syn::Error` displays.
///
/// Not proved, and believed by the verifier: that the outcome depends on
/// `text` alone, which holds while `proc-macro2` reads and writes with its
/// own lexer and printer (see the module's description). Nothing else is
/// claimed of it.
#[verifier::external_body]
fn read_function(text: &str) -> (outcome: Result<TargetFunction, String>)
    ensures
        function_view(outcome) == parsed_function(text@),
{
    let function = syn::parse_str::<ItemFn>(text).map_err(|error| error.to_string())?;
    let mut signature = function.vis.to_token_stream();
    function.sig.to_tokens(&mut signature);
    let attributes = function.attrs.iter().map(|attribute| FunctionAttribute {
        inner: match attribute.style { AttrStyle::Outer => false, AttrStyle::Inner(_) => true },
        text: attribute.to_token_stream().to_string(),
    });
    let statements = function.block.stmts.iter().map(|s| s.to_token_stream().to_string());
    Ok(TargetFunction {
        attributes: attributes.collect(),
        signature: signature.to_string(),
        statements: statements.collect(),
    })
}

/// Reads `text` as the argument list of an invocation.
///
/// Succeeds exactly on the texts that the parser accepts as a
/// comma-separated list of attribute entries.
pub fn parse_arguments(text: &str) -> (outcome: Result<Vec<Argument>, RewriteError>)
    ensures
        match outcome {
            Ok(arguments) => parsed_arguments(text@) == Ok::<Seq<ArgumentView>, Seq<char>>(
                arguments.deep_view(),
            ),
            Err(RewriteError::MalformedArguments { message }) => parsed_arguments(text@) == Err::<
                Seq<ArgumentView>,
                Seq<char>,
            >(message@),
            Err(_) => false,
        },
{
    match read_arguments(text) {
        Ok(arguments) => Ok(arguments),
        Err(message) => Err(RewriteError::MalformedArguments { message }),
    }
}

/// Reads `text` as the definition of the function to rewrite.
///
/// Succeeds exactly on the texts that the parser accepts as a function
/// definition.
pub fn parse_function(text: &str) -> (outcome: Result<TargetFunction, RewriteError>)
    ensures
        match outcome {
            Ok(function) => parsed_function(text@) == Ok::<TargetFunctionView, Seq<char>>(
                function@,
            ),
            Err(RewriteError::MalformedFunction { message }) => parsed_function(text@) == Err::<
                TargetFunctionView,
                Seq<char>,
            >(message@),
            Err(_) => false,
        },
{
    match read_function(text) {
        Ok(function) => Ok(function),
        Err(message) => Err(RewriteError::MalformedFunction { message }),
    }
}

} // verus!
