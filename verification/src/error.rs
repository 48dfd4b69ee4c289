//! Why a rewrite was refused.

use vstd::prelude::*;
use vstd::string::*;

verus! {

/// The reasons for which no rewritten function is produced.
#[derive(Clone, Debug, PartialEq, Eq)]
pub enum RewriteError {
    /// The invocation's arguments are not a comma-separated list of attribute
    /// entries; `message` is the parser's complaint.
    MalformedArguments { message: String },
    /// The annotated item is not a function definition; `message` is the
    /// parser's complaint.
    MalformedFunction { message: String },
    /// The argument at `index` has the form `name = value` or `name(..)`, and
    /// its name is not a single identifier.
    UnnamedArgument { index: usize },
}

impl RewriteError {
    /// What `message` returns for an argument without a plain name.
    pub open spec fn unnamed_argument_text() -> Seq<char> {
        "the name of an argument is not a single identifier"@
    }

    /// The text that `message` returns.
    pub open spec fn message_text(self) -> Seq<char> {
        match self {
            RewriteError::MalformedArguments { message } => message@,
            RewriteError::MalformedFunction { message } => message@,
            RewriteError::UnnamedArgument { .. } => Self::unnamed_argument_text(),
        }
    }

    /// A description of the failure, for the build error that reports it.
    pub fn message(&self) -> (text: String)
        ensures
            text@ == self.message_text(),
    {
        match self {
            RewriteError::MalformedArguments { message } => message.clone(),
            RewriteError::MalformedFunction { message } => message.clone(),
            RewriteError::UnnamedArgument { .. } => String::from_str(
                "the name of an argument is not a single identifier",
            ),
        }
    }
}

} // verus!
