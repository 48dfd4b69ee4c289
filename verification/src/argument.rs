//! The entries of an invocation's argument list, and how they are sorted into
//! the connection handle, the extra fields and what is passed through.

use crate::error::RewriteError;
use vstd::prelude::*;
use vstd::string::*;

verus! {

/// One entry of the invocation's argument list, held as source text.
///
/// `name` is the entry's name where that name is a single identifier, and
/// `text` is the entry as a whole.
#[derive(Clone, Debug, PartialEq, Eq)]
pub enum Argument {
    /// A bare name, such as `skip_all`.
    Path { text: String },
    /// `name = value`, such as `level = "info"`.
    NameValue { name: Option<String>, value: String, text: String },
    /// `name(tokens)`, such as `skip(db)`.
    List { name: Option<String>, tokens: String, text: String },
}

/// What an [`Argument`] holds, as sequences of characters.
pub enum ArgumentView {
    Path { text: Seq<char> },
    NameValue { name: Option<Seq<char>>, value: Seq<char>, text: Seq<char> },
    List { name: Option<Seq<char>>, tokens: Seq<char>, text: Seq<char> },
}

/// The view of an optional name.
pub open spec fn name_view(name: Option<String>) -> Option<Seq<char>> {
    match name {
        Some(name) => Some(name@),
        None => None,
    }
}

impl View for Argument {
    type V = ArgumentView;

    open spec fn view(&self) -> ArgumentView {
        match *self {
            Argument::Path { text } => ArgumentView::Path { text: text@ },
            Argument::NameValue { name, value, text } => ArgumentView::NameValue {
                name: name_view(name),
                value: value@,
                text: text@,
            },
            Argument::List { name, tokens, text } => ArgumentView::List {
                name: name_view(name),
                tokens: tokens@,
                text: text@,
            },
        }
    }
}

impl DeepView for Argument {
    type V = ArgumentView;

    open spec fn deep_view(&self) -> ArgumentView {
        self@
    }
}

impl ArgumentView {
    /// The entry as a whole.
    pub open spec fn text(self) -> Seq<char> {
        match self {
            ArgumentView::Path { text } => text,
            ArgumentView::NameValue { text, .. } => text,
            ArgumentView::List { text, .. } => text,
        }
    }

    /// The entry is `db = value`: it names the connection handle.
    pub open spec fn binds_handle(self) -> bool {
        self matches ArgumentView::NameValue { name: Some(name), .. } && name == "db"@
    }

    /// The entry is `fields(..)` with something between the brackets: it adds
    /// to the span's fields.
    pub open spec fn adds_fields(self) -> bool {
        self matches ArgumentView::List { name: Some(name), tokens, .. } && name == "fields"@
            && tokens.len() > 0
    }

    /// The entry is `fields(..)`, empty or not.
    pub open spec fn names_fields(self) -> bool {
        self matches ArgumentView::List { name: Some(name), .. } && name == "fields"@
    }

    /// The entry is neither `db = value` nor `fields(..)`: it is handed on to
    /// the instrumentation attribute as it stands.
    pub open spec fn passes_through(self) -> bool {
        !self.binds_handle() && !self.names_fields()
    }

    /// The entry has a form whose name is looked at, and that name is not a
    /// single identifier.
    pub open spec fn unnamed(self) -> bool {
        match self {
            ArgumentView::Path { .. } => false,
            ArgumentView::NameValue { name, .. } => name is None,
            ArgumentView::List { name, .. } => name is None,
        }
    }
}

/// The identifier that stands for the connection handle where the invocation
/// names none.
pub open spec fn default_handle() -> Seq<char> {
    "db"@
}

/// The expression that reaches the connection handle: the value of the last
/// `db = value` entry, or `db` where there is none.
pub open spec fn handle_of(arguments: Seq<ArgumentView>) -> Seq<char>
    decreases arguments.len(),
{
    if arguments.len() == 0 {
        default_handle()
    } else if arguments.last().binds_handle() {
        arguments.last()->value
    } else {
        handle_of(arguments.drop_last())
    }
}

/// The contents of the non-empty `fields(..)` entries, in order.
pub open spec fn extra_fields_of(arguments: Seq<ArgumentView>) -> Seq<Seq<char>> {
    arguments.filter(|a: ArgumentView| a.adds_fields()).map_values(|a: ArgumentView| a->tokens)
}

/// The entries that are neither `db = value` nor `fields(..)`, in order.
pub open spec fn pass_through_of(arguments: Seq<ArgumentView>) -> Seq<Seq<char>> {
    arguments.filter(|a: ArgumentView| a.passes_through()).map_values(|a: ArgumentView| a.text())
}

/// Every entry whose name is looked at has a single identifier for a name.
pub open spec fn all_named(arguments: Seq<ArgumentView>) -> bool {
    forall|i: int| 0 <= i < arguments.len() ==> !(#[trigger] arguments[i]).unnamed()
}

/// `index` is the place of the first entry whose name is looked at and is not
/// a single identifier.
pub open spec fn first_unnamed(arguments: Seq<ArgumentView>, index: int) -> bool {
    &&& 0 <= index < arguments.len()
    &&& arguments[index].unnamed()
    &&& all_named(arguments.take(index))
}

/// An invocation's arguments, sorted.
#[derive(Clone, Debug, PartialEq, Eq)]
pub struct Invocation {
    /// The expression that reaches the connection handle.
    pub handle: String,
    /// The field declarations that the invocation adds: what stands between
    /// the brackets of each `fields(..)` entry that is not empty.
    pub fields: Vec<String>,
    /// The entries handed on to the instrumentation attribute.
    pub pass_through: Vec<String>,
}

/// What an [`Invocation`] holds, as sequences of characters.
pub struct InvocationView {
    pub handle: Seq<char>,
    pub fields: Seq<Seq<char>>,
    pub pass_through: Seq<Seq<char>>,
}

impl View for Invocation {
    type V = InvocationView;

    open spec fn view(&self) -> InvocationView {
        InvocationView {
            handle: self.handle@,
            fields: self.fields.deep_view(),
            pass_through: self.pass_through.deep_view(),
        }
    }
}

/// How a list of arguments is sorted.
pub open spec fn classified(arguments: Seq<ArgumentView>) -> InvocationView {
    InvocationView {
        handle: handle_of(arguments),
        fields: extra_fields_of(arguments),
        pass_through: pass_through_of(arguments),
    }
}

/// Whether `name` is the identifier `word`.
fn is_word(name: &Option<String>, word: &str) -> (same: bool)
    ensures
        same == (name_view(*name) == Some(word@)),
{
    match name {
        Some(name) => *name == String::from_str(word),
        None => false,
    }
}

/// Sorts the arguments of an invocation into the connection handle, the
/// extra fields and the entries that are passed through.
///
/// Fails at the first `name = value` or `name(..)` entry whose name is not a
/// single identifier.
pub fn classify(arguments: &Vec<Argument>) -> (outcome: Result<Invocation, RewriteError>)
    ensures
        match outcome {
            Ok(invocation) => all_named(arguments.deep_view()) && invocation@ == classified(
                arguments.deep_view(),
            ),
            Err(RewriteError::UnnamedArgument { index }) => first_unnamed(
                arguments.deep_view(),
                index as int,
            ),
            Err(_) => false,
        },
{
    let ghost all = arguments.deep_view();
    let mut handle = String::from_str("db");
    let mut fields: Vec<String> = Vec::new();
    let mut pass_through: Vec<String> = Vec::new();
    let mut i: usize = 0;
    while i < arguments.len()
        invariant
            i <= arguments.len(),
            all == arguments.deep_view(),
            all_named(all.take(i as int)),
            handle@ == handle_of(all.take(i as int)),
            fields.deep_view() == extra_fields_of(all.take(i as int)),
            pass_through.deep_view() == pass_through_of(all.take(i as int)),
        decreases arguments.len() - i,
    {
        let ghost seen = all.take(i as int);
        let ghost entry = all[i as int];
        proof {
            assert(all.take(i + 1) == seen.push(entry));
            assert(seen.push(entry).drop_last() == seen);
            lemma_sorted_push(seen, entry);
        }
        match &arguments[i] {
            Argument::Path { text } => {
                pass_through.push(text.clone());
            },
            Argument::NameValue { name, value, text } => {
                if name.is_none() {
                    return Err(RewriteError::UnnamedArgument { index: i });
                }
                if is_word(name, "db") {
                    handle = value.clone();
                } else {
                    pass_through.push(text.clone());
                }
            },
            Argument::List { name, tokens, text } => {
                if name.is_none() {
                    return Err(RewriteError::UnnamedArgument { index: i });
                }
                if is_word(name, "fields") {
                    if !tokens.as_str().is_empty() {
                        fields.push(tokens.clone());
                    }
                } else {
                    pass_through.push(text.clone());
                }
            },
        }
        i += 1;
    }
    assert(all.take(arguments.len() as int) == all);
    Ok(Invocation { handle, fields, pass_through })
}

/// How one more entry changes the extra fields and what is passed through.
proof fn lemma_sorted_push(seen: Seq<ArgumentView>, entry: ArgumentView)
    ensures
        extra_fields_of(seen.push(entry)) == if entry.adds_fields() {
            extra_fields_of(seen).push(entry->tokens)
        } else {
            extra_fields_of(seen)
        },
        pass_through_of(seen.push(entry)) == if entry.passes_through() {
            pass_through_of(seen).push(entry.text())
        } else {
            pass_through_of(seen)
        },
{
    assert(seen.push(entry).drop_last() == seen);
    reveal(Seq::filter);
}

/// Where no entry is `db = value`, the connection handle is the identifier
/// `db`.
pub proof fn law_default_handle(arguments: Seq<ArgumentView>)
    requires
        forall|i: int| 0 <= i < arguments.len() ==> !(#[trigger] arguments[i]).binds_handle(),
    ensures
        handle_of(arguments) == default_handle(),
    decreases arguments.len(),
{
    if arguments.len() > 0 {
        law_default_handle(arguments.drop_last());
    }
}

/// The connection handle is the value of the last `db = value` entry: an
/// entry further to the right overrides one further to the left.
pub proof fn law_last_binding_wins(arguments: Seq<ArgumentView>, last: int)
    requires
        0 <= last < arguments.len(),
        arguments[last].binds_handle(),
        forall|i: int| last < i < arguments.len() ==> !(#[trigger] arguments[i]).binds_handle(),
    ensures
        handle_of(arguments) == arguments[last]->value,
    decreases arguments.len(),
{
    if last < arguments.len() - 1 {
        law_last_binding_wins(arguments.drop_last(), last);
    }
}

/// What is passed through of a list in two parts is what is passed through
/// of the first part, followed by what is passed through of the second: the
/// entries keep the order in which they were written.
pub proof fn law_pass_through_keeps_order(left: Seq<ArgumentView>, right: Seq<ArgumentView>)
    ensures
        pass_through_of(left + right) == pass_through_of(left) + pass_through_of(right),
    decreases right.len(),
{
    if right.len() > 0 {
        lemma_sorted_push(left + right.drop_last(), right.last());
        lemma_sorted_push(right.drop_last(), right.last());
        law_pass_through_keeps_order(left, right.drop_last());
    }
}

/// Of a single entry, its text is passed through unchanged, unless it is
/// `db = value` or `fields(..)`: then nothing is.
pub proof fn law_pass_through_of_one(entry: ArgumentView)
    ensures
        pass_through_of(seq![entry]) == if entry.passes_through() {
            seq![entry.text()]
        } else {
            Seq::<Seq<char>>::empty()
        },
{
    lemma_sorted_push(Seq::<ArgumentView>::empty(), entry);
}

/// The extra fields of a list in two parts are those of the first part,
/// followed by those of the second.
pub proof fn law_extra_fields_keep_order(left: Seq<ArgumentView>, right: Seq<ArgumentView>)
    ensures
        extra_fields_of(left + right) == extra_fields_of(left) + extra_fields_of(right),
    decreases right.len(),
{
    if right.len() > 0 {
        lemma_sorted_push(left + right.drop_last(), right.last());
        lemma_sorted_push(right.drop_last(), right.last());
        law_extra_fields_keep_order(left, right.drop_last());
    }
}

/// Of a single entry, what stands between the brackets is an extra field if
/// the entry is `fields(..)` and the brackets are not empty: else nothing is.
pub proof fn law_extra_fields_of_one(entry: ArgumentView)
    ensures
        extra_fields_of(seq![entry]) == if entry.adds_fields() {
            seq![entry->tokens]
        } else {
            Seq::<Seq<char>>::empty()
        },
{
    lemma_sorted_push(Seq::<ArgumentView>::empty(), entry);
}

} // verus!
