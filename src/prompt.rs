use vstd::prelude::*;
use vstd::string::StringExecFns;

verus! {

/// The label that separates the file context from the user's message.
pub const REQUEST_LABEL: &'static str = "\n\nUser request:\n";

/// The message used in a single-turn run when none is given.
pub const DEFAULT_MESSAGE: &'static str = "Explain the provided files.";

/// What the assembled prompt is: the message alone when there is no
/// context, else the context, the label and the message.
pub open spec fn assembled(context: Seq<char>, message: Seq<char>) -> Seq<char> {
    if context.len() == 0 {
        message
    } else {
        context + REQUEST_LABEL@ + message
    }
}

/// Combines the file context and the user's message into the request input.
pub fn assemble_prompt(context: &str, message: &str) -> (r: String)
    ensures
        r@ == assembled(context@, message@),
        context@.len() == 0 ==> r@ == message@,
        context@.len() > 0 ==> r@.subrange(0, context@.len() as int) == context@,
        context@.len() > 0 ==> r@.subrange(r@.len() - message@.len(), r@.len() as int)
            == message@,
        context@.len() > 0 ==> r@.subrange(
            context@.len() as int,
            (context@.len() + REQUEST_LABEL@.len()) as int,
        ) == REQUEST_LABEL@,
{
    if context.is_empty() {
        message.to_owned()
    } else {
        let mut r = context.to_owned();
        r.append(REQUEST_LABEL);
        r.append(message);
        assert(r@.subrange(0, context@.len() as int) =~= context@);
        assert(r@.subrange(r@.len() - message@.len(), r@.len() as int) =~= message@);
        assert(r@.subrange(context@.len() as int, (context@.len() + REQUEST_LABEL@.len()) as int)
            =~= REQUEST_LABEL@);
        r
    }
}

/// The message of a single-turn run: the one given, or the default one.
pub fn resolve_message(given: Option<String>) -> (r: String)
    ensures
        given is Some ==> r@ == given->0@,
        given is None ==> r@ == DEFAULT_MESSAGE@,
{
    match given {
        Some(m) => m,
        None => DEFAULT_MESSAGE.to_owned(),
    }
}

} // verus!
