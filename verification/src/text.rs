use vstd::prelude::*;

verus! {

/// Compares two string slices by their characters.
pub fn same_text(a: &str, b: &str) -> (equal: bool)
    ensures
        equal == (a@ == b@),
{
    let left: String = a.to_owned();
    let right: String = b.to_owned();
    left == right
}

/// The message that reports a failure: its context, a colon and a space,
/// then the detail of the underlying error.
pub open spec fn failure_text(context: Seq<char>, detail: Seq<char>) -> Seq<char> {
    context + ": "@ + detail
}

/// Builds the message that reports a failure in `context` caused by an error
/// described by `detail`.
pub fn failure_message(context: &str, detail: &str) -> (message: String)
    ensures
        message@ == failure_text(context@, detail@),
{
    let mut message: String = context.to_owned();
    message.append(": ");
    message.append(detail);
    message
}

} // verus!
