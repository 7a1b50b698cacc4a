//! The command entry point of a desktop shell that answers text requests
//! through a bridge delegate.
//!
//! The front end of the application sends a text request; the entry point
//! hands it to the delegate, which does the actual processing, and returns the
//! delegate's text response. Request and response are opaque here: the entry
//! point neither validates, parses nor transforms either of them, and it keeps
//! nothing between two calls.
//!
//! The delegate is a parameter, so that what is proved of the entry point
//! holds of every delegate: the host application passes the bridge host's
//! `process_request`.
use vstd::prelude::*;

verus! {

/// Answers one request of the front end: hands `request` to `delegate`, once
/// and as it was received, and returns the delegate's response as it came.
///
/// The response is an answer that `delegate` gives to exactly `request`. Where
/// the delegate can answer a request in one way only, that answer is what is
/// returned: `lemma_sole_answer_is_returned`.
///
/// The call is synchronous and blocks until the delegate has answered. Errors
/// are the delegate's: whatever it answers is passed on without inspection.
pub fn dotnet_request<F>(request: &str, delegate: F) -> (response: String) where
    F: FnOnce(&str) -> String,

    requires
        delegate.requires((request,)),
    ensures
        delegate.ensures((request,), response),
{
    delegate(request)
}

/// Pass-through: if the text `expected` is the only answer that `delegate`
/// gives to `request`, then every response that the entry point can return for
/// `request` reads `expected`.
pub proof fn lemma_sole_answer_is_returned<F>(
    request: &str,
    delegate: F,
    expected: Seq<char>,
    response: String,
) where
    F: FnOnce(&str) -> String,

    requires
        forall|answer: String| delegate.ensures((request,), answer) ==> answer@ == expected,
        call_ensures(dotnet_request::<F>, (request, delegate), response),
    ensures
        response@ == expected,
{
}

} // verus!
