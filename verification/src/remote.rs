//! What the remote service answers, and where it is asked.

use vstd::prelude::*;
use vstd::string::*;

verus! {

/// The result of one attempt to fetch the keys of a remote identity.
#[derive(Debug, PartialEq, Eq)]
pub enum FetchOutcome {
    /// The body of a successful response.
    Text(String),
    /// The service knows no such identity.
    NotFound,
    /// The attempt failed for the reason given: no connection, a timeout,
    /// or a response that reports an error.
    TransientFailure(String),
}

/// The mathematical content of a [`FetchOutcome`].
pub enum FetchOutcomeView {
    Text(Seq<char>),
    NotFound,
    TransientFailure(Seq<char>),
}

impl FetchOutcomeView {
    /// The fetched key text, if the attempt produced any. An empty body is
    /// no answer.
    pub open spec fn usable_text(self) -> Option<Seq<char>> {
        match self {
            FetchOutcomeView::Text(text) => if text.len() > 0 {
                Some(text)
            } else {
                None
            },
            _ => None,
        }
    }
}

impl View for FetchOutcome {
    type V = FetchOutcomeView;

    open spec fn view(&self) -> FetchOutcomeView {
        match self {
            FetchOutcome::Text(text) => FetchOutcomeView::Text(text@),
            FetchOutcome::NotFound => FetchOutcomeView::NotFound,
            FetchOutcome::TransientFailure(reason) => FetchOutcomeView::TransientFailure(reason@),
        }
    }
}

impl Clone for FetchOutcome {
    fn clone(&self) -> (copy: Self)
        ensures
            copy@ == self@,
    {
        match self {
            FetchOutcome::Text(text) => FetchOutcome::Text(text.clone()),
            FetchOutcome::NotFound => FetchOutcome::NotFound,
            FetchOutcome::TransientFailure(reason) => FetchOutcome::TransientFailure(
                reason.clone(),
            ),
        }
    }
}

/// The address from which the keys of `identity` are fetched.
pub open spec fn spec_keys_url(identity: Seq<char>) -> Seq<char> {
    "https://github.com/"@ + identity + ".keys"@
}

/// The address from which the keys of `identity` are fetched.
pub fn keys_url(identity: &str) -> (url: String)
    ensures
        url@ == spec_keys_url(identity@),
{
    let mut url = "https://github.com/".to_owned();
    url.append(identity);
    url.append(".keys");
    url
}

/// How a response with the given status counts.
pub open spec fn spec_classify_response(
    status_code: int,
    reason_phrase: Seq<char>,
    body: Seq<char>,
) -> FetchOutcomeView {
    if 200 <= status_code < 300 {
        FetchOutcomeView::Text(body)
    } else if status_code == 404 {
        FetchOutcomeView::NotFound
    } else {
        FetchOutcomeView::TransientFailure(reason_phrase)
    }
}

/// Turns a response into the outcome of the fetch: a status from 200 to
/// 299 carries the keys in its body, 404 says that the identity does not
/// exist, and any other status is a failure described by its reason phrase.
pub fn classify_response(status_code: i32, reason_phrase: String, body: String) -> (outcome:
    FetchOutcome)
    ensures
        outcome@ == spec_classify_response(status_code as int, reason_phrase@, body@),
{
    if 200 <= status_code && status_code < 300 {
        FetchOutcome::Text(body)
    } else if status_code == 404 {
        FetchOutcome::NotFound
    } else {
        FetchOutcome::TransientFailure(reason_phrase)
    }
}

} // verus!
