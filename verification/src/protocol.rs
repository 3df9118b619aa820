//! The exchange between a resolver and the program that performs its
//! requests: the resolver names an action, the program carries it out and
//! answers with an event.

use crate::cache::{Lookup, LookupView};
use crate::remote::{FetchOutcome, FetchOutcomeView};
use vstd::prelude::*;
use vstd::string::*;

verus! {

/// Why an identity, or a whole account, yields no keys.
#[derive(Debug, PartialEq, Eq)]
pub enum ResolveError {
    /// Nothing is cached for the identity and the service does not know it.
    NotFound { identity: String },
    /// Nothing is cached for the identity and fetching its keys failed.
    FetchFailed { identity: String, reason: String },
    /// The cache store could not be read.
    CacheUnreadable { identity: String, reason: String },
}

/// The mathematical content of a [`ResolveError`].
pub enum ResolveErrorView {
    NotFound { identity: Seq<char> },
    FetchFailed { identity: Seq<char>, reason: Seq<char> },
    CacheUnreadable { identity: Seq<char>, reason: Seq<char> },
}

impl ResolveErrorView {
    /// A failure of the cache store is fatal: it points at a broken setup,
    /// not at a passing condition, and ends the whole resolution. A failed
    /// fetch concerns its identity alone.
    pub open spec fn is_fatal(self) -> bool {
        self is CacheUnreadable
    }

    /// The message shown to the user.
    pub open spec fn message(self) -> Seq<char> {
        match self {
            ResolveErrorView::NotFound { identity } => "no keys found for "@ + identity,
            ResolveErrorView::FetchFailed { identity, reason } => "failed to fetch keys for "@
                + identity + ": "@ + reason,
            ResolveErrorView::CacheUnreadable { identity, reason } =>
                "failed to read the cache entry of "@ + identity + ": "@ + reason,
        }
    }
}

impl View for ResolveError {
    type V = ResolveErrorView;

    open spec fn view(&self) -> ResolveErrorView {
        match self {
            ResolveError::NotFound { identity } => ResolveErrorView::NotFound {
                identity: identity@,
            },
            ResolveError::FetchFailed { identity, reason } => ResolveErrorView::FetchFailed {
                identity: identity@,
                reason: reason@,
            },
            ResolveError::CacheUnreadable { identity, reason } => ResolveErrorView::CacheUnreadable {
                identity: identity@,
                reason: reason@,
            },
        }
    }
}

impl Clone for ResolveError {
    fn clone(&self) -> (copy: Self)
        ensures
            copy@ == self@,
    {
        match self {
            ResolveError::NotFound { identity } => ResolveError::NotFound {
                identity: identity.clone(),
            },
            ResolveError::FetchFailed { identity, reason } => ResolveError::FetchFailed {
                identity: identity.clone(),
                reason: reason.clone(),
            },
            ResolveError::CacheUnreadable { identity, reason } => ResolveError::CacheUnreadable {
                identity: identity.clone(),
                reason: reason.clone(),
            },
        }
    }
}

impl ResolveError {
    /// Whether the error ends the whole resolution.
    pub fn is_fatal(&self) -> (fatal: bool)
        ensures
            fatal == self@.is_fatal(),
    {
        match self {
            ResolveError::CacheUnreadable { .. } => true,
            _ => false,
        }
    }

    /// The message shown to the user.
    pub fn message(&self) -> (message: String)
        ensures
            message@ == self@.message(),
    {
        match self {
            ResolveError::NotFound { identity } => {
                let mut message = "no keys found for ".to_owned();
                message.append(identity.as_str());
                message
            },
            ResolveError::FetchFailed { identity, reason } => {
                let mut message = "failed to fetch keys for ".to_owned();
                message.append(identity.as_str());
                message.append(": ");
                message.append(reason.as_str());
                message
            },
            ResolveError::CacheUnreadable { identity, reason } => {
                let mut message = "failed to read the cache entry of ".to_owned();
                message.append(identity.as_str());
                message.append(": ");
                message.append(reason.as_str());
                message
            },
        }
    }
}

/// The error of an identity with no cached keys whose fetch gave no usable
/// text.
pub open spec fn fetch_error(identity: Seq<char>, fetched: FetchOutcomeView) -> ResolveErrorView {
    match fetched {
        FetchOutcomeView::NotFound => ResolveErrorView::NotFound { identity },
        FetchOutcomeView::TransientFailure(reason) => ResolveErrorView::FetchFailed {
            identity,
            reason,
        },
        FetchOutcomeView::Text(_) => ResolveErrorView::FetchFailed {
            identity,
            reason: "empty response body"@,
        },
    }
}

/// The key text of an identity or an account, or the reason why there is
/// none.
pub type Outcome = Result<String, ResolveError>;

/// The mathematical content of an [`Outcome`].
pub type OutcomeView = Result<Seq<char>, ResolveErrorView>;

/// The content of an outcome.
pub open spec fn outcome_view(outcome: Outcome) -> OutcomeView {
    match outcome {
        Ok(text) => Ok(text@),
        Err(error) => Err(error@),
    }
}

/// The contents of a sequence of outcomes, item by item.
pub open spec fn outcome_views(outcomes: Seq<Outcome>) -> Seq<OutcomeView> {
    outcomes.map_values(|outcome: Outcome| outcome_view(outcome))
}

/// A copy of the outcome.
pub fn clone_outcome(outcome: &Outcome) -> (copy: Outcome)
    ensures
        outcome_view(copy) == outcome_view(*outcome),
{
    match outcome {
        Ok(text) => Ok(text.clone()),
        Err(error) => Err(error.clone()),
    }
}

/// What a resolver asks the program around it to do next.
#[derive(Debug, PartialEq, Eq)]
pub enum Action {
    /// Look up the cache entry of the identity.
    Lookup { identity: String },
    /// Fetch the keys of the identity, within `timeout` seconds.
    Fetch { identity: String, timeout: u64 },
    /// Create or overwrite the cache entry of the identity with `text`.
    Write { identity: String, text: String },
    /// Nothing more: the resolution has ended with `result`.
    Finish { result: Outcome },
}

/// The mathematical content of an [`Action`].
pub enum ActionView {
    Lookup { identity: Seq<char> },
    Fetch { identity: Seq<char>, timeout: nat },
    Write { identity: Seq<char>, text: Seq<char> },
    Finish { result: OutcomeView },
}

impl View for Action {
    type V = ActionView;

    open spec fn view(&self) -> ActionView {
        match self {
            Action::Lookup { identity } => ActionView::Lookup { identity: identity@ },
            Action::Fetch { identity, timeout } => ActionView::Fetch {
                identity: identity@,
                timeout: *timeout as nat,
            },
            Action::Write { identity, text } => ActionView::Write {
                identity: identity@,
                text: text@,
            },
            Action::Finish { result } => ActionView::Finish { result: outcome_view(*result) },
        }
    }
}

impl Clone for Action {
    fn clone(&self) -> (copy: Self)
        ensures
            copy@ == self@,
    {
        match self {
            Action::Lookup { identity } => Action::Lookup { identity: identity.clone() },
            Action::Fetch { identity, timeout } => Action::Fetch {
                identity: identity.clone(),
                timeout: *timeout,
            },
            Action::Write { identity, text } => Action::Write {
                identity: identity.clone(),
                text: text.clone(),
            },
            Action::Finish { result } => Action::Finish { result: clone_outcome(result) },
        }
    }
}

/// What the program reports back after it has carried out an action.
#[derive(Debug, PartialEq, Eq)]
pub enum Event {
    /// The answer to [`Action::Lookup`].
    Looked(Lookup),
    /// The answer to [`Action::Fetch`].
    Fetched(FetchOutcome),
    /// The answer to [`Action::Write`]: whether the entry was written.
    Written(bool),
}

/// The mathematical content of an [`Event`].
pub enum EventView {
    Looked(LookupView),
    Fetched(FetchOutcomeView),
    Written(bool),
}

impl View for Event {
    type V = EventView;

    open spec fn view(&self) -> EventView {
        match self {
            Event::Looked(looked) => EventView::Looked(looked@),
            Event::Fetched(fetched) => EventView::Fetched(fetched@),
            Event::Written(written) => EventView::Written(*written),
        }
    }
}

impl Clone for Event {
    fn clone(&self) -> (copy: Self)
        ensures
            copy@ == self@,
    {
        match self {
            Event::Looked(looked) => Event::Looked(looked.clone()),
            Event::Fetched(fetched) => Event::Fetched(fetched.clone()),
            Event::Written(written) => Event::Written(*written),
        }
    }
}

} // verus!
