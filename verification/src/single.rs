//! The resolution of one remote identity: serve a fresh cache entry, else
//! fetch, store what was fetched, and fall back on a stale entry when the
//! fetch fails.

use crate::cache::{Lookup, LookupView};
use crate::config::Config;
use crate::protocol::{
    clone_outcome, fetch_error, outcome_view, Action, ActionView, Event, EventView, Outcome,
    OutcomeView, ResolveError, ResolveErrorView,
};
use crate::remote::{FetchOutcome, FetchOutcomeView};
use vstd::prelude::*;

verus! {

/// How far the resolution of an identity has come.
#[derive(Debug, PartialEq, Eq)]
pub enum Phase {
    /// The cache entry is being looked up.
    Looking,
    /// The keys are being fetched; `stale` is the text of the cache entry
    /// that has outlived its time to live, if there is one.
    Fetching { stale: Option<String> },
    /// The fetched text is being written to the cache.
    Storing { text: String },
    /// The resolution has ended.
    Done { outcome: Outcome },
}

/// The mathematical content of a [`Phase`].
pub enum PhaseView {
    Looking,
    Fetching { stale: Option<Seq<char>> },
    Storing { text: Seq<char> },
    Done { outcome: OutcomeView },
}

/// The content of an optional text.
pub open spec fn optional_text(text: Option<String>) -> Option<Seq<char>> {
    match text {
        Some(text) => Some(text@),
        None => None,
    }
}

impl View for Phase {
    type V = PhaseView;

    open spec fn view(&self) -> PhaseView {
        match self {
            Phase::Looking => PhaseView::Looking,
            Phase::Fetching { stale } => PhaseView::Fetching { stale: optional_text(*stale) },
            Phase::Storing { text } => PhaseView::Storing { text: text@ },
            Phase::Done { outcome } => PhaseView::Done { outcome: outcome_view(*outcome) },
        }
    }
}

impl PhaseView {
    /// The phase that follows the lookup. A fresh entry is served at once,
    /// and the remote service is not asked. A failure of the store ends the
    /// resolution. In every other case the keys are fetched.
    pub open spec fn after_lookup(ttl: nat, identity: Seq<char>, looked: LookupView) -> PhaseView {
        match looked {
            LookupView::Failed(reason) => PhaseView::Done {
                outcome: Err(ResolveErrorView::CacheUnreadable { identity, reason }),
            },
            LookupView::Found(entry) => if entry.is_fresh(ttl) {
                PhaseView::Done { outcome: Ok(entry.text) }
            } else {
                PhaseView::Fetching { stale: Some(entry.text) }
            },
            LookupView::Missing => PhaseView::Fetching { stale: None },
        }
    }

    /// The phase that follows the fetch. Fetched text is stored. Without
    /// it the stale entry is served, and where there is none either, the
    /// identity has no keys.
    pub open spec fn after_fetch(
        identity: Seq<char>,
        stale: Option<Seq<char>>,
        fetched: FetchOutcomeView,
    ) -> PhaseView {
        match fetched.usable_text() {
            Some(text) => PhaseView::Storing { text },
            None => match stale {
                Some(text) => PhaseView::Done { outcome: Ok(text) },
                None => PhaseView::Done { outcome: Err(fetch_error(identity, fetched)) },
            },
        }
    }
}

/// The resolution of one remote identity, as far as it has come.
#[derive(Debug, PartialEq, Eq)]
pub struct SingleResolver {
    /// Seconds for which a cached entry counts as fresh.
    pub ttl: u64,
    /// Seconds allowed for the fetch.
    pub timeout: u64,
    /// The remote identity.
    pub identity: String,
    /// How far the resolution has come.
    pub phase: Phase,
}

/// The mathematical content of a [`SingleResolver`].
pub struct SingleResolverView {
    pub ttl: nat,
    pub timeout: nat,
    pub identity: Seq<char>,
    pub phase: PhaseView,
}

impl View for SingleResolver {
    type V = SingleResolverView;

    open spec fn view(&self) -> SingleResolverView {
        SingleResolverView {
            ttl: self.ttl as nat,
            timeout: self.timeout as nat,
            identity: self.identity@,
            phase: self.phase@,
        }
    }
}

impl SingleResolverView {
    /// A resolution that has not asked for anything yet.
    pub open spec fn start(ttl: nat, timeout: nat, identity: Seq<char>) -> SingleResolverView {
        SingleResolverView { ttl, timeout, identity, phase: PhaseView::Looking }
    }

    /// The action that the resolution waits for.
    pub open spec fn action(self) -> ActionView {
        match self.phase {
            PhaseView::Looking => ActionView::Lookup { identity: self.identity },
            PhaseView::Fetching { stale } => ActionView::Fetch {
                identity: self.identity,
                timeout: self.timeout,
            },
            PhaseView::Storing { text } => ActionView::Write { identity: self.identity, text },
            PhaseView::Done { outcome } => ActionView::Finish { result: outcome },
        }
    }

    /// The resolution after `event`. An event that does not answer the
    /// pending action changes nothing. A write that failed changes nothing
    /// either: the fetched text is the answer of this run all the same.
    pub open spec fn step(self, event: EventView) -> SingleResolverView {
        let phase = match (self.phase, event) {
            (PhaseView::Looking, EventView::Looked(looked)) => PhaseView::after_lookup(
                self.ttl,
                self.identity,
                looked,
            ),
            (PhaseView::Fetching { stale }, EventView::Fetched(fetched)) => PhaseView::after_fetch(
                self.identity,
                stale,
                fetched,
            ),
            (PhaseView::Storing { text }, EventView::Written(_)) => PhaseView::Done {
                outcome: Ok(text),
            },
            (phase, _) => phase,
        };
        SingleResolverView { phase, ..self }
    }
}

/// The phase that follows the lookup.
fn after_lookup(ttl: u64, identity: &String, looked: Lookup) -> (phase: Phase)
    ensures
        phase@ == PhaseView::after_lookup(ttl as nat, identity@, looked@),
{
    match looked {
        Lookup::Failed(reason) => Phase::Done {
            outcome: Err(ResolveError::CacheUnreadable { identity: identity.clone(), reason }),
        },
        Lookup::Found(entry) => if entry.is_fresh(ttl) {
            Phase::Done { outcome: Ok(entry.text) }
        } else {
            Phase::Fetching { stale: Some(entry.text) }
        },
        Lookup::Missing => Phase::Fetching { stale: None },
    }
}

/// The phase that follows the fetch.
fn after_fetch(identity: &String, stale: Option<String>, fetched: FetchOutcome) -> (phase: Phase)
    ensures
        phase@ == PhaseView::after_fetch(identity@, optional_text(stale), fetched@),
{
    let error = match fetched {
        FetchOutcome::Text(text) => {
            if !text.as_str().is_empty() {
                return Phase::Storing { text };
            }
            ResolveError::FetchFailed {
                identity: identity.clone(),
                reason: "empty response body".to_owned(),
            }
        },
        FetchOutcome::NotFound => ResolveError::NotFound { identity: identity.clone() },
        FetchOutcome::TransientFailure(reason) => ResolveError::FetchFailed {
            identity: identity.clone(),
            reason,
        },
    };
    match stale {
        Some(text) => Phase::Done { outcome: Ok(text) },
        None => Phase::Done { outcome: Err(error) },
    }
}

impl SingleResolver {
    /// Begins the resolution of `identity` under the settings of `config`.
    pub fn start(config: &Config, identity: String) -> (resolver: Self)
        ensures
            resolver@ == SingleResolverView::start(config@.ttl, config@.timeout, identity@),
    {
        SingleResolver {
            ttl: config.ttl,
            timeout: config.timeout,
            identity,
            phase: Phase::Looking,
        }
    }

    /// The action that the resolution waits for.
    pub fn action(&self) -> (action: Action)
        ensures
            action@ == self@.action(),
    {
        match &self.phase {
            Phase::Looking => Action::Lookup { identity: self.identity.clone() },
            Phase::Fetching { .. } => Action::Fetch {
                identity: self.identity.clone(),
                timeout: self.timeout,
            },
            Phase::Storing { text } => Action::Write {
                identity: self.identity.clone(),
                text: text.clone(),
            },
            Phase::Done { outcome } => Action::Finish { result: clone_outcome(outcome) },
        }
    }

    /// The resolution after `event`, the answer to its pending action.
    pub fn step(self, event: Event) -> (next: Self)
        ensures
            next@ == self@.step(event@),
    {
        let SingleResolver { ttl, timeout, identity, phase } = self;
        let phase = match phase {
            Phase::Looking => match event {
                Event::Looked(looked) => after_lookup(ttl, &identity, looked),
                _ => Phase::Looking,
            },
            Phase::Fetching { stale } => match event {
                Event::Fetched(fetched) => after_fetch(&identity, stale, fetched),
                _ => Phase::Fetching { stale },
            },
            Phase::Storing { text } => match event {
                Event::Written(_) => Phase::Done { outcome: Ok(text) },
                _ => Phase::Storing { text },
            },
            Phase::Done { outcome } => Phase::Done { outcome },
        };
        SingleResolver { ttl, timeout, identity, phase }
    }

    /// The outcome, once the resolution has ended.
    pub fn outcome(&self) -> (ended: Option<Outcome>)
        ensures
            self@.phase is Done ==> ended is Some && outcome_view(ended->0)
                == self@.phase->outcome,
            !(self@.phase is Done) ==> ended is None,
    {
        match &self.phase {
            Phase::Done { outcome } => Some(clone_outcome(outcome)),
            _ => None,
        }
    }
}

} // verus!
