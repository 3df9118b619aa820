//! Whole runs. A resolver only decides; what it achieves shows when its
//! actions are carried out. This module models the cache store and the
//! remote service as a [`World`], runs the resolvers against it, and proves
//! what every such run does.

use crate::cache::{CacheEntryView, LookupView};
use crate::config::UserView;
use crate::protocol::{fetch_error, ActionView, EventView, OutcomeView, ResolveErrorView};
use crate::remote::FetchOutcomeView;
use crate::resolver::{is_fatal, spec_get_pubkey_for_user, ResolverView, StageView};
use crate::single::{PhaseView, SingleResolverView};
use vstd::prelude::*;

verus! {

/// The cache store and the remote service at one moment.
pub struct World {
    /// What the store answers to a lookup, for the identities it has an
    /// answer for; every other identity is missing.
    pub cache: Map<Seq<char>, LookupView>,
    /// What the remote service answers, for the identities it has an answer
    /// for; every other identity is unknown to it.
    pub remote: Map<Seq<char>, FetchOutcomeView>,
    /// Whether the store accepts writes.
    pub writable: bool,
}

impl World {
    /// The answer of the store to a lookup of `identity`.
    pub open spec fn lookup(self, identity: Seq<char>) -> LookupView {
        if self.cache.contains_key(identity) {
            self.cache[identity]
        } else {
            LookupView::Missing
        }
    }

    /// The answer of the remote service to a fetch for `identity`.
    pub open spec fn fetch(self, identity: Seq<char>) -> FetchOutcomeView {
        if self.remote.contains_key(identity) {
            self.remote[identity]
        } else {
            FetchOutcomeView::NotFound
        }
    }

    /// The world after an attempt to write `text` for `identity`: where the
    /// store accepts writes, the entry holds exactly that text and is new.
    pub open spec fn write(self, identity: Seq<char>, text: Seq<char>) -> World {
        if self.writable {
            World {
                cache: self.cache.insert(
                    identity,
                    LookupView::Found(CacheEntryView { text, age: 0 }),
                ),
                ..self
            }
        } else {
            self
        }
    }

    /// The event that answers `action`, and the world after the action.
    /// The last action of a resolver asks for nothing.
    pub open spec fn respond(self, action: ActionView) -> Option<(EventView, World)> {
        match action {
            ActionView::Lookup { identity } => Some((EventView::Looked(self.lookup(identity)), self)),
            ActionView::Fetch { identity, timeout } => Some(
                (EventView::Fetched(self.fetch(identity)), self),
            ),
            ActionView::Write { identity, text } => Some(
                (EventView::Written(self.writable), self.write(identity, text)),
            ),
            ActionView::Finish { .. } => None,
        }
    }
}

/// The outcome of a remote identity in `world`, and the world afterwards.
///
/// A fresh cache entry is the answer. Otherwise the keys are fetched: what
/// comes back is the answer and is written to the cache. When nothing
/// usable comes back, a stale entry is the answer, and without one the
/// identity has no keys. A store that cannot be read is a fatal error.
pub open spec fn resolve_one(ttl: nat, world: World, identity: Seq<char>) -> (OutcomeView, World) {
    let looked = world.lookup(identity);
    let fetched = world.fetch(identity);
    match looked {
        LookupView::Failed(reason) => (
            Err(ResolveErrorView::CacheUnreadable { identity, reason }),
            world,
        ),
        LookupView::Found(entry) => if entry.is_fresh(ttl) {
            (Ok(entry.text), world)
        } else {
            match fetched.usable_text() {
                Some(text) => (Ok(text), world.write(identity, text)),
                None => (Ok(entry.text), world),
            }
        },
        LookupView::Missing => match fetched.usable_text() {
            Some(text) => (Ok(text), world.write(identity, text)),
            None => (Err(fetch_error(identity, fetched)), world),
        },
    }
}

/// Whether the resolution of `identity` in `world` asks the remote service:
/// it does unless the cache holds a fresh entry or cannot be read.
pub open spec fn asks_remote(ttl: nat, world: World, identity: Seq<char>) -> bool {
    match world.lookup(identity) {
        LookupView::Failed(_) => false,
        LookupView::Found(entry) => !entry.is_fresh(ttl),
        LookupView::Missing => true,
    }
}

/// The actions that the resolution of `identity` in `world` asks for, in
/// order.
pub open spec fn requests_one(ttl: nat, timeout: nat, world: World, identity: Seq<char>) -> Seq<
    ActionView,
> {
    let lookup = ActionView::Lookup { identity };
    let fetch = ActionView::Fetch { identity, timeout };
    if !asks_remote(ttl, world, identity) {
        seq![lookup]
    } else {
        match world.fetch(identity).usable_text() {
            Some(text) => seq![lookup, fetch, ActionView::Write { identity, text }],
            None => seq![lookup, fetch],
        }
    }
}

/// A resolver of one identity in the middle of a run.
pub struct SingleRun {
    pub resolver: SingleResolverView,
    pub world: World,
    /// The actions carried out so far.
    pub requests: Seq<ActionView>,
}

impl SingleRun {
    /// The run before anything has happened.
    pub open spec fn start(ttl: nat, timeout: nat, world: World, identity: Seq<char>) -> SingleRun {
        SingleRun {
            resolver: SingleResolverView::start(ttl, timeout, identity),
            world,
            requests: Seq::empty(),
        }
    }

    /// The run after the pending action has been carried out and answered.
    /// A resolver that has ended stays as it is.
    pub open spec fn advance(self) -> SingleRun {
        let action = self.resolver.action();
        match self.world.respond(action) {
            Some((event, world)) => SingleRun {
                resolver: self.resolver.step(event),
                world,
                requests: self.requests.push(action),
            },
            None => self,
        }
    }

    /// The run at its end. No resolution of one identity asks for more than
    /// a lookup, a fetch and a write.
    pub open spec fn complete(self) -> SingleRun {
        self.advance().advance().advance()
    }
}

/// The complete run of a resolver of one identity ends with the outcome
/// that [`resolve_one`] describes, leaves the world as it describes, and
/// has asked for the actions of [`requests_one`] and no others.
pub proof fn lemma_single_run(ttl: nat, timeout: nat, world: World, identity: Seq<char>)
    ensures
        ({
            let end = SingleRun::start(ttl, timeout, world, identity).complete();
            let (outcome, after) = resolve_one(ttl, world, identity);
            &&& end.resolver == (SingleResolverView {
                phase: PhaseView::Done { outcome },
                ..SingleResolverView::start(ttl, timeout, identity)
            })
            &&& end.world == after
            &&& end.requests == requests_one(ttl, timeout, world, identity)
        }),
{
}

/// The outcomes of the identities of `user` from position `settled.len()`
/// on, after those of the identities before it, and the world afterwards.
/// The identities are resolved one after the other, in mapping order, each
/// in the world that the one before it left; a fatal error is the last
/// outcome.
pub open spec fn resolve_from(ttl: nat, world: World, user: UserView, settled: Seq<OutcomeView>) -> (
    Seq<OutcomeView>,
    World,
)
    decreases user.identities().len() - settled.len(),
{
    if settled.len() >= user.identities().len() {
        (settled, world)
    } else {
        let (outcome, after) = resolve_one(ttl, world, user.identities()[settled.len() as int]);
        if is_fatal(outcome) {
            (settled.push(outcome), after)
        } else {
            resolve_from(ttl, after, user, settled.push(outcome))
        }
    }
}

/// The key text of an account mapped to `user` in `world`, and the world
/// afterwards.
pub open spec fn resolve(ttl: nat, world: World, user: UserView) -> (OutcomeView, World) {
    let (outcomes, after) = resolve_from(ttl, world, user, Seq::empty());
    (spec_get_pubkey_for_user(user, outcomes), after)
}

/// An upper bound on the number of actions that a resolver still asks for.
pub open spec fn budget(resolver: ResolverView) -> nat {
    match resolver.stage {
        StageView::Finished { .. } => 0,
        StageView::Resolving { current } => {
            let left = resolver.user.identities().len() - resolver.outcomes.len();
            let spent: int = match current.phase {
                PhaseView::Looking => 0,
                PhaseView::Fetching { .. } => 1,
                PhaseView::Storing { .. } => 2,
                PhaseView::Done { .. } => 3,
            };
            if left > 0 {
                (3 * left - spent) as nat
            } else {
                0
            }
        },
    }
}

/// A resolver of an account in the middle of a run.
pub struct Run {
    pub resolver: ResolverView,
    pub world: World,
}

impl Run {
    /// The run before anything has happened.
    pub open spec fn start(ttl: nat, timeout: nat, world: World, user: UserView) -> Run {
        Run { resolver: ResolverView::start(ttl, timeout, user), world }
    }

    /// The run after the pending action has been carried out and answered.
    /// A resolver that has ended stays as it is.
    pub open spec fn advance(self) -> Run {
        match self.world.respond(self.resolver.action()) {
            Some((event, world)) => Run { resolver: self.resolver.step(event), world },
            None => self,
        }
    }

    /// The run at its end: the pending action is carried out and answered
    /// until the resolver has ended. It would also stop at an action that
    /// brings the resolver no closer to its end, but a well-formed resolver
    /// asks for none.
    pub open spec fn complete(self) -> Run
        decreases budget(self.resolver),
    {
        if self.resolver.stage is Finished {
            self
        } else {
            let next = self.advance();
            if budget(next.resolver) < budget(self.resolver) {
                next.complete()
            } else {
                self
            }
        }
    }
}

/// A run that has taken up an identity goes on as the run in which that
/// identity is settled with the outcome that [`resolve_one`] describes, in
/// the world that it describes.
proof fn lemma_round(ttl: nat, timeout: nat, world: World, user: UserView, settled: Seq<OutcomeView>)
    requires
        settled.len() < user.identities().len(),
    ensures
        ({
            let (outcome, after) = resolve_one(
                ttl,
                world,
                user.identities()[settled.len() as int],
            );
            (Run {
                resolver: ResolverView::proceed(ttl, timeout, user, settled),
                world,
            }).complete() == (Run {
                resolver: ResolverView::settle(ttl, timeout, user, settled, outcome),
                world: after,
            }).complete()
        }),
{
    let identity = user.identities()[settled.len() as int];
    let begun = Run { resolver: ResolverView::proceed(ttl, timeout, user, settled), world };
    let looked = begun.advance();
    assert(begun.complete() == looked.complete());
    if asks_remote(ttl, world, identity) {
        let fetched = looked.advance();
        assert(looked.complete() == fetched.complete());
        if world.fetch(identity).usable_text() is Some {
            assert(fetched.complete() == fetched.advance().complete());
        }
    }
}

/// The complete run of a resolver that has settled the first identities of
/// an account ends as [`resolve_from`] describes.
proof fn lemma_run_from(
    ttl: nat,
    timeout: nat,
    world: World,
    user: UserView,
    settled: Seq<OutcomeView>,
)
    ensures
        ({
            let (outcomes, after) = resolve_from(ttl, world, user, settled);
            (Run {
                resolver: ResolverView::proceed(ttl, timeout, user, settled),
                world,
            }).complete() == (Run {
                resolver: ResolverView {
                    ttl,
                    timeout,
                    user,
                    outcomes,
                    stage: StageView::Finished {
                        result: spec_get_pubkey_for_user(user, outcomes),
                    },
                },
                world: after,
            })
        }),
    decreases user.identities().len() - settled.len(),
{
    if settled.len() < user.identities().len() {
        let (outcome, after) = resolve_one(ttl, world, user.identities()[settled.len() as int]);
        lemma_round(ttl, timeout, world, user, settled);
        if !is_fatal(outcome) {
            lemma_run_from(ttl, timeout, after, user, settled.push(outcome));
        }
    }
}

/// The complete run of a resolver of an account ends with the result that
/// [`resolve`] describes and leaves the world as it describes.
pub proof fn lemma_run(ttl: nat, timeout: nat, world: World, user: UserView)
    ensures
        ({
            let end = Run::start(ttl, timeout, world, user).complete();
            let (result, after) = resolve(ttl, world, user);
            &&& end.resolver.stage == StageView::Finished { result }
            &&& end.world == after
        }),
{
    lemma_run_from(ttl, timeout, world, user, Seq::empty());
}

} // verus!
