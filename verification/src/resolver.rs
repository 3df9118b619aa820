//! The resolution of a local account: each mapped identity in mapping
//! order, and the key texts of those that succeeded joined into one.

use crate::config::{Config, User, UserView};
use crate::join::{join, joined, texts};
use crate::protocol::{
    clone_outcome, outcome_view, outcome_views, Action, ActionView, Event, EventView, Outcome,
    OutcomeView, ResolveErrorView,
};
use crate::single::{Phase, PhaseView, SingleResolver, SingleResolverView};
use vstd::prelude::*;

verus! {

/// Whether `outcome` is a fatal error. Such an outcome ends the resolution
/// of the account at once.
pub open spec fn is_fatal(outcome: OutcomeView) -> bool {
    outcome matches Err(error) && error.is_fatal()
}

/// The first fatal error among the outcomes, if there is one.
pub open spec fn first_fatal(outcomes: Seq<OutcomeView>) -> Option<ResolveErrorView>
    decreases outcomes.len(),
{
    if outcomes.len() == 0 {
        None
    } else {
        match first_fatal(outcomes.drop_last()) {
            Some(error) => Some(error),
            None => match outcomes.last() {
                Err(error) => if error.is_fatal() {
                    Some(error)
                } else {
                    None
                },
                Ok(_) => None,
            },
        }
    }
}

/// The key texts among the outcomes, in order.
pub open spec fn successes(outcomes: Seq<OutcomeView>) -> Seq<Seq<char>>
    decreases outcomes.len(),
{
    if outcomes.len() == 0 {
        Seq::empty()
    } else {
        match outcomes.last() {
            Ok(text) => successes(outcomes.drop_last()).push(text),
            Err(_) => successes(outcomes.drop_last()),
        }
    }
}

/// The key text of an account whose identities have the given outcomes, in
/// mapping order.
///
/// An account mapped to a single identity has the outcome of that identity,
/// as it is, text or error (and the empty text should there be no outcome).
/// An account mapped to a list has the texts of the identities that
/// succeeded, in order, with one newline between each two; identities that
/// failed are left out, so that the text is empty when all of them failed.
/// Only a fatal error among the outcomes of a list makes its result an
/// error: the first one.
pub open spec fn spec_get_pubkey_for_user(user: UserView, outcomes: Seq<OutcomeView>) -> OutcomeView {
    match user {
        UserView::Single(_) => if outcomes.len() > 0 {
            outcomes[0]
        } else {
            Ok(Seq::empty())
        },
        UserView::List(_) => match first_fatal(outcomes) {
            Some(error) => Err(error),
            None => Ok(joined(successes(outcomes), seq!['\n'])),
        },
    }
}

/// A fatal error that follows outcomes without one is the first, whatever
/// follows it.
pub proof fn lemma_first_fatal_at(outcomes: Seq<OutcomeView>, index: int)
    requires
        0 <= index < outcomes.len(),
        first_fatal(outcomes.take(index)) is None,
        is_fatal(outcomes[index]),
    ensures
        first_fatal(outcomes) == Some(outcomes[index]->Err_0),
    decreases outcomes.len(),
{
    if index < outcomes.len() - 1 {
        assert(outcomes.drop_last().take(index) =~= outcomes.take(index));
        lemma_first_fatal_at(outcomes.drop_last(), index);
    } else {
        assert(outcomes.drop_last() =~= outcomes.take(index));
    }
}

/// A resolver that has not asked for anything yet is well formed.
pub proof fn lemma_start_wf(ttl: nat, timeout: nat, user: UserView)
    ensures
        ResolverView::start(ttl, timeout, user).wf(),
{
}

/// Whatever event a well-formed resolver is given, it stays well formed.
pub proof fn lemma_step_wf(resolver: ResolverView, event: EventView)
    requires
        resolver.wf(),
    ensures
        resolver.step(event).wf(),
{
    if let StageView::Resolving { current } = resolver.stage {
        if let PhaseView::Done { outcome } = current.step(event).phase {
            assert(resolver.outcomes.push(outcome).drop_last() =~= resolver.outcomes);
        }
    }
}

/// The key text of an account from the outcomes of its identities, given
/// in mapping order.
pub fn get_pubkey_for_user(user: &User, outcomes: &Vec<Outcome>) -> (result: Outcome)
    ensures
        outcome_view(result) == spec_get_pubkey_for_user(user@, outcome_views(outcomes@)),
{
    let ghost all = outcome_views(outcomes@);
    if user.is_single() {
        return if outcomes.len() > 0 {
            clone_outcome(&outcomes[0])
        } else {
            Ok(String::new())
        };
    }
    let mut kept: Vec<String> = Vec::new();
    let mut i: usize = 0;
    while i < outcomes.len()
        invariant
            i <= outcomes.len(),
            user@ is List,
            all == outcome_views(outcomes@),
            first_fatal(all.take(i as int)) is None,
            texts(kept@) == successes(all.take(i as int)),
        decreases outcomes.len() - i,
    {
        proof {
            assert(all.take(i + 1).drop_last() =~= all.take(i as int));
        }
        match &outcomes[i] {
            Ok(text) => kept.push(text.clone()),
            Err(error) => if error.is_fatal() {
                proof {
                    lemma_first_fatal_at(all, i as int);
                }
                return Err(error.clone());
            },
        }
        i += 1;
    }
    proof {
        assert(all.take(outcomes.len() as int) =~= all);
        reveal_strlit("\n");
        assert("\n"@ =~= seq!['\n']);
    }
    Ok(join(kept, "\n"))
}

/// How far the resolution of an account has come.
#[derive(Debug, PartialEq, Eq)]
pub enum Stage {
    /// An identity is being resolved.
    Resolving { current: SingleResolver },
    /// The resolution has ended.
    Finished { result: Outcome },
}

/// The mathematical content of a [`Stage`].
pub enum StageView {
    Resolving { current: SingleResolverView },
    Finished { result: OutcomeView },
}

impl View for Stage {
    type V = StageView;

    open spec fn view(&self) -> StageView {
        match self {
            Stage::Resolving { current } => StageView::Resolving { current: current@ },
            Stage::Finished { result } => StageView::Finished { result: outcome_view(*result) },
        }
    }
}

/// The resolution of a local account, as far as it has come.
#[derive(Debug, PartialEq, Eq)]
pub struct Resolver {
    /// Seconds for which a cached entry counts as fresh.
    pub ttl: u64,
    /// Seconds allowed for one fetch.
    pub timeout: u64,
    /// What the account is mapped to.
    pub user: User,
    /// The outcomes of the identities resolved so far, in mapping order.
    pub outcomes: Vec<Outcome>,
    /// How far the resolution has come.
    pub stage: Stage,
}

/// The mathematical content of a [`Resolver`].
pub struct ResolverView {
    pub ttl: nat,
    pub timeout: nat,
    pub user: UserView,
    pub outcomes: Seq<OutcomeView>,
    pub stage: StageView,
}

impl View for Resolver {
    type V = ResolverView;

    open spec fn view(&self) -> ResolverView {
        ResolverView {
            ttl: self.ttl as nat,
            timeout: self.timeout as nat,
            user: self.user@,
            outcomes: outcome_views(self.outcomes@),
            stage: self.stage@,
        }
    }
}

/// What a local account is mapped to. An account that the mapping does not
/// name has no identities, and so no keys.
pub open spec fn mapped(user_map: Map<Seq<char>, UserView>, local_name: Seq<char>) -> UserView {
    if user_map.contains_key(local_name) {
        user_map[local_name]
    } else {
        UserView::List(Seq::empty())
    }
}

impl ResolverView {
    /// The resolution once `outcomes` are known and the last of them does
    /// not end it: the next identity is taken up, or, where none is left,
    /// the resolution ends with the key text of the account.
    pub open spec fn proceed(
        ttl: nat,
        timeout: nat,
        user: UserView,
        outcomes: Seq<OutcomeView>,
    ) -> ResolverView {
        let stage = if outcomes.len() < user.identities().len() {
            StageView::Resolving {
                current: SingleResolverView::start(
                    ttl,
                    timeout,
                    user.identities()[outcomes.len() as int],
                ),
            }
        } else {
            StageView::Finished { result: spec_get_pubkey_for_user(user, outcomes) }
        };
        ResolverView { ttl, timeout, user, outcomes, stage }
    }

    /// A resolution that has not asked for anything yet.
    pub open spec fn start(ttl: nat, timeout: nat, user: UserView) -> ResolverView {
        Self::proceed(ttl, timeout, user, Seq::empty())
    }

    /// The resolution once the identity in hand has ended with `outcome`,
    /// after the identities before it have ended with `settled`. A fatal
    /// error ends the resolution at once: the identities after it are not
    /// taken up.
    pub open spec fn settle(
        ttl: nat,
        timeout: nat,
        user: UserView,
        settled: Seq<OutcomeView>,
        outcome: OutcomeView,
    ) -> ResolverView {
        let outcomes = settled.push(outcome);
        if is_fatal(outcome) {
            ResolverView {
                ttl,
                timeout,
                user,
                outcomes,
                stage: StageView::Finished { result: spec_get_pubkey_for_user(user, outcomes) },
            }
        } else {
            Self::proceed(ttl, timeout, user, outcomes)
        }
    }

    /// A resolver is well formed when its stage fits its outcomes. While an
    /// identity is being resolved, it is the first that has no outcome yet,
    /// under the settings of the account, and no outcome so far is a fatal
    /// error. Once the resolution has ended, its result is the key text of
    /// the account for the outcomes at hand, and either every identity has
    /// its outcome or a fatal error has ended the resolution.
    pub open spec fn wf(self) -> bool {
        let identities = self.user.identities();
        match self.stage {
            StageView::Resolving { current } => {
                &&& self.outcomes.len() < identities.len()
                &&& first_fatal(self.outcomes) is None
                &&& current.ttl == self.ttl
                &&& current.timeout == self.timeout
                &&& current.identity == identities[self.outcomes.len() as int]
                &&& !(current.phase is Done)
            },
            StageView::Finished { result } => {
                &&& self.outcomes.len() <= identities.len()
                &&& result == spec_get_pubkey_for_user(self.user, self.outcomes)
                &&& (self.outcomes.len() == identities.len() || first_fatal(self.outcomes) is Some)
            },
        }
    }

    /// The action that the resolution waits for.
    pub open spec fn action(self) -> ActionView {
        match self.stage {
            StageView::Resolving { current } => current.action(),
            StageView::Finished { result } => ActionView::Finish { result },
        }
    }

    /// The resolution after `event`. The event goes to the identity in
    /// hand; when that identity has ended, its outcome is settled.
    pub open spec fn step(self, event: EventView) -> ResolverView {
        match self.stage {
            StageView::Finished { .. } => self,
            StageView::Resolving { current } => {
                let next = current.step(event);
                match next.phase {
                    PhaseView::Done { outcome } => Self::settle(
                        self.ttl,
                        self.timeout,
                        self.user,
                        self.outcomes,
                        outcome,
                    ),
                    _ => ResolverView { stage: StageView::Resolving { current: next }, ..self },
                }
            },
        }
    }
}

impl Resolver {
    /// The resolution once `outcomes` are known and the last of them does
    /// not end it.
    fn proceed(ttl: u64, timeout: u64, user: User, outcomes: Vec<Outcome>) -> (resolver: Self)
        ensures
            resolver@ == ResolverView::proceed(
                ttl as nat,
                timeout as nat,
                user@,
                outcome_views(outcomes@),
            ),
    {
        let stage = match user.identity(outcomes.len()) {
            Some(identity) => Stage::Resolving {
                current: SingleResolver {
                    ttl,
                    timeout,
                    identity: identity.clone(),
                    phase: Phase::Looking,
                },
            },
            None => Stage::Finished { result: get_pubkey_for_user(&user, &outcomes) },
        };
        Resolver { ttl, timeout, user, outcomes, stage }
    }

    /// The resolution once the identity in hand has ended with `outcome`,
    /// after the identities before it have ended with `settled`.
    fn settle(ttl: u64, timeout: u64, user: User, settled: Vec<Outcome>, outcome: Outcome) -> (next:
        Self)
        ensures
            next@ == ResolverView::settle(
                ttl as nat,
                timeout as nat,
                user@,
                outcome_views(settled@),
                outcome_view(outcome),
            ),
    {
        let mut outcomes = settled;
        let fatal = match &outcome {
            Ok(_) => false,
            Err(error) => error.is_fatal(),
        };
        let ghost before = outcome_views(outcomes@);
        outcomes.push(outcome);
        assert(outcome_views(outcomes@) =~= before.push(outcome_view(outcome)));
        if fatal {
            let result = get_pubkey_for_user(&user, &outcomes);
            Resolver { ttl, timeout, user, outcomes, stage: Stage::Finished { result } }
        } else {
            Self::proceed(ttl, timeout, user, outcomes)
        }
    }

    /// Begins the resolution of what an account is mapped to.
    pub fn for_user(config: &Config, user: User) -> (resolver: Self)
        ensures
            resolver@ == ResolverView::start(config@.ttl, config@.timeout, user@),
            resolver@.wf(),
    {
        proof {
            lemma_start_wf(config@.ttl, config@.timeout, user@);
        }
        let outcomes: Vec<Outcome> = Vec::new();
        assert(outcome_views(outcomes@) =~= Seq::empty());
        Self::proceed(config.ttl, config.timeout, user, outcomes)
    }

    /// Begins the resolution of the account `local_name`. An account that
    /// the mapping does not name resolves to no keys, which is no error.
    pub fn start(config: &Config, local_name: &str) -> (resolver: Self)
        ensures
            resolver@ == ResolverView::start(
                config@.ttl,
                config@.timeout,
                mapped(config@.user_map, local_name@),
            ),
            resolver@.wf(),
    {
        match config.lookup(local_name) {
            Some(user) => Self::for_user(config, user.clone()),
            None => {
                let none: Vec<String> = Vec::new();
                assert(texts(none@) =~= Seq::empty());
                Self::for_user(config, User::List(none))
            },
        }
    }

    /// The action that the resolution waits for.
    pub fn action(&self) -> (action: Action)
        ensures
            action@ == self@.action(),
    {
        match &self.stage {
            Stage::Resolving { current } => current.action(),
            Stage::Finished { result } => Action::Finish { result: clone_outcome(result) },
        }
    }

    /// The resolution after `event`, the answer to its pending action.
    pub fn step(self, event: Event) -> (next: Self)
        ensures
            next@ == self@.step(event@),
            self@.wf() ==> next@.wf(),
    {
        proof {
            if self@.wf() {
                lemma_step_wf(self@, event@);
            }
        }
        let Resolver { ttl, timeout, user, outcomes, stage } = self;
        match stage {
            Stage::Finished { result } => Resolver {
                ttl,
                timeout,
                user,
                outcomes,
                stage: Stage::Finished { result },
            },
            Stage::Resolving { current } => {
                let SingleResolver { ttl: one_ttl, timeout: one_timeout, identity, phase } =
                    current.step(event);
                match phase {
                    Phase::Done { outcome } => Self::settle(ttl, timeout, user, outcomes, outcome),
                    phase => Resolver {
                        ttl,
                        timeout,
                        user,
                        outcomes,
                        stage: Stage::Resolving {
                            current: SingleResolver {
                                ttl: one_ttl,
                                timeout: one_timeout,
                                identity,
                                phase,
                            },
                        },
                    },
                }
            },
        }
    }

    /// The result, once the resolution has ended.
    pub fn result(&self) -> (ended: Option<Outcome>)
        ensures
            self@.stage is Finished ==> ended is Some && outcome_view(ended->0)
                == self@.stage->result,
            self@.stage is Resolving ==> ended is None,
    {
        match &self.stage {
            Stage::Finished { result } => Some(clone_outcome(result)),
            _ => None,
        }
    }
}

} // verus!
