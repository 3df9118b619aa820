//! What holds of every resolution, proved of the complete runs of the
//! resolvers against every world.

use crate::cache::{CacheEntryView, LookupView};
use crate::config::UserView;
use crate::join::joined;
use crate::protocol::{fetch_error, ActionView, OutcomeView, ResolveErrorView};
use crate::resolver::{
    first_fatal, lemma_step_wf, mapped, spec_get_pubkey_for_user, successes, ResolverView,
    StageView,
};
use crate::single::PhaseView;
use crate::world::{
    asks_remote, budget, lemma_run, lemma_single_run, resolve_from, resolve_one, Run, SingleRun,
    World,
};
use vstd::prelude::*;

verus! {

/// An identity whose cache entry is fresh is answered from the cache: the
/// run asks for the lookup and for nothing else, so the remote service is
/// never asked, and the cache stays as it is.
pub proof fn fresh_entry_is_served_without_fetch(
    ttl: nat,
    timeout: nat,
    world: World,
    identity: Seq<char>,
    entry: CacheEntryView,
)
    requires
        world.lookup(identity) == LookupView::Found(entry),
        entry.is_fresh(ttl),
    ensures
        ({
            let end = SingleRun::start(ttl, timeout, world, identity).complete();
            &&& end.resolver.phase == PhaseView::Done { outcome: Ok(entry.text) }
            &&& end.requests == seq![ActionView::Lookup { identity }]
            &&& forall|i: int| 0 <= i < end.requests.len() ==> !(end.requests[i] is Fetch)
            &&& end.world == world
        }),
{
    lemma_single_run(ttl, timeout, world, identity);
}

/// An identity without a cache entry whose fetch succeeds is answered with
/// the fetched text, and afterwards the cache holds exactly that text in
/// an entry of age zero, provided that the store accepts the write.
pub proof fn fetched_text_is_cached(
    ttl: nat,
    timeout: nat,
    world: World,
    identity: Seq<char>,
    text: Seq<char>,
)
    requires
        world.lookup(identity) is Missing,
        world.fetch(identity).usable_text() == Some(text),
        world.writable,
    ensures
        ({
            let end = SingleRun::start(ttl, timeout, world, identity).complete();
            &&& end.resolver.phase == PhaseView::Done { outcome: Ok(text) }
            &&& end.world.lookup(identity) == LookupView::Found(CacheEntryView { text, age: 0 })
        }),
{
    lemma_single_run(ttl, timeout, world, identity);
}

/// A store that refuses the write does not take the answer away: the
/// fetched text is the outcome all the same, and the store stays as it is.
pub proof fn failed_write_keeps_fetched_text(
    ttl: nat,
    timeout: nat,
    world: World,
    identity: Seq<char>,
    text: Seq<char>,
)
    requires
        asks_remote(ttl, world, identity),
        world.fetch(identity).usable_text() == Some(text),
        !world.writable,
    ensures
        ({
            let end = SingleRun::start(ttl, timeout, world, identity).complete();
            &&& end.resolver.phase == PhaseView::Done { outcome: Ok(text) }
            &&& end.world == world
        }),
{
    lemma_single_run(ttl, timeout, world, identity);
}

/// An identity whose cache entry is stale and whose fetch fails is
/// answered with the stale text, not with an error.
pub proof fn stale_entry_outlasts_failed_fetch(
    ttl: nat,
    timeout: nat,
    world: World,
    identity: Seq<char>,
    entry: CacheEntryView,
)
    requires
        world.lookup(identity) == LookupView::Found(entry),
        !entry.is_fresh(ttl),
        world.fetch(identity).usable_text() is None,
    ensures
        ({
            let end = SingleRun::start(ttl, timeout, world, identity).complete();
            &&& end.resolver.phase == PhaseView::Done { outcome: Ok(entry.text) }
            &&& end.world == world
        }),
{
    lemma_single_run(ttl, timeout, world, identity);
}

/// An identity without a cache entry whose fetch fails has no usable text:
/// its outcome is the error of the fetch, and nothing is written.
pub proof fn no_entry_and_failed_fetch_give_no_text(
    ttl: nat,
    timeout: nat,
    world: World,
    identity: Seq<char>,
)
    requires
        world.lookup(identity) is Missing,
        world.fetch(identity).usable_text() is None,
    ensures
        ({
            let end = SingleRun::start(ttl, timeout, world, identity).complete();
            &&& end.resolver.phase == PhaseView::Done {
                outcome: Err(fetch_error(identity, world.fetch(identity))),
            }
            &&& !fetch_error(identity, world.fetch(identity)).is_fatal()
            &&& end.world == world
        }),
{
    lemma_single_run(ttl, timeout, world, identity);
}

/// Resolving an identity twice in a row, where the first resolution
/// fetched the keys and wrote them to the cache, gives the same text both
/// times, and the second resolution takes it from the cache without asking
/// the remote service.
pub proof fn second_resolution_serves_the_cache(
    ttl: nat,
    timeout: nat,
    world: World,
    identity: Seq<char>,
    text: Seq<char>,
)
    requires
        asks_remote(ttl, world, identity),
        world.fetch(identity).usable_text() == Some(text),
        world.writable,
    ensures
        ({
            let first = SingleRun::start(ttl, timeout, world, identity).complete();
            let second = SingleRun::start(ttl, timeout, first.world, identity).complete();
            &&& first.requests == seq![
                ActionView::Lookup { identity },
                ActionView::Fetch { identity, timeout },
                ActionView::Write { identity, text },
            ]
            &&& first.resolver.phase == PhaseView::Done { outcome: Ok(text) }
            &&& second.resolver.phase == first.resolver.phase
            &&& second.requests == seq![ActionView::Lookup { identity }]
            &&& second.world == first.world
        }),
{
    lemma_single_run(ttl, timeout, world, identity);
    let first = SingleRun::start(ttl, timeout, world, identity).complete();
    lemma_single_run(ttl, timeout, first.world, identity);
}

/// A failing remote service never stands in the way of an answer that the
/// cache can give: an identity with a cache entry, fresh or stale, always
/// has a text, either what was fetched or what the entry holds.
pub proof fn cached_identity_always_has_a_text(
    ttl: nat,
    timeout: nat,
    world: World,
    identity: Seq<char>,
    entry: CacheEntryView,
)
    requires
        world.lookup(identity) == LookupView::Found(entry),
    ensures
        ({
            let end = SingleRun::start(ttl, timeout, world, identity).complete();
            let fetched = world.fetch(identity).usable_text();
            &&& end.resolver.phase matches PhaseView::Done { outcome: Ok(text) }
            &&& text == entry.text || (!entry.is_fresh(ttl) && fetched == Some(text))
        }),
{
    lemma_single_run(ttl, timeout, world, identity);
}

/// The remote service is asked at most once for an identity: a fetch that
/// failed is not tried again.
pub proof fn identity_is_fetched_at_most_once(
    ttl: nat,
    timeout: nat,
    world: World,
    identity: Seq<char>,
)
    ensures
        ({
            let end = SingleRun::start(ttl, timeout, world, identity).complete();
            forall|i: int, j: int|
                0 <= i < end.requests.len() && 0 <= j < end.requests.len()
                    && end.requests[i] is Fetch && end.requests[j] is Fetch ==> i == j
        }),
{
    lemma_single_run(ttl, timeout, world, identity);
}

/// Whatever a well-formed resolver asks for concerns the identity in hand,
/// the first of the account that has no outcome yet, and no other; and a
/// fetch is given the timeout of the account.
pub proof fn action_concerns_the_identity_in_hand(resolver: ResolverView)
    requires
        resolver.wf(),
        resolver.stage is Resolving,
    ensures
        ({
            let identity = resolver.user.identities()[resolver.outcomes.len() as int];
            match resolver.action() {
                ActionView::Lookup { identity: asked } => asked == identity,
                ActionView::Fetch { identity: asked, timeout } => asked == identity && timeout
                    == resolver.timeout,
                ActionView::Write { identity: asked, .. } => asked == identity,
                ActionView::Finish { .. } => false,
            }
        }),
{
}

/// An account mapped to a single identity resolves to the outcome of that
/// identity, unchanged, whether it is a text or an error.
pub proof fn single_identity_is_resolved_verbatim(
    ttl: nat,
    timeout: nat,
    world: World,
    identity: Seq<char>,
)
    ensures
        ({
            let end = Run::start(ttl, timeout, world, UserView::Single(identity)).complete();
            let (outcome, after) = resolve_one(ttl, world, identity);
            &&& end.resolver.stage == StageView::Finished { result: outcome }
            &&& end.world == after
        }),
{
    let user = UserView::Single(identity);
    lemma_run(ttl, timeout, world, user);
    reveal_with_fuel(resolve_from, 2);
}

/// An account mapped to a single identity that has no cache entry and
/// whose fetch fails ends in an error, not in an empty text.
pub proof fn single_identity_failure_is_reported(
    ttl: nat,
    timeout: nat,
    world: World,
    identity: Seq<char>,
)
    requires
        world.lookup(identity) is Missing,
        world.fetch(identity).usable_text() is None,
    ensures
        Run::start(ttl, timeout, world, UserView::Single(identity)).complete().resolver.stage
            == (StageView::Finished {
            result: Err(fetch_error(identity, world.fetch(identity))),
        }),
{
    single_identity_is_resolved_verbatim(ttl, timeout, world, identity);
}

/// An account mapped to the list `[a, b, c]`, of which `a` and `c` yield a
/// text and `b` fails without a fatal error, resolves to the text of `a`,
/// a newline and the text of `c`: mapping order is kept and `b` is left
/// out.
pub proof fn failed_identity_is_left_out(
    ttl: nat,
    timeout: nat,
    world: World,
    a: Seq<char>,
    b: Seq<char>,
    c: Seq<char>,
)
    requires
        ({
            let (first, after_a) = resolve_one(ttl, world, a);
            let (second, after_b) = resolve_one(ttl, after_a, b);
            let (third, after_c) = resolve_one(ttl, after_b, c);
            &&& first is Ok
            &&& second is Err
            &&& !second->Err_0.is_fatal()
            &&& third is Ok
        }),
    ensures
        ({
            let (first, after_a) = resolve_one(ttl, world, a);
            let (second, after_b) = resolve_one(ttl, after_a, b);
            let (third, after_c) = resolve_one(ttl, after_b, c);
            let end = Run::start(ttl, timeout, world, UserView::List(seq![a, b, c])).complete();
            &&& end.resolver.stage == StageView::Finished {
                result: Ok(first->Ok_0 + seq!['\n'] + third->Ok_0),
            }
            &&& end.world == after_c
        }),
{
    let user = UserView::List(seq![a, b, c]);
    let (first, after_a) = resolve_one(ttl, world, a);
    let (second, after_b) = resolve_one(ttl, after_a, b);
    let (third, after_c) = resolve_one(ttl, after_b, c);
    lemma_run(ttl, timeout, world, user);
    let none = Seq::<OutcomeView>::empty();
    let outcomes = seq![first, second, third];
    assert(none.push(first).push(second).push(third) =~= outcomes);
    reveal_with_fuel(resolve_from, 4);
    lemma_three_outcomes(user, first, second, third);
}

/// The key text of a list of three identities of which the second failed
/// without a fatal error.
proof fn lemma_three_outcomes(
    user: UserView,
    first: OutcomeView,
    second: OutcomeView,
    third: OutcomeView,
)
    requires
        user is List,
        first is Ok,
        second is Err,
        !second->Err_0.is_fatal(),
        third is Ok,
    ensures
        spec_get_pubkey_for_user(user, seq![first, second, third]) == Ok::<
            Seq<char>,
            ResolveErrorView,
        >(first->Ok_0 + seq!['\n'] + third->Ok_0),
{
    let three = seq![first, second, third];
    let two = seq![first, second];
    let one = seq![first];
    assert(three.drop_last() =~= two);
    assert(two.drop_last() =~= one);
    assert(first_fatal(one.drop_last()) is None);
    assert(successes(one.drop_last()) =~= Seq::empty());
    assert(first_fatal(one) is None);
    assert(first_fatal(two) is None);
    assert(successes(one) =~= seq![first->Ok_0]);
    assert(successes(two) =~= seq![first->Ok_0]);
    let texts = seq![first->Ok_0, third->Ok_0];
    assert(successes(three) =~= texts);
    assert(joined(texts.drop_last(), seq!['\n']) == first->Ok_0);
}

/// An account that the mapping does not name resolves to the empty text,
/// with success: the resolver has ended before it asks for anything, and
/// the world stays as it is.
pub proof fn unmapped_account_has_no_keys(
    ttl: nat,
    timeout: nat,
    world: World,
    user_map: Map<Seq<char>, UserView>,
    local_name: Seq<char>,
)
    requires
        !user_map.contains_key(local_name),
    ensures
        ({
            let begun = ResolverView::start(ttl, timeout, mapped(user_map, local_name));
            let end = Run::start(ttl, timeout, world, mapped(user_map, local_name)).complete();
            &&& begun.stage == StageView::Finished { result: Ok(Seq::empty()) }
            &&& begun.action() == ActionView::Finish { result: Ok(Seq::empty()) }
            &&& end.resolver == begun
            &&& end.world == world
        }),
{
}

/// A list of identities never ends in the failure of a fetch: whatever the
/// remote service answers, the account resolves to a text, possibly empty,
/// unless the cache store cannot be read.
pub proof fn list_absorbs_failed_fetches(
    ttl: nat,
    timeout: nat,
    world: World,
    identities: Seq<Seq<char>>,
)
    ensures
        ({
            let end = Run::start(ttl, timeout, world, UserView::List(identities)).complete();
            end.resolver.stage matches StageView::Finished { result: Err(error) }
                ==> error.is_fatal()
        }),
{
    let user = UserView::List(identities);
    lemma_run(ttl, timeout, world, user);
    let (outcomes, after) = resolve_from(ttl, world, user, Seq::empty());
    lemma_first_fatal_is_fatal(outcomes);
}

/// The first fatal error among the outcomes is a fatal error.
proof fn lemma_first_fatal_is_fatal(outcomes: Seq<OutcomeView>)
    ensures
        first_fatal(outcomes) matches Some(error) ==> error.is_fatal(),
    decreases outcomes.len(),
{
    if outcomes.len() > 0 {
        lemma_first_fatal_is_fatal(outcomes.drop_last());
    }
}

/// Every action that is carried out and answered brings a well-formed
/// resolver closer to its end: it asks for at most three actions for each
/// identity that has no outcome yet.
pub proof fn answered_action_brings_the_end_closer(run: Run)
    requires
        run.resolver.wf(),
        run.resolver.stage is Resolving,
    ensures
        run.advance().resolver.wf(),
        budget(run.advance().resolver) < budget(run.resolver),
        budget(run.resolver) <= 3 * (run.resolver.user.identities().len()
            - run.resolver.outcomes.len()),
{
    if let Some((event, _)) = run.world.respond(run.resolver.action()) {
        lemma_step_wf(run.resolver, event);
    }
}

/// The key texts of two runs of outcomes, one after the other, are those
/// of the first followed by those of the second.
proof fn lemma_successes_of_both(first: Seq<OutcomeView>, second: Seq<OutcomeView>)
    ensures
        successes(first + second) == successes(first) + successes(second),
    decreases second.len(),
{
    if second.len() > 0 {
        lemma_successes_of_both(first, second.drop_last());
        assert((first + second).drop_last() =~= first + second.drop_last());
    }
}

/// The first fatal error among two runs of outcomes, one after the other,
/// is that of the first run, or else that of the second.
proof fn lemma_first_fatal_of_both(first: Seq<OutcomeView>, second: Seq<OutcomeView>)
    ensures
        first_fatal(first) is Some ==> first_fatal(first + second) == first_fatal(first),
        first_fatal(first) is None ==> first_fatal(first + second) == first_fatal(second),
    decreases second.len(),
{
    if second.len() > 0 {
        lemma_first_fatal_of_both(first, second.drop_last());
        assert((first + second).drop_last() =~= first + second.drop_last());
    }
}

/// In a list, an identity that failed without a fatal error changes
/// nothing: the key text of the account is what it would be without that
/// identity, whatever stands before and after it.
pub proof fn failed_identity_changes_nothing(
    user: UserView,
    before: Seq<OutcomeView>,
    failed: OutcomeView,
    after: Seq<OutcomeView>,
)
    requires
        user is List,
        failed is Err,
        !failed->Err_0.is_fatal(),
    ensures
        spec_get_pubkey_for_user(user, before + seq![failed] + after) == spec_get_pubkey_for_user(
            user,
            before + after,
        ),
{
    let one = seq![failed];
    assert(first_fatal(one.drop_last()) is None);
    assert(successes(one.drop_last()) =~= Seq::empty());
    lemma_successes_of_both(before, one);
    lemma_successes_of_both(before + one, after);
    lemma_successes_of_both(before, after);
    lemma_first_fatal_of_both(before, one);
    lemma_first_fatal_of_both(before + one, after);
    lemma_first_fatal_of_both(before, after);
}

} // verus!
