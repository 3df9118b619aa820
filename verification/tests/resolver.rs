use hubakc::cache::{CacheEntry, Lookup};
use hubakc::config::{Config, User};
use hubakc::protocol::{Action, Event, Outcome, ResolveError};
use hubakc::remote::FetchOutcome;
use hubakc::resolver::{get_pubkey_for_user, Resolver, Stage};

fn list(identities: &[&str]) -> User {
    User::List(identities.iter().map(|identity| identity.to_string()).collect())
}

fn single(identity: &str) -> User {
    User::Single(identity.to_string())
}

fn text(text: &str) -> Outcome {
    Ok(text.to_string())
}

fn not_found(identity: &str) -> Outcome {
    Err(ResolveError::NotFound { identity: identity.to_string() })
}

fn fetch_failed(identity: &str, reason: &str) -> Outcome {
    Err(ResolveError::FetchFailed { identity: identity.to_string(), reason: reason.to_string() })
}

fn unreadable(identity: &str, reason: &str) -> Outcome {
    Err(ResolveError::CacheUnreadable {
        identity: identity.to_string(),
        reason: reason.to_string(),
    })
}

fn found(text: &str, age: u64) -> Event {
    Event::Looked(Lookup::Found(CacheEntry { text: text.to_string(), age }))
}

#[test]
fn single_user_gets_the_text_of_its_identity_verbatim() {
    let result = get_pubkey_for_user(&single("alice"), &vec![text("ssh-rsa AAA\n")]);
    assert_eq!(result, text("ssh-rsa AAA\n"));
}

#[test]
fn single_user_gets_the_error_of_its_identity() {
    assert_eq!(
        get_pubkey_for_user(&single("alice"), &vec![not_found("alice")]),
        not_found("alice")
    );
    assert_eq!(
        get_pubkey_for_user(&single("alice"), &vec![fetch_failed("alice", "timed out")]),
        fetch_failed("alice", "timed out")
    );
    assert_eq!(
        get_pubkey_for_user(&single("alice"), &vec![unreadable("alice", "denied")]),
        unreadable("alice", "denied")
    );
}

#[test]
fn list_joins_the_texts_with_a_newline() {
    let outcomes = vec![text("A"), text("B"), text("C")];
    assert_eq!(get_pubkey_for_user(&list(&["a", "b", "c"]), &outcomes), text("A\nB\nC"));
}

#[test]
fn list_leaves_out_the_identity_that_failed() {
    let outcomes = vec![text("KEY-A\n"), not_found("b"), text("KEY-C\n")];
    assert_eq!(
        get_pubkey_for_user(&list(&["a", "b", "c"]), &outcomes),
        text("KEY-A\n\nKEY-C\n")
    );
}

#[test]
fn list_leaves_out_failures_at_either_end() {
    let outcomes = vec![fetch_failed("a", "x"), text("B"), text("C"), not_found("d")];
    assert_eq!(get_pubkey_for_user(&list(&["a", "b", "c", "d"]), &outcomes), text("B\nC"));
}

#[test]
fn list_of_failures_only_gives_the_empty_text() {
    let outcomes = vec![not_found("a"), fetch_failed("b", "timed out")];
    assert_eq!(get_pubkey_for_user(&list(&["a", "b"]), &outcomes), text(""));
}

#[test]
fn list_of_one_success_gives_its_text() {
    assert_eq!(get_pubkey_for_user(&list(&["a"]), &vec![text("A\n")]), text("A\n"));
}

#[test]
fn list_without_outcomes_gives_the_empty_text() {
    assert_eq!(get_pubkey_for_user(&list(&[]), &Vec::new()), text(""));
}

#[test]
fn list_ends_in_the_first_fatal_error() {
    let outcomes = vec![text("A"), unreadable("b", "first"), unreadable("c", "second")];
    assert_eq!(
        get_pubkey_for_user(&list(&["a", "b", "c"]), &outcomes),
        unreadable("b", "first")
    );
    let later = vec![not_found("a"), text("B"), unreadable("c", "denied")];
    assert_eq!(get_pubkey_for_user(&list(&["a", "b", "c"]), &later), unreadable("c", "denied"));
}

#[test]
fn resolver_of_a_single_user_asks_for_its_identity() {
    let config = Config::new(600, 15, "/c".to_string());
    let resolver = Resolver::for_user(&config, single("alice"));
    assert_eq!(resolver.action(), Action::Lookup { identity: "alice".to_string() });
    assert_eq!(resolver.result(), None);
    assert!(resolver.outcomes.is_empty());
}

#[test]
fn resolver_takes_the_account_from_the_mapping() {
    let mut config = Config::new(600, 15, "/c".to_string());
    config.map_user("root".to_string(), list(&["a", "b"]));
    let resolver = Resolver::start(&config, "root");
    assert_eq!(resolver.user, list(&["a", "b"]));
    assert_eq!(resolver.ttl, 600);
    assert_eq!(resolver.timeout, 15);
    assert_eq!(resolver.action(), Action::Lookup { identity: "a".to_string() });
}

#[test]
fn unmapped_account_resolves_to_the_empty_text_at_once() {
    let mut config = Config::new(600, 15, "/c".to_string());
    config.map_user("root".to_string(), single("alice"));
    let resolver = Resolver::start(&config, "nobody");
    assert_eq!(resolver.action(), Action::Finish { result: text("") });
    assert_eq!(resolver.result(), Some(text("")));
}

#[test]
fn account_mapped_to_an_empty_list_resolves_to_the_empty_text() {
    let config = Config::default();
    let resolver = Resolver::for_user(&config, list(&[]));
    assert_eq!(resolver.result(), Some(text("")));
}

#[test]
fn resolver_walks_the_list_in_mapping_order() {
    let config = Config::new(600, 15, "/c".to_string());
    let resolver = Resolver::for_user(&config, list(&["a", "b", "c"]));
    assert_eq!(resolver.action(), Action::Lookup { identity: "a".to_string() });
    let resolver = resolver.step(found("KEY-A", 1));
    assert_eq!(resolver.outcomes, vec![text("KEY-A")]);
    assert_eq!(resolver.action(), Action::Lookup { identity: "b".to_string() });
    let resolver = resolver.step(Event::Looked(Lookup::Missing));
    assert_eq!(resolver.action(), Action::Fetch { identity: "b".to_string(), timeout: 15 });
    let resolver = resolver.step(Event::Fetched(FetchOutcome::NotFound));
    assert_eq!(resolver.outcomes, vec![text("KEY-A"), not_found("b")]);
    assert_eq!(resolver.action(), Action::Lookup { identity: "c".to_string() });
    let resolver = resolver.step(Event::Looked(Lookup::Missing));
    let resolver = resolver.step(Event::Fetched(FetchOutcome::Text("KEY-C".to_string())));
    assert_eq!(
        resolver.action(),
        Action::Write { identity: "c".to_string(), text: "KEY-C".to_string() }
    );
    assert_eq!(resolver.result(), None);
    let resolver = resolver.step(Event::Written(true));
    assert_eq!(resolver.action(), Action::Finish { result: text("KEY-A\nKEY-C") });
    assert_eq!(resolver.result(), Some(text("KEY-A\nKEY-C")));
}

#[test]
fn single_user_without_cache_and_with_failing_fetch_ends_in_an_error() {
    let config = Config::new(600, 15, "/c".to_string());
    let resolver = Resolver::for_user(&config, single("alice"))
        .step(Event::Looked(Lookup::Missing))
        .step(Event::Fetched(FetchOutcome::TransientFailure("timed out".to_string())));
    assert_eq!(resolver.result(), Some(fetch_failed("alice", "timed out")));
    assert_ne!(resolver.result(), Some(text("")));
}

#[test]
fn list_of_one_identity_absorbs_its_failure() {
    let config = Config::new(600, 15, "/c".to_string());
    let resolver = Resolver::for_user(&config, list(&["alice"]))
        .step(Event::Looked(Lookup::Missing))
        .step(Event::Fetched(FetchOutcome::TransientFailure("timed out".to_string())));
    assert_eq!(resolver.result(), Some(text("")));
}

#[test]
fn unreadable_cache_ends_a_list_before_the_identities_that_follow() {
    let config = Config::new(600, 15, "/c".to_string());
    let resolver = Resolver::for_user(&config, list(&["a", "b", "c"]))
        .step(found("KEY-A", 0))
        .step(Event::Looked(Lookup::Failed("permission denied".to_string())));
    assert_eq!(resolver.result(), Some(unreadable("b", "permission denied")));
    assert_eq!(resolver.outcomes.len(), 2);
    assert_eq!(
        resolver.action(),
        Action::Finish { result: unreadable("b", "permission denied") }
    );
}

#[test]
fn finished_resolver_ignores_further_events() {
    let config = Config::new(600, 15, "/c".to_string());
    let resolver = Resolver::for_user(&config, single("alice")).step(found("K\n", 5));
    assert_eq!(resolver.stage, Stage::Finished { result: text("K\n") });
    let resolver = resolver.step(Event::Looked(Lookup::Missing)).step(Event::Written(true));
    assert_eq!(resolver.stage, Stage::Finished { result: text("K\n") });
    assert_eq!(resolver.outcomes, vec![text("K\n")]);
}

#[test]
fn resolver_ignores_an_event_that_answers_no_pending_action() {
    let config = Config::new(600, 15, "/c".to_string());
    let resolver = Resolver::for_user(&config, list(&["a", "b"])).step(Event::Written(true));
    assert_eq!(resolver.action(), Action::Lookup { identity: "a".to_string() });
    assert!(resolver.outcomes.is_empty());
}

#[test]
fn single_user_without_an_outcome_has_the_empty_text() {
    assert_eq!(get_pubkey_for_user(&single("alice"), &Vec::new()), text(""));
}

#[test]
fn single_user_takes_the_first_outcome_only() {
    let outcomes = vec![text("FIRST"), text("SECOND")];
    assert_eq!(get_pubkey_for_user(&single("alice"), &outcomes), text("FIRST"));
    let failed = vec![not_found("alice"), text("SECOND")];
    assert_eq!(get_pubkey_for_user(&single("alice"), &failed), not_found("alice"));
}
