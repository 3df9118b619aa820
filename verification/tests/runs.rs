use hubakc::cache::{CacheEntry, Lookup};
use hubakc::config::{Config, User};
use hubakc::protocol::{Action, Event, Outcome, ResolveError};
use hubakc::remote::FetchOutcome;
use hubakc::resolver::Resolver;
use hubakc::single::SingleResolver;
use std::collections::HashMap;

/// A cache store and a remote service held in memory, with a record of
/// what was asked of them.
struct World {
    cache: HashMap<String, Lookup>,
    remote: HashMap<String, FetchOutcome>,
    writable: bool,
    asked: Vec<Action>,
}

impl World {
    fn new() -> World {
        World { cache: HashMap::new(), remote: HashMap::new(), writable: true, asked: Vec::new() }
    }

    fn cached(mut self, identity: &str, text: &str, age: u64) -> World {
        let entry = CacheEntry { text: text.to_string(), age };
        self.cache.insert(identity.to_string(), Lookup::Found(entry));
        self
    }

    fn unreadable(mut self, identity: &str, reason: &str) -> World {
        self.cache.insert(identity.to_string(), Lookup::Failed(reason.to_string()));
        self
    }

    fn serving(mut self, identity: &str, text: &str) -> World {
        self.remote.insert(identity.to_string(), FetchOutcome::Text(text.to_string()));
        self
    }

    fn failing(mut self, identity: &str, reason: &str) -> World {
        self.remote
            .insert(identity.to_string(), FetchOutcome::TransientFailure(reason.to_string()));
        self
    }

    fn read_only(mut self) -> World {
        self.writable = false;
        self
    }

    fn lookup(&self, identity: &str) -> Lookup {
        self.cache.get(identity).cloned().unwrap_or(Lookup::Missing)
    }

    fn respond(&mut self, action: Action) -> Result<Event, Outcome> {
        self.asked.push(action.clone());
        match action {
            Action::Lookup { identity } => Ok(Event::Looked(self.lookup(&identity))),
            Action::Fetch { identity, .. } => Ok(Event::Fetched(
                self.remote.get(&identity).cloned().unwrap_or(FetchOutcome::NotFound),
            )),
            Action::Write { identity, text } => {
                if self.writable {
                    self.cache.insert(identity, Lookup::Found(CacheEntry { text, age: 0 }));
                }
                Ok(Event::Written(self.writable))
            }
            Action::Finish { result } => {
                self.asked.pop();
                Err(result)
            }
        }
    }

    fn fetches(&self) -> usize {
        self.asked.iter().filter(|action| matches!(action, Action::Fetch { .. })).count()
    }
}

fn resolve_one(ttl: u64, world: &mut World, identity: &str) -> Outcome {
    let config = Config::new(ttl, 15, "/tmp/hubakc".to_string());
    let mut resolver = SingleResolver::start(&config, identity.to_string());
    for _ in 0..10 {
        match world.respond(resolver.action()) {
            Ok(event) => resolver = resolver.step(event),
            Err(outcome) => return outcome,
        }
    }
    panic!("the resolution of {} did not end", identity);
}

fn resolve(ttl: u64, world: &mut World, user: User) -> Outcome {
    let config = Config::new(ttl, 15, "/tmp/hubakc".to_string());
    let mut resolver = Resolver::for_user(&config, user);
    for _ in 0..100 {
        match world.respond(resolver.action()) {
            Ok(event) => resolver = resolver.step(event),
            Err(result) => return result,
        }
    }
    panic!("the resolution did not end");
}

fn list(identities: &[&str]) -> User {
    User::List(identities.iter().map(|identity| identity.to_string()).collect())
}

fn lookup_of(identity: &str) -> Action {
    Action::Lookup { identity: identity.to_string() }
}

#[test]
fn alice_cached_ten_seconds_ago_is_served_with_no_fetch() {
    let mut world = World::new().cached("alice", "ssh-rsa AAA...\n", 10).serving("alice", "OTHER\n");
    let outcome = resolve_one(600, &mut world, "alice");
    assert_eq!(outcome, Ok("ssh-rsa AAA...\n".to_string()));
    assert_eq!(world.fetches(), 0);
    assert_eq!(world.asked, vec![lookup_of("alice")]);
}

#[test]
fn bob_cached_nine_hundred_seconds_ago_is_served_when_the_fetch_fails() {
    let mut world = World::new().cached("bob", "OLD\n", 900).failing("bob", "timed out");
    let outcome = resolve_one(600, &mut world, "bob");
    assert_eq!(outcome, Ok("OLD\n".to_string()));
    assert_eq!(world.fetches(), 1);
    assert_eq!(world.lookup("bob"), Lookup::Found(CacheEntry { text: "OLD\n".to_string(), age: 900 }));
}

#[test]
fn carol_without_cache_is_fetched_and_cached() {
    let mut world = World::new().serving("carol", "NEW\n");
    let outcome = resolve_one(600, &mut world, "carol");
    assert_eq!(outcome, Ok("NEW\n".to_string()));
    assert_eq!(world.lookup("carol"), Lookup::Found(CacheEntry { text: "NEW\n".to_string(), age: 0 }));
    assert_eq!(
        world.asked,
        vec![
            lookup_of("carol"),
            Action::Fetch { identity: "carol".to_string(), timeout: 15 },
            Action::Write { identity: "carol".to_string(), text: "NEW\n".to_string() },
        ]
    );
}

#[test]
fn second_resolution_in_a_row_serves_what_the_first_has_cached() {
    let mut world = World::new().serving("carol", "NEW\n");
    let first = resolve_one(600, &mut world, "carol");
    assert_eq!(world.fetches(), 1);
    let second = resolve_one(600, &mut world, "carol");
    assert_eq!(second, first);
    assert_eq!(second, Ok("NEW\n".to_string()));
    assert_eq!(world.fetches(), 1);
    assert_eq!(world.asked.last(), Some(&lookup_of("carol")));
}

#[test]
fn second_resolution_serves_the_cache_even_with_a_time_to_live_of_zero() {
    let mut world = World::new().cached("carol", "OLD\n", 5).serving("carol", "NEW\n");
    assert_eq!(resolve_one(0, &mut world, "carol"), Ok("NEW\n".to_string()));
    assert_eq!(resolve_one(0, &mut world, "carol"), Ok("NEW\n".to_string()));
    assert_eq!(world.fetches(), 1);
}

#[test]
fn identity_without_cache_and_with_failing_fetch_has_no_text() {
    let mut world = World::new().failing("dave", "no route to host");
    let outcome = resolve_one(600, &mut world, "dave");
    assert_eq!(
        outcome,
        Err(ResolveError::FetchFailed {
            identity: "dave".to_string(),
            reason: "no route to host".to_string(),
        })
    );
    assert_eq!(world.lookup("dave"), Lookup::Missing);
}

#[test]
fn identity_unknown_to_cache_and_service_is_not_found() {
    let mut world = World::new();
    assert_eq!(
        resolve_one(600, &mut world, "erin"),
        Err(ResolveError::NotFound { identity: "erin".to_string() })
    );
    assert_eq!(world.asked.len(), 2);
}

#[test]
fn read_only_store_still_yields_the_fetched_text() {
    let mut world = World::new().serving("carol", "NEW\n").read_only();
    assert_eq!(resolve_one(600, &mut world, "carol"), Ok("NEW\n".to_string()));
    assert_eq!(world.lookup("carol"), Lookup::Missing);
    assert_eq!(resolve_one(600, &mut world, "carol"), Ok("NEW\n".to_string()));
    assert_eq!(world.fetches(), 2);
}

#[test]
fn unreadable_store_is_never_followed_by_a_fetch() {
    let mut world = World::new().unreadable("frank", "permission denied").serving("frank", "K\n");
    assert_eq!(
        resolve_one(600, &mut world, "frank"),
        Err(ResolveError::CacheUnreadable {
            identity: "frank".to_string(),
            reason: "permission denied".to_string(),
        })
    );
    assert_eq!(world.fetches(), 0);
}

#[test]
fn list_of_three_with_failing_middle_joins_the_outer_two() {
    let mut world = World::new().serving("a", "KEY-A").failing("b", "timed out").serving("c", "KEY-C");
    let result = resolve(600, &mut world, list(&["a", "b", "c"]));
    assert_eq!(result, Ok("KEY-A\nKEY-C".to_string()));
    assert_eq!(world.fetches(), 3);
}

#[test]
fn list_follows_mapping_order_not_cache_state() {
    let mut world = World::new().serving("z", "KEY-Z").cached("m", "KEY-M", 1).serving("a", "KEY-A");
    assert_eq!(
        resolve(600, &mut world, list(&["z", "m", "a"])),
        Ok("KEY-Z\nKEY-M\nKEY-A".to_string())
    );
    assert_eq!(
        resolve(600, &mut world, list(&["a", "m", "z"])),
        Ok("KEY-A\nKEY-M\nKEY-Z".to_string())
    );
}

#[test]
fn list_whose_identities_all_fail_gives_the_empty_text() {
    let mut world = World::new().failing("a", "x").failing("b", "y");
    assert_eq!(resolve(600, &mut world, list(&["a", "b"])), Ok(String::new()));
}

#[test]
fn single_identity_without_cache_and_with_failing_fetch_is_an_error() {
    let mut world = World::new().failing("alice", "timed out");
    let result = resolve(600, &mut world, User::Single("alice".to_string()));
    assert_eq!(
        result,
        Err(ResolveError::FetchFailed {
            identity: "alice".to_string(),
            reason: "timed out".to_string(),
        })
    );
}

#[test]
fn single_identity_with_stale_cache_survives_a_failing_fetch() {
    let mut world = World::new().cached("alice", "OLD\n", 10_000).failing("alice", "timed out");
    let result = resolve(600, &mut world, User::Single("alice".to_string()));
    assert_eq!(result, Ok("OLD\n".to_string()));
}

#[test]
fn unmapped_account_asks_for_nothing() {
    let mut config = Config::new(600, 15, "/tmp/hubakc".to_string());
    config.map_user("root".to_string(), User::Single("alice".to_string()));
    let mut world = World::new().serving("alice", "K\n");
    let resolver = Resolver::start(&config, "guest");
    assert_eq!(world.respond(resolver.action()), Err(Ok(String::new())));
    assert!(world.asked.is_empty());
}

#[test]
fn identity_named_twice_is_fetched_once() {
    let mut world = World::new().serving("a", "KEY-A");
    assert_eq!(resolve(600, &mut world, list(&["a", "a"])), Ok("KEY-A\nKEY-A".to_string()));
    assert_eq!(world.fetches(), 1);
}

#[test]
fn unreadable_store_ends_a_list_with_its_error() {
    let mut world =
        World::new().serving("a", "KEY-A").unreadable("b", "permission denied").serving("c", "KEY-C");
    let result = resolve(600, &mut world, list(&["a", "b", "c"]));
    assert_eq!(
        result,
        Err(ResolveError::CacheUnreadable {
            identity: "b".to_string(),
            reason: "permission denied".to_string(),
        })
    );
    assert_eq!(world.lookup("c"), Lookup::Missing);
    assert_eq!(world.asked.last(), Some(&lookup_of("b")));
}

#[test]
fn resolution_asks_for_at_most_three_actions_per_identity() {
    let mut world = World::new()
        .serving("a", "KEY-A")
        .cached("b", "KEY-B", 1)
        .cached("c", "OLD-C", 700)
        .failing("c", "timed out")
        .cached("d", "OLD-D", 700)
        .serving("d", "KEY-D");
    let result = resolve(600, &mut world, list(&["a", "b", "c", "d", "e"]));
    assert_eq!(result, Ok("KEY-A\nKEY-B\nOLD-C\nKEY-D".to_string()));
    assert_eq!(world.asked.len(), 3 + 1 + 2 + 3 + 2);
    assert!(world.asked.len() <= 3 * 5);
}

#[test]
fn failed_identity_leaves_the_text_as_it_is_without_it() {
    let mut with = World::new().serving("a", "KEY-A").failing("b", "x").serving("c", "KEY-C");
    let mut without = World::new().serving("a", "KEY-A").serving("c", "KEY-C");
    assert_eq!(
        resolve(600, &mut with, list(&["a", "b", "c"])),
        resolve(600, &mut without, list(&["a", "c"]))
    );
    let mut first = World::new().failing("b", "x").serving("c", "KEY-C");
    assert_eq!(resolve(600, &mut first, list(&["b", "c"])), Ok("KEY-C".to_string()));
    let mut last = World::new().failing("b", "x").serving("c", "KEY-C");
    assert_eq!(resolve(600, &mut last, list(&["c", "b"])), Ok("KEY-C".to_string()));
}
