//! What the cache store reports of one remote identity, and where it keeps it.

use crate::config::Config;
use vstd::prelude::*;
use vstd::string::*;

verus! {

/// A cached key text with the time since it was last written.
#[derive(Debug, PartialEq, Eq)]
pub struct CacheEntry {
    /// The raw key text, one or more lines.
    pub text: String,
    /// Whole seconds between the last write and the lookup.
    pub age: u64,
}

/// The mathematical content of a [`CacheEntry`].
pub struct CacheEntryView {
    pub text: Seq<char>,
    pub age: nat,
}

impl CacheEntryView {
    /// An entry is fresh while its age does not exceed the time to live.
    pub open spec fn is_fresh(self, ttl: nat) -> bool {
        self.age <= ttl
    }
}

impl View for CacheEntry {
    type V = CacheEntryView;

    open spec fn view(&self) -> CacheEntryView {
        CacheEntryView { text: self.text@, age: self.age as nat }
    }
}

impl Clone for CacheEntry {
    fn clone(&self) -> (copy: Self)
        ensures
            copy@ == self@,
    {
        CacheEntry { text: self.text.clone(), age: self.age }
    }
}

impl CacheEntry {
    /// Whether the entry may be served without asking the remote service.
    pub fn is_fresh(&self, ttl: u64) -> (fresh: bool)
        ensures
            fresh == self@.is_fresh(ttl as nat),
    {
        self.age <= ttl
    }
}

/// The answer of the cache store to a lookup.
#[derive(Debug, PartialEq, Eq)]
pub enum Lookup {
    /// No entry exists for the identity.
    Missing,
    /// The entry, with its age at the time of the lookup.
    Found(CacheEntry),
    /// The store could not be read, for the reason given.
    Failed(String),
}

/// The mathematical content of a [`Lookup`].
pub enum LookupView {
    Missing,
    Found(CacheEntryView),
    Failed(Seq<char>),
}

impl View for Lookup {
    type V = LookupView;

    open spec fn view(&self) -> LookupView {
        match self {
            Lookup::Missing => LookupView::Missing,
            Lookup::Found(entry) => LookupView::Found(entry@),
            Lookup::Failed(reason) => LookupView::Failed(reason@),
        }
    }
}

impl Clone for Lookup {
    fn clone(&self) -> (copy: Self)
        ensures
            copy@ == self@,
    {
        match self {
            Lookup::Missing => Lookup::Missing,
            Lookup::Found(entry) => Lookup::Found(entry.clone()),
            Lookup::Failed(reason) => Lookup::Failed(reason.clone()),
        }
    }
}

/// The path of the file that caches the keys of `identity`: the cache
/// folder, a slash, and the identity itself.
pub open spec fn spec_cache_path(cache_folder: Seq<char>, identity: Seq<char>) -> Seq<char> {
    cache_folder + seq!['/'] + identity
}

/// The path of the file that caches the keys of `identity`.
pub fn cache_path(config: &Config, identity: &str) -> (path: String)
    ensures
        path@ == spec_cache_path(config@.cache_folder, identity@),
{
    let mut path = config.cache_folder.clone();
    path.append("/");
    path.append(identity);
    proof {
        reveal_strlit("/");
    }
    path
}

} // verus!
