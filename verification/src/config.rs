//! The configuration that a resolution runs under.

use crate::join::texts;
use vstd::prelude::*;

verus! {

/// What a local account is mapped to: one remote identity, or an ordered
/// list of them.
#[derive(Debug, PartialEq, Eq)]
pub enum User {
    Single(String),
    List(Vec<String>),
}

/// The mathematical content of a [`User`].
pub enum UserView {
    Single(Seq<char>),
    List(Seq<Seq<char>>),
}

impl UserView {
    /// The remote identities, in mapping order.
    pub open spec fn identities(self) -> Seq<Seq<char>> {
        match self {
            UserView::Single(identity) => seq![identity],
            UserView::List(identities) => identities,
        }
    }
}

impl View for User {
    type V = UserView;

    open spec fn view(&self) -> UserView {
        match self {
            User::Single(identity) => UserView::Single(identity@),
            User::List(identities) => UserView::List(texts(identities@)),
        }
    }
}

impl Clone for User {
    fn clone(&self) -> (copy: Self)
        ensures
            copy@ == self@,
    {
        match self {
            User::Single(identity) => User::Single(identity.clone()),
            User::List(identities) => User::List(identities.clone()),
        }
    }
}

impl User {
    /// Whether the account is mapped to exactly one identity, written as such.
    pub fn is_single(&self) -> (single: bool)
        ensures
            single == (self@ is Single),
    {
        match self {
            User::Single(_) => true,
            User::List(_) => false,
        }
    }

    /// The number of remote identities.
    pub fn count(&self) -> (n: usize)
        ensures
            n == self@.identities().len(),
    {
        match self {
            User::Single(_) => 1,
            User::List(identities) => identities.len(),
        }
    }

    /// The remote identity at position `index` of the mapping order.
    pub fn identity(&self, index: usize) -> (identity: Option<&String>)
        ensures
            index < self@.identities().len() ==> identity is Some
                && identity->0@ == self@.identities()[index as int],
            index >= self@.identities().len() ==> identity is None,
    {
        match self {
            User::Single(only) => if index == 0 {
                Some(only)
            } else {
                None
            },
            User::List(identities) => if index < identities.len() {
                Some(&identities[index])
            } else {
                None
            },
        }
    }
}

/// One line of the mapping: a local account and what it is mapped to.
#[derive(Debug, PartialEq, Eq)]
pub struct Mapping {
    pub local_name: String,
    pub user: User,
}

/// The mathematical content of a [`Mapping`].
pub struct MappingView {
    pub local_name: Seq<char>,
    pub user: UserView,
}

impl View for Mapping {
    type V = MappingView;

    open spec fn view(&self) -> MappingView {
        MappingView { local_name: self.local_name@, user: self.user@ }
    }
}

/// The contents of a sequence of mappings, item by item.
pub open spec fn mapping_views(mappings: Seq<Mapping>) -> Seq<MappingView> {
    mappings.map_values(|mapping: Mapping| mapping@)
}

/// The map that a sequence of mappings stands for. Should a name occur
/// more than once, its first occurrence counts.
pub open spec fn map_of(mappings: Seq<MappingView>) -> Map<Seq<char>, UserView>
    decreases mappings.len(),
{
    if mappings.len() == 0 {
        Map::empty()
    } else {
        map_of(mappings.drop_first()).insert(mappings[0].local_name, mappings[0].user)
    }
}

/// Whether no name occurs twice.
pub open spec fn distinct_names(mappings: Seq<MappingView>) -> bool {
    forall|i: int, j: int|
        0 <= i < j < mappings.len() ==> mappings[i].local_name != mappings[j].local_name
}

/// Whether `local_name` occurs nowhere before position `end`.
pub open spec fn absent_before(mappings: Seq<MappingView>, local_name: Seq<char>, end: int) -> bool {
    forall|j: int| 0 <= j < end && j < mappings.len() ==> mappings[j].local_name != local_name
}

/// A name that does not occur before position `index` is mapped as the
/// mappings from that position on map it.
proof fn lemma_map_of_skip(mappings: Seq<MappingView>, local_name: Seq<char>, index: int)
    requires
        0 <= index <= mappings.len(),
        absent_before(mappings, local_name, index),
    ensures
        map_of(mappings).contains_key(local_name) == map_of(mappings.skip(index)).contains_key(
            local_name,
        ),
        map_of(mappings).contains_key(local_name) ==> map_of(mappings)[local_name] == map_of(
            mappings.skip(index),
        )[local_name],
    decreases index,
{
    if index == 0 {
        assert(mappings.skip(0) =~= mappings);
    } else {
        let rest = mappings.drop_first();
        lemma_map_of_skip(rest, local_name, index - 1);
        assert(rest.skip(index - 1) =~= mappings.skip(index));
    }
}

/// Replacing what the first mapping of a name maps it to changes the map
/// at that name alone.
proof fn lemma_map_of_update(mappings: Seq<MappingView>, index: int, user: UserView)
    requires
        0 <= index < mappings.len(),
        absent_before(mappings, mappings[index].local_name, index),
    ensures
        map_of(
            mappings.update(
                index,
                MappingView { local_name: mappings[index].local_name, user },
            ),
        ) == map_of(mappings).insert(mappings[index].local_name, user),
    decreases index,
{
    let local_name = mappings[index].local_name;
    let updated = mappings.update(index, MappingView { local_name, user });
    let rest = mappings.drop_first();
    if index == 0 {
        assert(updated.drop_first() =~= rest);
    } else {
        lemma_map_of_update(rest, index - 1, user);
        assert(updated.drop_first() =~= rest.update(
            index - 1,
            MappingView { local_name, user },
        ));
    }
}

/// A mapping of a new name, added at the end, adds that name to the map.
proof fn lemma_map_of_push(mappings: Seq<MappingView>, mapping: MappingView)
    requires
        absent_before(mappings, mapping.local_name, mappings.len() as int),
    ensures
        map_of(mappings.push(mapping)) == map_of(mappings).insert(
            mapping.local_name,
            mapping.user,
        ),
    decreases mappings.len(),
{
    let pushed = mappings.push(mapping);
    if mappings.len() == 0 {
        assert(map_of(pushed.drop_first()) =~= Map::empty());
    } else {
        let rest = mappings.drop_first();
        lemma_map_of_push(rest, mapping);
        assert(pushed.drop_first() =~= rest.push(mapping));
    }
}

/// The settings of a run and the mapping from local accounts to remote
/// identities.
#[derive(Debug, PartialEq, Eq)]
pub struct Config {
    /// Seconds for which a cached entry counts as fresh.
    pub ttl: u64,
    /// Seconds allowed for one remote fetch.
    pub timeout: u64,
    /// The directory that holds one cache file per remote identity.
    pub cache_folder: String,
    /// Local accounts and what they are mapped to.
    pub user_map: Vec<Mapping>,
}

/// The mathematical content of a [`Config`].
pub struct ConfigView {
    pub ttl: nat,
    pub timeout: nat,
    pub cache_folder: Seq<char>,
    pub user_map: Map<Seq<char>, UserView>,
}

impl View for Config {
    type V = ConfigView;

    open spec fn view(&self) -> ConfigView {
        ConfigView {
            ttl: self.ttl as nat,
            timeout: self.timeout as nat,
            cache_folder: self.cache_folder@,
            user_map: map_of(mapping_views(self.user_map@)),
        }
    }
}

impl Default for Config {
    /// A time to live of ten minutes, a timeout of fifteen seconds, the cache
    /// under `/tmp/hubakc`, and no account mapped.
    fn default() -> (config: Self)
        ensures
            config.wf(),
            config@ == (ConfigView {
                ttl: 600,
                timeout: 15,
                cache_folder: "/tmp/hubakc"@,
                user_map: Map::empty(),
            }),
    {
        Config {
            cache_folder: "/tmp/hubakc".to_owned(),
            user_map: Vec::new(),
            ttl: 600,
            timeout: 15,
        }
    }
}

impl Config {
    /// A configuration is well formed when it names no account twice.
    pub open spec fn wf(&self) -> bool {
        distinct_names(mapping_views(self.user_map@))
    }

    /// A configuration with the given settings and no account mapped.
    pub fn new(ttl: u64, timeout: u64, cache_folder: String) -> (config: Self)
        ensures
            config.wf(),
            config@ == (ConfigView {
                ttl: ttl as nat,
                timeout: timeout as nat,
                cache_folder: cache_folder@,
                user_map: Map::empty(),
            }),
    {
        Config { ttl, timeout, cache_folder, user_map: Vec::new() }
    }

    /// The position of the first mapping of `local_name`, if it has one.
    fn position(&self, local_name: &String) -> (found: Option<usize>)
        ensures
            found matches Some(index) ==> index < self.user_map.len()
                && self.user_map[index as int].local_name@ == local_name@ && absent_before(
                mapping_views(self.user_map@),
                local_name@,
                index as int,
            ),
            found is None ==> absent_before(
                mapping_views(self.user_map@),
                local_name@,
                self.user_map.len() as int,
            ),
    {
        let mut i: usize = 0;
        while i < self.user_map.len()
            invariant
                i <= self.user_map.len(),
                absent_before(mapping_views(self.user_map@), local_name@, i as int),
            decreases self.user_map.len() - i,
        {
            if self.user_map[i].local_name == *local_name {
                return Some(i);
            }
            i += 1;
        }
        None
    }

    /// Maps `local_name` to `user`, in place of what it was mapped to before.
    pub fn map_user(&mut self, local_name: String, user: User)
        ensures
            final(self)@ == (ConfigView {
                user_map: old(self)@.user_map.insert(local_name@, user@),
                ..old(self)@
            }),
            old(self).wf() ==> final(self).wf(),
    {
        let ghost before = mapping_views(self.user_map@);
        let ghost mapping = MappingView { local_name: local_name@, user: user@ };
        match self.position(&local_name) {
            Some(index) => {
                self.user_map.set(index, Mapping { local_name, user });
                proof {
                    lemma_map_of_update(before, index as int, user@);
                    assert(mapping_views(self.user_map@) =~= before.update(index as int, mapping));
                }
            },
            None => {
                self.user_map.push(Mapping { local_name, user });
                proof {
                    lemma_map_of_push(before, mapping);
                    assert(mapping_views(self.user_map@) =~= before.push(mapping));
                }
            },
        }
    }

    /// What `local_name` is mapped to, if it is mapped at all.
    pub fn lookup(&self, local_name: &str) -> (user: Option<&User>)
        ensures
            self@.user_map.contains_key(local_name@) ==> user is Some
                && user->0@ == self@.user_map[local_name@],
            !self@.user_map.contains_key(local_name@) ==> user is None,
    {
        let wanted = local_name.to_owned();
        let ghost mappings = mapping_views(self.user_map@);
        match self.position(&wanted) {
            Some(index) => {
                proof {
                    lemma_map_of_skip(mappings, local_name@, index as int);
                }
                Some(&self.user_map[index].user)
            },
            None => {
                proof {
                    lemma_map_of_skip(mappings, local_name@, mappings.len() as int);
                }
                None
            },
        }
    }
}

} // verus!
