//! Write-through cache of guild configuration, keyed by guild id.
//!
//! The cache is backed by a sharded concurrent map so that entries for
//! different guilds can be read and replaced independently.  The surrounding
//! program performs the store reads and hands the loaded snapshots in; the
//! cache itself only holds, replaces and drops entries, and those operations
//! are specified exactly over the map of entries.

use vstd::prelude::*;

use crate::config::GuildCache;

verus! {

/// Declares dashmap's `DashMap` — the sharded concurrent hash map the cache
/// sits on — so that it can stand in fields and signatures; its contents are
/// reachable only through the wrappers below.
#[verifier::external_type_specification]
#[verifier::external_body]
#[verifier::reject_recursive_types(K)]
#[verifier::reject_recursive_types(V)]
#[verifier::reject_recursive_types(S)]
pub struct ExDashMap<K, V, S>(dashmap::DashMap<K, V, S>);

/// The entries a `DashMap` of guild configurations holds, keyed by guild id.
pub uninterp spec fn dash_entries(m: dashmap::DashMap<i64, GuildCache>) -> Map<i64, GuildCache>;

/// Relies on `DashMap::insert`: maps the key to the value, replacing any
/// previous entry for that key and leaving other keys untouched.
#[verifier::external_body]
fn dash_insert(m: &mut dashmap::DashMap<i64, GuildCache>, key: i64, value: GuildCache)
    ensures
        dash_entries(*final(m)) == dash_entries(*old(m)).insert(key, value),
{
    m.insert(key, value);
}

/// Relies on `DashMap::get`: returns the entry for the key, if any; the
/// returned snapshot is a clone of the stored one.
#[verifier::external_body]
fn dash_get(m: &dashmap::DashMap<i64, GuildCache>, key: i64) -> (r: Option<GuildCache>)
    ensures
        match r {
            Some(v) => dash_entries(*m).dom().contains(key) && v == dash_entries(*m)[key],
            None => !dash_entries(*m).dom().contains(key),
        },
{
    m.get(&key).map(|e| e.value().clone())
}

/// Relies on `DashMap::remove`: removes the entry for the key, returning its
/// value if one was present and leaving other keys untouched.
#[verifier::external_body]
fn dash_remove(m: &mut dashmap::DashMap<i64, GuildCache>, key: i64) -> (r: Option<GuildCache>)
    ensures
        dash_entries(*final(m)) == dash_entries(*old(m)).remove(key),
        match r {
            Some(v) => dash_entries(*old(m)).dom().contains(key)
                && v == dash_entries(*old(m))[key],
            None => !dash_entries(*old(m)).dom().contains(key),
        },
{
    m.remove(&key).map(|(_, v)| v)
}

/// The in-memory map from guild id to that guild's configuration snapshot.
pub struct GuildCacheMap {
    inner: dashmap::DashMap<i64, GuildCache>,
}

impl View for GuildCacheMap {
    type V = Map<i64, GuildCache>;

    closed spec fn view(&self) -> Map<i64, GuildCache> {
        dash_entries(self.inner)
    }
}

impl GuildCacheMap {
    /// A cache map with no entries.
    pub open spec fn empty_view() -> Map<i64, GuildCache> {
        Map::empty()
    }

    /// Every cached snapshot is well formed and filed under its own guild id.
    pub open spec fn wf(&self) -> bool {
        forall|k: i64| #[trigger]
            self@.dom().contains(k) ==> self@[k].wf() && self@[k].guild_id == k
    }

    /// Relies on `DashMap::new`: creates a map with no entries.
    #[verifier::external_body]
    pub fn new() -> (r: Self)
        ensures
            r@ == GuildCacheMap::empty_view(),
    {
        GuildCacheMap { inner: dashmap::DashMap::new() }
    }

    /// Stores a freshly loaded snapshot, replacing whatever was cached for
    /// that guild.
    pub fn insert(&mut self, loaded: GuildCache)
        requires
            loaded.wf(),
            old(self).wf(),
        ensures
            final(self)@ == old(self)@.insert(loaded.guild_id, loaded),
            final(self).wf(),
    {
        let key = loaded.guild_id;
        dash_insert(&mut self.inner, key, loaded);
        proof {
            assert forall|k: i64| #[trigger] self@.dom().contains(k) implies self@[k].wf()
                && self@[k].guild_id == k by {
                if k != key {
                    assert(old(self)@.dom().contains(k));
                }
            }
        }
    }

    /// Re-loads a guild's entry from a snapshot read after a committed store
    /// write: once this returns, a lookup for that guild observes the new
    /// snapshot, never an older one.
    pub fn update(&mut self, loaded: GuildCache)
        requires
            loaded.wf(),
            old(self).wf(),
        ensures
            final(self)@ == old(self)@.insert(loaded.guild_id, loaded),
            final(self).wf(),
    {
        self.insert(loaded);
    }

    /// The cached snapshot for the guild, if one is present.
    pub fn get(&self, guild_id: i64) -> (r: Option<GuildCache>)
        ensures
            match r {
                Some(v) => self@.dom().contains(guild_id) && v == self@[guild_id],
                None => !self@.dom().contains(guild_id),
            },
    {
        dash_get(&self.inner, guild_id)
    }

    /// Drops the guild's entry, so that the next lookup misses and re-loads.
    /// Returns whether an entry was present.
    pub fn invalidate(&mut self, guild_id: i64) -> (was_cached: bool)
        requires
            old(self).wf(),
        ensures
            final(self)@ == old(self)@.remove(guild_id),
            was_cached == old(self)@.dom().contains(guild_id),
            final(self).wf(),
    {
        dash_remove(&mut self.inner, guild_id).is_some()
    }

    /// The cached snapshot for the guild or, on a miss, the fail-open
    /// defaults: the process-wide prefix, no command disabled, no triggers.
    pub fn get_or_default(&self, guild_id: i64, default_prefix: &str) -> (r: GuildCache)
        requires
            default_prefix@.len() > 0,
            self.wf(),
        ensures
            self@.dom().contains(guild_id) ==> r == self@[guild_id],
            !self@.dom().contains(guild_id) ==> r.guild_id == guild_id
                && r.prefix@ == default_prefix@ && r.disabled_commands@.len() == 0
                && r.triggers@.len() == 0,
            r.wf(),
    {
        match self.get(guild_id) {
            Some(cfg) => cfg,
            None => GuildCache::fail_open(guild_id, default_prefix),
        }
    }
}

impl Default for GuildCacheMap {
    fn default() -> (r: Self)
        ensures
            r@ == GuildCacheMap::empty_view(),
    {
        GuildCacheMap::new()
    }
}

/// After a refresh for a guild completes, a lookup for that guild observes
/// exactly the snapshot the refresh stored — never a value older than the
/// last committed write it was read from.  `m` is the cache's contents before
/// the refresh, `loaded` the snapshot the refresh read from the store.
pub proof fn refresh_then_get_is_fresh(m: Map<i64, GuildCache>, loaded: GuildCache)
    ensures
        m.insert(loaded.guild_id, loaded).dom().contains(loaded.guild_id),
        m.insert(loaded.guild_id, loaded)[loaded.guild_id] == loaded,
{
}

} // verus!
