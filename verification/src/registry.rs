//! The player registry: the map from guild id to that guild's player.
//!
//! The registry is the sole authority over player lifetime: a player is
//! created at most once per guild (`get_or_create` reuses an existing one,
//! so a racing second join can never produce a second live connection),
//! mutated only after being taken out — which is the per-guild exclusive
//! access guard: while one operation holds the player, no other can — and
//! destroyed by `remove` or by the idle reaper.

use vstd::prelude::*;

use crate::player::{Player, PlayerError};
use crate::track::Repeat;

verus! {

pub struct PlayerRegistry {
    players: Vec<Player>,
}

impl PlayerRegistry {
    /// The registered players, in registration order.  The order carries no
    /// meaning; lookups go by guild id.
    pub closed spec fn entries(&self) -> Seq<Player> {
        self.players@
    }

    /// No two players share a guild id, and every player is well formed.
    pub open spec fn wf(&self) -> bool {
        &&& forall|i: int, j: int|
            0 <= i < j < self.entries().len() ==> self.entries()[i].guild_id
                != self.entries()[j].guild_id
        &&& forall|i: int| 0 <= i < self.entries().len() ==> (#[trigger] self.entries()[i]).wf()
    }

    /// Whether a player is registered for the guild.
    pub open spec fn spec_contains(&self, guild_id: u64) -> bool {
        exists|i: int|
            0 <= i < self.entries().len() && self.entries()[i].guild_id == guild_id
    }

    pub open spec fn index_of(&self, guild_id: u64) -> int {
        choose|i: int|
            0 <= i < self.entries().len() && self.entries()[i].guild_id == guild_id
    }

    /// The registered player for the guild (meaningful when one exists).
    pub open spec fn spec_get(&self, guild_id: u64) -> Player {
        self.entries()[self.index_of(guild_id)]
    }

    /// All guilds other than `guild_id` are registered exactly as before,
    /// with the very same player state.
    pub open spec fn others_unchanged(pre: Self, post: Self, guild_id: u64) -> bool {
        forall|h: u64|
            h != guild_id ==> #[trigger] post.spec_contains(h) == pre.spec_contains(h) && (
            pre.spec_contains(h) ==> post.spec_get(h) == pre.spec_get(h))
    }

    pub fn new() -> (r: Self)
        ensures
            r.wf(),
            r.entries().len() == 0,
            forall|h: u64| !r.spec_contains(h),
    {
        PlayerRegistry { players: Vec::new() }
    }

    pub fn len(&self) -> (r: usize)
        ensures
            r == self.entries().len(),
    {
        self.players.len()
    }

    /// The position of the guild's player in the underlying storage.
    fn find(&self, guild_id: u64) -> (r: Option<usize>)
        ensures
            match r {
                Some(i) => i < self.entries().len() && self.entries()[i as int].guild_id
                    == guild_id,
                None => !self.spec_contains(guild_id),
            },
    {
        let n = self.players.len();
        for i in 0..n
            invariant
                n == self.players@.len(),
                forall|j: int| 0 <= j < i ==> self.players@[j].guild_id != guild_id,
            decreases n - i,
        {
            if self.players[i].guild_id == guild_id {
                return Some(i);
            }
        }
        None
    }

    /// Non-creating lookup, for read-only commands and for commands that
    /// must report `NotConnected` rather than auto-join.
    pub fn get(&self, guild_id: u64) -> (r: Option<&Player>)
        requires
            self.wf(),
        ensures
            match r {
                Some(p) => self.spec_contains(guild_id) && *p == self.spec_get(guild_id),
                None => !self.spec_contains(guild_id),
            },
    {
        match self.find(guild_id) {
            Some(i) => {
                proof {
                    assert(self.spec_contains(guild_id));
                    let j = self.index_of(guild_id);
                    assert(0 <= j < self.entries().len() && self.entries()[j].guild_id == guild_id);
                    assert(i as int == j);
                }
                Some(&self.players[i])
            },
            None => None,
        }
    }

    /// Takes the guild's player out of the registry, handing the caller
    /// exclusive access to it; `put` returns it.  While a player is out, no
    /// other operation can reach it.
    pub fn take(&mut self, guild_id: u64) -> (r: Option<Player>)
        requires
            old(self).wf(),
        ensures
            final(self).wf(),
            !final(self).spec_contains(guild_id),
            PlayerRegistry::others_unchanged(*old(self), *final(self), guild_id),
            match r {
                Some(p) => old(self).spec_contains(guild_id) && p == old(self).spec_get(guild_id),
                None => !old(self).spec_contains(guild_id) && *final(self) == *old(self),
            },
    {
        let idx = match self.find(guild_id) {
            Some(i) => i,
            None => {
                return None;
            },
        };
        proof {
            assert(old(self).spec_contains(guild_id));
            let j = old(self).index_of(guild_id);
            assert(0 <= j < old(self).entries().len() && old(self).entries()[j].guild_id
                == guild_id);
            assert(idx as int == j);
        }
        let p = self.players.remove(idx);
        proof {
            let q0 = old(self).entries();
            let q1 = self.entries();
            assert forall|k: int| 0 <= k < q1.len() implies q1[k] == (if k < idx as int {
                q0[k]
            } else {
                q0[k + 1]
            }) by {}
            assert forall|h: u64| h != guild_id implies #[trigger] self.spec_contains(h)
                == old(self).spec_contains(h) && (old(self).spec_contains(h)
                ==> self.spec_get(h) == old(self).spec_get(h)) by {
                if old(self).spec_contains(h) {
                    let l = old(self).index_of(h);
                    assert(0 <= l < q0.len() && q0[l].guild_id == h);
                    let l1 = if l < idx as int {
                        l
                    } else {
                        l - 1
                    };
                    assert(q1[l1] == q0[l]);
                    assert(self.spec_contains(h));
                    let l2 = self.index_of(h);
                    assert(0 <= l2 < q1.len() && q1[l2].guild_id == h);
                    let l0 = if l2 < idx as int {
                        l2
                    } else {
                        l2 + 1
                    };
                    assert(q0[l0] == q1[l2]);
                    assert(l0 == l);
                    assert(self.spec_get(h) == old(self).spec_get(h));
                } else {
                    if self.spec_contains(h) {
                        let l2 = self.index_of(h);
                        let l0 = if l2 < idx as int {
                            l2
                        } else {
                            l2 + 1
                        };
                        assert(q0[l0].guild_id == h);
                        assert(old(self).spec_contains(h));
                    }
                }
            }
            if self.spec_contains(guild_id) {
                let l2 = self.index_of(guild_id);
                let l0 = if l2 < idx as int {
                    l2
                } else {
                    l2 + 1
                };
                assert(q0[l0].guild_id == guild_id);
                assert(l0 != idx as int ==> false);
            }
        }
        Some(p)
    }

    /// Returns a player taken with `take` (or a fresh one) to the registry.
    pub fn put(&mut self, player: Player)
        requires
            old(self).wf(),
            !old(self).spec_contains(player.guild_id),
            player.wf(),
        ensures
            final(self).wf(),
            final(self).spec_contains(player.guild_id),
            final(self).spec_get(player.guild_id) == player,
            PlayerRegistry::others_unchanged(*old(self), *final(self), player.guild_id),
    {
        let ghost g = player.guild_id;
        let ghost q0 = old(self).entries();
        self.players.push(player);
        proof {
            let q1 = self.entries();
            assert(q1 == q0.push(self.entries()[q0.len() as int]));
            assert forall|k: int| 0 <= k < q0.len() implies q1[k] == q0[k] by {}
            assert(q1[q0.len() as int].guild_id == g);
            assert(self.spec_contains(g));
            let l = self.index_of(g);
            assert(0 <= l < q1.len() && q1[l].guild_id == g);
            if l < q0.len() {
                assert(q0[l].guild_id == g);
                assert(old(self).spec_contains(g));
                assert(false);
            }
            assert forall|h: u64| h != g implies #[trigger] self.spec_contains(h) == old(
                self,
            ).spec_contains(h) && (old(self).spec_contains(h) ==> self.spec_get(h) == old(
                self,
            ).spec_get(h)) by {
                if old(self).spec_contains(h) {
                    let l0 = old(self).index_of(h);
                    assert(0 <= l0 < q0.len() && q0[l0].guild_id == h);
                    assert(q1[l0] == q0[l0]);
                    assert(self.spec_contains(h));
                    let l1 = self.index_of(h);
                    assert(0 <= l1 < q1.len() && q1[l1].guild_id == h);
                    assert(l1 != q0.len() as int);
                    assert(q1[l1] == q0[l1]);
                    assert(l1 == l0);
                } else {
                    if self.spec_contains(h) {
                        let l1 = self.index_of(h);
                        assert(0 <= l1 < q1.len() && q1[l1].guild_id == h);
                        assert(l1 != q0.len() as int);
                        assert(q0[l1].guild_id == h);
                        assert(false);
                    }
                }
            }
        }
    }
    /// Takes the guild's player for a command that must not auto-join
    /// (skip, pause, stop): when no player exists the command reports
    /// `NotConnected` instead of connecting.  On success the caller holds
    /// the player exclusively and returns it with `put`.
    pub fn take_connected(&mut self, guild_id: u64) -> (r: Result<Player, PlayerError>)
        requires
            old(self).wf(),
        ensures
            final(self).wf(),
            !final(self).spec_contains(guild_id),
            PlayerRegistry::others_unchanged(*old(self), *final(self), guild_id),
            old(self).spec_contains(guild_id) ==> (r matches Ok(p) && p == old(self).spec_get(
                guild_id,
            )),
            !old(self).spec_contains(guild_id) ==> (r matches Err(e) && e
                == PlayerError::NotConnected) && *final(self) == *old(self),
    {
        match self.take(guild_id) {
            Some(p) => Ok(p),
            None => Err(PlayerError::NotConnected),
        }
    }

    /// Returns the guild's player, creating one if none exists.  `voice_ok`
    /// says whether the invoking user's voice channel could be resolved: a
    /// missing player is only created when it could, otherwise the call
    /// reports `NotInVoiceChannel`.  On `Ok(true)` a fresh idle player was
    /// registered as of tick `now` and the caller performs the one transport
    /// join (and calls `remove` should that join fail).  When a player
    /// already exists it is reused untouched, whatever `voice_ok` says: two
    /// racing joins for one guild can never own two connections.
    pub fn get_or_create(&mut self, guild_id: u64, voice_ok: bool, now: u64) -> (r: Result<
        bool,
        PlayerError,
    >)
        requires
            old(self).wf(),
        ensures
            final(self).wf(),
            old(self).spec_contains(guild_id) ==> (r matches Ok(created) && !created)
                && *final(self) == *old(self),
            !old(self).spec_contains(guild_id) && !voice_ok ==> (r matches Err(e) && e
                == PlayerError::NotInVoiceChannel) && *final(self) == *old(self),
            !old(self).spec_contains(guild_id) && voice_ok ==> (r matches Ok(created) && created)
                && final(self).spec_contains(guild_id)
                && final(self).spec_get(guild_id).guild_id == guild_id
                && final(self).spec_get(guild_id).queue@.len() == 0
                && final(self).spec_get(guild_id).repeat == Repeat::Off
                && !final(self).spec_get(guild_id).paused
                && final(self).spec_get(guild_id).idle_since == Some(now)
                && final(self).spec_get(guild_id).epoch == 0
                && PlayerRegistry::others_unchanged(*old(self), *final(self), guild_id),
    {
        if self.find(guild_id).is_some() {
            proof {
                assert(self.spec_contains(guild_id));
            }
            Ok(false)
        } else if !voice_ok {
            Err(PlayerError::NotInVoiceChannel)
        } else {
            self.put(Player::new(guild_id, now));
            Ok(true)
        }
    }

    /// Detaches and drops the guild's player, releasing its voice transport
    /// for the caller to close.  Idempotent: when no player exists — in
    /// particular on a repeated call — it reports `false`, does not error,
    /// and leaves the registry exactly as it was.
    pub fn remove(&mut self, guild_id: u64) -> (removed: bool)
        requires
            old(self).wf(),
        ensures
            final(self).wf(),
            removed == old(self).spec_contains(guild_id),
            !final(self).spec_contains(guild_id),
            PlayerRegistry::others_unchanged(*old(self), *final(self), guild_id),
            !old(self).spec_contains(guild_id) ==> *final(self) == *old(self),
    {
        self.take(guild_id).is_some()
    }

    /// Whether a player has sat idle longer than `threshold` ticks at tick
    /// `now`.
    pub open spec fn expired(p: Player, now: u64, threshold: u64) -> bool {
        match p.idle_since {
            Some(t) => now - t > threshold,
            None => false,
        }
    }

    fn is_expired(p: &Player, now: u64, threshold: u64) -> (r: bool)
        ensures
            r == PlayerRegistry::expired(*p, now, threshold),
    {
        match p.idle_since {
            Some(t) => now >= t && now - t > threshold,
            None => false,
        }
    }

    /// Some player among the first `upto` of `q` carries `id` and has
    /// expired.
    pub open spec fn expired_id_in(q: Seq<Player>, upto: int, id: u64, now: u64, threshold: u64) -> bool {
        exists|l: int|
            0 <= l < upto && (#[trigger] q[l]).guild_id == id && PlayerRegistry::expired(
                q[l],
                now,
                threshold,
            )
    }

    /// One sweep of the idle reaper at tick `now`: every player that has sat
    /// idle longer than `threshold` is removed, every other player is kept
    /// untouched, and the evicted guild ids are returned so the caller can
    /// release their voice transports.
    pub fn reap_idle(&mut self, now: u64, threshold: u64) -> (evicted: Vec<u64>)
        requires
            old(self).wf(),
        ensures
            final(self).wf(),
            forall|h: u64| #[trigger]
                final(self).spec_contains(h) <==> old(self).spec_contains(h)
                    && !PlayerRegistry::expired(old(self).spec_get(h), now, threshold),
            forall|h: u64| #[trigger]
                final(self).spec_contains(h) ==> final(self).spec_get(h) == old(self).spec_get(h),
            forall|h: u64| #[trigger]
                evicted@.contains(h) <==> old(self).spec_contains(h) && PlayerRegistry::expired(
                    old(self).spec_get(h),
                    now,
                    threshold,
                ),
    {
        let ghost q0 = old(self).entries();
        let mut evicted: Vec<u64> = Vec::new();
        let n = self.players.len();
        for i in 0..n
            invariant
                self.entries() == q0,
                self.wf(),
                n == q0.len(),
                forall|j: int|
                    0 <= j < evicted@.len() ==> PlayerRegistry::expired_id_in(
                        q0,
                        i as int,
                        #[trigger] evicted@[j],
                        now,
                        threshold,
                    ),
                forall|l: int|
                    0 <= l < i && PlayerRegistry::expired(#[trigger] q0[l], now, threshold)
                        ==> evicted@.contains(q0[l].guild_id),
            decreases n - i,
        {
            let here_expired = Self::is_expired(&self.players[i], now, threshold);
            let ghost ev0 = evicted@;
            if here_expired {
                let gid = self.players[i].guild_id;
                evicted.push(gid);
            }
            proof {
                assert forall|j: int| 0 <= j < evicted@.len() implies PlayerRegistry::expired_id_in(
                    q0,
                    i + 1,
                    #[trigger] evicted@[j],
                    now,
                    threshold,
                ) by {
                    if j < ev0.len() {
                        assert(evicted@[j] == ev0[j]);
                        assert(PlayerRegistry::expired_id_in(q0, i as int, ev0[j], now, threshold));
                        let l = choose|l: int|
                            0 <= l < i && (#[trigger] q0[l]).guild_id == ev0[j]
                                && PlayerRegistry::expired(q0[l], now, threshold);
                        assert((q0[l]).guild_id == evicted@[j] && PlayerRegistry::expired(
                            q0[l],
                            now,
                            threshold,
                        ));
                    } else {
                        assert(evicted@[j] == q0[i as int].guild_id);
                        assert((q0[i as int]).guild_id == evicted@[j] && PlayerRegistry::expired(
                            q0[i as int],
                            now,
                            threshold,
                        ));
                    }
                }
                assert forall|l: int|
                    0 <= l < i + 1 && PlayerRegistry::expired(
                        #[trigger] q0[l],
                        now,
                        threshold,
                    ) implies evicted@.contains(q0[l].guild_id) by {
                    if l < i {
                        let j = choose|j: int|
                            0 <= j < ev0.len() && #[trigger] ev0[j] == q0[l].guild_id;
                        assert(ev0.contains(q0[l].guild_id));
                        assert(evicted@[j] == q0[l].guild_id);
                    } else {
                        assert(evicted@[ev0.len() as int] == q0[l].guild_id);
                    }
                }
            }
        }
        proof {
            // Per guild id: an id was collected exactly when its (unique)
            // player had expired.
            assert forall|h: u64| #[trigger]
                evicted@.contains(h) <==> old(self).spec_contains(h) && PlayerRegistry::expired(
                    old(self).spec_get(h),
                    now,
                    threshold,
                ) by {
                if evicted@.contains(h) {
                    let j = choose|j: int| 0 <= j < evicted@.len() && evicted@[j] == h;
                    assert(PlayerRegistry::expired_id_in(q0, n as int, evicted@[j], now, threshold));
                    let l = choose|l: int|
                        0 <= l < n && (#[trigger] q0[l]).guild_id == evicted@[j]
                            && PlayerRegistry::expired(q0[l], now, threshold);
                    assert(old(self).spec_contains(h));
                    let l0 = old(self).index_of(h);
                    assert(0 <= l0 < q0.len() && q0[l0].guild_id == h);
                    assert(l0 == l);
                }
                if old(self).spec_contains(h) && PlayerRegistry::expired(
                    old(self).spec_get(h),
                    now,
                    threshold,
                ) {
                    let l0 = old(self).index_of(h);
                    assert(0 <= l0 < q0.len() && q0[l0].guild_id == h);
                    assert(evicted@.contains(q0[l0].guild_id));
                }
            }
        }
        let ghost ids = evicted@;
        let m = evicted.len();
        for j in 0..m
            invariant
                m == ids.len(),
                evicted@ == ids,
                self.wf(),
                forall|h: u64| #[trigger]
                    ids.contains(h) <==> old(self).spec_contains(h) && PlayerRegistry::expired(
                        old(self).spec_get(h),
                        now,
                        threshold,
                    ),
                forall|h: u64| #[trigger]
                    self.spec_contains(h) <==> old(self).spec_contains(h) && !ids.take(
                        j as int,
                    ).contains(h),
                forall|h: u64| #[trigger]
                    self.spec_contains(h) ==> self.spec_get(h) == old(self).spec_get(h),
            decreases m - j,
        {
            let g = evicted[j];
            self.remove(g);
            proof {
                assert(ids.take(j + 1) =~= ids.take(j as int).push(ids[j as int]));
                assert forall|h: u64| #[trigger]
                    ids.take(j + 1).contains(h) <==> ids.take(j as int).contains(h) || h
                        == ids[j as int] by {
                    if ids.take(j + 1).contains(h) {
                        let k = choose|k: int|
                            0 <= k < ids.take(j + 1).len() && #[trigger] ids.take(j + 1)[k] == h;
                        if k < j {
                            assert(ids.take(j as int)[k] == h);
                        }
                    }
                    if ids.take(j as int).contains(h) {
                        let k = choose|k: int|
                            0 <= k < ids.take(j as int).len() && #[trigger] ids.take(
                                j as int,
                            )[k] == h;
                        assert(ids.take(j + 1)[k] == h);
                    }
                    if h == ids[j as int] {
                        assert(ids.take(j + 1)[j as int] == h);
                    }
                }
            }
        }
        proof {
            assert(ids.take(m as int) =~= ids);
            assert forall|h: u64| #[trigger]
                self.spec_contains(h) <==> old(self).spec_contains(h)
                    && !PlayerRegistry::expired(old(self).spec_get(h), now, threshold) by {
                assert(self.spec_contains(h) <==> old(self).spec_contains(h) && !ids.take(
                    m as int,
                ).contains(h));
            }
        }
        evicted
    }
}

/// Removing a guild's player twice in a row is no worse than removing it
/// once.  The hypotheses are exactly what two consecutive `remove` calls for
/// `guild_id` ensure (`pre` -> `mid` -> `post`); the second call reports
/// nothing removed, does not error, and leaves every guild registered as the
/// first call left it, with the very same player state.
pub proof fn lemma_remove_idempotent(
    pre: PlayerRegistry,
    mid: PlayerRegistry,
    post: PlayerRegistry,
    guild_id: u64,
    removed_first: bool,
    removed_second: bool,
)
    requires
        removed_first == pre.spec_contains(guild_id),
        !mid.spec_contains(guild_id),
        PlayerRegistry::others_unchanged(pre, mid, guild_id),
        removed_second == mid.spec_contains(guild_id),
        !post.spec_contains(guild_id),
        PlayerRegistry::others_unchanged(mid, post, guild_id),
    ensures
        !removed_second,
        forall|h: u64| #[trigger] post.spec_contains(h) == mid.spec_contains(h),
        forall|h: u64| #[trigger]
            mid.spec_contains(h) ==> post.spec_get(h) == mid.spec_get(h),
{
    assert forall|h: u64| #[trigger] post.spec_contains(h) == mid.spec_contains(h) by {
        if h != guild_id {
            assert(post.spec_contains(h) == mid.spec_contains(h));
        }
    }
    assert forall|h: u64| #[trigger] mid.spec_contains(h) implies post.spec_get(h)
        == mid.spec_get(h) by {
        if h != guild_id {
            assert(post.spec_contains(h) == mid.spec_contains(h) && (mid.spec_contains(h)
                ==> post.spec_get(h) == mid.spec_get(h)));
        }
    }
}

} // verus!
