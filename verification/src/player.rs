//! The per-guild player: an ordered play queue with a repeat mode, a pause
//! flag, an idle timestamp and a playback epoch, driven as a state machine.
//!
//! The head of the queue, when present, is the now-playing track.  The
//! machine is idle exactly when the queue is empty, playing when it is
//! non-empty and not paused, and paused otherwise.  Resolving and streaming
//! are done by the surrounding program: operations report what should be
//! handed to the transport, and the track-end path comes back in through
//! [`Player::on_track_end`] carrying the epoch it was registered under, so a
//! stale callback (one raced by a skip or stop) is recognized and ignored.

use vstd::prelude::*;

use crate::track::{Repeat, Track};

verus! {

/// The user-correctable conditions a player or registry operation can report.
#[derive(Clone, Copy, PartialEq, Eq, Structural, Debug)]
pub enum PlayerError {
    /// The store could not be read or written.
    StoreUnavailable,
    /// The invoking user has no resolvable voice channel to join.
    NotInVoiceChannel,
    /// No player exists for the guild and the operation does not auto-join.
    NotConnected,
    /// The operation needs a now-playing track and the player is idle.
    NothingPlaying,
    /// The operation needs queued tracks and there are none.
    QueueEmpty,
    /// A queue index outside the removable range.
    OutOfBounds,
    /// `pause` on an already paused player.
    AlreadyPaused,
    /// `resume` on a player that is not paused.
    AlreadyPlaying,
    /// The audio source resolver failed for a track.
    ResolveFailed,
    /// The streaming transport failed to join, play or stop.
    TransportError,
}

/// The three states of the player's state machine.
#[derive(Clone, Copy, PartialEq, Eq, Structural, Debug)]
pub enum PlayerState {
    Idle,
    Playing,
    Paused,
}

/// What an advance transition (natural track end, skip, or start failure)
/// left behind for the caller to act on.
pub struct AdvanceSummary {
    /// Title of the track that left the playing slot.
    pub finished_title: String,
    /// Whether a new head track should now be handed to the transport;
    /// read it with [`Player::now_playing`].
    pub start_next: bool,
}

/// What an enqueue left behind for the caller to act on.
pub struct EnqueueSummary {
    /// Whether the player was idle and playback should now start with the
    /// new head track; read it with [`Player::now_playing`].
    pub started: bool,
    /// Queue length after the enqueue, now-playing slot included.
    pub queue_len: usize,
}

/// Relies on rand's `SliceRandom::shuffle`: permutes the elements of the
/// slice in place, drawing from the thread-local generator.  The elements
/// are unchanged as a multiset (and so in number); only their order moves,
/// and no claim is made about which order comes out.
#[verifier::external_body]
fn shuffle_in_place(v: &mut Vec<Track>)
    ensures
        final(v)@.to_multiset() == old(v)@.to_multiset(),
        final(v)@.len() == old(v)@.len(),
{
    rand::seq::SliceRandom::shuffle(v.as_mut_slice(), &mut rand::thread_rng());
}

/// Per-guild player state.  Exactly one of these exists per connected guild
/// (the registry enforces that), and the surrounding program serializes
/// operations on it, so each operation sees and leaves a consistent state.
pub struct Player {
    pub guild_id: u64,
    /// The play queue; the head, when present, is the now-playing track.
    pub queue: Vec<Track>,
    pub repeat: Repeat,
    pub paused: bool,
    /// Tick at which the player became idle; `None` while tracks are queued.
    pub idle_since: Option<u64>,
    /// Playback epoch: bumped whenever the active stream changes.  A
    /// track-end callback carries the epoch it was registered under and is
    /// ignored if the player has moved on since.
    pub epoch: u64,
}

impl Player {
    /// The machine is idle exactly when the queue is empty; an idle player
    /// is never paused.
    pub open spec fn wf(&self) -> bool {
        &&& self.queue@.len() == 0 <==> self.idle_since is Some
        &&& self.queue@.len() == 0 ==> !self.paused
    }

    pub open spec fn spec_state(&self) -> PlayerState {
        if self.queue@.len() == 0 {
            PlayerState::Idle
        } else if self.paused {
            PlayerState::Paused
        } else {
            PlayerState::Playing
        }
    }

    /// The queue after one advance transition: the finished head is
    /// discarded, kept in place, or moved to the tail, as the repeat mode
    /// directs.
    pub open spec fn advanced_queue(q: Seq<Track>, mode: Repeat) -> Seq<Track>
        recommends
            q.len() > 0,
    {
        match mode {
            Repeat::Off => q.drop_first(),
            Repeat::One => q,
            Repeat::All => q.drop_first().push(q[0]),
        }
    }

    /// How an advance transition at tick `now` relates the state before
    /// (`pre`) to the state after (`post`): the queue advances per the
    /// repeat mode, the epoch is bumped so stale callbacks die, pause is
    /// honored while tracks remain, and an emptied player becomes idle.
    pub open spec fn advance_spec(pre: Player, post: Player, now: u64) -> bool {
        &&& post.queue@ == Player::advanced_queue(pre.queue@, pre.repeat)
        &&& post.guild_id == pre.guild_id
        &&& post.repeat == pre.repeat
        &&& post.epoch == pre.epoch + 1
        &&& post.paused == (post.queue@.len() > 0 && pre.paused)
        &&& post.idle_since == (if post.queue@.len() == 0 {
            Some(now)
        } else {
            None::<u64>
        })
    }

    /// A fresh player for a guild that just connected at tick `now`: empty
    /// queue, repeat off, not paused, idle since `now`.
    pub fn new(guild_id: u64, now: u64) -> (r: Player)
        ensures
            r.guild_id == guild_id,
            r.queue@.len() == 0,
            r.repeat == Repeat::Off,
            !r.paused,
            r.idle_since == Some(now),
            r.epoch == 0,
            r.wf(),
    {
        Player {
            guild_id,
            queue: Vec::new(),
            repeat: Repeat::Off,
            paused: false,
            idle_since: Some(now),
            epoch: 0,
        }
    }

    pub fn is_empty(&self) -> (r: bool)
        ensures
            r == (self.queue@.len() == 0),
    {
        self.queue.len() == 0
    }

    pub fn state(&self) -> (r: PlayerState)
        ensures
            r == self.spec_state(),
    {
        if self.queue.len() == 0 {
            PlayerState::Idle
        } else if self.paused {
            PlayerState::Paused
        } else {
            PlayerState::Playing
        }
    }

    /// Appends the given tracks to the queue.  If the player was idle and at
    /// least one track arrived, playback starts: the epoch is bumped, the
    /// summary says so, and the caller hands the new head to the transport.
    /// An enqueue never clears the pause flag of an already playing player.
    pub fn enqueue(&mut self, tracks: Vec<Track>) -> (r: EnqueueSummary)
        requires
            old(self).wf(),
            old(self).epoch < u64::MAX,
        ensures
            final(self).wf(),
            final(self).queue@ == old(self).queue@ + tracks@,
            final(self).guild_id == old(self).guild_id,
            final(self).repeat == old(self).repeat,
            final(self).paused == old(self).paused,
            r.started == (old(self).queue@.len() == 0 && tracks@.len() > 0),
            r.queue_len == final(self).queue@.len(),
            final(self).epoch == (if r.started {
                old(self).epoch + 1
            } else {
                old(self).epoch as int
            }),
            final(self).idle_since == (if final(self).queue@.len() == 0 {
                old(self).idle_since
            } else {
                None::<u64>
            }),
    {
        let was_empty = self.queue.len() == 0;
        let mut incoming = tracks;
        self.queue.append(&mut incoming);
        let started = was_empty && self.queue.len() > 0;
        if self.queue.len() > 0 {
            self.idle_since = None;
        }
        if started {
            self.epoch = self.epoch + 1;
        }
        EnqueueSummary { started, queue_len: self.queue.len() }
    }

    /// Pauses the now-playing track.  Reports `NothingPlaying` on an idle
    /// player and `AlreadyPaused` on a paused one; in both cases the state
    /// is untouched.
    pub fn pause(&mut self) -> (r: Result<(), PlayerError>)
        requires
            old(self).wf(),
        ensures
            final(self).wf(),
            old(self).queue@.len() == 0 ==> (r matches Err(e) && e == PlayerError::NothingPlaying)
                && *final(self) == *old(self),
            old(self).queue@.len() > 0 && old(self).paused ==> (r matches Err(e) && e == PlayerError::AlreadyPaused)
                && *final(self) == *old(self),
            old(self).queue@.len() > 0 && !old(self).paused ==> r is Ok
                && final(self).paused
                && final(self).queue == old(self).queue
                && final(self).guild_id == old(self).guild_id
                && final(self).repeat == old(self).repeat
                && final(self).idle_since == old(self).idle_since
                && final(self).epoch == old(self).epoch,
    {
        if self.queue.len() == 0 {
            Err(PlayerError::NothingPlaying)
        } else if self.paused {
            Err(PlayerError::AlreadyPaused)
        } else {
            self.paused = true;
            Ok(())
        }
    }

    /// Resumes a paused track.  Reports `NothingPlaying` on an idle player
    /// and `AlreadyPlaying` on one that is not paused; in both cases the
    /// state is untouched.
    pub fn resume(&mut self) -> (r: Result<(), PlayerError>)
        requires
            old(self).wf(),
        ensures
            final(self).wf(),
            old(self).queue@.len() == 0 ==> (r matches Err(e) && e == PlayerError::NothingPlaying)
                && *final(self) == *old(self),
            old(self).queue@.len() > 0 && !old(self).paused ==> (r matches Err(e) && e == PlayerError::AlreadyPlaying)
                && *final(self) == *old(self),
            old(self).queue@.len() > 0 && old(self).paused ==> r is Ok
                && !final(self).paused
                && final(self).queue == old(self).queue
                && final(self).guild_id == old(self).guild_id
                && final(self).repeat == old(self).repeat
                && final(self).idle_since == old(self).idle_since
                && final(self).epoch == old(self).epoch,
    {
        if self.queue.len() == 0 {
            Err(PlayerError::NothingPlaying)
        } else if !self.paused {
            Err(PlayerError::AlreadyPlaying)
        } else {
            self.paused = false;
            Ok(())
        }
    }

    /// Sets the repeat mode; only the advance transition reads it.
    pub fn set_repeat(&mut self, mode: Repeat)
        requires
            old(self).wf(),
        ensures
            final(self).wf(),
            final(self).repeat == mode,
            final(self).queue == old(self).queue,
            final(self).guild_id == old(self).guild_id,
            final(self).paused == old(self).paused,
            final(self).idle_since == old(self).idle_since,
            final(self).epoch == old(self).epoch,
    {
        self.repeat = mode;
    }

    /// Clears the whole queue, now-playing slot included, and goes idle as
    /// of tick `now`.  The epoch bump kills any in-flight track-end
    /// callback.  Returns how many tracks were dropped.
    pub fn stop(&mut self, now: u64) -> (r: usize)
        requires
            old(self).wf(),
            old(self).epoch < u64::MAX,
        ensures
            final(self).wf(),
            r == old(self).queue@.len(),
            final(self).queue@.len() == 0,
            final(self).guild_id == old(self).guild_id,
            final(self).repeat == old(self).repeat,
            !final(self).paused,
            final(self).idle_since == Some(now),
            final(self).epoch == old(self).epoch + 1,
    {
        let dropped = self.queue.len();
        self.queue.clear();
        self.paused = false;
        self.idle_since = Some(now);
        self.epoch = self.epoch + 1;
        dropped
    }

    /// Removes the queue entry at `index`.  Index 0 is the now-playing
    /// track, which this operation never touches: only `1..queue len` is
    /// removable, and any other index reports `OutOfBounds` and leaves the
    /// queue unmodified.
    pub fn remove(&mut self, index: usize) -> (r: Result<Track, PlayerError>)
        requires
            old(self).wf(),
        ensures
            final(self).wf(),
            !(1 <= index < old(self).queue@.len()) ==> (r matches Err(e) && e
                == PlayerError::OutOfBounds) && *final(self) == *old(self),
            1 <= index < old(self).queue@.len() ==> (r matches Ok(t) && t == old(self).queue@[index as int])
                && final(self).queue@ == old(self).queue@.remove(index as int)
                && final(self).guild_id == old(self).guild_id
                && final(self).repeat == old(self).repeat
                && final(self).paused == old(self).paused
                && final(self).idle_since == old(self).idle_since
                && final(self).epoch == old(self).epoch,
    {
        if 1 <= index && index < self.queue.len() {
            Ok(self.queue.remove(index))
        } else {
            Err(PlayerError::OutOfBounds)
        }
    }

    /// One advance transition on a non-idle player: bumps the epoch, moves
    /// the queue per the repeat mode, and goes idle if the queue emptied.
    fn advance_internal(&mut self, now: u64) -> (r: AdvanceSummary)
        requires
            old(self).wf(),
            old(self).queue@.len() > 0,
            old(self).epoch < u64::MAX,
        ensures
            final(self).wf(),
            Player::advance_spec(*old(self), *final(self), now),
            r.finished_title@ == old(self).queue@[0].title@,
            r.start_next == (final(self).queue@.len() > 0),
    {
        self.epoch = self.epoch + 1;
        let finished_title = self.queue[0].title.clone();
        match self.repeat {
            Repeat::One => {},
            Repeat::Off => {
                self.queue.remove(0);
                proof {
                    assert(old(self).queue@.remove(0) =~= old(self).queue@.drop_first());
                }
            },
            Repeat::All => {
                let head = self.queue.remove(0);
                self.queue.push(head);
                proof {
                    assert(old(self).queue@.remove(0) =~= old(self).queue@.drop_first());
                }
            },
        }
        if self.queue.len() == 0 {
            self.paused = false;
            self.idle_since = Some(now);
            AdvanceSummary { finished_title, start_next: false }
        } else {
            self.idle_since = None;
            AdvanceSummary { finished_title, start_next: true }
        }
    }

    /// Skips the now-playing track: the stream is to be stopped by the
    /// caller, and the advance transition is applied at once (the epoch bump
    /// makes the stream's own end callback a no-op).  Under repeat-one the
    /// skipped track stays at the head and is restarted; this deliberately
    /// treats an explicit skip like a natural end.  Reports `NothingPlaying`
    /// on an idle player, leaving it untouched.
    pub fn skip(&mut self, now: u64) -> (r: Result<AdvanceSummary, PlayerError>)
        requires
            old(self).wf(),
            old(self).epoch < u64::MAX,
        ensures
            final(self).wf(),
            old(self).queue@.len() == 0 ==> (r matches Err(e) && e == PlayerError::NothingPlaying)
                && *final(self) == *old(self),
            old(self).queue@.len() > 0 ==> (r matches Ok(s)
                && Player::advance_spec(*old(self), *final(self), now)
                && s.finished_title@ == old(self).queue@[0].title@
                && s.start_next == (final(self).queue@.len() > 0)),
    {
        if self.queue.len() == 0 {
            Err(PlayerError::NothingPlaying)
        } else {
            Ok(self.advance_internal(now))
        }
    }

    /// The natural track-end path.  `epoch` is the playback epoch the
    /// callback was registered under: if the player has moved on since (a
    /// skip, stop or fresh start bumped it), or is idle, the callback is
    /// stale and ignored; otherwise the advance transition is applied.
    pub fn on_track_end(&mut self, epoch: u64, now: u64) -> (r: Option<AdvanceSummary>)
        requires
            old(self).wf(),
            old(self).epoch < u64::MAX,
        ensures
            final(self).wf(),
            epoch != old(self).epoch || old(self).queue@.len() == 0 ==> r is None && *final(self)
                == *old(self),
            epoch == old(self).epoch && old(self).queue@.len() > 0 ==> (r matches Some(s)
                && Player::advance_spec(*old(self), *final(self), now)
                && s.finished_title@ == old(self).queue@[0].title@
                && s.start_next == (final(self).queue@.len() > 0)),
    {
        if epoch != self.epoch || self.queue.len() == 0 {
            None
        } else {
            Some(self.advance_internal(now))
        }
    }

    /// The start-failure path: resolving or streaming the head track failed,
    /// so that track is dropped outright — regardless of the repeat mode, so
    /// that a queue of broken tracks drains instead of looping forever — and
    /// the next head, if any, becomes the candidate to start.  On an idle
    /// player there is nothing to drop and the state is untouched.
    pub fn on_start_failed(&mut self, now: u64) -> (r: Option<AdvanceSummary>)
        requires
            old(self).wf(),
            old(self).epoch < u64::MAX,
        ensures
            final(self).wf(),
            old(self).queue@.len() == 0 ==> r is None && *final(self) == *old(self),
            old(self).queue@.len() > 0 ==> (r matches Some(s)
                && final(self).queue@ == old(self).queue@.drop_first()
                && final(self).guild_id == old(self).guild_id
                && final(self).repeat == old(self).repeat
                && final(self).epoch == old(self).epoch + 1
                && final(self).paused == (final(self).queue@.len() > 0 && old(self).paused)
                && final(self).idle_since == (if final(self).queue@.len() == 0 {
                    Some(now)
                } else {
                    None::<u64>
                })
                && s.finished_title@ == old(self).queue@[0].title@
                && s.start_next == (final(self).queue@.len() > 0)),
    {
        if self.queue.len() == 0 {
            return None;
        }
        self.epoch = self.epoch + 1;
        let failed = self.queue.remove(0);
        proof {
            assert(old(self).queue@.remove(0) =~= old(self).queue@.drop_first());
        }
        if self.queue.len() == 0 {
            self.paused = false;
            self.idle_since = Some(now);
            Some(AdvanceSummary { finished_title: failed.title, start_next: false })
        } else {
            self.idle_since = None;
            Some(AdvanceSummary { finished_title: failed.title, start_next: true })
        }
    }

    /// Permutes the upcoming tracks uniformly at random.  The now-playing
    /// head never moves and is never dropped, and the upcoming tracks are
    /// preserved as a multiset: only their order changes.  With fewer than
    /// two upcoming tracks there is nothing to permute and the queue is left
    /// exactly as it was.  Returns how many tracks were shuffled.
    pub fn shuffle(&mut self) -> (r: usize)
        requires
            old(self).wf(),
        ensures
            final(self).wf(),
            final(self).queue@.len() == old(self).queue@.len(),
            old(self).queue@.len() > 0 ==> final(self).queue@[0] == old(self).queue@[0],
            final(self).queue@.skip(1).to_multiset() == old(self).queue@.skip(1).to_multiset(),
            old(self).queue@.len() <= 2 ==> final(self).queue@ == old(self).queue@ && r == 0,
            old(self).queue@.len() > 2 ==> r == old(self).queue@.len() - 1,
            final(self).guild_id == old(self).guild_id,
            final(self).repeat == old(self).repeat,
            final(self).paused == old(self).paused,
            final(self).idle_since == old(self).idle_since,
            final(self).epoch == old(self).epoch,
    {
        if self.queue.len() > 2 {
            let head = self.queue.remove(0);
            proof {
                assert(old(self).queue@.remove(0) =~= old(self).queue@.skip(1));
            }
            let ghost upcoming = self.queue@;
            shuffle_in_place(&mut self.queue);
            let ghost permuted = self.queue@;
            self.queue.insert(0, head);
            proof {
                assert(self.queue@ =~= seq![head].add(permuted));
                assert(self.queue@.skip(1) =~= permuted);
            }
            self.queue.len() - 1
        } else {
            0
        }
    }

    /// The now-playing track: the head of the queue, if any.
    pub fn now_playing(&self) -> (r: Option<&Track>)
        ensures
            match r {
                Some(t) => self.queue@.len() > 0 && *t == self.queue@[0],
                None => self.queue@.len() == 0,
            },
    {
        if self.queue.len() > 0 {
            Some(&self.queue[0])
        } else {
            None
        }
    }
}

/// Policy: an explicit skip under repeat-one restarts the same track rather
/// than dropping it.  The hypotheses are what `skip` ensures of a non-idle
/// player: under `Repeat::One` the queue — head included — is exactly what
/// it was and only the epoch moved, so what the caller restarts is the very
/// track that was playing.
pub proof fn lemma_skip_under_repeat_one_restarts(pre: Player, post: Player, now: u64)
    requires
        pre.queue@.len() > 0,
        pre.repeat == Repeat::One,
        Player::advance_spec(pre, post, now),
    ensures
        post.queue@ == pre.queue@,
        post.queue@[0] == pre.queue@[0],
        post.epoch == pre.epoch + 1,
        post.paused == pre.paused,
        post.idle_since is None,
{
}

} // verus!
