//! The per-guild playback queue: pure data and transitions, no I/O.
//!
//! The head of the queue (index 0), when the queue is not empty, is the active
//! track — the one currently streaming. Skipping or ending a track removes the
//! head; the next entry, if any, becomes active.

use vstd::prelude::*;

verus! {

/// One resolved playable media item.
///
/// `source` is the normalized resolver input (query text as bytes) that the
/// audio transport turns back into a playable stream; `title` and `source_url`
/// are display metadata; `volume` is this track's own playback volume in
/// percent, mutable while the track is active.
#[derive(Clone, Debug, PartialEq)]
pub struct Track {
    pub source: Vec<u8>,
    pub title: String,
    pub source_url: String,
    pub volume: u8,
}

/// The index of the active track: the head when the queue is not empty.
pub open spec fn active_index(s: Seq<Track>) -> Option<int> {
    if s.len() == 0 {
        None
    } else {
        Some(0int)
    }
}

/// The active track, if any.
pub open spec fn current_of(s: Seq<Track>) -> Option<Track> {
    if s.len() == 0 {
        None
    } else {
        Some(s[0])
    }
}

/// Queue contents after enqueueing `t`.
pub open spec fn enqueue_of(s: Seq<Track>, t: Track) -> Seq<Track> {
    s.push(t)
}

/// Queue contents after a skip: the head is removed, the rest moves up.
pub open spec fn skip_of(s: Seq<Track>) -> Seq<Track> {
    if s.len() == 0 {
        s
    } else {
        s.drop_first()
    }
}

/// Queue contents after a clear: only the active track, if any, is kept.
pub open spec fn clear_of(s: Seq<Track>) -> Seq<Track> {
    if s.len() == 0 {
        s
    } else {
        seq![s[0]]
    }
}

/// Per-guild ordered queue of tracks plus the implicit active pointer:
/// the active track is entries[0] whenever entries is non-empty.
pub struct GuildQueue {
    tracks: Vec<Track>,
}

impl View for GuildQueue {
    type V = Seq<Track>;

    closed spec fn view(&self) -> Seq<Track> {
        self.tracks@
    }
}

impl GuildQueue {
    /// A fresh, empty queue: no entries, no active track.
    pub fn new() -> (q: GuildQueue)
        ensures
            q@ == Seq::<Track>::empty(),
    {
        GuildQueue { tracks: Vec::new() }
    }

    /// Total number of queued tracks, the active one included.
    pub fn len(&self) -> (n: usize)
        ensures
            n == self@.len(),
    {
        self.tracks.len()
    }

    /// Appends a track. Returns true exactly when the queue was empty, in
    /// which case the new track becomes active (index 0) and should be handed
    /// to the transport to start now; onto a non-empty queue the active index
    /// is unchanged and no playback signal is produced.
    pub fn enqueue(&mut self, t: Track) -> (starts_now: bool)
        ensures
            final(self)@ == enqueue_of(old(self)@, t),
            starts_now == (old(self)@.len() == 0),
            old(self)@.len() == 0 ==> active_index(final(self)@) == Some(0int),
            old(self)@.len() > 0 ==> active_index(final(self)@) == active_index(old(self)@),
    {
        let was_empty = self.tracks.len() == 0;
        self.tracks.push(t);
        was_empty
    }

    /// The active track, if any: entries[0] of a non-empty queue.
    pub fn current_track(&self) -> (r: Option<&Track>)
        ensures
            match r {
                Some(t) => current_of(self@) == Some(*t),
                None => current_of(self@) is None,
            },
    {
        if self.tracks.len() == 0 {
            None
        } else {
            Some(&self.tracks[0])
        }
    }

    /// Removes the head if the queue is non-empty; the next entry, if any,
    /// becomes active. On an empty queue this is a no-op. Returns the count
    /// of tracks remaining.
    pub fn skip(&mut self) -> (remaining: usize)
        ensures
            final(self)@ == skip_of(old(self)@),
            remaining == final(self)@.len(),
            old(self)@.len() >= 1 ==> final(self)@.len() == old(self)@.len() - 1,
            old(self)@.len() >= 2 ==> current_of(final(self)@) == Some(old(self)@[1]),
            old(self)@.len() == 0 ==> final(self)@ == old(self)@ && remaining == 0,
    {
        if self.tracks.len() == 0 {
            0
        } else {
            self.tracks.remove(0);
            self.tracks.len()
        }
    }

    /// Removes every entry except the active one, preserving the current
    /// playback. On an empty queue this is a no-op.
    pub fn clear(&mut self)
        ensures
            final(self)@ == clear_of(old(self)@),
    {
        self.tracks.truncate(1);
        proof {
            if old(self)@.len() > 0 {
                assert(self@ =~= clear_of(old(self)@));
            }
        }
    }

    /// Sets the volume of the active track; the rest of the queue and the
    /// play order are untouched.
    pub fn set_active_volume(&mut self, volume: u8)
        requires
            old(self)@.len() > 0,
        ensures
            final(self)@.len() == old(self)@.len(),
            final(self)@[0] == (Track { volume, ..old(self)@[0] }),
            forall|i: int| 1 <= i < old(self)@.len() ==> final(self)@[i] == old(self)@[i],
    {
        let head = &mut self.tracks[0];
        head.volume = volume;
    }
}

/// Round trip of a single track: enqueued onto an empty queue it is the
/// current track, and after one skip there is no current track.
pub proof fn lemma_enqueue_skip_round_trip(s: Seq<Track>, t: Track)
    requires
        s.len() == 0,
    ensures
        current_of(enqueue_of(s, t)) == Some(t),
        current_of(skip_of(enqueue_of(s, t))) is None,
{
    assert(enqueue_of(s, t).len() == 1);
    assert(skip_of(enqueue_of(s, t)).len() == 0);
}

} // verus!
