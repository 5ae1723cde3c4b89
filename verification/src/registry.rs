//! The session registry: the single source of truth mapping each guild to its
//! voice session.
//!
//! At most one [`VoiceSession`] exists per guild at any time; that uniqueness
//! is the registry's invariant [`SessionRegistry::wf`]. The registry owns
//! creation and teardown of sessions; the actual transport connection is
//! established by the host process, which feeds the outcome of the join or
//! teardown call into the verified operations here.

use vstd::prelude::*;

use crate::controller::CommandError;
use crate::queue::GuildQueue;

verus! {

/// An active voice connection for one guild: the channel joined and the
/// guild's playback queue. The transport-side link handle is held by the host
/// process, keyed by the same guild identifier.
pub struct VoiceSession {
    pub guild_id: u64,
    pub voice_channel_id: u64,
    pub queue: GuildQueue,
}

/// Mapping guild identifier -> voice session, keys unique.
pub struct SessionRegistry {
    sessions: Vec<VoiceSession>,
}

impl View for SessionRegistry {
    type V = Seq<VoiceSession>;

    closed spec fn view(&self) -> Seq<VoiceSession> {
        self.sessions@
    }
}

impl SessionRegistry {
    /// Well-formedness: no two entries are for the same guild.
    pub open spec fn wf(self) -> bool {
        forall|i: int, j: int|
            0 <= i < self@.len() && 0 <= j < self@.len() && i != j ==> self@[i].guild_id
                != self@[j].guild_id
    }

    /// Whether some session is registered for `guild_id`.
    pub open spec fn has_session(self, guild_id: u64) -> bool {
        exists|i: int| 0 <= i < self@.len() && self@[i].guild_id == guild_id
    }

    /// The index of the session for `guild_id`, when one exists.
    pub open spec fn session_index(self, guild_id: u64) -> int {
        choose|i: int| 0 <= i < self@.len() && self@[i].guild_id == guild_id
    }

    /// The session registered for `guild_id`, if any.
    pub open spec fn spec_get(self, guild_id: u64) -> Option<VoiceSession> {
        if self.has_session(guild_id) {
            Some(self@[self.session_index(guild_id)])
        } else {
            None
        }
    }

    /// The queue contents of the session for `guild_id`; empty when no
    /// session exists.
    pub open spec fn guild_queue(self, guild_id: u64) -> Seq<crate::queue::Track> {
        match self.spec_get(guild_id) {
            Some(s) => s.queue@,
            None => Seq::empty(),
        }
    }

    /// The voice channel of the session for `guild_id`; zero when no session
    /// exists.
    pub open spec fn channel_of(self, guild_id: u64) -> u64 {
        match self.spec_get(guild_id) {
            Some(s) => s.voice_channel_id,
            None => 0,
        }
    }

    /// An entry that carries `guild_id` pins down the whole lookup: it is the
    /// entry `spec_get` returns.
    pub proof fn lemma_index_determines(self, guild_id: u64, i: int)
        requires
            self.wf(),
            0 <= i < self@.len(),
            self@[i].guild_id == guild_id,
        ensures
            self.has_session(guild_id),
            self.session_index(guild_id) == i,
            self.spec_get(guild_id) == Some(self@[i]),
    {
        assert(self.has_session(guild_id));
        let j = self.session_index(guild_id);
        assert(0 <= j < self@.len() && self@[j].guild_id == guild_id);
        assert(j == i);
    }

    /// Registry uniqueness: at most one session exists per guild — any two
    /// entries carrying the same guild identifier are the same entry.
    pub proof fn lemma_at_most_one_session(self, i: int, j: int)
        requires
            self.wf(),
            0 <= i < self@.len(),
            0 <= j < self@.len(),
            self@[i].guild_id == self@[j].guild_id,
        ensures
            i == j,
    {
    }

    /// A fresh registry with no sessions.
    pub fn new() -> (r: SessionRegistry)
        ensures
            r@ == Seq::<VoiceSession>::empty(),
            r.wf(),
    {
        SessionRegistry { sessions: Vec::new() }
    }

    /// Index of the entry for `guild_id`, if one is registered.
    pub fn find_index(&self, guild_id: u64) -> (r: Option<usize>)
        requires
            self.wf(),
        ensures
            match r {
                Some(i) => (i < self@.len() && self@[i as int].guild_id == guild_id
                    && self.spec_get(guild_id) == Some(self@[i as int])),
                None => !self.has_session(guild_id),
            },
    {
        let n = self.sessions.len();
        let mut i: usize = 0;
        while i < n
            invariant
                n == self@.len(),
                i <= n,
                self.wf(),
                forall|k: int| 0 <= k < i ==> self@[k].guild_id != guild_id,
            decreases n - i,
        {
            if self.sessions[i].guild_id == guild_id {
                proof {
                    self.lemma_index_determines(guild_id, i as int);
                }
                return Some(i);
            }
            i += 1;
        }
        None
    }

    /// Non-mutating lookup of the session for `guild_id`.
    pub fn get(&self, guild_id: u64) -> (r: Option<&VoiceSession>)
        requires
            self.wf(),
        ensures
            match r {
                Some(s) => self.spec_get(guild_id) == Some(*s),
                None => self.spec_get(guild_id) is None,
            },
    {
        match self.find_index(guild_id) {
            Some(i) => Some(&self.sessions[i]),
            None => None,
        }
    }

    /// Read access to the entry at `i`.
    pub fn session_at(&self, i: usize) -> (s: &VoiceSession)
        requires
            i < self@.len(),
        ensures
            *s == self@[i as int],
    {
        &self.sessions[i]
    }

    /// Mutable access to the entry at `i`; the rest of the registry is
    /// untouched.
    pub fn session_at_mut(&mut self, i: usize) -> (s: &mut VoiceSession)
        requires
            i < old(self)@.len(),
        ensures
            *s == old(self)@[i as int],
            final(self)@ == old(self)@.update(i as int, *final(s)),
    {
        &mut self.sessions[i]
    }

    /// Replacing the entry at `i` by one for the same guild keeps the
    /// registry well formed, keeps the lookup for that guild pointing at the
    /// replaced entry, and leaves every other guild's lookup unchanged.
    pub proof fn lemma_update_entry(pre: SessionRegistry, post: SessionRegistry, i: int, s: VoiceSession)
        requires
            pre.wf(),
            0 <= i < pre@.len(),
            post@ == pre@.update(i, s),
            s.guild_id == pre@[i].guild_id,
        ensures
            post.wf(),
            pre.spec_get(s.guild_id) == Some(pre@[i]),
            post.spec_get(s.guild_id) == Some(s),
            forall|g: u64| g != s.guild_id ==> post.spec_get(g) == pre.spec_get(g),
    {
        let gid = s.guild_id;
        assert(post.wf());
        pre.lemma_index_determines(gid, i);
        post.lemma_index_determines(gid, i);
        assert forall|g: u64| g != gid implies post.spec_get(g) == pre.spec_get(g) by {
            if pre.has_session(g) {
                let k = pre.session_index(g);
                assert(0 <= k < pre@.len() && pre@[k].guild_id == g);
                assert(k != i);
                assert(post@[k] == pre@[k]);
                pre.lemma_index_determines(g, k);
                post.lemma_index_determines(g, k);
            } else {
                if post.has_session(g) {
                    let k = post.session_index(g);
                    assert(0 <= k < post@.len() && post@[k].guild_id == g);
                    assert(k != i);
                    assert(pre@[k].guild_id == g);
                }
            }
        }
    }

    /// If a session already exists for `guild_id`, this returns successfully
    /// and changes nothing — joining another channel while connected is a
    /// no-op. Otherwise the host process has asked the transport to connect
    /// to `voice_channel_id`, and `join_ok` is that call's outcome: on
    /// success a new session with an empty queue is registered; on failure
    /// nothing is registered and the command fails with `VoiceConnectError`.
    pub fn get_or_create(&mut self, guild_id: u64, voice_channel_id: u64, join_ok: bool) -> (r:
        Result<(), CommandError>)
        requires
            old(self).wf(),
        ensures
            final(self).wf(),
            old(self).has_session(guild_id) ==> (final(self)@ == old(self)@ && r is Ok),
            (!old(self).has_session(guild_id) && join_ok) ==> ({
                &&& r is Ok
                &&& final(self).spec_get(guild_id) matches Some(s)
                &&& s.guild_id == guild_id
                &&& s.voice_channel_id == voice_channel_id
                &&& s.queue@ == Seq::<crate::queue::Track>::empty()
            }),
            (!old(self).has_session(guild_id) && !join_ok) ==> (final(self)@ == old(self)@ && r
                == Err::<(), CommandError>(CommandError::VoiceConnectError)),
            forall|g: u64|
                g != guild_id ==> final(self).spec_get(g) == old(self).spec_get(g),
    {
        match self.find_index(guild_id) {
            Some(_) => Ok(()),
            None => {
                if join_ok {
                    let session = VoiceSession {
                        guild_id,
                        voice_channel_id,
                        queue: GuildQueue::new(),
                    };
                    self.sessions.push(session);
                    proof {
                        let pre = *old(self);
                        let post = *self;
                        let n = pre@.len();
                        assert(post@ == pre@.push(session));
                        assert(post@[n as int] == session);
                        assert forall|i: int, j: int|
                            0 <= i < post@.len() && 0 <= j < post@.len() && i != j implies post@[i].guild_id
                            != post@[j].guild_id by {
                            if i < n && j < n {
                                assert(post@[i] == pre@[i] && post@[j] == pre@[j]);
                            } else if i < n && j == n {
                                assert(post@[i] == pre@[i]);
                                assert(pre@[i].guild_id != guild_id);
                            } else if i == n && j < n {
                                assert(post@[j] == pre@[j]);
                                assert(pre@[j].guild_id != guild_id);
                            }
                        }
                        post.lemma_index_determines(guild_id, n as int);
                        assert forall|g: u64| g != guild_id implies post.spec_get(g)
                            == pre.spec_get(g) by {
                            if pre.has_session(g) {
                                let k = pre.session_index(g);
                                assert(0 <= k < n && pre@[k].guild_id == g);
                                assert(post@[k] == pre@[k]);
                                pre.lemma_index_determines(g, k);
                                post.lemma_index_determines(g, k);
                            } else {
                                if post.has_session(g) {
                                    let k = post.session_index(g);
                                    assert(0 <= k < post@.len() && post@[k].guild_id == g);
                                    assert(k != n);
                                    assert(pre@[k].guild_id == g);
                                }
                            }
                        }
                    }
                    Ok(())
                } else {
                    Err(CommandError::VoiceConnectError)
                }
            },
        }
    }

    /// Tears down the entry for `guild_id`. `teardown_ok` is the outcome of
    /// the transport disconnect call the host process has made. Fails with
    /// `DisconnectError` if no session exists or the teardown call failed;
    /// even on a failed teardown an existing entry is removed, so no stuck
    /// reference survives.
    pub fn remove(&mut self, guild_id: u64, teardown_ok: bool) -> (r: Result<(), CommandError>)
        requires
            old(self).wf(),
        ensures
            final(self).wf(),
            !old(self).has_session(guild_id) ==> (final(self)@ == old(self)@ && r == Err::<
                (),
                CommandError,
            >(CommandError::DisconnectError)),
            old(self).has_session(guild_id) ==> (!final(self).has_session(guild_id) && final(self)@.len() == old(self)@.len() - 1),
            old(self).has_session(guild_id) ==> (if teardown_ok {
                r is Ok
            } else {
                r == Err::<(), CommandError>(CommandError::DisconnectError)
            }),
            forall|g: u64|
                g != guild_id ==> final(self).spec_get(g) == old(self).spec_get(g),
    {
        match self.find_index(guild_id) {
            None => Err(CommandError::DisconnectError),
            Some(i) => {
                self.sessions.remove(i);
                proof {
                    let pre = *old(self);
                    let post = *self;
                    let n = pre@.len();
                    assert(post@ == pre@.remove(i as int));
                    assert(post@.len() == n - 1);
                    assert forall|k: int| 0 <= k < post@.len() implies post@[k] == (if k < i {
                        pre@[k]
                    } else {
                        pre@[k + 1]
                    }) by {}
                    assert(post.wf());
                    assert(!post.has_session(guild_id)) by {
                        if post.has_session(guild_id) {
                            let k = post.session_index(guild_id);
                            assert(0 <= k < post@.len() && post@[k].guild_id == guild_id);
                            if k < i {
                                assert(pre@[k].guild_id == guild_id);
                                pre.lemma_at_most_one_session(k, i as int);
                            } else {
                                assert(pre@[k + 1].guild_id == guild_id);
                                pre.lemma_at_most_one_session(k + 1, i as int);
                            }
                        }
                    }
                    assert forall|g: u64| g != guild_id implies post.spec_get(g) == pre.spec_get(
                        g,
                    ) by {
                        if pre.has_session(g) {
                            let k = pre.session_index(g);
                            assert(0 <= k < n && pre@[k].guild_id == g);
                            assert(k != i);
                            let k2 = if k < i as int {
                                k
                            } else {
                                k - 1
                            };
                            assert(post@[k2] == pre@[k]);
                            pre.lemma_index_determines(g, k);
                            post.lemma_index_determines(g, k2);
                        } else {
                            if post.has_session(g) {
                                let k = post.session_index(g);
                                assert(0 <= k < post@.len() && post@[k].guild_id == g);
                                if k < i {
                                    assert(pre@[k].guild_id == g);
                                } else {
                                    assert(pre@[k + 1].guild_id == g);
                                }
                            }
                        }
                    }
                }
                if teardown_ok {
                    Ok(())
                } else {
                    Err(CommandError::DisconnectError)
                }
            },
        }
    }
}

} // verus!
