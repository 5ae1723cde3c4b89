//! Command logic: for every user command, how the per-guild state changes and
//! which transport primitive the host process must invoke.
//!
//! Each function here is pure decision logic over the [`SessionRegistry`] and
//! plain values. Where a command depends on an external collaborator — the
//! media resolver, the transport's join or disconnect call, the observed play
//! state of the active track — the host process performs that call and passes
//! the outcome in as an argument; the functions state exactly what is decided
//! for every possible outcome.

use vstd::prelude::*;

use crate::queue::{clear_of, enqueue_of, skip_of, Track};
use crate::registry::SessionRegistry;

verus! {

/// Everything a command can fail with. All of these are recoverable at the
/// command boundary: the host process renders them as a user-facing message.
#[derive(Clone, Debug, PartialEq, Eq)]
pub enum CommandError {
    /// The caller is not in a guild voice channel.
    NotInVoiceChannel,
    /// `play` was issued without a query.
    EmptyQuery,
    /// The media resolver failed; the payload is its reason.
    ResolutionFailed(String),
    /// The resolved source cannot be started by the transport.
    UnplayableSource,
    /// The transport could not establish the voice connection.
    VoiceConnectError,
    /// The command needs an existing voice session and none is registered.
    NoActiveSession,
    /// The command needs a currently playing track and there is none.
    NoActiveTrack,
    /// The active track was observed in a state that is neither playing nor
    /// paused, so the pause/resume toggle changes nothing.
    InvalidTrackState,
    /// The volume argument is not an integer in [0, 100].
    InvalidVolumeInput,
    /// Teardown of a session failed, or there was no session to tear down.
    DisconnectError,
}

/// The user-visible outcome of a successful command; the host process turns
/// it into message text.
#[derive(Clone, Debug, PartialEq, Eq)]
pub enum Reply {
    /// The enqueued track became the active track and starts now.
    NowPlaying { title: String, source_url: String },
    /// The enqueued track waits behind the active one.
    AddedToQueue { title: String, source_url: String },
    /// Count of queued tracks excluding the active one; zero is rendered as
    /// "no queued songs".
    QueueStatus { pending: u64 },
    /// The queue was cleared down to the active track.
    Cleared,
    /// The active track was skipped; count of tracks remaining, the new
    /// active one included.
    Skipped { remaining: u64 },
    /// The active track's volume was set.
    VolumeSet { volume: u8 },
    /// The voice channel was left.
    LeftChannel,
}

/// A primitive of the voice transport that the host process must invoke on
/// the guild's link after the command decided it.
#[derive(Clone, Copy, Debug, PartialEq, Eq, Structural)]
pub enum VoiceAction {
    /// Begin streaming the guild's current active track.
    StartActive,
    /// Pause the active track.
    PauseActive,
    /// Resume the active track.
    ResumeActive,
    /// Set the active track's volume, in percent.
    SetActiveVolume { percent: u8 },
    /// Disconnect from the guild's voice channel.
    Disconnect,
}

/// The play state of the active track as the transport reports it.
#[derive(Clone, Copy, Debug, PartialEq, Eq, Structural)]
pub enum PlayState {
    Playing,
    Paused,
    Other,
}

/// Display metadata the media resolver returned for a source; either field
/// may be missing.
pub struct ResolvedMetadata {
    pub title: Option<String>,
    pub source_url: Option<String>,
}

/// The query with surrounding angle-bracket decoration removed, if present.
pub open spec fn stripped_of(q: Seq<u8>) -> Seq<u8> {
    if q.len() >= 2 && q[0] == 60u8 && q[q.len() - 1] == 62u8 {
        q.subrange(1, q.len() - 1)
    } else {
        q
    }
}

/// Whether a (stripped) query is taken as a direct URL: it starts with the
/// recognized scheme prefix.
pub open spec fn is_url_query(q: Seq<u8>) -> bool {
    q.len() >= 4 && q[0] == 104u8 && q[1] == 116u8 && q[2] == 116u8 && q[3] == 112u8
}

/// The prefix that turns a free-text query into a search request.
pub open spec fn search_prefix() -> Seq<u8> {
    seq![121u8, 116u8, 115u8, 101u8, 97u8, 114u8, 99u8, 104u8, 58u8]
}

/// What is handed to the media resolver for a query: the stripped text
/// itself when it is a URL, the search-prefixed text otherwise.
pub open spec fn resolver_input_of(q: Seq<u8>) -> Seq<u8> {
    if is_url_query(stripped_of(q)) {
        stripped_of(q)
    } else {
        search_prefix() + stripped_of(q)
    }
}

/// Normalizes a `play` query into the resolver input. An empty query is
/// rejected with `EmptyQuery`; everything else is accepted.
pub fn prepare_query(query: &[u8]) -> (r: Result<Vec<u8>, CommandError>)
    ensures
        query@.len() == 0 ==> r == Err::<Vec<u8>, CommandError>(CommandError::EmptyQuery),
        query@.len() > 0 ==> (r matches Ok(v) && v@ == resolver_input_of(query@)),
{
    let n = query.len();
    if n == 0 {
        return Err(CommandError::EmptyQuery);
    }
    let (start, end): (usize, usize) = if n >= 2 && query[0] == 60u8 && query[n - 1] == 62u8 {
        (1, n - 1)
    } else {
        (0, n)
    };
    proof {
        assert(query@.subrange(start as int, end as int) =~= stripped_of(query@));
    }
    let is_url = end - start >= 4 && query[start] == 104u8 && query[start + 1] == 116u8
        && query[start + 2] == 116u8 && query[start + 3] == 112u8;
    let mut out: Vec<u8> = Vec::new();
    if !is_url {
        out.push(121u8);
        out.push(116u8);
        out.push(115u8);
        out.push(101u8);
        out.push(97u8);
        out.push(114u8);
        out.push(99u8);
        out.push(104u8);
        out.push(58u8);
        proof {
            assert(out@ =~= search_prefix());
        }
    }
    let ghost head: Seq<u8> = out@;
    let mut i: usize = start;
    while i < end
        invariant
            start <= i <= end <= query@.len(),
            out@ == head + query@.subrange(start as int, i as int),
        decreases end - i,
    {
        out.push(query[i]);
        proof {
            assert(out@ =~= head + query@.subrange(start as int, i + 1 as int));
        }
        i += 1;
    }
    proof {
        assert(out@ =~= resolver_input_of(query@));
    }
    Ok(out)
}

/// Whether a byte is a decimal digit.
pub open spec fn is_digit(b: u8) -> bool {
    48 <= b <= 57
}

/// Whether every byte of `s` is a decimal digit.
pub open spec fn all_digits(s: Seq<u8>) -> bool {
    forall|i: int| 0 <= i < s.len() ==> is_digit(s[i])
}

/// The value of a string of decimal digits.
pub open spec fn dec_value(s: Seq<u8>) -> int
    decreases s.len(),
{
    if s.len() == 0 {
        0
    } else {
        dec_value(s.drop_last()) * 10 + (s.last() - 48)
    }
}

/// The integer a token denotes: digits with an optional leading sign, as the
/// standard integer parser accepts them. `None` when the token is not an
/// integer at all.
pub open spec fn int_token_value(s: Seq<u8>) -> Option<int> {
    if s.len() > 0 && all_digits(s) {
        Some(dec_value(s))
    } else if s.len() > 1 && s[0] == 43u8 && all_digits(s.drop_first()) {
        Some(dec_value(s.drop_first()))
    } else if s.len() > 1 && s[0] == 45u8 && all_digits(s.drop_first()) {
        Some(-dec_value(s.drop_first()))
    } else {
        None
    }
}

/// Whether a token is accepted as a volume argument: an integer in [0, 100].
pub open spec fn volume_accepted(s: Seq<u8>) -> bool {
    match int_token_value(s) {
        Some(v) => 0 <= v <= 100,
        None => false,
    }
}

proof fn lemma_dec_value_nonneg(s: Seq<u8>)
    requires
        all_digits(s),
    ensures
        dec_value(s) >= 0,
    decreases s.len(),
{
    if s.len() > 0 {
        assert(all_digits(s.drop_last()));
        lemma_dec_value_nonneg(s.drop_last());
    }
}

/// Parses a volume argument. Accepted exactly when the token is an integer
/// in [0, 100]; anything else is rejected with `InvalidVolumeInput`, and
/// nothing is mutated anywhere.
pub fn parse_volume(input: &[u8]) -> (r: Result<u8, CommandError>)
    ensures
        volume_accepted(input@) ==> (r matches Ok(v) && int_token_value(input@) == Some(
            v as int,
        ) && v <= 100),
        !volume_accepted(input@) ==> r == Err::<u8, CommandError>(CommandError::InvalidVolumeInput),
{
    let n = input.len();
    if n == 0 {
        return Err(CommandError::InvalidVolumeInput);
    }
    let (negative, start): (bool, usize) = if input[0] == 43u8 {
        (false, 1)
    } else if input[0] == 45u8 {
        (true, 1)
    } else {
        (false, 0)
    };
    if start == n {
        // a bare sign has no digits
        proof {
            assert(!is_digit(input@[0]));
        }
        return Err(CommandError::InvalidVolumeInput);
    }
    let ghost digits: Seq<u8> = input@.subrange(start as int, n as int);
    proof {
        if start == 1 {
            assert(digits =~= input@.drop_first());
        } else {
            assert(digits =~= input@);
        }
    }
    let mut acc: u32 = 0;
    let mut i: usize = start;
    while i < n
        invariant
            start <= i <= n,
            1 <= n == input@.len(),
            start <= 1,
            (input@[0] == 43u8 || input@[0] == 45u8) ==> start == 1,
            (input@[0] != 43u8 && input@[0] != 45u8) ==> start == 0,
            negative <==> input@[0] == 45u8,
            digits == input@.subrange(start as int, n as int),
            forall|k: int| start <= k < i ==> is_digit(input@[k]),
            acc == (if dec_value(input@.subrange(start as int, i as int)) <= 100 {
                dec_value(input@.subrange(start as int, i as int))
            } else {
                101int
            }),
        decreases n - i,
    {
        let b = input[i];
        if b < 48u8 || b > 57u8 {
            proof {
                assert(digits[i - start] == input@[i as int]);
                assert(!is_digit(digits[i - start]));
                assert(!all_digits(digits));
                if start == 0 {
                    assert(input@[0] != 43u8 && input@[0] != 45u8);
                    assert(digits =~= input@);
                    assert(!all_digits(input@));
                } else {
                    assert(input@[0] == 43u8 || input@[0] == 45u8);
                    assert(!is_digit(input@[0]));
                    assert(!all_digits(input@));
                    assert(digits =~= input@.drop_first());
                }
                assert(int_token_value(input@) is None);
            }
            return Err(CommandError::InvalidVolumeInput);
        }
        proof {
            let p = input@.subrange(start as int, i as int);
            let p2 = input@.subrange(start as int, i + 1 as int);
            assert(p2.drop_last() =~= p);
            assert(p2.last() == b);
            assert(dec_value(p2) == dec_value(p) * 10 + (b - 48));
            assert(all_digits(p));
            lemma_dec_value_nonneg(p);
        }
        if acc > 100 {
            // the value already exceeds the range; further digits keep it so
        } else {
            acc = acc * 10 + (b - 48) as u32;
            if acc > 100 {
                acc = 101;
            }
        }
        i += 1;
    }
    proof {
        assert(input@.subrange(start as int, n as int) == digits);
        assert(all_digits(digits));
        lemma_dec_value_nonneg(digits);
        if start == 1 {
            assert(input@[0] == 43u8 || input@[0] == 45u8);
            assert(!is_digit(input@[0]));
            assert(!all_digits(input@));
        }
    }
    if acc > 100 {
        return Err(CommandError::InvalidVolumeInput);
    }
    if negative && acc > 0 {
        return Err(CommandError::InvalidVolumeInput);
    }
    Ok(acc as u8)
}

/// Count of queued tracks excluding the active one.
pub open spec fn pending_count(s: Seq<Track>) -> int {
    if s.len() <= 1 {
        0
    } else {
        s.len() - 1
    }
}

/// Decides what `play` needs from the transport before a track can be
/// admitted: nothing when a session already exists; a join of the caller's
/// voice channel when none does. A caller in no voice channel cannot start a
/// session and is rejected with `NotInVoiceChannel`.
pub fn join_decision(reg: &SessionRegistry, guild_id: u64, caller_channel: Option<u64>) -> (r:
    Result<Option<u64>, CommandError>)
    requires
        reg.wf(),
    ensures
        reg.has_session(guild_id) ==> r == Ok::<Option<u64>, CommandError>(None::<u64>),
        (!reg.has_session(guild_id) && caller_channel is Some) ==> r == Ok::<
            Option<u64>,
            CommandError,
        >(caller_channel),
        (!reg.has_session(guild_id) && caller_channel is None) ==> r == Err::<
            Option<u64>,
            CommandError,
        >(CommandError::NotInVoiceChannel),
{
    match reg.find_index(guild_id) {
        Some(_) => Ok(None),
        None => match caller_channel {
            Some(c) => Ok(Some(c)),
            None => Err(CommandError::NotInVoiceChannel),
        },
    }
}

/// Turns the resolver's outcome into a track, or into the command's error: a
/// resolver failure surfaces `ResolutionFailed` with its reason, a source the
/// transport cannot start surfaces `UnplayableSource`, and nothing is
/// enqueued in either case. A fresh track starts at full volume; missing
/// metadata fields fall back to fixed display defaults.
pub fn admit_resolution(source: Vec<u8>, outcome: Result<ResolvedMetadata, String>, playable: bool)
    -> (r: Result<Track, CommandError>)
    ensures
        outcome matches Err(reason) ==> r == Err::<Track, CommandError>(
            CommandError::ResolutionFailed(reason),
        ),
        (outcome is Ok && !playable) ==> r == Err::<Track, CommandError>(
            CommandError::UnplayableSource,
        ),
        outcome matches Ok(meta) ==> (playable ==> (r matches Ok(t) && t.source == source
            && t.volume == 100 && t.title@ == (match meta.title {
            Some(ti) => ti@,
            None => "song"@,
        }) && t.source_url@ == (match meta.source_url {
            Some(u) => u@,
            None => "<http://youtube.com>"@,
        }))),
{
    match outcome {
        Err(reason) => Err(CommandError::ResolutionFailed(reason)),
        Ok(meta) => {
            if !playable {
                Err(CommandError::UnplayableSource)
            } else {
                let title = match meta.title {
                    Some(t) => t,
                    None => "song".to_owned(),
                };
                let source_url = match meta.source_url {
                    Some(u) => u,
                    None => "<http://youtube.com>".to_owned(),
                };
                Ok(Track { source, title, source_url, volume: 100 })
            }
        },
    }
}

/// Appends an admitted track to the guild's queue. When the queue was empty
/// the track becomes active at once: the reply is "now playing" and the
/// transport must start it. Otherwise it waits its turn and the reply is
/// "added to queue". Sessions of other guilds are untouched.
pub fn admit_track(reg: &mut SessionRegistry, guild_id: u64, track: Track) -> (r: Result<
    (Reply, Option<VoiceAction>),
    CommandError,
>)
    requires
        old(reg).wf(),
    ensures
        final(reg).wf(),
        forall|g: u64| g != guild_id ==> final(reg).spec_get(g) == old(reg).spec_get(g),
        !old(reg).has_session(guild_id) ==> (final(reg)@ == old(reg)@ && r == Err::<
            (Reply, Option<VoiceAction>),
            CommandError,
        >(CommandError::NoActiveSession)),
        old(reg).has_session(guild_id) ==> (final(reg).has_session(guild_id) && final(reg).guild_queue(guild_id) == enqueue_of(old(reg).guild_queue(guild_id), track) && final(reg).channel_of(guild_id) == old(reg).channel_of(guild_id)),
        (old(reg).has_session(guild_id) && old(reg).guild_queue(guild_id).len() == 0) ==> r == Ok::<
            (Reply, Option<VoiceAction>),
            CommandError,
        >(
            (
                Reply::NowPlaying { title: track.title, source_url: track.source_url },
                Some(VoiceAction::StartActive),
            ),
        ),
        (old(reg).has_session(guild_id) && old(reg).guild_queue(guild_id).len() > 0) ==> r == Ok::<
            (Reply, Option<VoiceAction>),
            CommandError,
        >((Reply::AddedToQueue { title: track.title, source_url: track.source_url }, None)),
{
    match reg.find_index(guild_id) {
        None => Err(CommandError::NoActiveSession),
        Some(i) => {
            let title = track.title.clone();
            let source_url = track.source_url.clone();
            let s = reg.session_at_mut(i);
            let starts_now = s.queue.enqueue(track);
            proof {
                SessionRegistry::lemma_update_entry(*old(reg), *reg, i as int, reg@[i as int]);
            }
            if starts_now {
                Ok((Reply::NowPlaying { title, source_url }, Some(VoiceAction::StartActive)))
            } else {
                Ok((Reply::AddedToQueue { title, source_url }, None))
            }
        },
    }
}

/// The pause/resume toggle needs an existing session and an active track;
/// with those it is decided by the observed play state alone (see
/// [`toggle_for_state`]). Nothing is mutated here.
pub fn pause_precheck(reg: &SessionRegistry, guild_id: u64) -> (r: Result<(), CommandError>)
    requires
        reg.wf(),
    ensures
        !reg.has_session(guild_id) ==> r == Err::<(), CommandError>(CommandError::NoActiveSession),
        (reg.has_session(guild_id) && reg.guild_queue(guild_id).len() == 0) ==> r == Err::<
            (),
            CommandError,
        >(CommandError::NoActiveTrack),
        (reg.has_session(guild_id) && reg.guild_queue(guild_id).len() > 0) ==> r is Ok,
{
    match reg.find_index(guild_id) {
        None => Err(CommandError::NoActiveSession),
        Some(i) => {
            let s = reg.session_at(i);
            if s.queue.len() == 0 {
                Err(CommandError::NoActiveTrack)
            } else {
                Ok(())
            }
        },
    }
}

/// The single pause/resume toggle: a playing track is paused, a paused track
/// resumes, and any other observed state changes nothing and surfaces
/// `InvalidTrackState`.
pub fn toggle_for_state(state: PlayState) -> (r: Result<VoiceAction, CommandError>)
    ensures
        state is Playing ==> r == Ok::<VoiceAction, CommandError>(VoiceAction::PauseActive),
        state is Paused ==> r == Ok::<VoiceAction, CommandError>(VoiceAction::ResumeActive),
        state is Other ==> r == Err::<VoiceAction, CommandError>(CommandError::InvalidTrackState),
{
    match state {
        PlayState::Playing => Ok(VoiceAction::PauseActive),
        PlayState::Paused => Ok(VoiceAction::ResumeActive),
        PlayState::Other => Err(CommandError::InvalidTrackState),
    }
}

/// `leave` needs an existing session; with one, the transport must
/// disconnect, after which [`SessionRegistry::remove`] tears the entry down.
pub fn leave_decision(reg: &SessionRegistry, guild_id: u64) -> (r: Result<
    (Reply, VoiceAction),
    CommandError,
>)
    requires
        reg.wf(),
    ensures
        reg.has_session(guild_id) ==> r == Ok::<(Reply, VoiceAction), CommandError>(
            (Reply::LeftChannel, VoiceAction::Disconnect),
        ),
        !reg.has_session(guild_id) ==> r == Err::<(Reply, VoiceAction), CommandError>(
            CommandError::NoActiveSession,
        ),
{
    match reg.find_index(guild_id) {
        Some(_) => Ok((Reply::LeftChannel, VoiceAction::Disconnect)),
        None => Err(CommandError::NoActiveSession),
    }
}

/// The queue status: the count of tracks waiting behind the active one,
/// zero when only the active track (or nothing) is queued. Needs an existing
/// session; mutates nothing.
pub fn queue_command(reg: &SessionRegistry, guild_id: u64) -> (r: Result<Reply, CommandError>)
    requires
        reg.wf(),
    ensures
        !reg.has_session(guild_id) ==> r == Err::<Reply, CommandError>(CommandError::NoActiveSession),
        reg.has_session(guild_id) ==> r == Ok::<Reply, CommandError>(
            (Reply::QueueStatus { pending: pending_count(reg.guild_queue(guild_id)) as u64 }),
        ),
{
    match reg.find_index(guild_id) {
        None => Err(CommandError::NoActiveSession),
        Some(i) => {
            let len = reg.session_at(i).queue.len();
            let pending: u64 = if len <= 1 {
                0
            } else {
                (len - 1) as u64
            };
            Ok(Reply::QueueStatus { pending })
        },
    }
}

/// `clear` empties the guild's queue down to the active track, never
/// interrupting current playback; on an empty queue it is a no-op. Needs an
/// existing session; always succeeds with one. Other guilds are untouched.
pub fn clear_command(reg: &mut SessionRegistry, guild_id: u64) -> (r: Result<Reply, CommandError>)
    requires
        old(reg).wf(),
    ensures
        final(reg).wf(),
        forall|g: u64| g != guild_id ==> final(reg).spec_get(g) == old(reg).spec_get(g),
        !old(reg).has_session(guild_id) ==> (final(reg)@ == old(reg)@ && r == Err::<
            Reply,
            CommandError,
        >(CommandError::NoActiveSession)),
        old(reg).has_session(guild_id) ==> (r == Ok::<Reply, CommandError>(Reply::Cleared) && final(reg).has_session(guild_id) && final(reg).guild_queue(guild_id) == clear_of(
            old(reg).guild_queue(guild_id),
        ) && final(reg).channel_of(guild_id) == old(reg).channel_of(guild_id)),
{
    match reg.find_index(guild_id) {
        None => Err(CommandError::NoActiveSession),
        Some(i) => {
            let s = reg.session_at_mut(i);
            s.queue.clear();
            proof {
                SessionRegistry::lemma_update_entry(*old(reg), *reg, i as int, reg@[i as int]);
            }
            Ok(Reply::Cleared)
        },
    }
}

/// `skip` removes the active track; the next one, if any, becomes active and
/// the transport must start it. On an empty queue it is a no-op that still
/// succeeds. The reply carries the count of tracks remaining. Needs an
/// existing session. Other guilds are untouched.
pub fn skip_command(reg: &mut SessionRegistry, guild_id: u64) -> (r: Result<
    (Reply, Option<VoiceAction>),
    CommandError,
>)
    requires
        old(reg).wf(),
    ensures
        final(reg).wf(),
        forall|g: u64| g != guild_id ==> final(reg).spec_get(g) == old(reg).spec_get(g),
        !old(reg).has_session(guild_id) ==> (final(reg)@ == old(reg)@ && r == Err::<
            (Reply, Option<VoiceAction>),
            CommandError,
        >(CommandError::NoActiveSession)),
        old(reg).has_session(guild_id) ==> (final(reg).has_session(guild_id) && final(reg).guild_queue(guild_id) == skip_of(old(reg).guild_queue(guild_id)) && final(reg).channel_of(guild_id) == old(reg).channel_of(guild_id) && r == Ok::<
            (Reply, Option<VoiceAction>),
            CommandError,
        >(
            (
                Reply::Skipped {
                    remaining: skip_of(old(reg).guild_queue(guild_id)).len() as u64,
                },
                if skip_of(old(reg).guild_queue(guild_id)).len() > 0 {
                    Some(VoiceAction::StartActive)
                } else {
                    None
                },
            ),
        )),
{
    match reg.find_index(guild_id) {
        None => Err(CommandError::NoActiveSession),
        Some(i) => {
            let s = reg.session_at_mut(i);
            let remaining = s.queue.skip();
            proof {
                SessionRegistry::lemma_update_entry(*old(reg), *reg, i as int, reg@[i as int]);
            }
            let action = if remaining > 0 {
                Some(VoiceAction::StartActive)
            } else {
                None
            };
            Ok((Reply::Skipped { remaining: remaining as u64 }, action))
        },
    }
}

/// `volume` applies an already validated percentage to the active track and
/// to it alone: the rest of the queue, the play order, and every other guild
/// are untouched. Needs an existing session and an active track; rejections
/// mutate nothing.
pub fn volume_command(reg: &mut SessionRegistry, guild_id: u64, volume: u8) -> (r: Result<
    (Reply, VoiceAction),
    CommandError,
>)
    requires
        old(reg).wf(),
        volume <= 100,
    ensures
        final(reg).wf(),
        forall|g: u64| g != guild_id ==> final(reg).spec_get(g) == old(reg).spec_get(g),
        !old(reg).has_session(guild_id) ==> (final(reg)@ == old(reg)@ && r == Err::<
            (Reply, VoiceAction),
            CommandError,
        >(CommandError::NoActiveSession)),
        (old(reg).has_session(guild_id) && old(reg).guild_queue(guild_id).len() == 0) ==> (final(reg)@ == old(reg)@ && r == Err::<(Reply, VoiceAction), CommandError>(
            CommandError::NoActiveTrack,
        )),
        (old(reg).has_session(guild_id) && old(reg).guild_queue(guild_id).len() > 0) ==> (r == Ok::<
            (Reply, VoiceAction),
            CommandError,
        >(
            (Reply::VolumeSet { volume }, VoiceAction::SetActiveVolume { percent: volume }),
        ) && final(reg).has_session(guild_id) && final(reg).guild_queue(guild_id).len() == old(reg).guild_queue(guild_id).len() && final(reg).guild_queue(guild_id)[0] == (Track {
            volume,
            ..old(reg).guild_queue(guild_id)[0]
        }) && (forall|k: int|
            1 <= k < old(reg).guild_queue(guild_id).len() ==> final(reg).guild_queue(guild_id)[k]
                == old(reg).guild_queue(guild_id)[k]) && final(reg).channel_of(guild_id) == old(reg).channel_of(guild_id)),
{
    match reg.find_index(guild_id) {
        None => Err(CommandError::NoActiveSession),
        Some(i) => {
            let s = reg.session_at_mut(i);
            if s.queue.len() == 0 {
                proof {
                    assert(reg@ =~= old(reg)@);
                }
                Err(CommandError::NoActiveTrack)
            } else {
                s.queue.set_active_volume(volume);
                proof {
                    SessionRegistry::lemma_update_entry(*old(reg), *reg, i as int, reg@[i as int]);
                }
                Ok((Reply::VolumeSet { volume }, VoiceAction::SetActiveVolume { percent: volume }))
            }
        },
    }
}

/// A track-error event from the transport is logged by the host process and
/// otherwise ignored: the queue is not advanced past the failed track, and
/// no session state changes. Manual `skip` is the way past a failed track.
pub fn track_error_event(reg: &mut SessionRegistry, _guild_id: u64)
    ensures
        final(reg)@ == old(reg)@,
{
}

} // verus!
