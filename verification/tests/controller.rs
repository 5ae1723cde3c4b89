use rusty_parrot::controller::{
    admit_resolution, admit_track, clear_command, join_decision, leave_decision, parse_volume,
    pause_precheck, prepare_query, queue_command, skip_command, toggle_for_state,
    track_error_event, volume_command, CommandError, PlayState, Reply, ResolvedMetadata,
    VoiceAction,
};
use rusty_parrot::queue::Track;
use rusty_parrot::registry::SessionRegistry;

fn track(title: &str) -> Track {
    Track {
        source: title.as_bytes().to_vec(),
        title: title.to_string(),
        source_url: format!("https://example.com/{}", title),
        volume: 100,
    }
}

fn registry_with_session(guild: u64, channel: u64) -> SessionRegistry {
    let mut reg = SessionRegistry::new();
    assert!(reg.get_or_create(guild, channel, true).is_ok());
    reg
}

#[test]
fn prepare_query_empty_is_rejected() {
    assert_eq!(prepare_query(b""), Err(CommandError::EmptyQuery));
}

#[test]
fn prepare_query_url_passes_through() {
    let r = prepare_query(b"https://example.com/a").unwrap();
    assert_eq!(r, b"https://example.com/a".to_vec());
}

#[test]
fn prepare_query_search_term_gets_prefix() {
    let r = prepare_query(b"some search term").unwrap();
    assert_eq!(r, b"ytsearch:some search term".to_vec());
}

#[test]
fn prepare_query_strips_angle_brackets() {
    let r = prepare_query(b"<https://example.com/a>").unwrap();
    assert_eq!(r, b"https://example.com/a".to_vec());
    let r2 = prepare_query(b"<>").unwrap();
    assert_eq!(r2, b"ytsearch:".to_vec());
}

#[test]
fn resolution_failure_surfaces_reason() {
    let r = admit_resolution(
        b"q".to_vec(),
        Err("no formats found".to_string()),
        true,
    );
    assert_eq!(
        r,
        Err(CommandError::ResolutionFailed("no formats found".to_string()))
    );
}

#[test]
fn unplayable_source_is_rejected() {
    let meta = ResolvedMetadata { title: Some("a".to_string()), source_url: None };
    let r = admit_resolution(b"q".to_vec(), Ok(meta), false);
    assert_eq!(r, Err(CommandError::UnplayableSource));
}

#[test]
fn resolution_defaults_for_missing_metadata() {
    let meta = ResolvedMetadata { title: None, source_url: None };
    let t = admit_resolution(b"q".to_vec(), Ok(meta), true).unwrap();
    assert_eq!(t.title, "song");
    assert_eq!(t.source_url, "<http://youtube.com>");
    assert_eq!(t.volume, 100);
    assert_eq!(t.source, b"q".to_vec());
}

#[test]
fn play_new_session_joins_and_reports_now_playing() {
    // no session; "play https://example.com/a" joins, enqueues, replies now playing
    let mut reg = SessionRegistry::new();
    let plan = join_decision(&reg, 1, Some(7)).unwrap();
    assert_eq!(plan, Some(7));
    assert!(reg.get_or_create(1, 7, true).is_ok());
    let source = prepare_query(b"https://example.com/a").unwrap();
    let meta = ResolvedMetadata {
        title: Some("a".to_string()),
        source_url: Some("https://example.com/a".to_string()),
    };
    let t = admit_resolution(source, Ok(meta), true).unwrap();
    let (reply, action) = admit_track(&mut reg, 1, t).unwrap();
    assert_eq!(
        reply,
        Reply::NowPlaying {
            title: "a".to_string(),
            source_url: "https://example.com/a".to_string(),
        }
    );
    assert_eq!(action, Some(VoiceAction::StartActive));
}

#[test]
fn play_search_term_appends_behind_active() {
    // one queued track playing; a search query is appended at position 2
    let mut reg = registry_with_session(1, 7);
    let (_, _) = admit_track(&mut reg, 1, track("first")).unwrap();
    let source = prepare_query(b"some search term").unwrap();
    assert_eq!(source, b"ytsearch:some search term".to_vec());
    let meta = ResolvedMetadata {
        title: Some("second".to_string()),
        source_url: Some("https://example.com/second".to_string()),
    };
    let t = admit_resolution(source, Ok(meta), true).unwrap();
    let (reply, action) = admit_track(&mut reg, 1, t).unwrap();
    assert_eq!(
        reply,
        Reply::AddedToQueue {
            title: "second".to_string(),
            source_url: "https://example.com/second".to_string(),
        }
    );
    assert_eq!(action, None);
    let session = reg.get(1).unwrap();
    assert_eq!(session.queue.len(), 2);
    assert_eq!(session.queue.current_track().unwrap().title, "first");
}

#[test]
fn join_decision_without_voice_channel_is_rejected() {
    let reg = SessionRegistry::new();
    assert_eq!(join_decision(&reg, 1, None), Err(CommandError::NotInVoiceChannel));
}

#[test]
fn join_decision_with_existing_session_needs_no_join() {
    let reg = registry_with_session(1, 7);
    assert_eq!(join_decision(&reg, 1, Some(9)).unwrap(), None);
}

#[test]
fn get_or_create_is_noop_on_existing_session() {
    let mut reg = registry_with_session(1, 7);
    assert!(reg.get_or_create(1, 9, true).is_ok());
    assert_eq!(reg.get(1).unwrap().voice_channel_id, 7);
}

#[test]
fn failed_join_registers_nothing() {
    let mut reg = SessionRegistry::new();
    assert_eq!(reg.get_or_create(1, 7, false), Err(CommandError::VoiceConnectError));
    assert!(reg.get(1).is_none());
}

#[test]
fn queue_status_needs_session() {
    let reg = SessionRegistry::new();
    assert_eq!(queue_command(&reg, 1), Err(CommandError::NoActiveSession));
}

#[test]
fn queue_status_with_only_active_track_reports_none_pending() {
    let mut reg = registry_with_session(1, 7);
    admit_track(&mut reg, 1, track("only")).unwrap();
    assert_eq!(queue_command(&reg, 1).unwrap(), Reply::QueueStatus { pending: 0 });
}

#[test]
fn queue_status_counts_pending_behind_active() {
    let mut reg = registry_with_session(1, 7);
    admit_track(&mut reg, 1, track("a")).unwrap();
    admit_track(&mut reg, 1, track("b")).unwrap();
    admit_track(&mut reg, 1, track("c")).unwrap();
    assert_eq!(queue_command(&reg, 1).unwrap(), Reply::QueueStatus { pending: 2 });
}

#[test]
fn skip_promotes_next_and_starts_it() {
    let mut reg = registry_with_session(1, 7);
    admit_track(&mut reg, 1, track("a")).unwrap();
    admit_track(&mut reg, 1, track("b")).unwrap();
    let (reply, action) = skip_command(&mut reg, 1).unwrap();
    assert_eq!(reply, Reply::Skipped { remaining: 1 });
    assert_eq!(action, Some(VoiceAction::StartActive));
    let session = reg.get(1).unwrap();
    assert_eq!(session.queue.current_track().unwrap().title, "b");
}

#[test]
fn skip_last_track_leaves_empty_queue() {
    let mut reg = registry_with_session(1, 7);
    admit_track(&mut reg, 1, track("a")).unwrap();
    let (reply, action) = skip_command(&mut reg, 1).unwrap();
    assert_eq!(reply, Reply::Skipped { remaining: 0 });
    assert_eq!(action, None);
    assert!(reg.get(1).unwrap().queue.current_track().is_none());
}

#[test]
fn skip_on_empty_queue_succeeds_as_noop() {
    let mut reg = registry_with_session(1, 7);
    let (reply, action) = skip_command(&mut reg, 1).unwrap();
    assert_eq!(reply, Reply::Skipped { remaining: 0 });
    assert_eq!(action, None);
}

#[test]
fn skip_needs_session() {
    let mut reg = SessionRegistry::new();
    assert_eq!(skip_command(&mut reg, 1), Err(CommandError::NoActiveSession));
}

#[test]
fn clear_keeps_active_track_playing() {
    let mut reg = registry_with_session(1, 7);
    admit_track(&mut reg, 1, track("a")).unwrap();
    admit_track(&mut reg, 1, track("b")).unwrap();
    assert_eq!(clear_command(&mut reg, 1).unwrap(), Reply::Cleared);
    let session = reg.get(1).unwrap();
    assert_eq!(session.queue.len(), 1);
    assert_eq!(session.queue.current_track().unwrap().title, "a");
}

#[test]
fn clear_on_empty_queue_succeeds_as_noop() {
    let mut reg = registry_with_session(1, 7);
    assert_eq!(clear_command(&mut reg, 1).unwrap(), Reply::Cleared);
    assert_eq!(reg.get(1).unwrap().queue.len(), 0);
}

#[test]
fn clear_needs_session() {
    let mut reg = SessionRegistry::new();
    assert_eq!(clear_command(&mut reg, 1), Err(CommandError::NoActiveSession));
}

#[test]
fn pause_needs_session_and_active_track() {
    let reg = SessionRegistry::new();
    assert_eq!(pause_precheck(&reg, 1), Err(CommandError::NoActiveSession));
    let reg2 = registry_with_session(1, 7);
    assert_eq!(pause_precheck(&reg2, 1), Err(CommandError::NoActiveTrack));
}

#[test]
fn pause_toggle_follows_observed_state() {
    let mut reg = registry_with_session(1, 7);
    admit_track(&mut reg, 1, track("a")).unwrap();
    assert!(pause_precheck(&reg, 1).is_ok());
    assert_eq!(toggle_for_state(PlayState::Playing).unwrap(), VoiceAction::PauseActive);
    assert_eq!(toggle_for_state(PlayState::Paused).unwrap(), VoiceAction::ResumeActive);
    assert_eq!(toggle_for_state(PlayState::Other), Err(CommandError::InvalidTrackState));
}

#[test]
fn leave_tears_session_down() {
    let mut reg = registry_with_session(1, 7);
    assert_eq!(
        leave_decision(&reg, 1).unwrap(),
        (Reply::LeftChannel, VoiceAction::Disconnect)
    );
    assert!(reg.remove(1, true).is_ok());
    assert!(reg.get(1).is_none());
}

#[test]
fn leave_without_session_is_rejected() {
    let reg = SessionRegistry::new();
    assert_eq!(leave_decision(&reg, 1), Err(CommandError::NoActiveSession));
}

#[test]
fn remove_without_session_fails() {
    let mut reg = SessionRegistry::new();
    assert_eq!(reg.remove(1, true), Err(CommandError::DisconnectError));
}

#[test]
fn failed_teardown_still_removes_entry() {
    let mut reg = registry_with_session(1, 7);
    assert_eq!(reg.remove(1, false), Err(CommandError::DisconnectError));
    assert!(reg.get(1).is_none());
}

#[test]
fn volume_parser_accepts_exactly_zero_to_hundred() {
    assert_eq!(parse_volume(b"0"), Ok(0));
    assert_eq!(parse_volume(b"42"), Ok(42));
    assert_eq!(parse_volume(b"100"), Ok(100));
    assert_eq!(parse_volume(b"+42"), Ok(42));
    assert_eq!(parse_volume(b"-0"), Ok(0));
    assert_eq!(parse_volume(b"007"), Ok(7));
    assert_eq!(parse_volume(b"101"), Err(CommandError::InvalidVolumeInput));
    assert_eq!(parse_volume(b"-5"), Err(CommandError::InvalidVolumeInput));
    assert_eq!(parse_volume(b"abc"), Err(CommandError::InvalidVolumeInput));
    assert_eq!(parse_volume(b""), Err(CommandError::InvalidVolumeInput));
    assert_eq!(parse_volume(b"+"), Err(CommandError::InvalidVolumeInput));
    assert_eq!(parse_volume(b"12a"), Err(CommandError::InvalidVolumeInput));
    assert_eq!(parse_volume(b"99999999999999999999"), Err(CommandError::InvalidVolumeInput));
}

#[test]
fn volume_out_of_range_mutates_nothing() {
    let mut reg = registry_with_session(1, 7);
    admit_track(&mut reg, 1, track("a")).unwrap();
    assert_eq!(parse_volume(b"101"), Err(CommandError::InvalidVolumeInput));
    // the command is never reached with an out-of-range value; state is intact
    assert_eq!(reg.get(1).unwrap().queue.current_track().unwrap().volume, 100);
}

#[test]
fn volume_applies_to_active_track_only() {
    let mut reg = registry_with_session(1, 7);
    admit_track(&mut reg, 1, track("a")).unwrap();
    admit_track(&mut reg, 1, track("b")).unwrap();
    let n = parse_volume(b"30").unwrap();
    let (reply, action) = volume_command(&mut reg, 1, n).unwrap();
    assert_eq!(reply, Reply::VolumeSet { volume: 30 });
    assert_eq!(action, VoiceAction::SetActiveVolume { percent: 30 });
    assert_eq!(reg.get(1).unwrap().queue.current_track().unwrap().volume, 30);
    skip_command(&mut reg, 1).unwrap();
    assert_eq!(reg.get(1).unwrap().queue.current_track().unwrap().volume, 100);
}

#[test]
fn volume_needs_active_track() {
    let mut reg = registry_with_session(1, 7);
    assert_eq!(volume_command(&mut reg, 1, 50), Err(CommandError::NoActiveTrack));
    let mut reg2 = SessionRegistry::new();
    assert_eq!(volume_command(&mut reg2, 1, 50), Err(CommandError::NoActiveSession));
}

#[test]
fn track_error_event_changes_no_state() {
    let mut reg = registry_with_session(1, 7);
    admit_track(&mut reg, 1, track("a")).unwrap();
    track_error_event(&mut reg, 1);
    let session = reg.get(1).unwrap();
    assert_eq!(session.queue.len(), 1);
    assert_eq!(session.queue.current_track().unwrap().title, "a");
}

#[test]
fn commands_for_two_guilds_do_not_interfere() {
    let mut reg = SessionRegistry::new();
    assert!(reg.get_or_create(1, 7, true).is_ok());
    assert!(reg.get_or_create(2, 8, true).is_ok());
    // interleave the two guilds' commands; each only sees its own state
    admit_track(&mut reg, 1, track("one-a")).unwrap();
    admit_track(&mut reg, 2, track("two-a")).unwrap();
    admit_track(&mut reg, 1, track("one-b")).unwrap();
    skip_command(&mut reg, 2).unwrap();
    assert_eq!(queue_command(&reg, 1).unwrap(), Reply::QueueStatus { pending: 1 });
    assert_eq!(queue_command(&reg, 2).unwrap(), Reply::QueueStatus { pending: 0 });
    assert_eq!(reg.get(1).unwrap().queue.current_track().unwrap().title, "one-a");
    assert!(reg.get(2).unwrap().queue.current_track().is_none());
    assert!(reg.remove(2, true).is_ok());
    assert_eq!(reg.get(1).unwrap().queue.len(), 2);
}
