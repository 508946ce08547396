use editor_core::player::CommandEffect;
use editor_core::player::Mode;
use editor_core::player::PlayerCommand;
use editor_core::player::SeekOutcome;
use editor_core::player::SessionState;
use editor_core::player::SpawnRequest;
use editor_core::player::IDLE_TICK_SLEEP_MS;
use editor_core::player::PLAYING_TICK_SLEEP_MS;
use editor_core::frame::FRAME_BYTES;

fn no_orders(eff: &CommandEffect) {
    assert!(!eff.kill);
    assert!(eff.spawn.is_none());
    assert!(!eff.exit);
}

fn load(path: &str, start: u32, end: u32) -> PlayerCommand {
    PlayerCommand::LoadClip {
        path: path.to_string(),
        trim_start_ms: start,
        trim_end_ms: end,
    }
}

#[test]
fn fresh_session_is_idle() {
    let s = SessionState::new();
    assert!(s.clip.is_none());
    assert_eq!(s.mode, Mode::Idle);
    assert!(!s.decoder_attached);
}

#[test]
fn load_clip_stores_source_and_kills_nothing_when_idle() {
    let mut s = SessionState::new();
    let eff = s.apply_command(load("a.mp4", 1000, 5000));
    assert!(!eff.kill);
    assert!(eff.spawn.is_none());
    assert!(!eff.exit);
    let src = s.clip.as_ref().unwrap();
    assert_eq!(src.path, "a.mp4");
    assert_eq!(src.trim_start_ms, 1000);
    assert_eq!(src.trim_end_ms, 5000);
    assert_eq!(s.mode, Mode::Idle);
}

#[test]
fn start_playback_requests_continuous_spawn_at_absolute_offset() {
    let mut s = SessionState::new();
    s.apply_command(load("a.mp4", 1000, 5000));
    let eff = s.apply_command(PlayerCommand::StartPlayback { timestamp_ms: 500 });
    assert!(!eff.kill);
    match eff.spawn {
        Some(SpawnRequest::Continuous { path, start_ms, end_ms }) => {
            assert_eq!(path, "a.mp4");
            assert_eq!(start_ms, 1500);
            assert_eq!(end_ms, 5000);
        }
        _ => panic!("expected a continuous spawn request"),
    }
    // mode changes only once the spawn is confirmed
    assert_eq!(s.mode, Mode::Idle);
    s.confirm_playback_started(true);
    assert_eq!(s.mode, Mode::Playing);
    assert!(s.decoder_attached);
}

#[test]
fn failed_spawn_leaves_session_idle() {
    let mut s = SessionState::new();
    s.apply_command(load("a.mp4", 0, 2000));
    s.apply_command(PlayerCommand::StartPlayback { timestamp_ms: 0 });
    s.confirm_playback_started(false);
    assert_eq!(s.mode, Mode::Idle);
    assert!(!s.decoder_attached);
    assert!(s.clip.is_some());
}

#[test]
fn start_playback_without_source_is_ignored() {
    let mut s = SessionState::new();
    let eff = s.apply_command(PlayerCommand::StartPlayback { timestamp_ms: 0 });
    no_orders(&eff);
    assert_eq!(s.mode, Mode::Idle);
}

#[test]
fn start_playback_while_playing_is_ignored() {
    let mut s = SessionState::new();
    s.apply_command(load("a.mp4", 0, 2000));
    s.apply_command(PlayerCommand::StartPlayback { timestamp_ms: 0 });
    s.confirm_playback_started(true);
    let eff = s.apply_command(PlayerCommand::StartPlayback { timestamp_ms: 700 });
    no_orders(&eff);
    assert_eq!(s.mode, Mode::Playing);
}

// exclusivity: replacing the decoder always kills and reaps the old one first
#[test]
fn load_clip_while_playing_kills_old_process() {
    let mut s = SessionState::new();
    s.apply_command(load("a.mp4", 0, 2000));
    s.apply_command(PlayerCommand::StartPlayback { timestamp_ms: 0 });
    s.confirm_playback_started(true);
    let eff = s.apply_command(load("b.mp4", 0, 3000));
    assert!(eff.kill);
    assert!(eff.spawn.is_none());
    assert_eq!(s.mode, Mode::Idle);
    assert!(!s.decoder_attached);
    assert_eq!(s.clip.as_ref().unwrap().path, "b.mp4");
}

// idempotence of stop: stopping while idle changes nothing, spawns nothing
#[test]
fn stop_playback_while_idle_is_a_no_op() {
    let mut s = SessionState::new();
    s.apply_command(load("a.mp4", 100, 900));
    let eff = s.apply_command(PlayerCommand::StopPlayback);
    no_orders(&eff);
    assert_eq!(s.mode, Mode::Idle);
    assert!(!s.decoder_attached);
    let src = s.clip.as_ref().unwrap();
    assert_eq!(src.path, "a.mp4");
    assert_eq!(src.trim_start_ms, 100);
    assert_eq!(src.trim_end_ms, 900);
}

#[test]
fn stop_playback_while_playing_kills_and_keeps_source() {
    let mut s = SessionState::new();
    s.apply_command(load("a.mp4", 0, 2000));
    s.apply_command(PlayerCommand::StartPlayback { timestamp_ms: 0 });
    s.confirm_playback_started(true);
    let eff = s.apply_command(PlayerCommand::StopPlayback);
    assert!(eff.kill);
    assert!(eff.spawn.is_none());
    assert!(!eff.exit);
    assert_eq!(s.mode, Mode::Idle);
    assert!(s.clip.is_some());
}

// seek exclusion: a seek during continuous playback has no effect at all
#[test]
fn seek_while_playing_is_rejected_without_side_effects() {
    let mut s = SessionState::new();
    s.apply_command(load("a.mp4", 0, 2000));
    s.apply_command(PlayerCommand::StartPlayback { timestamp_ms: 0 });
    s.confirm_playback_started(true);
    let eff = s.apply_command(PlayerCommand::Seek { timestamp_ms: 300 });
    no_orders(&eff);
    assert_eq!(s.mode, Mode::Playing);
    assert!(s.decoder_attached);
}

#[test]
fn seek_while_idle_requests_one_shot_decode() {
    let mut s = SessionState::new();
    s.apply_command(load("a.mp4", 1000, 5000));
    let eff = s.apply_command(PlayerCommand::Seek { timestamp_ms: 250 });
    assert!(!eff.kill);
    match eff.spawn {
        Some(SpawnRequest::OneShot { path, at_ms }) => {
            assert_eq!(path, "a.mp4");
            assert_eq!(at_ms, 1250);
        }
        _ => panic!("expected a one-shot spawn request"),
    }
    assert_eq!(s.mode, Mode::Idle);
}

// seek determinism: the same position against the same source gives the
// identical decoder invocation
#[test]
fn two_equal_seeks_request_identical_invocations() {
    let mut s = SessionState::new();
    s.apply_command(load("a.mp4", 1000, 5000));
    let e1 = s.apply_command(PlayerCommand::Seek { timestamp_ms: 250 });
    let e2 = s.apply_command(PlayerCommand::Seek { timestamp_ms: 250 });
    let a1 = editor_core::decoder_cmd::decoder_args(e1.spawn.as_ref().unwrap());
    let a2 = editor_core::decoder_cmd::decoder_args(e2.spawn.as_ref().unwrap());
    assert_eq!(a1, a2);
}

// teardown: shutdown while playing kills, reaps and exits the loop
#[test]
fn shutdown_while_playing_kills_and_exits() {
    let mut s = SessionState::new();
    s.apply_command(load("a.mp4", 0, 2000));
    s.apply_command(PlayerCommand::StartPlayback { timestamp_ms: 0 });
    s.confirm_playback_started(true);
    let eff = s.apply_command(PlayerCommand::Stop);
    assert!(eff.kill);
    assert!(eff.exit);
    assert!(eff.spawn.is_none());
    assert!(!s.decoder_attached);
    assert_eq!(s.mode, Mode::Idle);
}

#[test]
fn shutdown_while_idle_exits_without_killing() {
    let mut s = SessionState::new();
    let eff = s.apply_command(PlayerCommand::Stop);
    assert!(!eff.kill);
    assert!(eff.exit);
}

// end of stream: back to idle, reap ordered, one cleared frame, one event
#[test]
fn stream_end_emits_one_blank_frame_and_one_event() {
    let mut s = SessionState::new();
    s.apply_command(load("a.mp4", 0, 2000));
    s.apply_command(PlayerCommand::StartPlayback { timestamp_ms: 0 });
    s.confirm_playback_started(true);
    let signal = s.on_stream_end();
    assert!(signal.reap);
    assert_eq!(s.mode, Mode::Idle);
    assert!(!s.decoder_attached);
    assert_eq!(signal.frame.pixels.len(), FRAME_BYTES);
    assert_eq!(signal.frame.pixels[0], 0);
    assert_eq!(signal.frame.pixels[3], 255);
    // a second start works again after the end
    let eff = s.apply_command(PlayerCommand::StartPlayback { timestamp_ms: 0 });
    assert!(eff.spawn.is_some());
}

// ordering: commands are applied one at a time, in queue order
#[test]
fn commands_apply_in_queue_order() {
    let mut s = SessionState::new();
    let queue = vec![
        load("a.mp4", 0, 2000),
        PlayerCommand::StartPlayback { timestamp_ms: 0 },
        load("b.mp4", 500, 1500),
    ];
    let mut spawns: u32 = 0;
    for cmd in queue {
        let eff = s.apply_command(cmd);
        if eff.spawn.is_some() {
            spawns += 1;
            s.confirm_playback_started(true);
        }
    }
    // the later LoadClip supersedes the playback started in between
    assert_eq!(spawns, 1);
    assert_eq!(s.mode, Mode::Idle);
    assert!(!s.decoder_attached);
    assert_eq!(s.clip.as_ref().unwrap().path, "b.mp4");

    // the same commands in another order end differently: nothing to play yet
    let mut s2 = SessionState::new();
    let eff = s2.apply_command(PlayerCommand::StartPlayback { timestamp_ms: 0 });
    assert!(eff.spawn.is_none());
}

#[test]
fn seek_result_full_buffer_gives_frame() {
    let buf = vec![7u8; FRAME_BYTES];
    match editor_core::player::seek_result(Some(buf), 42) {
        SeekOutcome::Frame(f) => {
            assert_eq!(f.pixels.len(), FRAME_BYTES);
            assert_eq!(f.timestamp_ms, 42);
            assert!(f.pixels.iter().all(|&b| b == 7));
        }
        SeekOutcome::Unavailable => panic!("expected a frame"),
    }
}

#[test]
fn seek_result_short_read_is_unavailable() {
    let buf = vec![7u8; FRAME_BYTES - 1];
    assert!(matches!(
        editor_core::player::seek_result(Some(buf), 0),
        SeekOutcome::Unavailable
    ));
    assert!(matches!(
        editor_core::player::seek_result(None, 0),
        SeekOutcome::Unavailable
    ));
}

#[test]
fn pacing_values() {
    assert_eq!(editor_core::player::pace_wait_ms(0), 33);
    assert_eq!(editor_core::player::pace_wait_ms(20), 13);
    assert_eq!(editor_core::player::pace_wait_ms(33), 0);
    assert_eq!(editor_core::player::pace_wait_ms(100), 0);
    assert_eq!(editor_core::player::tick_sleep_ms(Mode::Playing), PLAYING_TICK_SLEEP_MS);
    assert_eq!(editor_core::player::tick_sleep_ms(Mode::Idle), IDLE_TICK_SLEEP_MS);
}
