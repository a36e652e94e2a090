use swaddle::{
    inhibitor_command, is_media_player, list_media_players, Command, IdleApp, InhibitorHandle,
    InhibitorSupervisor, PlaybackPoll, ProcessSpawnError, PropertyValue, ReapError, ReapReport,
    ReapStep, ServerSettings, Settings, SpawnOutcome,
};

fn status(s: &str) -> PropertyValue {
    PropertyValue::Str(s.to_string())
}

/// Drives a poll of `endpoints` whose answers are `replies`; returns the
/// signal and the endpoints asked.
fn drive(endpoints: &[&str], replies: Vec<PropertyValue>) -> (bool, Vec<String>) {
    let mut poll = PlaybackPoll::new(endpoints.iter().map(|e| e.to_string()).collect());
    let mut replies = replies.into_iter();
    let mut asked = Vec::new();
    while let Some(endpoint) = poll.next_query() {
        asked.push(endpoint);
        poll.record(replies.next().unwrap());
    }
    assert!(poll.is_done());
    (poll.signal(), asked)
}

fn app_with(inhibit: u64, sleep: u64) -> IdleApp {
    let config: Result<Settings, String> = Ok(Settings {
        debug: false,
        server: ServerSettings {
            inhibit_duration: inhibit,
            sleep_duration: sleep,
        },
    });
    IdleApp::new(config)
}

#[test]
fn default_settings_values() {
    let s = Settings::default();
    assert!(!s.debug);
    assert_eq!(s.server.inhibit_duration, 25);
    assert_eq!(s.server.sleep_duration, 5);
}

#[test]
fn new_falls_back_to_defaults_on_error() {
    let app = IdleApp::new::<String>(Err("no file".to_string()));
    assert_eq!(app.config, Settings::default());
    assert_eq!(app.next_command(0), Command::Stop);
}

#[test]
fn media_player_prefix_edges() {
    assert!(is_media_player("org.mpris.MediaPlayer2.spotify"));
    assert!(is_media_player("org.mpris.MediaPlayer2."));
    assert!(!is_media_player("org.mpris.MediaPlayer2"));
    assert!(!is_media_player("org.mpris.mediaplayer2.vlc"));
    assert!(!is_media_player(""));
    assert!(list_media_players(Vec::new()).is_empty());
    let kept = list_media_players(vec![
        "org.mpris.MediaPlayer2.b".to_string(),
        "x".to_string(),
        "org.mpris.MediaPlayer2.a".to_string(),
    ]);
    assert_eq!(kept, vec!["org.mpris.MediaPlayer2.b".to_string(), "org.mpris.MediaPlayer2.a".to_string()]);
}

#[test]
fn none_playing_signals_false() {
    let (signal, asked) = drive(
        &["a", "b", "c"],
        vec![status("Paused"), PropertyValue::Other, status("Stopped")],
    );
    assert!(!signal);
    assert_eq!(asked.len(), 3);
}

#[test]
fn playing_is_case_sensitive() {
    let (signal, _) = drive(&["a"], vec![status("playing")]);
    assert!(!signal);
    let (signal, _) = drive(&["a"], vec![status("Playing")]);
    assert!(signal);
}

#[test]
fn no_endpoints_while_active_forces_false() {
    let mut app = app_with(25, 5);
    app.run_cmd(0, SpawnOutcome::Launched).unwrap();
    app.should_block = true;
    let poll = PlaybackPoll::new(Vec::new());
    assert!(poll.is_done());
    assert_eq!(poll.next_query(), None);
    app.check_playback_status(&poll);
    assert!(!app.should_block);
}

#[test]
fn poll_short_circuits_after_first_playing() {
    let (signal, asked) = drive(
        &["A", "B", "C"],
        vec![status("Paused"), status("Playing"), status("Playing")],
    );
    assert!(signal);
    assert_eq!(asked, vec!["A".to_string(), "B".to_string()]);
}

#[test]
fn failed_reply_does_not_abort_poll() {
    let (signal, asked) = drive(&["A", "B"], vec![PropertyValue::Other, status("Playing")]);
    assert!(signal);
    assert_eq!(asked.len(), 2);
}

#[test]
fn spawn_then_stop_round_trip() {
    let mut sup = InhibitorSupervisor::Idle;
    assert_eq!(sup.spawn(100, 25, SpawnOutcome::Launched), Ok(()));
    assert_eq!(
        sup,
        InhibitorSupervisor::Active(InhibitorHandle {
            started_at: 100,
            expires_at: 125
        })
    );
    assert_eq!(sup.stop(), ReapStep::WaitAndKill);
    assert_eq!(sup.on_reap(ReapReport::Exited), Ok(ReapStep::Done));
    assert!(sup.is_idle());
}

#[test]
fn zombie_gets_forced_kill() {
    let mut sup = InhibitorSupervisor::Idle;
    sup.spawn(0, 25, SpawnOutcome::Launched).unwrap();
    assert_eq!(sup.stop(), ReapStep::WaitAndKill);
    assert_eq!(sup.on_reap(ReapReport::StillRunning), Ok(ReapStep::ForceKill));
    assert_eq!(sup.stop(), ReapStep::ForceKill);
    assert_eq!(sup.on_reap(ReapReport::StillRunning), Ok(ReapStep::Done));
    assert!(sup.is_idle());
}

#[test]
fn reap_failure_discards_handle() {
    let mut sup = InhibitorSupervisor::Idle;
    sup.spawn(0, 25, SpawnOutcome::Launched).unwrap();
    sup.stop();
    assert_eq!(sup.on_reap(ReapReport::Failed), Err(ReapError));
    assert!(sup.is_idle());
}

#[test]
fn stop_is_idempotent() {
    let mut sup = InhibitorSupervisor::Idle;
    assert_eq!(sup.stop(), ReapStep::Done);
    assert_eq!(sup.stop(), ReapStep::Done);
    assert!(sup.is_idle());

    sup.spawn(0, 25, SpawnOutcome::Launched).unwrap();
    assert_eq!(sup.stop(), ReapStep::WaitAndKill);
    let after_first = sup;
    assert_eq!(sup.stop(), ReapStep::WaitAndKill);
    assert_eq!(sup, after_first);
}

#[test]
fn stop_before_expiry_reaps_child() {
    let mut app = app_with(25, 5);
    app.should_block = true;
    assert_eq!(app.next_command(0), Command::Start);
    app.run_cmd(0, SpawnOutcome::Launched).unwrap();
    assert!(app.process_running());
    // playback stops at 10 s, long before the child's window ends at 25 s
    app.should_block = false;
    assert_eq!(app.check_and_kill_zombies(), ReapStep::WaitAndKill);
    assert_eq!(app.inhibitor.on_reap(ReapReport::Exited), Ok(ReapStep::Done));
    assert!(!app.process_running());
}

#[test]
fn spawn_failure_leaves_idle() {
    let mut app = app_with(25, 5);
    app.should_block = true;
    assert_eq!(app.next_command(0), Command::Start);
    assert_eq!(app.run_cmd(0, SpawnOutcome::Failed), Err(ProcessSpawnError));
    assert!(app.inhibitor.is_idle());
    assert_eq!(app.next_check, 0);
    // the loop goes on and tries again on the next tick
    assert_eq!(app.next_command(5), Command::Start);
}

#[test]
fn two_playing_ticks_spawn_once() {
    let mut app = app_with(25, 5);
    app.should_block = true;
    assert_eq!(app.next_command(0), Command::Start);
    app.run_cmd(0, SpawnOutcome::Launched).unwrap();
    assert_eq!(app.next_check, 25);
    assert_eq!(app.next_command(5), Command::Hold);
    assert_eq!(app.next_command(24), Command::Hold);
    // past the decision point with the window lapsed: renew
    assert_eq!(app.next_command(25), Command::Renew);
}

#[test]
fn decisions_when_due() {
    let mut app = app_with(25, 5);
    assert_eq!(app.next_command(3), Command::Stop);
    app.inhibitor = InhibitorSupervisor::Reaping { forced: false };
    app.should_block = true;
    assert_eq!(app.next_command(3), Command::Stop);
    app.inhibitor = InhibitorSupervisor::Active(InhibitorHandle {
        started_at: 0,
        expires_at: 40,
    });
    assert_eq!(app.next_command(39), Command::Hold);
    app.should_block = false;
    assert_eq!(app.next_command(39), Command::Stop);
}

#[test]
fn sleep_interval() {
    let mut app = app_with(25, 5);
    assert_eq!(app.sleep_seconds(), 5);
    app.run_cmd(0, SpawnOutcome::Launched).unwrap();
    assert_eq!(app.sleep_seconds(), 5);
    app.should_block = true;
    assert_eq!(app.sleep_seconds(), 30);
    assert_eq!(app.last_block_time(), Some(0));
}

#[test]
fn inhibitor_command_line() {
    let expected: Vec<String> = [
        "systemd-inhibit",
        "--what",
        "idle",
        "--who",
        "swayidle-inhibit",
        "--why",
        "audio playing",
        "--mode",
        "block",
        "sh",
        "-c",
        "sleep 25",
    ]
    .iter()
    .map(|s| s.to_string())
    .collect();
    assert_eq!(inhibitor_command(25), expected);
    assert_eq!(inhibitor_command(0)[11], "sleep 0");
    assert_eq!(inhibitor_command(1070)[11], "sleep 1070");
    assert_eq!(inhibitor_command(u64::MAX)[11], "sleep 18446744073709551615");
}
