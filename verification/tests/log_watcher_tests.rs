use deadlock_rpc::game_state::{GamePhase, GameState, MatchMode};
use deadlock_rpc::log_patterns::{line_captures, LineCaptures, Patterns};
use deadlock_rpc::log_watcher::{
    apply_captures, apply_map, apply_new_lines, log_last_instances, log_lines, normalize_hero_key, process_line,
    replay_log, try_infer_mode, HeroSource, LogObservation, LogWatcher, MapSource, ModeSignal,
    PhaseSignal, WatchAction, WatchProgress, RESYNC_BYTES,
};

fn patterns() -> Patterns {
    Patterns::new().expect("the log patterns compile")
}

fn state_in(phase: GamePhase) -> GameState {
    let mut s = GameState::new();
    s.phase = phase;
    s
}

fn feed(s: &mut GameState, lines: &[&str]) {
    let p = patterns();
    for l in lines {
        process_line(l, s, &p);
    }
}

#[test]
fn patterns_compile() {
    assert!(Patterns::new().is_some());
}

#[test]
fn normalize_strips_version_and_adds_prefix() {
    assert_eq!(normalize_hero_key("hero_haze_v2"), "hero_haze");
    assert_eq!(normalize_hero_key("Hero_Haze_V13"), "hero_haze");
    assert_eq!(normalize_hero_key("inferno"), "hero_inferno");
    assert_eq!(normalize_hero_key("hero_dynamo"), "hero_dynamo");
    assert_eq!(normalize_hero_key("hero_x_vabc"), "hero_x_vabc");
    assert_eq!(normalize_hero_key("hero_x_v"), "hero_x_v");
    assert_eq!(normalize_hero_key("gigawatt_prisoner"), "hero_gigawatt_prisoner");
}

#[test]
fn mode_inference_from_player_count() {
    let mut s = state_in(GamePhase::InMatch);
    s.map_name = Some("dl_midtown".to_string());
    s.pending_player_count = 12;
    try_infer_mode(&mut s);
    assert_eq!(s.match_mode, MatchMode::Standard);

    let mut s = state_in(GamePhase::InMatch);
    s.map_name = Some("dl_midtown".to_string());
    s.pending_player_count = 4;
    try_infer_mode(&mut s);
    assert_eq!(s.match_mode, MatchMode::StreetBrawl);

    let mut s = state_in(GamePhase::InMatch);
    s.map_name = Some("dl_midtown".to_string());
    s.pending_player_count = 3;
    try_infer_mode(&mut s);
    assert_eq!(s.match_mode, MatchMode::Unknown);
}

#[test]
fn mode_inference_is_idempotent() {
    let mut s = state_in(GamePhase::InMatch);
    s.map_name = Some("dl_midtown".to_string());
    s.pending_player_count = 10;
    try_infer_mode(&mut s);
    s.pending_player_count = 5;
    try_infer_mode(&mut s);
    assert_eq!(s.match_mode, MatchMode::Standard);
}

#[test]
fn hideout_map_enters_the_hideout() {
    let mut s = state_in(GamePhase::MainMenu);
    apply_map(&mut s, "DL_Hideout");
    assert_eq!(s.phase, GamePhase::Hideout);
    assert_eq!(s.map_name.as_deref(), Some("dl_hideout"));
}

#[test]
fn other_maps_start_a_match() {
    let mut s = state_in(GamePhase::Hideout);
    s.hero_key = Some("hero_haze".to_string());
    s.hideout_loaded = true;
    apply_map(&mut s, "new_player_basics");
    assert_eq!(s.phase, GamePhase::InMatch);
    assert_eq!(s.match_mode, MatchMode::TrainingRange);
    assert_eq!(s.hero_key, None);
    assert!(!s.hideout_loaded);

    let mut s = state_in(GamePhase::InQueue);
    apply_map(&mut s, "street_test_bridge");
    assert_eq!(s.match_mode, MatchMode::Standard);
    assert_eq!(s.phase, GamePhase::InMatch);
}

#[test]
fn map_before_the_game_runs_sets_only_the_map() {
    let mut s = GameState::new();
    apply_map(&mut s, "dl_midtown");
    assert_eq!(s.phase, GamePhase::NotRunning);
    assert_eq!(s.map_name.as_deref(), Some("dl_midtown"));
}

#[test]
fn blank_and_spectated_maps_are_ignored() {
    let mut s = state_in(GamePhase::Hideout);
    apply_map(&mut s, "<empty>");
    apply_map(&mut s, "");
    assert_eq!(s.phase, GamePhase::Hideout);
    assert_eq!(s.map_name, None);
    let mut s = state_in(GamePhase::Spectating);
    apply_map(&mut s, "dl_midtown");
    assert_eq!(s.phase, GamePhase::Spectating);
    assert_eq!(s.map_name, None);
}

#[test]
fn a_whole_match_from_the_log() {
    let mut s = state_in(GamePhase::MainMenu);
    feed(
        &mut s,
        &[
            "[Client] Created physics for dl_hideout",
            "[HostStateManager] Host activate: Loading (dl_hideout)",
            "k_EMsgClientToGCStartMatchmaking sent",
        ],
    );
    assert_eq!(s.phase, GamePhase::InQueue);
    assert!(s.hideout_loaded);
    feed(&mut s, &["Lobby 123 for Match 456 created"]);
    assert_eq!(s.phase, GamePhase::MatchIntro);
    feed(&mut s, &["[Client] Map: \"dl_midtown\""]);
    assert_eq!(s.phase, GamePhase::InMatch);
    assert_eq!(s.map_name.as_deref(), Some("dl_midtown"));
    feed(&mut s, &["[Server] Loaded hero 12/hero_haze_v2"]);
    assert_eq!(s.hero_key.as_deref(), Some("hero_haze"));
    feed(&mut s, &["[Server] Loaded hero 13/hero_bebop"]);
    assert_eq!(s.hero_key.as_deref(), Some("hero_haze"));
    feed(&mut s, &["[Client] Players: 12 (0 bots) / 12 humans"]);
    assert_eq!(s.match_mode, MatchMode::Standard);
    assert_eq!(s.pending_player_count, 12);
    feed(&mut s, &["LoopMode: menu"]);
    assert_eq!(s.phase, GamePhase::PostMatch);
    feed(&mut s, &["Dispatching EventAppShutdown_t"]);
    assert_eq!(s.phase, GamePhase::NotRunning);
    assert_eq!(s.hero_key, None);
}

#[test]
fn start_map_is_ignored() {
    let mut s = state_in(GamePhase::Hideout);
    feed(&mut s, &["[Client] Map: \"start\""]);
    assert_eq!(s.phase, GamePhase::Hideout);
    assert_eq!(s.map_name, None);
}

#[test]
fn stop_matchmaking_returns_to_the_hideout() {
    let mut s = state_in(GamePhase::Hideout);
    feed(&mut s, &["k_EMsgClientToGCStartMatchmaking", "k_EMsgClientToGCStopMatchmaking"]);
    assert_eq!(s.phase, GamePhase::Hideout);
}

#[test]
fn change_game_state_lines() {
    let mut s = state_in(GamePhase::InQueue);
    feed(&mut s, &["ChangeGameState: MatchIntro (4)"]);
    assert_eq!(s.phase, GamePhase::MatchIntro);
    feed(&mut s, &["ChangeGameState: GameInProgress (7)"]);
    assert_eq!(s.phase, GamePhase::InMatch);
    feed(&mut s, &["ChangeGameState: PostGame (6)"]);
    assert_eq!(s.phase, GamePhase::PostMatch);
}

#[test]
fn change_game_state_ignored_in_the_hideout_map() {
    let mut s = state_in(GamePhase::Hideout);
    s.map_name = Some("dl_hideout".to_string());
    feed(&mut s, &["ChangeGameState: GameInProgress (7)"]);
    assert_eq!(s.phase, GamePhase::Hideout);
}

#[test]
fn client_model_names_the_hero() {
    let mut s = state_in(GamePhase::MatchIntro);
    feed(&mut s, &["VMDL Camera Pose Success! models/heroes_staging/inferno/inferno.vmdl"]);
    assert_eq!(s.hero_key.as_deref(), Some("hero_inferno"));
}

#[test]
fn hideout_heroes_count_only_after_the_hideout_loads() {
    let mut s = state_in(GamePhase::Hideout);
    feed(&mut s, &["[Server] Loaded hero 1/hero_wraith"]);
    assert_eq!(s.hero_key, None);
    feed(&mut s, &["[HostStateManager] Host activate: Loading (DL_HIDEOUT)"]);
    feed(&mut s, &["[Server] Loaded hero 1/hero_wraith"]);
    assert_eq!(s.hero_key.as_deref(), Some("hero_wraith"));
    feed(&mut s, &["Precaching 30 heroes in CCitadelGameRules"]);
    assert!(!s.hideout_loaded);
}

#[test]
fn bots_make_a_bot_match() {
    let mut s = state_in(GamePhase::MatchIntro);
    feed(&mut s, &["Initializing bot for player slot 3: k_ECitadelBotDifficulty_Easy"]);
    assert_eq!(s.match_mode, MatchMode::BotMatch);
    let mut s = state_in(GamePhase::Hideout);
    feed(&mut s, &["Initializing bot for player slot 3: k_ECitadelBotDifficulty_Easy"]);
    assert_eq!(s.match_mode, MatchMode::Unknown);
}

#[test]
fn disconnect_reasons() {
    let mut s = state_in(GamePhase::InMatch);
    feed(&mut s, &["[Client] Disconnecting from server: NETWORK_DISCONNECT_EXITING"]);
    assert_eq!(s.phase, GamePhase::NotRunning);
    let mut s = state_in(GamePhase::InMatch);
    feed(&mut s, &["[Client] Disconnecting from server: loopdeactivate"]);
    assert_eq!(s.phase, GamePhase::InMatch);
    let mut s = state_in(GamePhase::InMatch);
    feed(&mut s, &["[Client] Disconnecting from server: NETWORK_DISCONNECT_SHUTDOWN"]);
    assert_eq!(s.phase, GamePhase::PostMatch);
    let mut s = state_in(GamePhase::InMatch);
    feed(&mut s, &["[Server] SV:  Server shutting down: exiting"]);
    assert_eq!(s.phase, GamePhase::NotRunning);
}

#[test]
fn server_connection_starts_a_match_unless_loopback() {
    let mut s = state_in(GamePhase::Hideout);
    feed(&mut s, &["[Client] CL:  Connected to 'loopback:0'"]);
    assert_eq!(s.phase, GamePhase::Hideout);
    feed(&mut s, &["[Client] CL:  Connected to '155.133.1.2:27015'"]);
    assert_eq!(s.phase, GamePhase::MatchIntro);
}

#[test]
fn spectating_a_broadcast() {
    let mut s = state_in(GamePhase::MainMenu);
    feed(&mut s, &["Playing Broadcast", "[Server] Loaded hero 1/hero_haze"]);
    assert_eq!(s.phase, GamePhase::Spectating);
    assert_eq!(s.hero_key, None);
}

#[test]
fn account_and_party_from_the_log() {
    let mut s = state_in(GamePhase::Hideout);
    feed(
        &mut s,
        &[
            "SteamID [U:1:12345] logged in",
            "CMsgGCToClientPartyEvent: { party_id: 77 event: k_eJoinedParty initiator_account_id: 12345 }",
            "CMsgGCToClientPartyEvent: { party_id: 77 event: k_eJoinedParty initiator_account_id: 999 }",
            "CMsgGCToClientPartyEvent: { party_id: 77 event: k_eJoinedParty initiator_account_id: 888 }",
        ],
    );
    assert_eq!(s.local_account_id, Some(12345));
    assert_eq!(s.party_id, Some(77));
    assert_eq!(s.party_size, 3);
    feed(&mut s, &["SteamID [U:1:555] other"]);
    assert_eq!(s.local_account_id, Some(12345));
    feed(&mut s, &["[Hideout] Hideout Lobby Connection State: Connected (0)"]);
    assert_eq!(s.party_size, 1);
    assert_eq!(s.party_id, None);
}

#[test]
fn replay_starts_from_the_main_menu() {
    let p = patterns();
    let mut s = GameState::new();
    let lines = vec![
        "  [Client] Created physics for dl_hideout  ".to_string(),
        "".to_string(),
        "k_EMsgClientToGCStartMatchmaking".to_string(),
    ];
    replay_log(&mut s, &lines, &p);
    assert_eq!(s.phase, GamePhase::InQueue);
    let mut s = GameState::new();
    replay_log(&mut s, &Vec::new(), &p);
    assert_eq!(s.phase, GamePhase::MainMenu);
}

#[test]
fn new_lines_skip_blanks() {
    let p = patterns();
    let mut s = state_in(GamePhase::Hideout);
    let lines = vec!["   ".to_string(), "Lobby 1 for Match 2 created".to_string()];
    apply_new_lines(&mut s, &lines, &p);
    assert_eq!(s.phase, GamePhase::MatchIntro);
}

#[test]
fn last_signals_of_a_log_tail() {
    let p = patterns();
    let lines: Vec<String> = [
        "[Client] Map: \"dl_midtown\"",
        "[Client] Created physics for dl_hideout",
        "ChangeGameState: GameInProgress (7)",
        "Lobby 1 for Match 2 created",
        "[Client] Players: 9 (1 bots) / 8 humans",
        "[Server] Loaded hero 3/hero_Haze_v2",
        "unrelated",
    ]
    .iter()
    .map(|s| s.to_string())
    .collect();
    let last = log_last_instances(&lines, &p);
    let (map, src) = last.map.expect("a map was named");
    assert_eq!(map, "dl_hideout");
    assert_eq!(src, MapSource::CreatedPhysics);
    assert!(matches!(last.phase, Some(PhaseSignal::LobbyCreated)));
    match last.mode {
        Some(ModeSignal::Players { count }) => assert_eq!(count, "9"),
        other => panic!("unexpected mode signal {:?}", other),
    }
    let (hero, hsrc) = last.hero.expect("a hero was named");
    assert_eq!(hero, "hero_haze");
    assert_eq!(hsrc, HeroSource::ServerLoadedHero);
}

#[test]
fn no_signals_in_an_empty_tail() {
    let p = patterns();
    let last = log_last_instances(&Vec::new(), &p);
    assert!(last.map.is_none());
    assert!(last.phase.is_none());
    assert!(last.mode.is_none());
    assert!(last.hero.is_none());
}

#[test]
fn log_bytes_split_into_lines() {
    let lines = log_lines(b"a\r\nb\n\nc", false);
    assert_eq!(lines, vec!["a", "b", "", "c"]);
    let lines = log_lines(b"partial\nwhole\n", true);
    assert_eq!(lines, vec!["whole"]);
    let lines = log_lines(b"", true);
    assert!(lines.is_empty());
    let lines = log_lines(b"x\ry\n", false);
    assert_eq!(lines, vec!["x\ry"]);
    let lines = log_lines(&[0xff, b'\n', b'x'], false);
    assert_eq!(lines, vec!["\u{FFFD}", "x"]);
}

#[test]
fn watcher_keeps_its_settings() {
    let w = LogWatcher::new(std::path::PathBuf::from("console.log"), 250);
    assert_eq!(w.log_path, std::path::PathBuf::from("console.log"));
    assert_eq!(w.poll_interval_ms, 250);
}

fn obs(exists: bool, size: u64, phase: GamePhase, silent_secs: u64) -> LogObservation {
    LogObservation { exists, size, phase, silent_nanos: (silent_secs as u128) * 1_000_000_000 }
}

#[test]
fn watcher_resyncs_then_reads_new_bytes() {
    let mut w = WatchProgress::new();
    assert_eq!(w.step(&obs(false, 0, GamePhase::NotRunning, 0)), WatchAction::AwaitLog { reset: false });
    assert_eq!(
        w.step(&obs(true, 100, GamePhase::NotRunning, 0)),
        WatchAction::Resync { start: 0, skip_partial: false }
    );
    assert_eq!(w, WatchProgress { initialized: true, last_pos: 100 });
    assert_eq!(w.step(&obs(true, 150, GamePhase::Hideout, 0)), WatchAction::ReadNew { from: 100 });
    assert_eq!(w.last_pos, 150);
    assert_eq!(w.step(&obs(true, 150, GamePhase::Hideout, 10_000)), WatchAction::Idle { reset: false });
    assert_eq!(w.step(&obs(true, 150, GamePhase::InMatch, 299)), WatchAction::Idle { reset: false });
    assert_eq!(w.step(&obs(true, 150, GamePhase::InMatch, 301)), WatchAction::Idle { reset: true });
    assert_eq!(w, WatchProgress { initialized: false, last_pos: 0 });
}

#[test]
fn watcher_resync_of_a_large_log_skips_the_partial_line() {
    let mut w = WatchProgress::new();
    let size = RESYNC_BYTES + 42;
    assert_eq!(
        w.step(&obs(true, size, GamePhase::NotRunning, 0)),
        WatchAction::Resync { start: 42, skip_partial: true }
    );
}

#[test]
fn watcher_restarts_on_truncation_and_resets_when_the_log_goes() {
    let mut w = WatchProgress { initialized: true, last_pos: 500 };
    assert_eq!(w.step(&obs(true, 10, GamePhase::Hideout, 0)), WatchAction::Restart);
    assert!(!w.initialized);
    let mut w = WatchProgress { initialized: true, last_pos: 500 };
    assert_eq!(w.step(&obs(false, 0, GamePhase::Hideout, 0)), WatchAction::AwaitLog { reset: true });
    assert_eq!(w, WatchProgress { initialized: false, last_pos: 0 });
}

#[test]
fn reading_in_chunks_gives_the_same_state() {
    let p = patterns();
    let all: Vec<String> = [
        "[Client] Created physics for dl_hideout",
        "",
        "k_EMsgClientToGCStartMatchmaking",
        "Lobby 1 for Match 2 created",
        "[Client] Map: \"dl_midtown\"",
        "[Server] Loaded hero 12/hero_haze",
    ]
    .iter()
    .map(|s| s.to_string())
    .collect();
    let mut whole = state_in(GamePhase::MainMenu);
    apply_new_lines(&mut whole, &all, &p);
    let mut parts = state_in(GamePhase::MainMenu);
    apply_new_lines(&mut parts, &all[..3].to_vec(), &p);
    apply_new_lines(&mut parts, &all[3..].to_vec(), &p);
    assert_eq!(whole.phase, parts.phase);
    assert_eq!(whole.phase, GamePhase::InMatch);
    assert_eq!(whole.hero_key, parts.hero_key);
    assert_eq!(whole.map_name, parts.map_name);
}

fn no_captures() -> LineCaptures {
    LineCaptures {
        map_info: None,
        map_created_physics: None,
        host_activate: None,
        loop_mode_menu: None,
        change_game_state: None,
        precaching_heroes: None,
        lobby_created: None,
        lobby_destroyed: None,
        spectate_broadcast: None,
        server_connect: None,
        server_disconnect: None,
        server_shutdown: None,
        loaded_hero: None,
        client_hero_vmdl: None,
        player_info: None,
        bot_init: None,
        hideout_lobby_state: None,
        party_event: None,
        local_account_id: None,
    }
}

fn groups(g: &[&str]) -> Option<Vec<Option<String>>> {
    Some(g.iter().map(|s| Some(s.to_string())).collect())
}

#[test]
fn captured_signals_drive_the_state() {
    let mut s = state_in(GamePhase::MainMenu);
    let mut c = no_captures();
    c.map_created_physics = groups(&["x", "DL_Hideout"]);
    apply_captures("x", &c, &mut s);
    assert_eq!(s.phase, GamePhase::Hideout);
    assert_eq!(s.map_name.as_deref(), Some("dl_hideout"));

    let mut c = no_captures();
    c.local_account_id = groups(&["[U:1:5]", "5"]);
    c.party_event = groups(&["e", "9", "k_eJoinedParty", "5"]);
    apply_captures("e", &c, &mut s);
    assert_eq!(s.local_account_id, Some(5));
    assert_eq!(s.party_id, Some(9));
    assert_eq!(s.party_size, 2);

    let c = no_captures();
    apply_captures("k_EMsgClientToGCStartMatchmaking", &c, &mut s);
    assert_eq!(s.phase, GamePhase::InQueue);

    let mut c = no_captures();
    c.change_game_state = groups(&["c", "GameInProgress", "7"]);
    apply_captures("c", &c, &mut s);
    assert_eq!(s.phase, GamePhase::InQueue);

    let mut c = no_captures();
    c.map_info = groups(&["m", "dl_midtown"]);
    apply_captures("m", &c, &mut s);
    assert_eq!(s.phase, GamePhase::InMatch);

    let mut c = no_captures();
    c.change_game_state = groups(&["c", "PostGame", "6"]);
    apply_captures("c", &c, &mut s);
    assert_eq!(s.phase, GamePhase::PostMatch);

    let mut c = no_captures();
    c.change_game_state = groups(&["c", "MatchIntro", "4"]);
    apply_captures("c", &c, &mut s);
    assert_eq!(s.phase, GamePhase::MatchIntro);

    let mut c = no_captures();
    c.loaded_hero = groups(&["h", "hero_Haze_v3"]);
    apply_captures("h", &c, &mut s);
    assert_eq!(s.hero_key.as_deref(), Some("hero_haze"));
}

#[test]
fn captures_of_a_line_agree_with_processing_it() {
    let p = patterns();
    let line = "[Client] Created physics for dl_hideout";
    let c = line_captures(line, &p);
    assert!(c.map_created_physics.is_some());
    assert!(c.map_info.is_none());
    let mut a = state_in(GamePhase::MainMenu);
    let mut b = state_in(GamePhase::MainMenu);
    apply_captures(line, &c, &mut a);
    process_line(line, &mut b, &p);
    assert_eq!(a.phase, b.phase);
    assert_eq!(a.map_name, b.map_name);
}
