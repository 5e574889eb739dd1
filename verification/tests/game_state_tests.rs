use deadlock_rpc::config::StatusStrings;
use deadlock_rpc::game_state::{GamePhase, GameState, MatchMode};

fn default_status() -> StatusStrings {
    StatusStrings::default()
}

#[test]
fn new_state_is_not_running_and_solo() {
    let s = GameState::new();
    assert_eq!(s.phase, GamePhase::NotRunning);
    assert_eq!(s.match_mode, MatchMode::Unknown);
    assert_eq!(s.hero_key, None);
    assert_eq!(s.map_name, None);
    assert_eq!(s.party_size, 1);
    assert!(s.hero_window_open);
    assert!(!s.hideout_loaded);
    assert_eq!(s.local_account_id, None);
    assert_eq!(s.party_id, None);
    assert!(s.party_members.is_empty());
    assert_eq!(s.pending_player_count, 0);
}

#[test]
fn reset_returns_to_the_initial_state() {
    let mut s = GameState::new();
    s.phase = GamePhase::InMatch;
    s.hero_key = Some("hero_haze".to_string());
    s.party_size = 3;
    s.local_account_id = Some(7);
    s.reset();
    assert_eq!(s.phase, GamePhase::NotRunning);
    assert_eq!(s.hero_key, None);
    assert_eq!(s.party_size, 1);
    assert_eq!(s.local_account_id, None);
}

#[test]
fn match_mode_labels() {
    assert_eq!(MatchMode::Unknown.display(), "In Match");
    assert_eq!(MatchMode::Standard.display(), "Standard Match");
    assert_eq!(MatchMode::Ranked.display(), "Ranked Match");
    assert_eq!(MatchMode::StreetBrawl.display(), "Street Brawl");
    assert_eq!(MatchMode::BotMatch.display(), "Bot Match");
    assert_eq!(MatchMode::TrainingRange.display(), "Training Range");
    assert_eq!(MatchMode::HeroLabs.display(), "Hero Labs");
    assert!(MatchMode::Standard.show_map_location());
    assert!(MatchMode::Unknown.show_map_location());
    assert!(!MatchMode::BotMatch.show_map_location());
    assert!(!MatchMode::HeroLabs.show_map_location());
}

#[test]
fn phase_labels_and_hero_display() {
    assert_eq!(GamePhase::NotRunning.description(), "Not Running");
    assert_eq!(GamePhase::MainMenu.description(), "Main Menu");
    assert_eq!(GamePhase::Hideout.description(), "Hideout");
    assert_eq!(GamePhase::InQueue.description(), "Searching for Match");
    assert_eq!(GamePhase::MatchIntro.description(), "Match Starting");
    assert_eq!(GamePhase::InMatch.description(), "In Match");
    assert_eq!(GamePhase::PostMatch.description(), "Post Match");
    assert_eq!(GamePhase::Spectating.description(), "Spectating");
    assert!(GamePhase::InMatch.shows_hero());
    assert!(GamePhase::Hideout.shows_hero());
    assert!(!GamePhase::MainMenu.shows_hero());
    assert!(!GamePhase::Spectating.shows_hero());
}

#[test]
fn entering_the_hideout_forgets_the_hero() {
    let mut s = GameState::new();
    s.phase = GamePhase::PostMatch;
    s.hero_key = Some("hero_wraith".to_string());
    s.hero_window_open = false;
    s.hideout_loaded = true;
    s.enter_hideout();
    assert_eq!(s.phase, GamePhase::Hideout);
    assert_eq!(s.hero_key, None);
    assert!(s.hero_window_open);
    assert!(!s.hideout_loaded);
}

#[test]
fn queue_transitions() {
    let mut s = GameState::new();
    s.enter_main_menu();
    assert_eq!(s.phase, GamePhase::MainMenu);
    s.enter_queue();
    assert_eq!(s.phase, GamePhase::InQueue);
    s.leave_queue();
    assert_eq!(s.phase, GamePhase::Hideout);
}

#[test]
fn match_intro_resets_mode_and_hero() {
    let mut s = GameState::new();
    s.match_mode = MatchMode::Ranked;
    s.hero_key = Some("hero_lash".to_string());
    s.pending_player_count = 12;
    s.enter_match_intro();
    assert_eq!(s.phase, GamePhase::MatchIntro);
    assert_eq!(s.match_mode, MatchMode::Unknown);
    assert_eq!(s.hero_key, None);
    assert!(s.hero_window_open);
    assert_eq!(s.pending_player_count, 0);
    s.start_match();
    assert_eq!(s.phase, GamePhase::InMatch);
    s.end_match();
    assert_eq!(s.phase, GamePhase::PostMatch);
    s.enter_spectating();
    assert_eq!(s.phase, GamePhase::Spectating);
}

#[test]
fn hero_is_locked_in_during_a_match() {
    let mut s = GameState::new();
    s.phase = GamePhase::InMatch;
    s.match_mode = MatchMode::Standard;
    s.prepare_match_hero_tracking();
    s.apply_hero_signal("hero_haze");
    assert_eq!(s.hero_key.as_deref(), Some("hero_haze"));
    assert!(!s.hero_window_open);
    s.apply_hero_signal("hero_bebop");
    assert_eq!(s.hero_key.as_deref(), Some("hero_haze"));
}

#[test]
fn hero_may_change_in_hero_labs() {
    let mut s = GameState::new();
    s.phase = GamePhase::InMatch;
    s.match_mode = MatchMode::HeroLabs;
    s.apply_hero_signal("hero_haze");
    s.apply_hero_signal("hero_bebop");
    assert_eq!(s.hero_key.as_deref(), Some("hero_bebop"));
}

#[test]
fn closed_hero_window_ignores_signals() {
    let mut s = GameState::new();
    s.phase = GamePhase::MatchIntro;
    s.hero_window_open = false;
    s.apply_hero_signal("hero_haze");
    assert_eq!(s.hero_key, None);
}

#[test]
fn spectating_and_menus_ignore_hero_signals() {
    let mut s = GameState::new();
    s.phase = GamePhase::Spectating;
    s.apply_hero_signal("hero_haze");
    assert_eq!(s.hero_key, None);
    s.phase = GamePhase::MainMenu;
    s.apply_hero_signal("hero_haze");
    assert_eq!(s.hero_key, None);
    s.phase = GamePhase::Hideout;
    s.apply_hero_signal("hero_haze");
    assert_eq!(s.hero_key.as_deref(), Some("hero_haze"));
}

#[test]
fn party_join_and_leave() {
    let mut s = GameState::new();
    s.local_account_id = Some(100);
    s.apply_party_event(55, "k_eJoinedParty", 100);
    assert_eq!(s.party_id, Some(55));
    assert_eq!(s.party_size, 2);
    s.apply_party_event(55, "k_eJoinedParty", 200);
    assert_eq!(s.party_size, 2);
    s.apply_party_event(55, "k_eJoinedParty", 300);
    assert_eq!(s.party_size, 3);
    s.apply_party_event(55, "k_eLeftParty", 300);
    assert_eq!(s.party_size, 2);
    s.apply_party_event(55, "k_eLeftParty", 100);
    assert_eq!(s.party_id, None);
    assert_eq!(s.party_size, 1);
    assert!(s.party_members.is_empty());
}

#[test]
fn party_disband_clears_the_party() {
    let mut s = GameState::new();
    s.apply_party_event(9, "k_eJoinedParty", 1);
    s.apply_party_event(9, "k_eJoinedParty", 2);
    s.apply_party_event(9, "k_eJoinedParty", 3);
    assert_eq!(s.party_size, 3);
    s.apply_party_event(9, "k_ePartyDisbanded", 0);
    assert_eq!(s.party_size, 1);
    assert_eq!(s.party_id, None);
}

#[test]
fn clear_party_returns_to_solo() {
    let mut s = GameState::new();
    s.apply_party_event(9, "k_eJoinedParty", 1);
    s.clear_party();
    assert_eq!(s.party_size, 1);
    assert_eq!(s.party_id, None);
}

#[test]
fn status_lines_for_each_phase() {
    let cfg = default_status();
    let mut s = GameState::new();
    assert_eq!(s.presence_status(None, None, &cfg), "Not Running");
    s.phase = GamePhase::MainMenu;
    assert_eq!(s.presence_status(None, None, &cfg), "Browsing the Main Menu");
    s.phase = GamePhase::Hideout;
    assert_eq!(s.presence_status(None, Some("Haze"), &cfg), "In the Hideout");
    assert_eq!(s.presence_status(Some("Sipping tea"), Some("Haze"), &cfg), "Sipping tea");
    assert_eq!(s.presence_status(Some(""), Some("Haze"), &cfg), "In the Hideout");
    s.phase = GamePhase::InQueue;
    assert_eq!(s.presence_status(None, None, &cfg), "Searching for a Match...");
    s.phase = GamePhase::MatchIntro;
    s.match_mode = MatchMode::Standard;
    assert_eq!(s.presence_status(None, None, &cfg), "Standard Match \u{2022} Loading into Match");
    s.phase = GamePhase::InMatch;
    assert_eq!(
        s.presence_status(None, None, &cfg),
        "Standard Match \u{2022} Battling in the Cursed Apple"
    );
    s.match_mode = MatchMode::BotMatch;
    assert_eq!(s.presence_status(None, None, &cfg), "Bot Match");
    s.phase = GamePhase::PostMatch;
    assert_eq!(s.presence_status(None, None, &cfg), "Reviewing Match Results");
    s.phase = GamePhase::Spectating;
    assert_eq!(s.presence_status(None, None, &cfg), "Watching a Match");
}

#[test]
fn hideout_template_names_the_hero() {
    let mut cfg = default_status();
    cfg.in_hideout = "Relaxing as {hero}".to_string();
    let mut s = GameState::new();
    s.phase = GamePhase::Hideout;
    assert_eq!(s.presence_status(None, Some("Vindicta"), &cfg), "Relaxing as Vindicta");
    assert_eq!(s.presence_status(None, None, &cfg), "Relaxing as ");
}
