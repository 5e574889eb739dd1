use deadlock_rpc::config::{Config, ImagesConfig, PresenceConfig};
use deadlock_rpc::game_state::{GamePhase, GameState, MatchMode};
use deadlock_rpc::hero_api::HeroData;
use deadlock_rpc::presence::{
    build_activity, compose_card, plan_activity, wants_hero, RpcDecision, RpcSnapshot,
    RpcTracker, StatlockerOpts,
};

fn haze() -> HeroData {
    HeroData {
        name: "Haze".to_string(),
        hideout_text: "Sharpening knives".to_string(),
        icon_url: "https://img/haze.png".to_string(),
    }
}

fn snapshot(phase: GamePhase) -> RpcSnapshot {
    let mut gs = GameState::new();
    gs.phase = phase;
    RpcSnapshot::of_state(&gs)
}

#[test]
fn snapshot_copies_the_state() {
    let mut gs = GameState::new();
    gs.phase = GamePhase::InMatch;
    gs.match_mode = MatchMode::Ranked;
    gs.hero_key = Some("hero_haze".to_string());
    gs.party_size = 2;
    gs.map_name = Some("dl_midtown".to_string());
    gs.local_account_id = Some(42);
    let s = RpcSnapshot::of_state(&gs);
    assert_eq!(s.phase, GamePhase::InMatch);
    assert_eq!(s.match_mode, MatchMode::Ranked);
    assert_eq!(s.hero_key.as_deref(), Some("hero_haze"));
    assert_eq!(s.party_size, 2);
    assert_eq!(s.map_name.as_deref(), Some("dl_midtown"));
    assert_eq!(s.account_id, Some(42));
    assert!(s.same_as(&s.duplicate()));
    assert!(!s.same_as(&snapshot(GamePhase::InMatch)));
}

#[test]
fn tracker_refreshes_only_on_change() {
    let mut t = RpcTracker::new();
    let s = snapshot(GamePhase::Hideout);
    assert_eq!(t.observe(&s, true), RpcDecision::Refresh);
    t.confirm(s.duplicate());
    assert_eq!(t.observe(&s, true), RpcDecision::Unchanged);
    let other = snapshot(GamePhase::InQueue);
    assert_eq!(t.observe(&other, true), RpcDecision::Refresh);
}

#[test]
fn tracker_refreshes_again_when_sending_failed() {
    let mut t = RpcTracker::new();
    let s = snapshot(GamePhase::Hideout);
    assert_eq!(t.observe(&s, true), RpcDecision::Refresh);
    assert_eq!(t.observe(&s, true), RpcDecision::Refresh);
}

#[test]
fn tracker_exits_when_the_game_closes() {
    let mut t = RpcTracker::new();
    let closed = snapshot(GamePhase::NotRunning);
    assert_eq!(t.observe(&closed, true), RpcDecision::Refresh);
    assert!(!t.game_was_running);
    assert_eq!(t.observe(&snapshot(GamePhase::MainMenu), true), RpcDecision::Refresh);
    assert!(t.game_was_running);
    assert_eq!(t.observe(&closed, true), RpcDecision::Exit);
}

#[test]
fn tracker_stays_when_auto_exit_is_off() {
    let mut t = RpcTracker::new();
    t.observe(&snapshot(GamePhase::MainMenu), false);
    assert_eq!(t.observe(&snapshot(GamePhase::NotRunning), false), RpcDecision::Refresh);
}

#[test]
fn hero_wanted_only_when_shown() {
    let mut p = PresenceConfig::default();
    assert!(wants_hero(&p, GamePhase::InMatch));
    assert!(!wants_hero(&p, GamePhase::MainMenu));
    p.show_hero = false;
    assert!(!wants_hero(&p, GamePhase::InMatch));
}

#[test]
fn card_in_the_hideout_shows_the_party() {
    let p = PresenceConfig::default();
    let card = compose_card(GamePhase::Hideout, 3, "In the Hideout", Some("Haze"), &p);
    assert_eq!(card.details, "In the Hideout");
    assert_eq!(card.state.as_deref(), Some("In a Party"));
    assert_eq!(card.party, Some(3));
    let solo = compose_card(GamePhase::Hideout, 1, "In the Hideout", None, &p);
    assert_eq!(solo.state, None);
    assert_eq!(solo.party, None);
}

#[test]
fn card_in_a_match_shows_hero_and_status() {
    let p = PresenceConfig::default();
    let card = compose_card(GamePhase::InMatch, 4, "Bot Match", Some("Haze"), &p);
    assert_eq!(card.details, "Playing as Haze");
    assert_eq!(card.state.as_deref(), Some("Bot Match"));
    assert_eq!(card.party, None);
    let card = compose_card(GamePhase::PostMatch, 1, "Reviewing Match Results", None, &p);
    assert_eq!(card.details, "Post Match");
    assert_eq!(card.state.as_deref(), Some("Reviewing Match Results"));
}

#[test]
fn card_when_not_running_or_spectating_has_one_line() {
    let p = PresenceConfig::default();
    let card = compose_card(GamePhase::NotRunning, 1, "Not Running", None, &p);
    assert_eq!(card.details, "Not Running");
    assert_eq!(card.state, None);
    let card = compose_card(GamePhase::Spectating, 1, "Watching a Match", None, &p);
    assert_eq!(card.details, "Watching a Match");
    assert_eq!(card.state, None);
}

#[test]
fn activity_with_hero_and_button() {
    let img = ImagesConfig::default();
    let h = haze();
    let a = build_activity(
        "Playing as Haze",
        Some(&h),
        Some("Standard Match"),
        Some(1700000000),
        Some(2),
        &img,
        StatlockerOpts { account_id: Some(12345), show_button: true },
    );
    assert_eq!(a.details, "Playing as Haze");
    assert_eq!(a.state.as_deref(), Some("Standard Match"));
    assert_eq!(a.large_image, "https://img/haze.png");
    assert_eq!(a.large_text, "Haze");
    assert_eq!(a.small_image, "deadlock_logo");
    assert_eq!(a.small_text, "Deadlock");
    assert_eq!(a.start_time, Some(1700000000));
    assert_eq!(a.party, Some((2, 6)));
    assert_eq!(
        a.button,
        Some((
            "View on Statlocker".to_string(),
            "https://statlocker.gg/profile/12345/matches".to_string()
        ))
    );
}

#[test]
fn activity_without_hero_uses_defaults() {
    let img = ImagesConfig::default();
    let a = build_activity(
        "Main Menu",
        None,
        None,
        None,
        None,
        &img,
        StatlockerOpts { account_id: Some(1), show_button: false },
    );
    assert_eq!(a.large_image, "deadlock_logo");
    assert_eq!(a.large_text, "Deadlock");
    assert_eq!(a.state, None);
    assert_eq!(a.start_time, None);
    assert_eq!(a.party, None);
    assert_eq!(a.button, None);
    let no_icon = HeroData { name: "Haze".to_string(), hideout_text: String::new(), icon_url: String::new() };
    let a = build_activity(
        "x",
        Some(&no_icon),
        None,
        None,
        None,
        &img,
        StatlockerOpts { account_id: None, show_button: true },
    );
    assert_eq!(a.large_image, "deadlock_logo");
    assert_eq!(a.large_text, "Haze");
    assert_eq!(a.button, None);
}

#[test]
fn planned_activity_in_a_match() {
    let cfg = Config::default();
    let mut gs = GameState::new();
    gs.phase = GamePhase::InMatch;
    gs.match_mode = MatchMode::Standard;
    gs.local_account_id = Some(9);
    let h = haze();
    let a = plan_activity(&gs, &cfg, Some(&h), 1000);
    assert_eq!(a.details, "Playing as Haze");
    assert_eq!(a.state.as_deref(), Some("Standard Match \u{2022} Battling in the Cursed Apple"));
    assert_eq!(a.large_image, "https://img/haze.png");
    assert_eq!(a.start_time, Some(1000));
    assert_eq!(a.party, None);
    assert_eq!(a.button, None);
}

#[test]
fn planned_activity_in_the_hideout_uses_the_hero_text() {
    let mut cfg = Config::default();
    cfg.presence.show_statlocker_button = true;
    cfg.presence.show_elapsed_timer = false;
    let mut gs = GameState::new();
    gs.phase = GamePhase::Hideout;
    gs.party_size = 2;
    gs.local_account_id = Some(77);
    let h = haze();
    let a = plan_activity(&gs, &cfg, Some(&h), 1000);
    assert_eq!(a.details, "Sharpening knives");
    assert_eq!(a.state.as_deref(), Some("In a Party"));
    assert_eq!(a.party, Some((2, 6)));
    assert_eq!(a.start_time, None);
    assert_eq!(
        a.button.map(|b| b.1),
        Some("https://statlocker.gg/profile/77/matches".to_string())
    );
}

#[test]
fn planned_activity_hides_the_hero_when_disabled() {
    let mut cfg = Config::default();
    cfg.presence.show_hero = false;
    let mut gs = GameState::new();
    gs.phase = GamePhase::InQueue;
    let h = haze();
    let a = plan_activity(&gs, &cfg, Some(&h), 5);
    assert_eq!(a.details, "Searching for Match");
    assert_eq!(a.state.as_deref(), Some("Searching for a Match..."));
    assert_eq!(a.large_image, "deadlock_logo");
    assert_eq!(a.large_text, "Deadlock");
}

#[test]
fn planned_activity_in_the_main_menu_ignores_the_hero() {
    let cfg = Config::default();
    let mut gs = GameState::new();
    gs.phase = GamePhase::MainMenu;
    let h = haze();
    let a = plan_activity(&gs, &cfg, Some(&h), 5);
    assert_eq!(a.details, "Main Menu");
    assert_eq!(a.state.as_deref(), Some("Browsing the Main Menu"));
    assert_eq!(a.large_text, "Deadlock");
}
