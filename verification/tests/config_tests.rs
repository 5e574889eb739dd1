use deadlock_rpc::config::{
    apply_vars, merge_defaults, patch_config_text, patched_document, ConfigPatch, Config, ConfigTree, GeneralConfig, ImagesConfig, PresenceConfig,
    StatusStrings,
};

#[test]
fn general_defaults() {
    let g = GeneralConfig::default();
    assert!(g.auto_launch);
    assert!(g.auto_exit);
    assert_eq!(g.launch_timeout_s, 120);
    assert_eq!(g.log_poll_interval_ms, 500);
    assert_eq!(g.presence_update_interval_s, 5);
}

#[test]
fn presence_defaults() {
    let p = PresenceConfig::default();
    assert!(p.show_elapsed_timer);
    assert!(p.show_hero);
    assert!(!p.show_statlocker_button);
    assert_eq!(p.details_with_hero, "Playing as {hero}");
    assert_eq!(p.details_no_hero, "{phase}");
}

#[test]
fn status_defaults() {
    let s = StatusStrings::default();
    assert_eq!(s.not_running, "Not Running");
    assert_eq!(s.main_menu, "Browsing the Main Menu");
    assert_eq!(s.in_hideout, "In the Hideout");
    assert_eq!(s.in_queue, "Searching for a Match...");
    assert_eq!(s.match_intro, "{mode} \u{2022} Loading into Match");
    assert_eq!(s.in_match, "{mode} \u{2022} Battling in {location}");
    assert_eq!(s.in_match_location, "the Cursed Apple");
    assert_eq!(s.post_match, "Reviewing Match Results");
    assert_eq!(s.spectating, "Watching a Match");
}

#[test]
fn image_defaults() {
    let i = ImagesConfig::default();
    assert_eq!(i.default_large_image, "deadlock_logo");
    assert_eq!(i.default_large_text, "Deadlock");
    assert_eq!(i.small_image, "deadlock_logo");
    assert_eq!(i.small_text, "Deadlock");
}

#[test]
fn config_default_gathers_the_sections() {
    let c = Config::default();
    assert!(c.general.auto_exit);
    assert_eq!(c.presence.status.in_queue, "Searching for a Match...");
    assert_eq!(c.images.small_text, "Deadlock");
}

#[test]
fn apply_vars_replaces_each_placeholder() {
    assert_eq!(apply_vars("Playing as {hero}", &[("hero", "Vindicta")]), "Playing as Vindicta");
    assert_eq!(
        apply_vars("{mode} in {location}", &[("mode", "Ranked Match"), ("location", "the Cursed Apple")]),
        "Ranked Match in the Cursed Apple"
    );
    assert_eq!(apply_vars("{hero} and {hero}", &[("hero", "Haze")]), "Haze and Haze");
}

#[test]
fn apply_vars_keeps_unknown_placeholders_and_plain_text() {
    assert_eq!(apply_vars("{phase}", &[("hero", "Haze")]), "{phase}");
    assert_eq!(apply_vars("Playing Deadlock", &[("hero", "Haze")]), "Playing Deadlock");
    assert_eq!(apply_vars("", &[("hero", "Haze")]), "");
    assert_eq!(apply_vars("{hero}", &[]), "{hero}");
}

#[test]
fn apply_vars_substitutes_in_order() {
    assert_eq!(apply_vars("{a}", &[("a", "{b}"), ("b", "x")]), "x");
    assert_eq!(apply_vars("{b}", &[("a", "y"), ("b", "{a}")]), "{a}");
}

fn table(entries: Vec<(&str, ConfigTree<i64>)>) -> ConfigTree<i64> {
    ConfigTree::Table(entries.into_iter().map(|(k, v)| (k.to_string(), v)).collect())
}

fn keys(t: &ConfigTree<i64>) -> Vec<String> {
    match t {
        ConfigTree::Table(e) => e.iter().map(|(k, _)| k.clone()).collect(),
        ConfigTree::Value(_) => Vec::new(),
    }
}

fn lookup<'a>(t: &'a ConfigTree<i64>, key: &str) -> Option<&'a ConfigTree<i64>> {
    match t {
        ConfigTree::Table(e) => e.iter().find(|(k, _)| k == key).map(|(_, v)| v),
        ConfigTree::Value(_) => None,
    }
}

fn value(t: Option<&ConfigTree<i64>>) -> Option<i64> {
    match t {
        Some(ConfigTree::Value(v)) => Some(*v),
        _ => None,
    }
}

fn defaults() -> ConfigTree<i64> {
    table(vec![
        ("general", table(vec![("auto_exit", ConfigTree::Value(1)), ("poll", ConfigTree::Value(500))])),
        ("presence", table(vec![("show_hero", ConfigTree::Value(1))])),
    ])
}

#[test]
fn merge_fills_missing_keys_and_keeps_user_values() {
    let mut user = table(vec![("general", table(vec![("poll", ConfigTree::Value(250))]))]);
    let changed = merge_defaults(&mut user, defaults());
    assert!(changed);
    assert_eq!(keys(&user), vec!["general", "presence"]);
    let general = lookup(&user, "general").unwrap();
    assert_eq!(keys(general), vec!["poll", "auto_exit"]);
    assert_eq!(value(lookup(general, "poll")), Some(250));
    assert_eq!(value(lookup(general, "auto_exit")), Some(1));
    let presence = lookup(&user, "presence").unwrap();
    assert_eq!(value(lookup(presence, "show_hero")), Some(1));
}

#[test]
fn merging_twice_changes_nothing_the_second_time() {
    let mut user = table(vec![]);
    assert!(merge_defaults(&mut user, defaults()));
    let before = format!("{:?}", user);
    assert!(!merge_defaults(&mut user, defaults()));
    assert_eq!(format!("{:?}", user), before);
}

#[test]
fn complete_document_reports_no_change() {
    let mut user = defaults();
    assert!(!merge_defaults(&mut user, defaults()));
}

#[test]
fn values_are_never_replaced_by_tables() {
    let mut user = table(vec![("general", ConfigTree::Value(7))]);
    let changed = merge_defaults(&mut user, defaults());
    assert!(changed);
    assert_eq!(value(lookup(&user, "general")), Some(7));
    let mut leaf = ConfigTree::Value(3);
    assert!(!merge_defaults(&mut leaf, defaults()));
    assert_eq!(value(Some(&leaf)), Some(3));
}

const DEFAULTS: &str = "[general]\nauto_exit = true\npoll = 500\n\n[presence]\nshow_hero = true\n";

#[test]
fn patching_adds_missing_keys_and_keeps_the_users() {
    match patch_config_text("[general]\npoll = 250\n", DEFAULTS) {
        ConfigPatch::Patched(text) => {
            let v: toml::Value = toml::from_str(&text).unwrap();
            assert_eq!(v["general"]["poll"].as_integer(), Some(250));
            assert_eq!(v["general"]["auto_exit"].as_bool(), Some(true));
            assert_eq!(v["presence"]["show_hero"].as_bool(), Some(true));
        }
        other => panic!("unexpected {:?}", other),
    }
}

#[test]
fn complete_or_invalid_texts_are_not_patched() {
    assert!(matches!(patch_config_text(DEFAULTS, DEFAULTS), ConfigPatch::Complete));
    assert!(matches!(patch_config_text("not = [toml", DEFAULTS), ConfigPatch::Unparsed));
    assert!(matches!(patch_config_text("", "bad = = 1"), ConfigPatch::Unparsed));
}

#[test]
fn patched_document_reports_the_change() {
    let (doc, changed) = patched_document("[presence]\nshow_hero = false\n", DEFAULTS).unwrap();
    assert!(changed);
    match doc {
        ConfigTree::Table(entries) => {
            let keys: Vec<&str> = entries.iter().map(|(k, _)| k.as_str()).collect();
            assert!(keys.contains(&"general"));
            assert!(keys.contains(&"presence"));
        }
        ConfigTree::Value(_) => panic!("a document is a table"),
    }
    assert!(patched_document("x = ", DEFAULTS).is_none());
}
