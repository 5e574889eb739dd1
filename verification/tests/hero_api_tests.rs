use deadlock_rpc::hero_api::{
    dict_lookup, fetch_candidates, hero_from_api, hero_url, ApiHero, ApiImages, FetchNext,
    HeroCache, HeroData,
};

fn reply(name: Option<&str>, text: Option<&str>, icon: Option<Option<&str>>) -> ApiHero {
    ApiHero {
        name: name.map(|s| s.to_string()),
        hideout_rich_presence: text.map(|s| s.to_string()),
        images: icon.map(|i| ApiImages { icon_hero_card: i.map(|s| s.to_string()) }),
    }
}

#[test]
fn display_names_of_renamed_heroes() {
    assert_eq!(dict_lookup("hero_geist"), Some("Lady Geist"));
    assert_eq!(dict_lookup("hero_inferno"), Some("Infernus"));
    assert_eq!(dict_lookup("hero_digger"), Some("Mo & Krill"));
    assert_eq!(dict_lookup("hero_tengu"), Some("Ivy"));
    assert_eq!(dict_lookup("hero_unknown"), None);
    assert_eq!(dict_lookup("geist"), None);
}

#[test]
fn candidates_in_order() {
    assert_eq!(fetch_candidates("hero_geist"), vec!["hero_geist", "geist", "Lady Geist"]);
    assert_eq!(fetch_candidates("hero_newbie"), vec!["hero_newbie", "newbie"]);
    assert_eq!(fetch_candidates("hero_hero_x"), vec!["hero_hero_x", "x"]);
}

#[test]
fn query_address() {
    assert_eq!(hero_url("Lady Geist"), "https://assets.deadlock-api.com/v2/heroes/by-name/Lady Geist");
}

#[test]
fn reply_with_images_gives_hero_data() {
    let d = hero_from_api(reply(Some("Haze"), Some("Napping"), Some(Some("u"))), "haze").unwrap();
    assert_eq!(d.name, "Haze");
    assert_eq!(d.hideout_text, "Napping");
    assert_eq!(d.icon_url, "u");
}

#[test]
fn reply_fills_missing_fields() {
    let d = hero_from_api(reply(None, None, Some(None)), "hero_haze").unwrap();
    assert_eq!(d.name, "haze");
    assert_eq!(d.hideout_text, "");
    assert_eq!(d.icon_url, "");
}

#[test]
fn reply_without_images_is_not_found() {
    assert!(hero_from_api(reply(Some("Haze"), None, None), "haze").is_none());
}

#[test]
fn cache_starts_empty_and_remembers() {
    let mut c = HeroCache::new();
    assert!(c.get("hero_haze").is_none());
    let d = HeroData { name: "Haze".to_string(), hideout_text: "t".to_string(), icon_url: "u".to_string() };
    c.insert("hero_haze".to_string(), d);
    assert_eq!(c.get("hero_haze").unwrap().name, "Haze");
    assert!(c.get("hero_wraith").is_none());
    let d2 = HeroData { name: "Haze 2".to_string(), hideout_text: String::new(), icon_url: String::new() };
    c.insert("hero_haze".to_string(), d2);
    assert_eq!(c.get("hero_haze").unwrap().name, "Haze 2");
}

#[test]
fn get_or_fetch_returns_cached_data() {
    let mut c = HeroCache::new();
    let d = HeroData { name: "Haze".to_string(), hideout_text: "t".to_string(), icon_url: "u".to_string() };
    c.insert("hero_haze".to_string(), d);
    match c.get_or_fetch("hero_haze") {
        Ok(d) => assert_eq!(d.name, "Haze"),
        Err(f) => panic!("unexpected fetch {:?}", f),
    }
}

#[test]
fn fetch_tries_candidates_until_one_resolves() {
    let mut c = HeroCache::new();
    let mut f = match c.get_or_fetch("hero_geist") {
        Ok(d) => panic!("unexpected data {:?}", d),
        Err(f) => f,
    };
    assert_eq!(f.key, "hero_geist");
    assert_eq!(f.tried, 0);
    assert!(!f.resolved);
    assert!(matches!(f.next(), FetchNext::Query(n) if n == "hero_geist"));
    assert!(c.record(&mut f, None).is_none());
    assert!(matches!(f.next(), FetchNext::Query(n) if n == "geist"));
    assert!(c.record(&mut f, Some(reply(Some("x"), None, None))).is_none());
    assert!(matches!(f.next(), FetchNext::Query(n) if n == "Lady Geist"));
    let d = c.record(&mut f, Some(reply(Some("Lady Geist"), Some("Haunting"), Some(Some("img"))))).unwrap();
    assert_eq!(d.name, "Lady Geist");
    assert!(f.resolved);
    assert!(matches!(f.next(), FetchNext::Resolved));
    assert_eq!(c.get("hero_geist").unwrap().hideout_text, "Haunting");
}

#[test]
fn fetch_stops_at_the_first_resolved_reply() {
    let mut c = HeroCache::new();
    let mut f = c.get_or_fetch("hero_haze").unwrap_err();
    assert!(c.record(&mut f, Some(reply(Some("Haze"), None, Some(None)))).is_some());
    assert_eq!(f.tried, 1);
    assert!(matches!(f.next(), FetchNext::Resolved));
}

#[test]
fn exhausted_fetch_fails_with_the_key() {
    let mut c = HeroCache::new();
    let mut f = c.get_or_fetch("hero_nobody").unwrap_err();
    while let FetchNext::Query(_) = f.next() {
        assert!(c.record(&mut f, None).is_none());
    }
    assert_eq!(f.tried, 2);
    match f.next() {
        FetchNext::Failed(m) => assert_eq!(m, "unknown hero: hero_nobody"),
        other => panic!("unexpected {:?}", other),
    }
    assert!(c.get("hero_nobody").is_none());
}
