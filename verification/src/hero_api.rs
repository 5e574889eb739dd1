//! Hero data from the Deadlock API: which names to query for a hero key, how a
//! reply becomes hero data, and the cache of heroes already resolved.
use crate::text::{chars_of, str_eq, string_from_chars, strip_prefix_all, strip_prefix_all_chars};
use vstd::prelude::*;

verus! {

/// What the presence card needs to know about a hero.
#[derive(Debug)]
pub struct HeroData {
    pub name: String,
    pub hideout_text: String,
    pub icon_url: String,
}

/// A hero's data as character sequences.
pub struct HeroInfo {
    pub name: Seq<char>,
    pub hideout_text: Seq<char>,
    pub icon_url: Seq<char>,
}

impl View for HeroData {
    type V = HeroInfo;

    open spec fn view(&self) -> HeroInfo {
        HeroInfo { name: self.name@, hideout_text: self.hideout_text@, icon_url: self.icon_url@ }
    }
}

impl HeroData {
    /// A copy of this hero's data.
    pub fn duplicate(&self) -> (r: HeroData)
        ensures
            r@ == self@,
    {
        HeroData {
            name: self.name.clone(),
            hideout_text: self.hideout_text.clone(),
            icon_url: self.icon_url.clone(),
        }
    }
}

/// The images part of an API reply.
#[derive(Debug)]
pub struct ApiImages {
    pub icon_hero_card: Option<String>,
}

/// The fields of an API reply about a hero that the application reads.
#[derive(Debug)]
pub struct ApiHero {
    pub name: Option<String>,
    pub hideout_rich_presence: Option<String>,
    pub images: Option<ApiImages>,
}

/// The text of `o`, or the empty sequence.
pub open spec fn text_or_empty(o: Option<String>) -> Seq<char> {
    match o {
        Some(s) => s@,
        None => Seq::empty(),
    }
}

/// The hero data that a reply to a query for `queried` gives; a reply without
/// images means the hero was not found.
pub open spec fn hero_of_reply(api: ApiHero, queried: Seq<char>) -> Option<HeroInfo> {
    match api.images {
        None => None,
        Some(images) => Some(
            HeroInfo {
                name: match api.name {
                    Some(n) => n@,
                    None => strip_prefix_all(queried, "hero_"@),
                },
                hideout_text: text_or_empty(api.hideout_rich_presence),
                icon_url: text_or_empty(images.icon_hero_card),
            },
        ),
    }
}

fn string_or_empty(o: Option<String>) -> (r: String)
    ensures
        r@ == text_or_empty(o),
{
    match o {
        Some(s) => s,
        None => String::new(),
    }
}

/// Turns an API reply to a query for `queried` into hero data; `None` when the
/// reply has no images (the hero was not found).
pub fn hero_from_api(api: ApiHero, queried: &str) -> (r: Option<HeroData>)
    ensures
        match r {
            Some(d) => hero_of_reply(api, queried@) == Some(d@),
            None => hero_of_reply(api, queried@) is None,
        },
{
    let ApiHero { name, hideout_rich_presence, images } = api;
    match images {
        None => None,
        Some(images) => {
            let name = match name {
                Some(n) => n,
                None => {
                    let q = chars_of(queried);
                    let prefix = chars_of("hero_");
                    proof {
                        reveal_strlit("hero_");
                    }
                    let stripped = strip_prefix_all_chars(q.as_slice(), prefix.as_slice());
                    string_from_chars(stripped.as_slice())
                },
            };
            let d = HeroData {
                name,
                hideout_text: string_or_empty(hideout_rich_presence),
                icon_url: string_or_empty(images.icon_hero_card),
            };
            Some(d)
        },
    }
}

/// The address of the API query for the hero named `name`.
pub open spec fn hero_url_of(name: Seq<char>) -> Seq<char> {
    "https://assets.deadlock-api.com/v2/heroes/by-name/"@ + name
}

/// The address of the API query for the hero named `name`.
pub fn hero_url(name: &str) -> (r: String)
    ensures
        r@ == hero_url_of(name@),
{
    let base = String::from_str("https://assets.deadlock-api.com/v2/heroes/by-name/");
    base.concat(name)
}

/// The display name under which the API knows the hero with asset key `k`.
pub open spec fn display_name_of(k: Seq<char>) -> Option<Seq<char>> {
    if k == "hero_inferno"@ {
        Some("Infernus"@)
    } else if k == "hero_gigawatt_prisoner"@ {
        Some("Seven"@)
    } else if k == "hero_hornet"@ {
        Some("Vindicta"@)
    } else if k == "hero_geist"@ {
        Some("Lady Geist"@)
    } else if k == "hero_atlas"@ {
        Some("Abrams"@)
    } else if k == "hero_wraith"@ {
        Some("Wraith"@)
    } else if k == "hero_forge"@ {
        Some("McGinnis"@)
    } else if k == "hero_dynamo"@ {
        Some("Dynamo"@)
    } else if k == "hero_haze"@ {
        Some("Haze"@)
    } else if k == "hero_kelvin"@ {
        Some("Kelvin"@)
    } else if k == "hero_lash"@ {
        Some("Lash"@)
    } else if k == "hero_bebop"@ {
        Some("Bebop"@)
    } else if k == "hero_shiv"@ {
        Some("Shiv"@)
    } else if k == "hero_viscous"@ {
        Some("Viscous"@)
    } else if k == "hero_warden"@ {
        Some("Warden"@)
    } else if k == "hero_yamato"@ {
        Some("Yamato"@)
    } else if k == "hero_archer"@ {
        Some("Grey Talon"@)
    } else if k == "hero_digger"@ {
        Some("Mo & Krill"@)
    } else if k == "hero_synth"@ {
        Some("Pocket"@)
    } else if k == "hero_chrono"@ {
        Some("Paradox"@)
    } else if k == "hero_astro"@ {
        Some("Holliday"@)
    } else if k == "hero_cadence"@ {
        Some("Calico"@)
    } else if k == "hero_werewolf"@ {
        Some("Silver"@)
    } else if k == "hero_magician"@ {
        Some("Sinclair"@)
    } else if k == "hero_tengu"@ {
        Some("Ivy"@)
    } else {
        None
    }
}

/// The heroes whose asset key and API display name differ, as
/// `(asset key, display name)` pairs.
pub open spec fn renamed_heroes() -> Seq<(Seq<char>, Seq<char>)> {
    seq![
        ("hero_inferno"@, "Infernus"@),
        ("hero_gigawatt_prisoner"@, "Seven"@),
        ("hero_hornet"@, "Vindicta"@),
        ("hero_geist"@, "Lady Geist"@),
        ("hero_atlas"@, "Abrams"@),
        ("hero_wraith"@, "Wraith"@),
        ("hero_forge"@, "McGinnis"@),
        ("hero_dynamo"@, "Dynamo"@),
        ("hero_haze"@, "Haze"@),
        ("hero_kelvin"@, "Kelvin"@),
        ("hero_lash"@, "Lash"@),
        ("hero_bebop"@, "Bebop"@),
        ("hero_shiv"@, "Shiv"@),
        ("hero_viscous"@, "Viscous"@),
        ("hero_warden"@, "Warden"@),
        ("hero_yamato"@, "Yamato"@),
        ("hero_archer"@, "Grey Talon"@),
        ("hero_digger"@, "Mo & Krill"@),
        ("hero_synth"@, "Pocket"@),
        ("hero_chrono"@, "Paradox"@),
        ("hero_astro"@, "Holliday"@),
        ("hero_cadence"@, "Calico"@),
        ("hero_werewolf"@, "Silver"@),
        ("hero_magician"@, "Sinclair"@),
        ("hero_tengu"@, "Ivy"@),
    ]
}

/// Each renamed hero's asset key resolves to its display name, and that name
/// is the last of the names the fetch tries, after the key and the key
/// without its `hero_` prefix.
pub proof fn law_renamed_heroes_resolve(i: int)
    requires
        0 <= i < renamed_heroes().len(),
    ensures
        display_name_of(renamed_heroes()[i].0) == Some(renamed_heroes()[i].1),
        candidate_names(renamed_heroes()[i].0).len() == 3,
        candidate_names(renamed_heroes()[i].0)[0] == renamed_heroes()[i].0,
        candidate_names(renamed_heroes()[i].0)[2] == renamed_heroes()[i].1,
{
    // The keys are told apart by their length and the two letters after `hero_`.
    reveal_strlit("hero_inferno");
    assert("hero_inferno"@.len() == 12 && "hero_inferno"@[5] == 'i' && "hero_inferno"@[6] == 'n');
    reveal_strlit("hero_gigawatt_prisoner");
    assert("hero_gigawatt_prisoner"@.len() == 22 && "hero_gigawatt_prisoner"@[5] == 'g' && "hero_gigawatt_prisoner"@[6] == 'i');
    reveal_strlit("hero_hornet");
    assert("hero_hornet"@.len() == 11 && "hero_hornet"@[5] == 'h' && "hero_hornet"@[6] == 'o');
    reveal_strlit("hero_geist");
    assert("hero_geist"@.len() == 10 && "hero_geist"@[5] == 'g' && "hero_geist"@[6] == 'e');
    reveal_strlit("hero_atlas");
    assert("hero_atlas"@.len() == 10 && "hero_atlas"@[5] == 'a' && "hero_atlas"@[6] == 't');
    reveal_strlit("hero_wraith");
    assert("hero_wraith"@.len() == 11 && "hero_wraith"@[5] == 'w' && "hero_wraith"@[6] == 'r');
    reveal_strlit("hero_forge");
    assert("hero_forge"@.len() == 10 && "hero_forge"@[5] == 'f' && "hero_forge"@[6] == 'o');
    reveal_strlit("hero_dynamo");
    assert("hero_dynamo"@.len() == 11 && "hero_dynamo"@[5] == 'd' && "hero_dynamo"@[6] == 'y');
    reveal_strlit("hero_haze");
    assert("hero_haze"@.len() == 9 && "hero_haze"@[5] == 'h' && "hero_haze"@[6] == 'a');
    reveal_strlit("hero_kelvin");
    assert("hero_kelvin"@.len() == 11 && "hero_kelvin"@[5] == 'k' && "hero_kelvin"@[6] == 'e');
    reveal_strlit("hero_lash");
    assert("hero_lash"@.len() == 9 && "hero_lash"@[5] == 'l' && "hero_lash"@[6] == 'a');
    reveal_strlit("hero_bebop");
    assert("hero_bebop"@.len() == 10 && "hero_bebop"@[5] == 'b' && "hero_bebop"@[6] == 'e');
    reveal_strlit("hero_shiv");
    assert("hero_shiv"@.len() == 9 && "hero_shiv"@[5] == 's' && "hero_shiv"@[6] == 'h');
    reveal_strlit("hero_viscous");
    assert("hero_viscous"@.len() == 12 && "hero_viscous"@[5] == 'v' && "hero_viscous"@[6] == 'i');
    reveal_strlit("hero_warden");
    assert("hero_warden"@.len() == 11 && "hero_warden"@[5] == 'w' && "hero_warden"@[6] == 'a');
    reveal_strlit("hero_yamato");
    assert("hero_yamato"@.len() == 11 && "hero_yamato"@[5] == 'y' && "hero_yamato"@[6] == 'a');
    reveal_strlit("hero_archer");
    assert("hero_archer"@.len() == 11 && "hero_archer"@[5] == 'a' && "hero_archer"@[6] == 'r');
    reveal_strlit("hero_digger");
    assert("hero_digger"@.len() == 11 && "hero_digger"@[5] == 'd' && "hero_digger"@[6] == 'i');
    reveal_strlit("hero_synth");
    assert("hero_synth"@.len() == 10 && "hero_synth"@[5] == 's' && "hero_synth"@[6] == 'y');
    reveal_strlit("hero_chrono");
    assert("hero_chrono"@.len() == 11 && "hero_chrono"@[5] == 'c' && "hero_chrono"@[6] == 'h');
    reveal_strlit("hero_astro");
    assert("hero_astro"@.len() == 10 && "hero_astro"@[5] == 'a' && "hero_astro"@[6] == 's');
    reveal_strlit("hero_cadence");
    assert("hero_cadence"@.len() == 12 && "hero_cadence"@[5] == 'c' && "hero_cadence"@[6] == 'a');
    reveal_strlit("hero_werewolf");
    assert("hero_werewolf"@.len() == 13 && "hero_werewolf"@[5] == 'w' && "hero_werewolf"@[6] == 'e');
    reveal_strlit("hero_magician");
    assert("hero_magician"@.len() == 13 && "hero_magician"@[5] == 'm' && "hero_magician"@[6] == 'a');
    reveal_strlit("hero_tengu");
    assert("hero_tengu"@.len() == 10 && "hero_tengu"@[5] == 't' && "hero_tengu"@[6] == 'e');
    if i == 0 {
        assert(display_name_of("hero_inferno"@) == Some("Infernus"@));
    } else if i == 1 {
        assert(display_name_of("hero_gigawatt_prisoner"@) == Some("Seven"@));
    } else if i == 2 {
        assert(display_name_of("hero_hornet"@) == Some("Vindicta"@));
    } else if i == 3 {
        assert(display_name_of("hero_geist"@) == Some("Lady Geist"@));
    } else if i == 4 {
        assert(display_name_of("hero_atlas"@) == Some("Abrams"@));
    } else if i == 5 {
        assert(display_name_of("hero_wraith"@) == Some("Wraith"@));
    } else if i == 6 {
        assert(display_name_of("hero_forge"@) == Some("McGinnis"@));
    } else if i == 7 {
        assert(display_name_of("hero_dynamo"@) == Some("Dynamo"@));
    } else if i == 8 {
        assert(display_name_of("hero_haze"@) == Some("Haze"@));
    } else if i == 9 {
        assert(display_name_of("hero_kelvin"@) == Some("Kelvin"@));
    } else if i == 10 {
        assert(display_name_of("hero_lash"@) == Some("Lash"@));
    } else if i == 11 {
        assert(display_name_of("hero_bebop"@) == Some("Bebop"@));
    } else if i == 12 {
        assert(display_name_of("hero_shiv"@) == Some("Shiv"@));
    } else if i == 13 {
        assert(display_name_of("hero_viscous"@) == Some("Viscous"@));
    } else if i == 14 {
        assert(display_name_of("hero_warden"@) == Some("Warden"@));
    } else if i == 15 {
        assert(display_name_of("hero_yamato"@) == Some("Yamato"@));
    } else if i == 16 {
        assert(display_name_of("hero_archer"@) == Some("Grey Talon"@));
    } else if i == 17 {
        assert(display_name_of("hero_digger"@) == Some("Mo & Krill"@));
    } else if i == 18 {
        assert(display_name_of("hero_synth"@) == Some("Pocket"@));
    } else if i == 19 {
        assert(display_name_of("hero_chrono"@) == Some("Paradox"@));
    } else if i == 20 {
        assert(display_name_of("hero_astro"@) == Some("Holliday"@));
    } else if i == 21 {
        assert(display_name_of("hero_cadence"@) == Some("Calico"@));
    } else if i == 22 {
        assert(display_name_of("hero_werewolf"@) == Some("Silver"@));
    } else if i == 23 {
        assert(display_name_of("hero_magician"@) == Some("Sinclair"@));
    } else if i == 24 {
        assert(display_name_of("hero_tengu"@) == Some("Ivy"@));
    }
}

/// Maps asset_key to the display name to query the API with (e.g. "hero_geist" to "Lady Geist").
pub fn dict_lookup(asset_key: &str) -> (r: Option<&'static str>)
    ensures
        match r {
            Some(n) => display_name_of(asset_key@) == Some(n@),
            None => display_name_of(asset_key@) is None,
        },
{
    if str_eq(asset_key, "hero_inferno") {
        Some("Infernus")
    } else if str_eq(asset_key, "hero_gigawatt_prisoner") {
        Some("Seven")
    } else if str_eq(asset_key, "hero_hornet") {
        Some("Vindicta")
    } else if str_eq(asset_key, "hero_geist") {
        Some("Lady Geist")
    } else if str_eq(asset_key, "hero_atlas") {
        Some("Abrams")
    } else if str_eq(asset_key, "hero_wraith") {
        Some("Wraith")
    } else if str_eq(asset_key, "hero_forge") {
        Some("McGinnis")
    } else if str_eq(asset_key, "hero_dynamo") {
        Some("Dynamo")
    } else if str_eq(asset_key, "hero_haze") {
        Some("Haze")
    } else if str_eq(asset_key, "hero_kelvin") {
        Some("Kelvin")
    } else if str_eq(asset_key, "hero_lash") {
        Some("Lash")
    } else if str_eq(asset_key, "hero_bebop") {
        Some("Bebop")
    } else if str_eq(asset_key, "hero_shiv") {
        Some("Shiv")
    } else if str_eq(asset_key, "hero_viscous") {
        Some("Viscous")
    } else if str_eq(asset_key, "hero_warden") {
        Some("Warden")
    } else if str_eq(asset_key, "hero_yamato") {
        Some("Yamato")
    } else if str_eq(asset_key, "hero_archer") {
        Some("Grey Talon")
    } else if str_eq(asset_key, "hero_digger") {
        Some("Mo & Krill")
    } else if str_eq(asset_key, "hero_synth") {
        Some("Pocket")
    } else if str_eq(asset_key, "hero_chrono") {
        Some("Paradox")
    } else if str_eq(asset_key, "hero_astro") {
        Some("Holliday")
    } else if str_eq(asset_key, "hero_cadence") {
        Some("Calico")
    } else if str_eq(asset_key, "hero_werewolf") {
        Some("Silver")
    } else if str_eq(asset_key, "hero_magician") {
        Some("Sinclair")
    } else if str_eq(asset_key, "hero_tengu") {
        Some("Ivy")
    } else {
        None
    }
}

/// The names to query the API with for `hero_key`, in order: the full key, the
/// key without its `hero_` prefix, then its display name when one is known.
pub open spec fn candidate_names(hero_key: Seq<char>) -> Seq<Seq<char>> {
    let first_two = seq![hero_key, strip_prefix_all(hero_key, "hero_"@)];
    match display_name_of(hero_key) {
        Some(d) => first_two.push(d),
        None => first_two,
    }
}

/// The names to query the API with for `hero_key`, in the order they are tried.
pub fn fetch_candidates(hero_key: &str) -> (r: Vec<String>)
    ensures
        r.deep_view() == candidate_names(hero_key@),
{
    let mut v: Vec<String> = Vec::new();
    v.push(String::from_str(hero_key));
    let k = chars_of(hero_key);
    let prefix = chars_of("hero_");
    proof {
        reveal_strlit("hero_");
    }
    let stripped = strip_prefix_all_chars(k.as_slice(), prefix.as_slice());
    v.push(string_from_chars(stripped.as_slice()));
    match dict_lookup(hero_key) {
        Some(d) => {
            v.push(String::from_str(d));
        },
        None => {},
    }
    assert(v.deep_view() =~= candidate_names(hero_key@));
    v
}

/// The keys of a list of entries.
pub open spec fn keys_of(entries: Seq<(String, HeroData)>) -> Seq<Seq<char>> {
    entries.map_values(|e: (String, HeroData)| e.0@)
}

/// The entries as a map from key to hero data.
pub open spec fn entries_map(entries: Seq<(String, HeroData)>) -> Map<Seq<char>, HeroInfo>
    decreases entries.len(),
{
    if entries.len() == 0 {
        Map::empty()
    } else {
        entries_map(entries.drop_last()).insert(entries.last().0@, entries.last().1@)
    }
}

/// A resolution of a hero key that is under way: the names to try, how many
/// of them have been tried, and whether a reply has resolved the hero.
#[derive(Debug)]
pub struct HeroFetch {
    pub key: String,
    pub candidates: Vec<String>,
    pub tried: usize,
    pub resolved: bool,
}

/// What a hero fetch does next.
#[derive(Debug)]
pub enum FetchNext {
    /// Query the API with this name.
    Query(String),
    /// A reply resolved the hero; the fetch is over.
    Resolved,
    /// Every name was tried without success; the fetch failed with this message.
    Failed(String),
}

/// The message of a fetch that found no hero for `key`.
pub open spec fn unknown_hero_message(key: Seq<char>) -> Seq<char> {
    "unknown hero: "@ + key
}

impl HeroFetch {
    /// What to do next: stop once a reply has resolved the hero; otherwise
    /// query the next name in order; when every name has been tried, fail
    /// with the message naming the hero key.
    pub fn next(&self) -> (r: FetchNext)
        ensures
            match r {
                FetchNext::Resolved => self.resolved,
                FetchNext::Query(n) => !self.resolved && self.tried < self.candidates.len() && n@
                    == self.candidates[self.tried as int]@,
                FetchNext::Failed(m) => !self.resolved && self.tried >= self.candidates.len() && m@
                    == unknown_hero_message(self.key@),
            },
    {
        if self.resolved {
            FetchNext::Resolved
        } else if self.tried < self.candidates.len() {
            FetchNext::Query(self.candidates[self.tried].clone())
        } else {
            let m = String::from_str("unknown hero: ");
            FetchNext::Failed(m.concat(self.key.as_str()))
        }
    }
}

/// Hero data already fetched, by hero key.
#[derive(Debug)]
pub struct HeroCache {
    entries: Vec<(String, HeroData)>,
}

impl View for HeroCache {
    type V = Map<Seq<char>, HeroInfo>;

    closed spec fn view(&self) -> Map<Seq<char>, HeroInfo> {
        entries_map(self.entries@)
    }
}

proof fn lemma_entries_map_domain(entries: Seq<(String, HeroData)>, k: Seq<char>)
    ensures
        entries_map(entries).contains_key(k) <==> keys_of(entries).contains(k),
    decreases entries.len(),
{
    if entries.len() > 0 {
        lemma_entries_map_domain(entries.drop_last(), k);
        assert(keys_of(entries.drop_last()) =~= keys_of(entries).drop_last());
        if keys_of(entries).contains(k) && k != entries.last().0@ {
            let i = choose|i: int| 0 <= i < keys_of(entries).len() && keys_of(entries)[i] == k;
            assert(keys_of(entries.drop_last())[i] == k);
        }
        if keys_of(entries.drop_last()).contains(k) {
            let i = choose|i: int| 0 <= i < keys_of(entries.drop_last()).len() && keys_of(entries.drop_last())[i] == k;
            assert(keys_of(entries)[i] == k);
        }
        assert(keys_of(entries)[entries.len() - 1] == entries.last().0@);
    }
}

proof fn lemma_entries_map_at(entries: Seq<(String, HeroData)>, i: int)
    requires
        0 <= i < entries.len(),
        keys_of(entries).no_duplicates(),
    ensures
        entries_map(entries).contains_key(entries[i].0@),
        entries_map(entries)[entries[i].0@] == entries[i].1@,
    decreases entries.len(),
{
    if i < entries.len() - 1 {
        let d = entries.drop_last();
        assert(keys_of(d) =~= keys_of(entries).drop_last());
        assert(d[i] == entries[i]);
        lemma_entries_map_at(d, i);
        assert(keys_of(entries)[i] == entries[i].0@);
        assert(keys_of(entries)[entries.len() - 1] == entries.last().0@);
    }
}

proof fn lemma_entries_map_update(entries: Seq<(String, HeroData)>, i: int, e: (String, HeroData))
    requires
        0 <= i < entries.len(),
        e.0@ == entries[i].0@,
        keys_of(entries).no_duplicates(),
    ensures
        entries_map(entries.update(i, e)) == entries_map(entries).insert(e.0@, e.1@),
        keys_of(entries.update(i, e)) == keys_of(entries),
    decreases entries.len(),
{
    let u = entries.update(i, e);
    assert(keys_of(u) =~= keys_of(entries));
    if i == entries.len() - 1 {
        assert(u.drop_last() =~= entries.drop_last());
        let m1 = entries_map(entries.drop_last()).insert(e.0@, e.1@);
        let m2 = entries_map(entries).insert(e.0@, e.1@);
        assert(m1 =~= m2);
    } else {
        let d = entries.drop_last();
        assert(keys_of(d) =~= keys_of(entries).drop_last());
        assert(u.drop_last() =~= d.update(i, e));
        lemma_entries_map_update(d, i, e);
        assert(keys_of(entries)[i] == e.0@);
        assert(keys_of(entries)[entries.len() - 1] == entries.last().0@);
        assert(entries.last().0@ != e.0@);
        let m1 = entries_map(d).insert(e.0@, e.1@).insert(entries.last().0@, entries.last().1@);
        let m2 = entries_map(d).insert(entries.last().0@, entries.last().1@).insert(e.0@, e.1@);
        assert(m1 =~= m2);
    }
}

impl HeroCache {
    /// Keys are stored at most once.
    #[verifier::type_invariant]
    spec fn wf(&self) -> bool {
        keys_of(self.entries@).no_duplicates()
    }

    pub fn new() -> (r: Self)
        ensures
            r@ == Map::<Seq<char>, HeroInfo>::empty(),
    {
        HeroCache { entries: Vec::new() }
    }

    fn find(&self, key: &str) -> (r: Option<usize>)
        ensures
            match r {
                Some(i) => i < self.entries@.len() && self.entries@[i as int].0@ == key@,
                None => !self@.contains_key(key@),
            },
    {
        proof {
            use_type_invariant(self);
        }
        let mut i: usize = 0;
        while i < self.entries.len()
            invariant
                i <= self.entries@.len(),
                forall|j: int| 0 <= j < i ==> self.entries@[j].0@ != key@,
            decreases self.entries@.len() - i,
        {
            if str_eq(self.entries[i].0.as_str(), key) {
                return Some(i);
            }
            i = i + 1;
        }
        proof {
            lemma_entries_map_domain(self.entries@, key@);
            if keys_of(self.entries@).contains(key@) {
                let j = choose|j: int| 0 <= j < keys_of(self.entries@).len() && keys_of(self.entries@)[j] == key@;
                assert(self.entries@[j].0@ == key@);
            }
        }
        None
    }

    /// The cached data for `hero_key`, if any.
    pub fn get(&self, hero_key: &str) -> (r: Option<&HeroData>)
        ensures
            match r {
                Some(d) => self@.contains_key(hero_key@) && self@[hero_key@] == d@,
                None => !self@.contains_key(hero_key@),
            },
    {
        proof {
            use_type_invariant(self);
        }
        match self.find(hero_key) {
            Some(i) => {
                proof {
                    lemma_entries_map_at(self.entries@, i as int);
                }
                Some(&self.entries[i].1)
            },
            None => None,
        }
    }

    /// Returns the cached data for `hero_key` if there is some; otherwise the
    /// fetch to run: the candidate names to query, none of them tried yet.
    pub fn get_or_fetch(&self, hero_key: &str) -> (r: Result<HeroData, HeroFetch>)
        ensures
            match r {
                Ok(d) => self@.contains_key(hero_key@) && self@[hero_key@] == d@,
                Err(f) => !self@.contains_key(hero_key@) && f.key@ == hero_key@
                    && f.candidates.deep_view() == candidate_names(hero_key@) && f.tried == 0
                    && !f.resolved,
            },
    {
        match self.get(hero_key) {
            Some(d) => Ok(d.duplicate()),
            None => Err(
                HeroFetch {
                    key: String::from_str(hero_key),
                    candidates: fetch_candidates(hero_key),
                    tried: 0,
                    resolved: false,
                },
            ),
        }
    }

    /// Stores `data` as the data of `key`.
    pub fn insert(&mut self, key: String, data: HeroData)
        ensures
            final(self)@ == old(self)@.insert(key@, data@),
    {
        proof {
            use_type_invariant(&*self);
        }
        let found = self.find(key.as_str());
        let mut entries: Vec<(String, HeroData)> = Vec::new();
        std::mem::swap(&mut entries, &mut self.entries);
        match found {
            Some(i) => {
                proof {
                    lemma_entries_map_update(entries@, i as int, (key, data));
                }
                entries.set(i, (key, data));
            },
            None => {
                proof {
                    lemma_entries_map_domain(entries@, key@);
                    assert(keys_of(entries@.push((key, data))) =~= keys_of(entries@).push(key@));
                    assert(entries@.push((key, data)).drop_last() =~= entries@);
                }
                entries.push((key, data));
            },
        }
        self.entries = entries;
    }

    /// Records the reply to the next query of `fetch` (`None` when the query
    /// failed). When the reply resolves the hero, its data is cached under the
    /// fetch's key and returned, and the fetch is over; otherwise the next
    /// candidate is up.
    pub fn record(&mut self, fetch: &mut HeroFetch, reply: Option<ApiHero>) -> (r: Option<HeroData>)
        requires
            !old(fetch).resolved,
            old(fetch).tried < old(fetch).candidates.len(),
        ensures
            final(fetch).resolved == r is Some,
            final(fetch).key == old(fetch).key,
            final(fetch).candidates == old(fetch).candidates,
            final(fetch).tried == old(fetch).tried + 1,
            match r {
                Some(d) => reply matches Some(api) && hero_of_reply(
                    api,
                    old(fetch).candidates[old(fetch).tried as int]@,
                ) == Some(d@) && final(self)@ == old(self)@.insert(old(fetch).key@, d@),
                None => (reply is None || hero_of_reply(
                    reply.unwrap(),
                    old(fetch).candidates[old(fetch).tried as int]@,
                ) is None) && final(self)@ == old(self)@,
            },
    {
        let i = fetch.tried;
        fetch.tried = i + 1;
        match reply {
            None => None,
            Some(api) => {
                match hero_from_api(api, fetch.candidates[i].as_str()) {
                    Some(d) => {
                        let stored = d.duplicate();
                        self.insert(fetch.key.clone(), stored);
                        fetch.resolved = true;
                        Some(d)
                    },
                    None => None,
                }
            },
        }
    }
}

/// Reading a hero key right after caching data under it gives that data back,
/// and every other key keeps what it had.
pub proof fn law_cache_read_after_write(
    cache: Map<Seq<char>, HeroInfo>,
    key: Seq<char>,
    d: HeroInfo,
    other: Seq<char>,
)
    requires
        other != key,
    ensures
        cache.insert(key, d).contains_key(key),
        cache.insert(key, d)[key] == d,
        cache.insert(key, d).contains_key(other) == cache.contains_key(other),
        cache.contains_key(other) ==> cache.insert(key, d)[other] == cache[other],
{
}

} // verus!
