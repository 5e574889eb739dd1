//! The Discord presence card: which lines, images, party and button it shows
//! for a game state, and when the card needs refreshing.
use crate::config::{apply_vars, placeholder, Config, ImagesConfig, PresenceConfig};
use crate::game_state::{
    opt_str, phase_label, phase_shows_hero, status_line, GamePhase, GameState, MatchMode,
};
use crate::hero_api::HeroData;
use crate::numbers::{decimal, decimal_chars};
use crate::text::{chars_eq, chars_of, replace_all, string_from_chars};
use vstd::prelude::*;

verus! {

/// The parts of the game state that the card depends on.
#[derive(Debug)]
pub struct RpcSnapshot {
    pub phase: GamePhase,
    pub match_mode: MatchMode,
    pub hero_key: Option<String>,
    pub party_size: u8,
    pub map_name: Option<String>,
    pub account_id: Option<u64>,
}

/// A snapshot as mathematical values.
pub struct SnapshotView {
    pub phase: GamePhase,
    pub match_mode: MatchMode,
    pub hero_key: Option<Seq<char>>,
    pub party_size: u8,
    pub map_name: Option<Seq<char>>,
    pub account_id: Option<u64>,
}

impl View for RpcSnapshot {
    type V = SnapshotView;

    open spec fn view(&self) -> SnapshotView {
        SnapshotView {
            phase: self.phase,
            match_mode: self.match_mode,
            hero_key: opt_str(self.hero_key),
            party_size: self.party_size,
            map_name: opt_str(self.map_name),
            account_id: self.account_id,
        }
    }
}

fn clone_opt(o: &Option<String>) -> (r: Option<String>)
    ensures
        opt_str(r) == opt_str(*o),
{
    match o {
        Some(s) => Some(s.clone()),
        None => None,
    }
}

fn opt_eq(a: &Option<String>, b: &Option<String>) -> (r: bool)
    ensures
        r == (opt_str(*a) == opt_str(*b)),
{
    match (a, b) {
        (Some(x), Some(y)) => {
            let xc = chars_of(x.as_str());
            let yc = chars_of(y.as_str());
            chars_eq(xc.as_slice(), yc.as_slice())
        },
        (None, None) => true,
        _ => false,
    }
}

impl RpcSnapshot {
    /// The snapshot of a game state.
    pub fn of_state(gs: &GameState) -> (r: Self)
        ensures
            r@ == (SnapshotView {
                phase: gs@.phase,
                match_mode: gs@.match_mode,
                hero_key: gs@.hero_key,
                party_size: gs@.party_size,
                map_name: gs@.map_name,
                account_id: gs@.local_account_id,
            }),
    {
        RpcSnapshot {
            phase: gs.phase,
            match_mode: gs.match_mode,
            hero_key: clone_opt(&gs.hero_key),
            party_size: gs.party_size,
            map_name: clone_opt(&gs.map_name),
            account_id: gs.local_account_id,
        }
    }

    /// A copy of this snapshot.
    pub fn duplicate(&self) -> (r: Self)
        ensures
            r@ == self@,
    {
        RpcSnapshot {
            phase: self.phase,
            match_mode: self.match_mode,
            hero_key: clone_opt(&self.hero_key),
            party_size: self.party_size,
            map_name: clone_opt(&self.map_name),
            account_id: self.account_id,
        }
    }

    /// Whether two snapshots show the same thing.
    pub fn same_as(&self, other: &Self) -> (r: bool)
        ensures
            r == (self@ == other@),
    {
        self.phase == other.phase && self.match_mode == other.match_mode && opt_eq(
            &self.hero_key,
            &other.hero_key,
        ) && self.party_size == other.party_size && opt_eq(&self.map_name, &other.map_name)
            && self.account_id == other.account_id
    }
}

/// What the presence loop does with a snapshot.
#[derive(Clone, Copy, PartialEq, Eq, Debug, Structural)]
pub enum RpcDecision {
    /// The game closed and the application exits with it.
    Exit,
    /// The card already shows this snapshot.
    Unchanged,
    /// The card must be rebuilt and sent.
    Refresh,
}

/// What the presence loop remembers between rounds.
#[derive(Debug)]
pub struct RpcTracker {
    /// The snapshot the card was last successfully set from.
    pub last: Option<RpcSnapshot>,
    /// The game has been seen running.
    pub game_was_running: bool,
}

pub open spec fn opt_snapshot(o: Option<RpcSnapshot>) -> Option<SnapshotView> {
    match o {
        Some(s) => Some(s@),
        None => None,
    }
}

/// What the presence loop decides for `snap`, given the snapshot the card was
/// last set from and whether the game has been seen running: the application
/// exits when the game has closed after running (and `auto_exit` is set);
/// otherwise the card is refreshed when the snapshot differs from the last one.
pub open spec fn rpc_decision(
    last: Option<SnapshotView>,
    was_running: bool,
    snap: SnapshotView,
    auto_exit: bool,
) -> RpcDecision {
    if snap.phase == GamePhase::NotRunning && was_running && auto_exit {
        RpcDecision::Exit
    } else if last == Some(snap) {
        RpcDecision::Unchanged
    } else {
        RpcDecision::Refresh
    }
}

impl RpcTracker {
    pub fn new() -> (r: Self)
        ensures
            r.last is None,
            !r.game_was_running,
    {
        RpcTracker { last: None, game_was_running: false }
    }

    /// Looks at a new snapshot: exits when the game has closed after running
    /// (and `auto_exit` is set); otherwise refreshes when the snapshot differs
    /// from the one the card was last set from.
    pub fn observe(&mut self, snap: &RpcSnapshot, auto_exit: bool) -> (r: RpcDecision)
        ensures
            final(self).last == old(self).last,
            final(self).game_was_running == (old(self).game_was_running || snap.phase
                != GamePhase::NotRunning),
            r == rpc_decision(opt_snapshot(old(self).last), old(self).game_was_running, snap@, auto_exit),
    {
        if snap.phase != GamePhase::NotRunning {
            self.game_was_running = true;
        } else if self.game_was_running {
            if auto_exit {
                return RpcDecision::Exit;
            }
        }
        let same = match &self.last {
            Some(l) => l.same_as(snap),
            None => false,
        };
        if same {
            RpcDecision::Unchanged
        } else {
            RpcDecision::Refresh
        }
    }

    /// Remembers that the card was set from `snap`.
    pub fn confirm(&mut self, snap: RpcSnapshot)
        ensures
            opt_snapshot(final(self).last) == Some(snap@),
            final(self).game_was_running == old(self).game_was_running,
    {
        self.last = Some(snap);
    }
}

/// Whether hero data is wanted for the card in `phase`.
pub fn wants_hero(presence: &PresenceConfig, phase: GamePhase) -> (r: bool)
    ensures
        r == (presence.show_hero && phase_shows_hero(phase)),
{
    presence.show_hero && phase.shows_hero()
}

/// The two text lines and the party of the card.
#[derive(Debug)]
pub struct PresenceCard {
    pub details: String,
    pub state: Option<String>,
    pub party: Option<u8>,
}

/// The label naming the hero, or the phase when no hero is known.
pub open spec fn hero_label(phase: GamePhase, hero_name: Option<Seq<char>>, presence: PresenceConfig) -> Seq<char> {
    match hero_name {
        Some(n) => replace_all(presence.details_with_hero@, placeholder("hero"@), n),
        None => replace_all(presence.details_no_hero@, placeholder("phase"@), phase_label(phase)),
    }
}

/// The party is shown only in the hideout, and only for a real party.
pub open spec fn shows_party(phase: GamePhase, party_size: u8) -> bool {
    phase == GamePhase::Hideout && party_size > 1
}

/// The card's top line.
pub open spec fn card_details(phase: GamePhase, status: Seq<char>, label: Seq<char>) -> Seq<char> {
    if phase == GamePhase::Hideout || phase == GamePhase::NotRunning || phase
        == GamePhase::Spectating {
        status
    } else {
        label
    }
}

/// The card's bottom line: in the hideout the party line (if any); when not
/// running or spectating none; otherwise the status.
pub open spec fn card_state(phase: GamePhase, party_size: u8, status: Seq<char>) -> Option<Seq<char>> {
    if phase == GamePhase::Hideout {
        if shows_party(phase, party_size) {
            Some("In a Party"@)
        } else {
            None
        }
    } else if phase == GamePhase::NotRunning || phase == GamePhase::Spectating {
        None
    } else {
        Some(status)
    }
}

/// Lays out the card's lines: the status line from the game state, the hero
/// (or phase) label, and the party.
pub fn compose_card(
    phase: GamePhase,
    party_size: u8,
    game_status: &str,
    hero_name: Option<&str>,
    presence: &PresenceConfig,
) -> (r: PresenceCard)
    ensures
        r.details@ == card_details(
            phase,
            game_status@,
            hero_label(phase, crate::game_state::opt_slice(hero_name), *presence),
        ),
        opt_str(r.state) == card_state(phase, party_size, game_status@),
        r.party == (if shows_party(phase, party_size) {
            Some(party_size)
        } else {
            None
        }),
{
    let label = match hero_name {
        Some(name) => {
            let vars = [("hero", name)];
            let l = apply_vars(presence.details_with_hero.as_str(), vars.as_slice());
            proof {
                crate::config::lemma_substitute_one(presence.details_with_hero@, vars@);
            }
            l
        },
        None => {
            let vars = [("phase", phase.description())];
            let l = apply_vars(presence.details_no_hero.as_str(), vars.as_slice());
            proof {
                crate::config::lemma_substitute_one(presence.details_no_hero@, vars@);
            }
            l
        },
    };
    let show_party = phase == GamePhase::Hideout && party_size > 1;
    let party = if show_party {
        Some(party_size)
    } else {
        None
    };
    if phase == GamePhase::Hideout {
        let state = if show_party {
            Some(String::from_str("In a Party"))
        } else {
            None
        };
        PresenceCard { details: String::from_str(game_status), state, party }
    } else if phase == GamePhase::NotRunning || phase == GamePhase::Spectating {
        PresenceCard { details: String::from_str(game_status), state: None, party }
    } else {
        PresenceCard { details: label, state: Some(String::from_str(game_status)), party }
    }
}

/// Whether to show a button to the player's Statlocker profile, and whose.
#[derive(Debug)]
pub struct StatlockerOpts {
    pub account_id: Option<u64>,
    pub show_button: bool,
}

/// Everything a Discord activity is built from.
#[derive(Debug)]
pub struct ActivityPlan {
    pub details: String,
    pub state: Option<String>,
    pub large_image: String,
    pub large_text: String,
    pub small_image: String,
    pub small_text: String,
    pub start_time: Option<i64>,
    /// Current and maximum party size.
    pub party: Option<(i32, i32)>,
    /// Label and address of the button.
    pub button: Option<(String, String)>,
}

/// The address of a player's Statlocker match list.
pub open spec fn statlocker_url(id: u64) -> Seq<char> {
    "https://statlocker.gg/profile/"@ + decimal(id as nat) + "/matches"@
}

/// The large image: the hero's card when it has one, else the default image.
pub open spec fn large_image_of(hero: Option<crate::hero_api::HeroInfo>, img: ImagesConfig) -> Seq<char> {
    match hero {
        Some(h) if h.icon_url.len() > 0 => h.icon_url,
        _ => img.default_large_image@,
    }
}

/// The large image's tooltip: the hero's name, else the default text.
pub open spec fn large_text_of(hero: Option<crate::hero_api::HeroInfo>, img: ImagesConfig) -> Seq<char> {
    match hero {
        Some(h) => h.name,
        None => img.default_large_text@,
    }
}

pub open spec fn opt_hero(o: Option<&HeroData>) -> Option<crate::hero_api::HeroInfo> {
    match o {
        Some(h) => Some(h@),
        None => None,
    }
}

/// The activity for the card: its lines, images, timer, party and button.
pub fn build_activity(
    details: &str,
    hero_data: Option<&HeroData>,
    state: Option<&str>,
    start_time: Option<i64>,
    party_size: Option<u8>,
    img_cfg: &ImagesConfig,
    statlocker: StatlockerOpts,
) -> (r: ActivityPlan)
    ensures
        r.details@ == details@,
        opt_str(r.state) == crate::game_state::opt_slice(state),
        r.large_image@ == large_image_of(opt_hero(hero_data), *img_cfg),
        r.large_text@ == large_text_of(opt_hero(hero_data), *img_cfg),
        r.small_image@ == img_cfg.small_image@,
        r.small_text@ == img_cfg.small_text@,
        r.start_time == start_time,
        r.party == (match party_size {
            Some(n) => Some((n as i32, 6i32)),
            None => None,
        }),
        match r.button {
            Some((label, url)) => statlocker.show_button && statlocker.account_id is Some
                && label@ == "View on Statlocker"@ && url@ == statlocker_url(
                statlocker.account_id.unwrap(),
            ),
            None => !(statlocker.show_button && statlocker.account_id is Some),
        },
{
    let large_image = match hero_data {
        Some(d) if !d.icon_url.as_str().is_empty() => d.icon_url.clone(),
        _ => img_cfg.default_large_image.clone(),
    };
    let large_text = match hero_data {
        Some(d) => d.name.clone(),
        None => img_cfg.default_large_text.clone(),
    };
    let state = match state {
        Some(s) => Some(String::from_str(s)),
        None => None,
    };
    let party = match party_size {
        Some(n) => Some((n as i32, 6i32)),
        None => None,
    };
    let button = if statlocker.show_button {
        match statlocker.account_id {
            Some(id) => {
                let digits = decimal_chars(id);
                let id_text = string_from_chars(digits.as_slice());
                let url = String::from_str("https://statlocker.gg/profile/");
                let url = url.concat(id_text.as_str());
                let url = url.concat("/matches");
                Some((String::from_str("View on Statlocker"), url))
            },
            None => None,
        }
    } else {
        None
    };
    ActivityPlan {
        details: String::from_str(details),
        state,
        large_image,
        large_text,
        small_image: img_cfg.small_image.clone(),
        small_text: img_cfg.small_text.clone(),
        start_time,
        party,
        button,
    }
}

/// The hero data the card uses: the fetched data, when heroes are shown in `phase`.
pub open spec fn card_hero(
    presence: PresenceConfig,
    phase: GamePhase,
    hero: Option<crate::hero_api::HeroInfo>,
) -> Option<crate::hero_api::HeroInfo> {
    if presence.show_hero && phase_shows_hero(phase) {
        hero
    } else {
        None
    }
}

/// The hero's name, if there is a hero.
pub open spec fn hero_name_of(h: Option<crate::hero_api::HeroInfo>) -> Option<Seq<char>> {
    match h {
        Some(x) => Some(x.name),
        None => None,
    }
}

/// The hero's hideout text, if there is a hero.
pub open spec fn hideout_text_of(h: Option<crate::hero_api::HeroInfo>) -> Option<Seq<char>> {
    match h {
        Some(x) => Some(x.hideout_text),
        None => None,
    }
}

/// The activity that one round of the presence loop sends for the game state
/// `gs`: the status line of its phase, the card's lines and party, the
/// images, the session timer and the Statlocker button. `hero` is the data
/// fetched for the state's hero; it is used only when the card shows heroes.
pub fn plan_activity(gs: &GameState, cfg: &Config, hero: Option<&HeroData>, session_start: i64) -> (r: ActivityPlan)
    ensures
        ({
            let h = card_hero(cfg.presence, gs.phase, opt_hero(hero));
            let status = status_line(
                gs.phase,
                gs.match_mode,
                hideout_text_of(h),
                hero_name_of(h),
                cfg.presence.status,
            );
            &&& r.details@ == card_details(
                gs.phase,
                status,
                hero_label(gs.phase, hero_name_of(h), cfg.presence),
            )
            &&& opt_str(r.state) == card_state(gs.phase, gs.party_size, status)
            &&& r.large_image@ == large_image_of(h, cfg.images)
            &&& r.large_text@ == large_text_of(h, cfg.images)
            &&& r.small_image@ == cfg.images.small_image@
            &&& r.small_text@ == cfg.images.small_text@
            &&& r.start_time == (if cfg.presence.show_elapsed_timer {
                Some(session_start)
            } else {
                None
            })
            &&& r.party == (if shows_party(gs.phase, gs.party_size) {
                Some((gs.party_size as i32, 6i32))
            } else {
                None
            })
            &&& match r.button {
                Some((label, url)) => cfg.presence.show_statlocker_button
                    && gs.local_account_id is Some && label@ == "View on Statlocker"@ && url@
                    == statlocker_url(gs.local_account_id.unwrap()),
                None => !(cfg.presence.show_statlocker_button && gs.local_account_id is Some),
            }
        }),
{
    let eff: Option<&HeroData> = if wants_hero(&cfg.presence, gs.phase) {
        hero
    } else {
        None
    };
    let hero_name: Option<&str> = match eff {
        Some(d) => Some(d.name.as_str()),
        None => None,
    };
    let hideout: Option<&str> = match eff {
        Some(d) => Some(d.hideout_text.as_str()),
        None => None,
    };
    let status = gs.presence_status(hideout, hero_name, &cfg.presence.status);
    let card = compose_card(gs.phase, gs.party_size, status.as_str(), hero_name, &cfg.presence);
    let start = if cfg.presence.show_elapsed_timer {
        Some(session_start)
    } else {
        None
    };
    let state_ref: Option<&str> = match &card.state {
        Some(s) => Some(s.as_str()),
        None => None,
    };
    build_activity(
        card.details.as_str(),
        eff,
        state_ref,
        start,
        card.party,
        &cfg.images,
        StatlockerOpts {
            account_id: gs.local_account_id,
            show_button: cfg.presence.show_statlocker_button,
        },
    )
}

/// Once the card has been set from a snapshot, the same snapshot is not sent
/// again: the loop finds it unchanged or, when the game has closed, exits.
pub proof fn law_confirmed_snapshot_not_resent(s: SnapshotView, was_running: bool, auto_exit: bool)
    ensures
        rpc_decision(Some(s), was_running, s, auto_exit) != RpcDecision::Refresh,
{
}

/// The application exits only when the game, having been seen running, is no
/// longer running, and only when `auto_exit` is set.
pub proof fn law_exit_only_after_game_closed(
    last: Option<SnapshotView>,
    was_running: bool,
    snap: SnapshotView,
    auto_exit: bool,
)
    ensures
        rpc_decision(last, was_running, snap, auto_exit) == RpcDecision::Exit <==> (was_running
            && snap.phase == GamePhase::NotRunning && auto_exit),
{
}

/// How the card's two lines are laid out by phase. In every phase but the
/// hideout, not running and spectating, the top line names the hero (the
/// `details_with_hero` template with `{hero}` replaced by the hero's name) or,
/// with no hero, the phase (the `details_no_hero` template with `{phase}`
/// replaced by the phase's label), and the status goes on the bottom line. Not
/// running and spectating show the status alone; the hideout shows the status
/// on top and the party line below when in a party.
pub proof fn law_card_lines_by_phase(
    phase: GamePhase,
    party_size: u8,
    status: Seq<char>,
    hero_name: Option<Seq<char>>,
    presence: PresenceConfig,
)
    ensures
        phase != GamePhase::Hideout && phase != GamePhase::NotRunning && phase
            != GamePhase::Spectating ==> {
            &&& card_details(phase, status, hero_label(phase, hero_name, presence)) == (match hero_name {
                Some(n) => replace_all(presence.details_with_hero@, "{hero}"@, n),
                None => replace_all(presence.details_no_hero@, "{phase}"@, phase_label(phase)),
            })
            &&& card_state(phase, party_size, status) == Some(status)
        },
        phase == GamePhase::NotRunning || phase == GamePhase::Spectating ==> {
            &&& card_details(phase, status, hero_label(phase, hero_name, presence)) == status
            &&& card_state(phase, party_size, status) == None::<Seq<char>>
        },
        phase == GamePhase::Hideout ==> {
            &&& card_details(phase, status, hero_label(phase, hero_name, presence)) == status
            &&& card_state(phase, party_size, status) == (if party_size >= 2 {
                Some("In a Party"@)
            } else {
                None
            })
        },
{
    reveal_strlit("{hero}");
    reveal_strlit("{phase}");
    reveal_strlit("hero");
    reveal_strlit("phase");
    assert(placeholder("hero"@) =~= "{hero}"@);
    assert(placeholder("phase"@) =~= "{phase}"@);
}

} // verus!
