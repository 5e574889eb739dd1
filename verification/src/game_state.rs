//! The game's state as the log reveals it: phase, match mode, hero, map and
//! party, with the transitions that log events cause and the presence status
//! line that each phase shows.
use crate::config::{apply_vars, placeholder, StatusStrings};
use crate::text::{chars_of, chars_eq, contains, has_infix, lowercase, replace_all, to_lowercase};
use std::collections::HashSet;
use vstd::prelude::*;

verus! {

/// The kind of match being played.
#[derive(Debug, Clone, Copy, PartialEq, Eq, Structural)]
pub enum MatchMode {
    Unknown,
    Standard,
    Ranked,
    StreetBrawl,
    BotMatch,
    TrainingRange,
    HeroLabs,
}

/// The label shown for a match mode.
pub open spec fn mode_label(m: MatchMode) -> Seq<char> {
    match m {
        MatchMode::Unknown => "In Match"@,
        MatchMode::Standard => "Standard Match"@,
        MatchMode::Ranked => "Ranked Match"@,
        MatchMode::StreetBrawl => "Street Brawl"@,
        MatchMode::BotMatch => "Bot Match"@,
        MatchMode::TrainingRange => "Training Range"@,
        MatchMode::HeroLabs => "Hero Labs"@,
    }
}

/// Whether the status line of a match in this mode names the map location.
pub open spec fn mode_shows_location(m: MatchMode) -> bool {
    m == MatchMode::Standard || m == MatchMode::Ranked || m == MatchMode::StreetBrawl || m
        == MatchMode::Unknown
}

/// Modes in which the player may change hero at will.
pub open spec fn mode_is_free_swap(m: MatchMode) -> bool {
    m == MatchMode::TrainingRange || m == MatchMode::HeroLabs
}

impl MatchMode {
    pub fn display(self) -> (r: &'static str)
        ensures
            r@ == mode_label(self),
    {
        match self {
            MatchMode::Unknown => "In Match",
            MatchMode::Standard => "Standard Match",
            MatchMode::Ranked => "Ranked Match",
            MatchMode::StreetBrawl => "Street Brawl",
            MatchMode::BotMatch => "Bot Match",
            MatchMode::TrainingRange => "Training Range",
            MatchMode::HeroLabs => "Hero Labs",
        }
    }

    pub fn show_map_location(self) -> (r: bool)
        ensures
            r == mode_shows_location(self),
    {
        match self {
            MatchMode::Standard | MatchMode::Ranked | MatchMode::StreetBrawl
            | MatchMode::Unknown => true,
            _ => false,
        }
    }
}

/// Where the player is in the game's lifecycle.
#[derive(Debug, Clone, Copy, PartialEq, Eq, Structural)]
pub enum GamePhase {
    NotRunning,
    MainMenu,
    Hideout,
    InQueue,
    MatchIntro,
    InMatch,
    PostMatch,
    Spectating,
}

/// The label of a phase.
pub open spec fn phase_label(p: GamePhase) -> Seq<char> {
    match p {
        GamePhase::NotRunning => "Not Running"@,
        GamePhase::MainMenu => "Main Menu"@,
        GamePhase::Hideout => "Hideout"@,
        GamePhase::InQueue => "Searching for Match"@,
        GamePhase::MatchIntro => "Match Starting"@,
        GamePhase::InMatch => "In Match"@,
        GamePhase::PostMatch => "Post Match"@,
        GamePhase::Spectating => "Spectating"@,
    }
}

/// Phases in which the hero image and "Playing as" label are shown.
pub open spec fn phase_shows_hero(p: GamePhase) -> bool {
    !(p == GamePhase::NotRunning || p == GamePhase::MainMenu || p == GamePhase::PostMatch || p
        == GamePhase::Spectating)
}

impl GamePhase {
    pub fn description(self) -> (r: &'static str)
        ensures
            r@ == phase_label(self),
    {
        match self {
            GamePhase::NotRunning => "Not Running",
            GamePhase::MainMenu => "Main Menu",
            GamePhase::Hideout => "Hideout",
            GamePhase::InQueue => "Searching for Match",
            GamePhase::MatchIntro => "Match Starting",
            GamePhase::InMatch => "In Match",
            GamePhase::PostMatch => "Post Match",
            GamePhase::Spectating => "Spectating",
        }
    }

    /// Whether the hero image and "Playing as" label should be shown for this phase.
    pub fn shows_hero(self) -> (r: bool)
        ensures
            r == phase_shows_hero(self),
    {
        match self {
            GamePhase::NotRunning | GamePhase::MainMenu | GamePhase::PostMatch
            | GamePhase::Spectating => false,
            _ => true,
        }
    }
}

/// The tracked state of the game.
#[derive(Debug)]
pub struct GameState {
    pub phase: GamePhase,
    pub match_mode: MatchMode,
    pub hero_key: Option<String>,
    pub map_name: Option<String>,
    pub party_size: u8,
    /// A hero signal may still set the hero of the current match.
    pub hero_window_open: bool,
    /// The hideout map has been activated and heroes seen now belong to it.
    pub hideout_loaded: bool,
    pub local_account_id: Option<u64>,
    pub party_id: Option<u64>,
    pub party_members: HashSet<u64>,
    /// Largest player count seen in the current match.
    pub pending_player_count: u32,
}

/// The mathematical value of a `GameState`.
pub struct GameStateView {
    pub phase: GamePhase,
    pub match_mode: MatchMode,
    pub hero_key: Option<Seq<char>>,
    pub map_name: Option<Seq<char>>,
    pub party_size: u8,
    pub hero_window_open: bool,
    pub hideout_loaded: bool,
    pub local_account_id: Option<u64>,
    pub party_id: Option<u64>,
    pub party_members: Set<u64>,
    pub pending_player_count: u32,
}

/// An optional string as an optional character sequence.
pub open spec fn opt_str(o: Option<String>) -> Option<Seq<char>> {
    match o {
        Some(s) => Some(s@),
        None => None,
    }
}

impl View for GameState {
    type V = GameStateView;

    open spec fn view(&self) -> GameStateView {
        GameStateView {
            phase: self.phase,
            match_mode: self.match_mode,
            hero_key: opt_str(self.hero_key),
            map_name: opt_str(self.map_name),
            party_size: self.party_size,
            hero_window_open: self.hero_window_open,
            hideout_loaded: self.hideout_loaded,
            local_account_id: self.local_account_id,
            party_id: self.party_id,
            party_members: self.party_members@,
            pending_player_count: self.pending_player_count,
        }
    }
}

/// The larger of `x` and `lo`.
pub open spec fn at_least(x: u8, lo: u8) -> u8 {
    if x < lo {
        lo
    } else {
        x
    }
}

impl GameStateView {
    /// The state before anything has been seen in the log.
    pub open spec fn initial() -> GameStateView {
        GameStateView {
            phase: GamePhase::NotRunning,
            match_mode: MatchMode::Unknown,
            hero_key: None,
            map_name: None,
            party_size: 1,
            hero_window_open: true,
            hideout_loaded: false,
            local_account_id: None,
            party_id: None,
            party_members: Set::empty(),
            pending_player_count: 0,
        }
    }

    pub open spec fn with_phase(self, p: GamePhase) -> GameStateView {
        GameStateView { phase: p, ..self }
    }

    pub open spec fn entered_hideout(self) -> GameStateView {
        GameStateView {
            phase: GamePhase::Hideout,
            hero_key: None,
            hero_window_open: true,
            hideout_loaded: false,
            ..self
        }
    }

    pub open spec fn entered_match_intro(self) -> GameStateView {
        GameStateView {
            phase: GamePhase::MatchIntro,
            match_mode: MatchMode::Unknown,
            hero_key: None,
            hero_window_open: true,
            pending_player_count: 0,
            ..self
        }
    }

    pub open spec fn hero_tracking_prepared(self) -> GameStateView {
        GameStateView { hero_key: None, hero_window_open: true, ..self }
    }

    pub open spec fn party_cleared(self) -> GameStateView {
        GameStateView { party_id: None, party_members: Set::empty(), party_size: 1, ..self }
    }

    /// The state after a party event whose lowercased name is `ev`.
    pub open spec fn after_party_event(self, party_id: u64, ev: Seq<char>, account_id: u64) -> GameStateView {
        let local = match self.local_account_id {
            Some(id) => id,
            None => u64::MAX,
        };
        if has_infix(ev, "joinedparty"@) {
            let (pid, members) = if account_id == local {
                (Some(party_id), Set::<u64>::empty().insert(account_id))
            } else if self.party_id != Some(party_id) {
                (Some(party_id), Set::<u64>::empty())
            } else {
                (self.party_id, self.party_members)
            };
            let joined = members.insert(account_id);
            GameStateView {
                party_id: pid,
                party_members: joined,
                party_size: at_least(joined.len() as u8, 2),
                ..self
            }
        } else if has_infix(ev, "leftparty"@) || has_infix(ev, "removedfromparty"@) || has_infix(
            ev,
            "kickedfromparty"@,
        ) {
            if account_id == local {
                self.party_cleared()
            } else {
                let left = self.party_members.remove(account_id);
                GameStateView {
                    party_members: left,
                    party_size: at_least(left.len() as u8, 1),
                    ..self
                }
            }
        } else if has_infix(ev, "disband"@) {
            self.party_cleared()
        } else {
            self
        }
    }

    /// The state after a signal that the player's hero is `hero`.
    pub open spec fn after_hero_signal(self, hero: Seq<char>) -> GameStateView {
        match self.phase {
            GamePhase::Spectating => self,
            GamePhase::MatchIntro | GamePhase::InMatch => {
                let locked = match self.hero_key {
                    Some(current) => hero != current,
                    None => !self.hero_window_open,
                };
                if !mode_is_free_swap(self.match_mode) && locked {
                    self
                } else {
                    GameStateView { hero_key: Some(hero), hero_window_open: false, ..self }
                }
            },
            GamePhase::MainMenu | GamePhase::PostMatch => self,
            _ => GameStateView { hero_key: Some(hero), ..self },
        }
    }

    /// The party bookkeeping is consistent: the party has at least one member
    /// (the player), and without a party there are no members and the size is one.
    pub open spec fn party_wf(self) -> bool {
        &&& self.party_size >= 1
        &&& self.party_members.finite()
        &&& self.party_id is None ==> self.party_members == Set::<u64>::empty()
            && self.party_size == 1
    }
}

/// The status line that a phase shows, from the templates in `cfg`.
pub open spec fn status_line(
    phase: GamePhase,
    mode: MatchMode,
    hideout_text: Option<Seq<char>>,
    hero_name: Option<Seq<char>>,
    cfg: StatusStrings,
) -> Seq<char> {
    match phase {
        GamePhase::NotRunning => cfg.not_running@,
        GamePhase::MainMenu => cfg.main_menu@,
        GamePhase::Hideout => match hideout_text {
            Some(t) if t.len() > 0 => t,
            _ => replace_all(
                cfg.in_hideout@,
                placeholder("hero"@),
                match hero_name {
                    Some(n) => n,
                    None => ""@,
                },
            ),
        },
        GamePhase::InQueue => cfg.in_queue@,
        GamePhase::MatchIntro => replace_all(cfg.match_intro@, placeholder("mode"@), mode_label(mode)),
        GamePhase::InMatch => if mode_shows_location(mode) {
            replace_all(
                replace_all(cfg.in_match@, placeholder("mode"@), mode_label(mode)),
                placeholder("location"@),
                cfg.in_match_location@,
            )
        } else {
            mode_label(mode)
        },
        GamePhase::PostMatch => cfg.post_match@,
        GamePhase::Spectating => cfg.spectating@,
    }
}

/// An optional string slice as an optional character sequence.
pub open spec fn opt_slice(o: Option<&str>) -> Option<Seq<char>> {
    match o {
        Some(s) => Some(s@),
        None => None,
    }
}

impl GameState {
    pub fn new() -> (r: Self)
        ensures
            r@ == GameStateView::initial(),
    {
        GameState {
            phase: GamePhase::NotRunning,
            match_mode: MatchMode::Unknown,
            hero_key: None,
            map_name: None,
            party_size: 1,
            hero_window_open: true,
            hideout_loaded: false,
            local_account_id: None,
            party_id: None,
            party_members: HashSet::new(),
            pending_player_count: 0,
        }
    }

    pub fn reset(&mut self)
        ensures
            final(self)@ == GameStateView::initial(),
    {
        *self = Self::new();
    }

    pub fn enter_hideout(&mut self)
        ensures
            final(self)@ == old(self)@.entered_hideout(),
    {
        self.phase = GamePhase::Hideout;
        self.hero_key = None;
        self.hero_window_open = true;
        self.hideout_loaded = false;
    }

    pub fn clear_party(&mut self)
        ensures
            final(self)@ == old(self)@.party_cleared(),
    {
        self.party_id = None;
        self.party_members.clear();
        self.party_size = 1;
    }

    /// Applies a party join, leave or disband event.
    pub fn apply_party_event(&mut self, party_id: u64, event_name: &str, account_id: u64)
        ensures
            final(self)@ == old(self)@.after_party_event(party_id, lowercase(event_name@), account_id),
    {
        let ev = to_lowercase(event_name);
        let evc = chars_of(ev.as_str());
        let local = match self.local_account_id {
            Some(id) => id,
            None => u64::MAX,
        };
        let joined = chars_of("joinedparty");
        let left = chars_of("leftparty");
        let removed = chars_of("removedfromparty");
        let kicked = chars_of("kickedfromparty");
        let disband = chars_of("disband");
        if contains(evc.as_slice(), joined.as_slice()) {
            if account_id == local {
                self.party_id = Some(party_id);
                let mut members: HashSet<u64> = HashSet::new();
                members.insert(account_id);
                self.party_members = members;
            } else if self.party_id != Some(party_id) {
                self.party_id = Some(party_id);
                self.party_members.clear();
            }
            self.party_members.insert(account_id);
            let n = self.party_members.len();
            let size = n as u8;
            self.party_size = if size < 2 {
                2
            } else {
                size
            };
        } else if contains(evc.as_slice(), left.as_slice()) || contains(
            evc.as_slice(),
            removed.as_slice(),
        ) || contains(evc.as_slice(), kicked.as_slice()) {
            if account_id == local {
                self.clear_party();
            } else {
                self.party_members.remove(&account_id);
                let n = self.party_members.len();
                let size = n as u8;
                self.party_size = if size < 1 {
                    1
                } else {
                    size
                };
            }
        } else if contains(evc.as_slice(), disband.as_slice()) {
            self.clear_party();
        }
    }

    pub fn enter_main_menu(&mut self)
        ensures
            final(self)@ == old(self)@.with_phase(GamePhase::MainMenu),
    {
        self.phase = GamePhase::MainMenu;
    }

    pub fn enter_queue(&mut self)
        ensures
            final(self)@ == old(self)@.with_phase(GamePhase::InQueue),
    {
        self.phase = GamePhase::InQueue;
    }

    pub fn leave_queue(&mut self)
        ensures
            final(self)@ == old(self)@.with_phase(GamePhase::Hideout),
    {
        self.phase = GamePhase::Hideout;
    }

    pub fn enter_match_intro(&mut self)
        ensures
            final(self)@ == old(self)@.entered_match_intro(),
    {
        self.phase = GamePhase::MatchIntro;
        self.match_mode = MatchMode::Unknown;
        self.hero_key = None;
        self.hero_window_open = true;
        self.pending_player_count = 0;
    }

    pub fn start_match(&mut self)
        ensures
            final(self)@ == old(self)@.with_phase(GamePhase::InMatch),
    {
        self.phase = GamePhase::InMatch;
    }

    pub fn end_match(&mut self)
        ensures
            final(self)@ == old(self)@.with_phase(GamePhase::PostMatch),
    {
        self.phase = GamePhase::PostMatch;
    }

    pub fn enter_spectating(&mut self)
        ensures
            final(self)@ == old(self)@.with_phase(GamePhase::Spectating),
    {
        self.phase = GamePhase::Spectating;
    }

    pub fn prepare_match_hero_tracking(&mut self)
        ensures
            final(self)@ == old(self)@.hero_tracking_prepared(),
    {
        self.hero_key = None;
        self.hero_window_open = true;
    }

    /// Returns the Discord presence status line for the current phase.
    ///
    /// - `hideout_text`: hero-specific text from the API (takes priority in Hideout phase).
    /// - `hero_name`: display name of the current hero (used as `{hero}` variable).
    /// - `cfg`: per-phase string templates from the loaded config.
    pub fn presence_status(
        &self,
        hideout_text: Option<&str>,
        hero_name: Option<&str>,
        cfg: &StatusStrings,
    ) -> (r: String)
        ensures
            r@ == status_line(self.phase, self.match_mode, opt_slice(hideout_text), opt_slice(hero_name), *cfg),
    {
        match self.phase {
            GamePhase::NotRunning => {
                cfg.not_running.clone()
            },
            GamePhase::MainMenu => cfg.main_menu.clone(),
            GamePhase::Hideout => {
                let text_given = match hideout_text {
                    Some(t) => !t.is_empty(),
                    None => false,
                };
                if text_given {
                    let t = hideout_text.unwrap();
                    String::from_str(t)
                } else {
                    let name = match hero_name {
                        Some(n) => n,
                        None => "",
                    };
                    let vars = [("hero", name)];
                    let r = apply_vars(cfg.in_hideout.as_str(), vars.as_slice());
                    proof {
                        crate::config::lemma_substitute_one(cfg.in_hideout@, vars@);
                    }
                    r
                }
            },
            GamePhase::InQueue => cfg.in_queue.clone(),
            GamePhase::MatchIntro => {
                let vars = [("mode", self.match_mode.display())];
                let r = apply_vars(cfg.match_intro.as_str(), vars.as_slice());
                proof {
                    crate::config::lemma_substitute_one(cfg.match_intro@, vars@);
                }
                r
            },
            GamePhase::InMatch => {
                let mode = self.match_mode.display();
                if self.match_mode.show_map_location() {
                    let vars = [("mode", mode), ("location", cfg.in_match_location.as_str())];
                    let r = apply_vars(cfg.in_match.as_str(), vars.as_slice());
                    proof {
                        crate::config::lemma_substitute_two(cfg.in_match@, vars@);
                    }
                    r
                } else {
                    String::from_str(mode)
                }
            },
            GamePhase::PostMatch => cfg.post_match.clone(),
            GamePhase::Spectating => cfg.spectating.clone(),
        }
    }

    /// Records a signal that the player's hero is `hero_key`, unless the hero of
    /// the current match is already locked in or the phase shows no hero.
    pub fn apply_hero_signal(&mut self, hero_key: &str)
        ensures
            final(self)@ == old(self)@.after_hero_signal(hero_key@),
    {
        if self.phase == GamePhase::Spectating {
            return;
        }
        match self.phase {
            GamePhase::MatchIntro | GamePhase::InMatch => {
                let free_swap = match self.match_mode {
                    MatchMode::TrainingRange | MatchMode::HeroLabs => true,
                    _ => false,
                };
                if !free_swap {
                    match &self.hero_key {
                        Some(current) => {
                            let a = chars_of(hero_key);
                            let b = chars_of(current.as_str());
                            if !chars_eq(a.as_slice(), b.as_slice()) {
                                return;
                            }
                        },
                        None => {
                            if !self.hero_window_open {
                                return;
                            }
                        },
                    }
                }
                self.hero_key = Some(String::from_str(hero_key));
                self.hero_window_open = false;
            },
            GamePhase::Hideout => {
                self.hero_key = Some(String::from_str(hero_key));
            },
            GamePhase::MainMenu | GamePhase::PostMatch => {},
            _ => {
                self.hero_key = Some(String::from_str(hero_key));
            },
        }
    }
}

/// A call of one of `GameState`'s methods, as its effect on the view.
pub enum StateOp {
    Reset,
    EnterHideout,
    ClearParty,
    /// A party event; the name is already lowercased, as `apply_party_event` does.
    PartyEvent(u64, Seq<char>, u64),
    /// `enter_main_menu`, `enter_queue`, `leave_queue`, `start_match`,
    /// `end_match` or `enter_spectating`: the phase they set.
    SetPhase(GamePhase),
    EnterMatchIntro,
    PrepareHeroTracking,
    HeroSignal(Seq<char>),
}

/// The state after `op`.
pub open spec fn after_op(s: GameStateView, op: StateOp) -> GameStateView {
    match op {
        StateOp::Reset => GameStateView::initial(),
        StateOp::EnterHideout => s.entered_hideout(),
        StateOp::ClearParty => s.party_cleared(),
        StateOp::PartyEvent(pid, ev, a) => s.after_party_event(pid, ev, a),
        StateOp::SetPhase(p) => s.with_phase(p),
        StateOp::EnterMatchIntro => s.entered_match_intro(),
        StateOp::PrepareHeroTracking => s.hero_tracking_prepared(),
        StateOp::HeroSignal(h) => s.after_hero_signal(h),
    }
}

/// The state after the methods `ops`, in order.
pub open spec fn after_ops(s: GameStateView, ops: Seq<StateOp>) -> GameStateView
    decreases ops.len(),
{
    if ops.len() == 0 {
        s
    } else {
        after_op(after_ops(s, ops.drop_last()), ops.last())
    }
}

/// A party event keeps the party bookkeeping consistent, and changes nothing
/// but the party's id, members and size.
pub proof fn law_party_event_keeps_party_consistent(
    s: GameStateView,
    party_id: u64,
    ev: Seq<char>,
    account_id: u64,
)
    requires
        s.party_wf(),
    ensures
        s.after_party_event(party_id, ev, account_id).party_wf(),
        ({
            let r = s.after_party_event(party_id, ev, account_id);
            r == GameStateView {
                party_id: r.party_id,
                party_members: r.party_members,
                party_size: r.party_size,
                ..s
            }
        }),
{
    let local = match s.local_account_id {
        Some(id) => id,
        None => u64::MAX,
    };
    if has_infix(ev, "joinedparty"@) {
    } else if has_infix(ev, "leftparty"@) || has_infix(ev, "removedfromparty"@) || has_infix(
        ev,
        "kickedfromparty"@,
    ) {
        if account_id != local {
            let left = s.party_members.remove(account_id);
            if s.party_id is None {
                assert(left =~= Set::<u64>::empty());
                assert(left.len() == 0);
            }
        }
    }
}

/// Every method of `GameState` keeps the party bookkeeping consistent.
pub proof fn law_method_keeps_party_consistent(s: GameStateView, op: StateOp)
    requires
        s.party_wf(),
    ensures
        after_op(s, op).party_wf(),
{
    if let StateOp::PartyEvent(pid, ev, a) = op {
        law_party_event_keeps_party_consistent(s, pid, ev, a);
    }
}

/// Any sequence of methods applied to a new state leaves the party
/// bookkeeping consistent: the party size is at least one, and without a party
/// there are no members and the size is one.
pub proof fn law_reachable_party_consistent(ops: Seq<StateOp>)
    ensures
        after_ops(GameStateView::initial(), ops).party_wf(),
    decreases ops.len(),
{
    if ops.len() > 0 {
        law_reachable_party_consistent(ops.drop_last());
        law_method_keeps_party_consistent(
            after_ops(GameStateView::initial(), ops.drop_last()),
            ops.last(),
        );
    }
}

/// A party event naming another player as having left, been removed or been
/// kicked takes that player out of the party's members, and the party size
/// becomes the number of members left (at least one); the party id is kept.
/// When it names the player, the party is gone. (`u64::MAX`, which the log
/// never gives as an account, stands for "no local account".)
pub proof fn law_member_leaving_party(s: GameStateView, party_id: u64, ev: Seq<char>, account_id: u64)
    requires
        !has_infix(ev, "joinedparty"@),
        has_infix(ev, "leftparty"@) || has_infix(ev, "removedfromparty"@) || has_infix(
            ev,
            "kickedfromparty"@,
        ),
        s.party_members.finite(),
    ensures
        ({
            let r = s.after_party_event(party_id, ev, account_id);
            if s.local_account_id == Some(account_id) {
                r.party_id is None && r.party_members.is_empty() && r.party_size == 1
            } else if account_id != u64::MAX {
                &&& r.party_members == s.party_members.remove(account_id)
                &&& !r.party_members.contains(account_id)
                &&& r.party_id == s.party_id
                &&& (r.party_members.len() < 256 ==> r.party_size as nat == if r.party_members.len()
                    == 0 {
                    1
                } else {
                    r.party_members.len()
                })
            } else {
                true
            }
        }),
{
}

/// A party event naming a player as having joined puts that player among the
/// party's members; the party size is at least two.
pub proof fn law_member_joining_party(s: GameStateView, party_id: u64, ev: Seq<char>, account_id: u64)
    requires
        has_infix(ev, "joinedparty"@),
    ensures
        s.after_party_event(party_id, ev, account_id).party_members.contains(account_id),
        s.after_party_event(party_id, ev, account_id).party_id == Some(party_id),
        s.after_party_event(party_id, ev, account_id).party_size >= 2,
{
}

/// During a match the status line names the mode and, in the modes played on
/// the main map (standard, ranked, street brawl, or not yet known), the
/// location: the `in_match` template with `{mode}` replaced by the mode's
/// label and then `{location}` by the configured location. Bot matches, the
/// training range and hero labs show the mode's label alone. The intro shows
/// the `match_intro` template with `{mode}` replaced.
pub proof fn law_match_status_lines(
    mode: MatchMode,
    hideout_text: Option<Seq<char>>,
    hero_name: Option<Seq<char>>,
    cfg: StatusStrings,
)
    ensures
        mode == MatchMode::BotMatch || mode == MatchMode::TrainingRange || mode
            == MatchMode::HeroLabs ==> status_line(GamePhase::InMatch, mode, hideout_text, hero_name, cfg)
            == mode_label(mode),
        !(mode == MatchMode::BotMatch || mode == MatchMode::TrainingRange || mode
            == MatchMode::HeroLabs) ==> status_line(GamePhase::InMatch, mode, hideout_text, hero_name, cfg)
            == replace_all(
            replace_all(cfg.in_match@, "{mode}"@, mode_label(mode)),
            "{location}"@,
            cfg.in_match_location@,
        ),
        status_line(GamePhase::MatchIntro, mode, hideout_text, hero_name, cfg) == replace_all(
            cfg.match_intro@,
            "{mode}"@,
            mode_label(mode),
        ),
{
    reveal_strlit("{mode}");
    reveal_strlit("mode");
    reveal_strlit("{location}");
    reveal_strlit("location");
    assert(placeholder("mode"@) =~= "{mode}"@);
    assert(placeholder("location"@) =~= "{location}"@);
}

} // verus!
