//! The regular expressions that recognise the game's console log lines, and
//! the calls into the `regex` crate that match them.
use vstd::prelude::*;

verus! {

#[verifier::external_type_specification]
#[verifier::external_body]
pub struct ExRegex(regex::Regex);

// Map / phase signals
pub const MAP_INFO: &'static str = r#"\[Client\] Map:\s+"([^"]+)""#;

pub const MAP_CREATED_PHYSICS: &'static str = r"\[Client\] Created physics for\s+([^\s]+)";

pub const HOST_ACTIVATE: &'static str = r"\[HostStateManager\] Host activate:.*\(([^)]+)\)";

pub const LOOP_MODE_MENU: &'static str = r"LoopMode:\s*menu";

pub const CHANGE_GAME_STATE: &'static str = r"ChangeGameState:\s+(\w+)\s+\((\d+)\)";

pub const PRECACHING_HEROES: &'static str = r"Precaching (\d+) heroes in CCitadelGameRules";

// Match lifecycle
pub const LOBBY_CREATED: &'static str = r"Lobby\s+\d+\s+for\s+Match\s+\d+\s+created";

pub const LOBBY_DESTROYED: &'static str = r"Lobby\s+\d+\s+for\s+Match\s+\d+\s+destroyed";

pub const SPECTATE_BROADCAST: &'static str = r"Playing Broadcast";

// Server connection
pub const SERVER_CONNECT: &'static str = r"\[Client\] CL:\s+Connected to '([^']+)'";

pub const SERVER_DISCONNECT: &'static str = r"\[Client\] Disconnecting from server:\s+(\S+)";

pub const SERVER_SHUTDOWN: &'static str = r"\[Server\] SV:\s+Server shutting down:\s+(\S+)";

// Hero signals
pub const LOADED_HERO: &'static str = r"\[Server\] Loaded hero \d+/(hero_\w+)";

pub const CLIENT_HERO_VMDL: &'static str =
    r"VMDL Camera Pose Success!.*models/heroes(?:_wip|_staging)?/(\w+)/";

// Match mode inference
pub const PLAYER_INFO: &'static str = r"\[Client\] Players:\s+(\d+)\s+\(\d+ bots\)\s+/\s+\d+ humans";

pub const BOT_INIT: &'static str = r"Initializing bot for player slot \d+:\s+k_ECitadelBotDifficulty_\w+";

// Party tracking
pub const HIDEOUT_LOBBY_STATE: &'static str =
    r"\[Hideout\] Hideout Lobby Connection State:\s+(\w+)\s+\((-?\d+)\)";

pub const PARTY_EVENT: &'static str =
    r"CMsgGCToClientPartyEvent:\s+\{\s*party_id:\s+(\d+)\s+event:\s+(k_e\w+)\s+initiator_account_id:\s+(\d+)\s*\}";

pub const LOCAL_ACCOUNT_ID: &'static str = r"\[U:1:(\d+)\]";

pub uninterp spec fn regex_captures(pattern: Seq<char>, haystack: Seq<char>) -> Option<
    Seq<Option<Seq<char>>>,
>;

/// The text of group `i` of a match `c`, if there is a match and the group took part.
pub open spec fn cap_group(c: Option<Seq<Option<Seq<char>>>>, i: int) -> Option<Seq<char>> {
    match c {
        Some(g) => if 0 <= i < g.len() {
            g[i]
        } else {
            None
        },
        None => None,
    }
}

/// The text of capture group `i` when `pattern` matches `line` and the group took part.
pub open spec fn group(pattern: Seq<char>, line: Seq<char>, i: int) -> Option<Seq<char>> {
    cap_group(regex_captures(pattern, line), i)
}

/// `pattern` matches somewhere in `line`.
pub open spec fn found(pattern: Seq<char>, line: Seq<char>) -> bool {
    regex_captures(pattern, line) is Some
}

/// A compiled regular expression together with the pattern it was compiled from.
pub struct LinePattern {
    source: String,
    regex: regex::Regex,
}

impl View for LinePattern {
    type V = Seq<char>;

    closed spec fn view(&self) -> Seq<char> {
        self.source@
    }
}

pub uninterp spec fn regex_compiles(pattern: Seq<char>) -> bool;

/// Compiles `source` with `regex::Regex::new`. Trusted: a returned pattern
/// carries `source` as its text; whether compilation succeeds is named
/// `regex_compiles(source@)`, a function of the pattern's text alone (with the
/// default limits of `Regex::new`). Which sources compile (the regex syntax and
/// the size limit) is left unsaid.
#[verifier::external_body]
fn compile(source: &str) -> (r: Option<LinePattern>)
    ensures
        match r {
            Some(p) => p@ == source@ && regex_compiles(source@),
            None => !regex_compiles(source@),
        },
{
    match regex::Regex::new(source) {
        Ok(regex) => Some(LinePattern { source: source.to_string(), regex }),
        Err(_) => None,
    }
}

/// Matches `line` with `regex::Regex::captures` and returns the text of every
/// capture group (group 0 is the whole match; `None` for a group that did not
/// take part). Trusted: the result is named `regex_captures(p@, line@)`, a
/// function of the pattern's text and the line alone.
#[verifier::external_body]
pub(crate) fn captures(p: &LinePattern, line: &str) -> (r: Option<Vec<Option<String>>>)
    ensures
        r.deep_view() == regex_captures(p@, line@),
{
    p.regex.captures(line).map(|c| c.iter().map(|m| m.map(|m| m.as_str().to_string())).collect())
}

/// The text of group `i` of a match, if the match exists and the group took part.
pub(crate) fn group_of(caps: &Option<Vec<Option<String>>>, i: usize) -> (r: Option<String>)
    ensures
        r.deep_view() == cap_group(caps.deep_view(), i as int),
{
    match caps {
        Some(g) => {
            if i < g.len() {
                match &g[i] {
                    Some(s) => Some(s.clone()),
                    None => None,
                }
            } else {
                None
            }
        },
        None => None,
    }
}

/// The compiled line patterns.
pub struct Patterns {
    pub(crate) map_info: LinePattern,
    pub(crate) map_created_physics: LinePattern,
    pub(crate) host_activate: LinePattern,
    pub(crate) loop_mode_menu: LinePattern,
    pub(crate) change_game_state: LinePattern,
    pub(crate) precaching_heroes: LinePattern,
    pub(crate) lobby_created: LinePattern,
    pub(crate) lobby_destroyed: LinePattern,
    pub(crate) spectate_broadcast: LinePattern,
    pub(crate) server_connect: LinePattern,
    pub(crate) server_disconnect: LinePattern,
    pub(crate) server_shutdown: LinePattern,
    pub(crate) loaded_hero: LinePattern,
    pub(crate) client_hero_vmdl: LinePattern,
    pub(crate) player_info: LinePattern,
    pub(crate) bot_init: LinePattern,
    pub(crate) hideout_lobby_state: LinePattern,
    pub(crate) party_event: LinePattern,
    pub(crate) local_account_id: LinePattern,
}

/// Every line pattern is accepted by the regex engine.
pub open spec fn all_patterns_compile() -> bool {
    &&& regex_compiles(MAP_INFO@)
    &&& regex_compiles(MAP_CREATED_PHYSICS@)
    &&& regex_compiles(HOST_ACTIVATE@)
    &&& regex_compiles(LOOP_MODE_MENU@)
    &&& regex_compiles(CHANGE_GAME_STATE@)
    &&& regex_compiles(PRECACHING_HEROES@)
    &&& regex_compiles(LOBBY_CREATED@)
    &&& regex_compiles(LOBBY_DESTROYED@)
    &&& regex_compiles(SPECTATE_BROADCAST@)
    &&& regex_compiles(SERVER_CONNECT@)
    &&& regex_compiles(SERVER_DISCONNECT@)
    &&& regex_compiles(SERVER_SHUTDOWN@)
    &&& regex_compiles(LOADED_HERO@)
    &&& regex_compiles(CLIENT_HERO_VMDL@)
    &&& regex_compiles(PLAYER_INFO@)
    &&& regex_compiles(BOT_INIT@)
    &&& regex_compiles(HIDEOUT_LOBBY_STATE@)
    &&& regex_compiles(PARTY_EVENT@)
    &&& regex_compiles(LOCAL_ACCOUNT_ID@)
}

impl Patterns {
    /// Each pattern was compiled from its constant.
    pub closed spec fn wf(&self) -> bool {
        &&& self.map_info@ == MAP_INFO@
        &&& self.map_created_physics@ == MAP_CREATED_PHYSICS@
        &&& self.host_activate@ == HOST_ACTIVATE@
        &&& self.loop_mode_menu@ == LOOP_MODE_MENU@
        &&& self.change_game_state@ == CHANGE_GAME_STATE@
        &&& self.precaching_heroes@ == PRECACHING_HEROES@
        &&& self.lobby_created@ == LOBBY_CREATED@
        &&& self.lobby_destroyed@ == LOBBY_DESTROYED@
        &&& self.spectate_broadcast@ == SPECTATE_BROADCAST@
        &&& self.server_connect@ == SERVER_CONNECT@
        &&& self.server_disconnect@ == SERVER_DISCONNECT@
        &&& self.server_shutdown@ == SERVER_SHUTDOWN@
        &&& self.loaded_hero@ == LOADED_HERO@
        &&& self.client_hero_vmdl@ == CLIENT_HERO_VMDL@
        &&& self.player_info@ == PLAYER_INFO@
        &&& self.bot_init@ == BOT_INIT@
        &&& self.hideout_lobby_state@ == HIDEOUT_LOBBY_STATE@
        &&& self.party_event@ == PARTY_EVENT@
        &&& self.local_account_id@ == LOCAL_ACCOUNT_ID@
    }

    /// The patterns' texts, as `wf` states them.
    pub(crate) proof fn lemma_sources(&self)
        requires
            self.wf(),
        ensures
            self.map_info@ == MAP_INFO@,
            self.map_created_physics@ == MAP_CREATED_PHYSICS@,
            self.host_activate@ == HOST_ACTIVATE@,
            self.loop_mode_menu@ == LOOP_MODE_MENU@,
            self.change_game_state@ == CHANGE_GAME_STATE@,
            self.precaching_heroes@ == PRECACHING_HEROES@,
            self.lobby_created@ == LOBBY_CREATED@,
            self.lobby_destroyed@ == LOBBY_DESTROYED@,
            self.spectate_broadcast@ == SPECTATE_BROADCAST@,
            self.server_connect@ == SERVER_CONNECT@,
            self.server_disconnect@ == SERVER_DISCONNECT@,
            self.server_shutdown@ == SERVER_SHUTDOWN@,
            self.loaded_hero@ == LOADED_HERO@,
            self.client_hero_vmdl@ == CLIENT_HERO_VMDL@,
            self.player_info@ == PLAYER_INFO@,
            self.bot_init@ == BOT_INIT@,
            self.hideout_lobby_state@ == HIDEOUT_LOBBY_STATE@,
            self.party_event@ == PARTY_EVENT@,
            self.local_account_id@ == LOCAL_ACCOUNT_ID@,
    {
    }

    /// Compiles every pattern; `None` exactly when the regex engine refuses one.
    pub fn new() -> (r: Option<Self>)
        ensures
            r matches Some(p) ==> p.wf(),
            r is Some <==> all_patterns_compile(),
    {
        let map_info = compile(MAP_INFO)?;
        let map_created_physics = compile(MAP_CREATED_PHYSICS)?;
        let host_activate = compile(HOST_ACTIVATE)?;
        let loop_mode_menu = compile(LOOP_MODE_MENU)?;
        let change_game_state = compile(CHANGE_GAME_STATE)?;
        let precaching_heroes = compile(PRECACHING_HEROES)?;
        let lobby_created = compile(LOBBY_CREATED)?;
        let lobby_destroyed = compile(LOBBY_DESTROYED)?;
        let spectate_broadcast = compile(SPECTATE_BROADCAST)?;
        let server_connect = compile(SERVER_CONNECT)?;
        let server_disconnect = compile(SERVER_DISCONNECT)?;
        let server_shutdown = compile(SERVER_SHUTDOWN)?;
        let loaded_hero = compile(LOADED_HERO)?;
        let client_hero_vmdl = compile(CLIENT_HERO_VMDL)?;
        let player_info = compile(PLAYER_INFO)?;
        let bot_init = compile(BOT_INIT)?;
        let hideout_lobby_state = compile(HIDEOUT_LOBBY_STATE)?;
        let party_event = compile(PARTY_EVENT)?;
        let local_account_id = compile(LOCAL_ACCOUNT_ID)?;
        Some(
            Patterns {
                map_info,
                map_created_physics,
                host_activate,
                loop_mode_menu,
                change_game_state,
                precaching_heroes,
                lobby_created,
                lobby_destroyed,
                spectate_broadcast,
                server_connect,
                server_disconnect,
                server_shutdown,
                loaded_hero,
                client_hero_vmdl,
                player_info,
                bot_init,
                hideout_lobby_state,
                party_event,
                local_account_id,
            },
        )
    }
}

/// What each line pattern captured in one log line: for each pattern, the
/// text of every capture group when it matched.
pub struct LineCaps {
    pub map_info: Option<Seq<Option<Seq<char>>>>,
    pub map_created_physics: Option<Seq<Option<Seq<char>>>>,
    pub host_activate: Option<Seq<Option<Seq<char>>>>,
    pub loop_mode_menu: Option<Seq<Option<Seq<char>>>>,
    pub change_game_state: Option<Seq<Option<Seq<char>>>>,
    pub precaching_heroes: Option<Seq<Option<Seq<char>>>>,
    pub lobby_created: Option<Seq<Option<Seq<char>>>>,
    pub lobby_destroyed: Option<Seq<Option<Seq<char>>>>,
    pub spectate_broadcast: Option<Seq<Option<Seq<char>>>>,
    pub server_connect: Option<Seq<Option<Seq<char>>>>,
    pub server_disconnect: Option<Seq<Option<Seq<char>>>>,
    pub server_shutdown: Option<Seq<Option<Seq<char>>>>,
    pub loaded_hero: Option<Seq<Option<Seq<char>>>>,
    pub client_hero_vmdl: Option<Seq<Option<Seq<char>>>>,
    pub player_info: Option<Seq<Option<Seq<char>>>>,
    pub bot_init: Option<Seq<Option<Seq<char>>>>,
    pub hideout_lobby_state: Option<Seq<Option<Seq<char>>>>,
    pub party_event: Option<Seq<Option<Seq<char>>>>,
    pub local_account_id: Option<Seq<Option<Seq<char>>>>,
}

/// The captures of each line pattern in one log line.
#[derive(Debug)]
pub struct LineCaptures {
    pub map_info: Option<Vec<Option<String>>>,
    pub map_created_physics: Option<Vec<Option<String>>>,
    pub host_activate: Option<Vec<Option<String>>>,
    pub loop_mode_menu: Option<Vec<Option<String>>>,
    pub change_game_state: Option<Vec<Option<String>>>,
    pub precaching_heroes: Option<Vec<Option<String>>>,
    pub lobby_created: Option<Vec<Option<String>>>,
    pub lobby_destroyed: Option<Vec<Option<String>>>,
    pub spectate_broadcast: Option<Vec<Option<String>>>,
    pub server_connect: Option<Vec<Option<String>>>,
    pub server_disconnect: Option<Vec<Option<String>>>,
    pub server_shutdown: Option<Vec<Option<String>>>,
    pub loaded_hero: Option<Vec<Option<String>>>,
    pub client_hero_vmdl: Option<Vec<Option<String>>>,
    pub player_info: Option<Vec<Option<String>>>,
    pub bot_init: Option<Vec<Option<String>>>,
    pub hideout_lobby_state: Option<Vec<Option<String>>>,
    pub party_event: Option<Vec<Option<String>>>,
    pub local_account_id: Option<Vec<Option<String>>>,
}

impl View for LineCaptures {
    type V = LineCaps;

    open spec fn view(&self) -> LineCaps {
        LineCaps {
            map_info: self.map_info.deep_view(),
            map_created_physics: self.map_created_physics.deep_view(),
            host_activate: self.host_activate.deep_view(),
            loop_mode_menu: self.loop_mode_menu.deep_view(),
            change_game_state: self.change_game_state.deep_view(),
            precaching_heroes: self.precaching_heroes.deep_view(),
            lobby_created: self.lobby_created.deep_view(),
            lobby_destroyed: self.lobby_destroyed.deep_view(),
            spectate_broadcast: self.spectate_broadcast.deep_view(),
            server_connect: self.server_connect.deep_view(),
            server_disconnect: self.server_disconnect.deep_view(),
            server_shutdown: self.server_shutdown.deep_view(),
            loaded_hero: self.loaded_hero.deep_view(),
            client_hero_vmdl: self.client_hero_vmdl.deep_view(),
            player_info: self.player_info.deep_view(),
            bot_init: self.bot_init.deep_view(),
            hideout_lobby_state: self.hideout_lobby_state.deep_view(),
            party_event: self.party_event.deep_view(),
            local_account_id: self.local_account_id.deep_view(),
        }
    }
}

/// What the line patterns capture in `line`.
pub open spec fn line_caps(line: Seq<char>) -> LineCaps {
    LineCaps {
        map_info: regex_captures(MAP_INFO@, line),
        map_created_physics: regex_captures(MAP_CREATED_PHYSICS@, line),
        host_activate: regex_captures(HOST_ACTIVATE@, line),
        loop_mode_menu: regex_captures(LOOP_MODE_MENU@, line),
        change_game_state: regex_captures(CHANGE_GAME_STATE@, line),
        precaching_heroes: regex_captures(PRECACHING_HEROES@, line),
        lobby_created: regex_captures(LOBBY_CREATED@, line),
        lobby_destroyed: regex_captures(LOBBY_DESTROYED@, line),
        spectate_broadcast: regex_captures(SPECTATE_BROADCAST@, line),
        server_connect: regex_captures(SERVER_CONNECT@, line),
        server_disconnect: regex_captures(SERVER_DISCONNECT@, line),
        server_shutdown: regex_captures(SERVER_SHUTDOWN@, line),
        loaded_hero: regex_captures(LOADED_HERO@, line),
        client_hero_vmdl: regex_captures(CLIENT_HERO_VMDL@, line),
        player_info: regex_captures(PLAYER_INFO@, line),
        bot_init: regex_captures(BOT_INIT@, line),
        hideout_lobby_state: regex_captures(HIDEOUT_LOBBY_STATE@, line),
        party_event: regex_captures(PARTY_EVENT@, line),
        local_account_id: regex_captures(LOCAL_ACCOUNT_ID@, line),
    }
}

/// Matches every line pattern against `line`.
pub fn line_captures(line: &str, p: &Patterns) -> (r: LineCaptures)
    requires
        p.wf(),
    ensures
        r@ == line_caps(line@),
{
    proof {
        p.lemma_sources();
    }
    LineCaptures {
        map_info: captures(&p.map_info, line),
        map_created_physics: captures(&p.map_created_physics, line),
        host_activate: captures(&p.host_activate, line),
        loop_mode_menu: captures(&p.loop_mode_menu, line),
        change_game_state: captures(&p.change_game_state, line),
        precaching_heroes: captures(&p.precaching_heroes, line),
        lobby_created: captures(&p.lobby_created, line),
        lobby_destroyed: captures(&p.lobby_destroyed, line),
        spectate_broadcast: captures(&p.spectate_broadcast, line),
        server_connect: captures(&p.server_connect, line),
        server_disconnect: captures(&p.server_disconnect, line),
        server_shutdown: captures(&p.server_shutdown, line),
        loaded_hero: captures(&p.loaded_hero, line),
        client_hero_vmdl: captures(&p.client_hero_vmdl, line),
        player_info: captures(&p.player_info, line),
        bot_init: captures(&p.bot_init, line),
        hideout_lobby_state: captures(&p.hideout_lobby_state, line),
        party_event: captures(&p.party_event, line),
        local_account_id: captures(&p.local_account_id, line),
    }
}

} // verus!
