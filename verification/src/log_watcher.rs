//! Reading the game's console log: what each log line does to the game state,
//! the replay of a log tail at start-up, and the decisions of the polling loop.
use crate::game_state::{GamePhase, GameState, GameStateView, MatchMode};
use crate::log_patterns::{
    cap_group, captures, found, group, group_of, line_caps, line_captures, LineCaps, LineCaptures, Patterns, BOT_INIT, CHANGE_GAME_STATE, CLIENT_HERO_VMDL,
    HIDEOUT_LOBBY_STATE, HOST_ACTIVATE, LOADED_HERO, LOBBY_CREATED, LOBBY_DESTROYED,
    LOCAL_ACCOUNT_ID, LOOP_MODE_MENU, MAP_CREATED_PHYSICS, MAP_INFO, PARTY_EVENT, PLAYER_INFO,
    PRECACHING_HEROES, SERVER_CONNECT, SERVER_DISCONNECT, SERVER_SHUTDOWN, SPECTATE_BROADCAST,
};
use crate::numbers::{
    all_digits, in_range, parse_i64_chars, parse_u32_chars, parse_u64_chars, signed_decimal,
    unsigned_decimal,
};
use crate::text::{
    chars_eq, chars_of, contains, has_infix, has_prefix, lowercase, split_lines, starts_with,
    string_from_chars, text_lines, to_lowercase, to_uppercase, uppercase, utf8_lossy, decode_lossy,
};
use vstd::prelude::*;

verus! {

/// The map name of the hideout.
pub const HIDEOUT_MAP: &'static str = "dl_hideout";

/// Bytes of log replayed when the watcher (re)starts on an existing log.
pub const RESYNC_BYTES: u64 = 10485760;

/// Seconds of log silence during an active match before assuming a crash.
/// Only applied during InMatch/MatchIntro: passive phases (menu, hideout, queue)
/// produce very little log output and would cause false positives for AFK users.
pub const MATCH_STALE_SECS: u64 = 300;

// ---------------------------------------------------------------------------
// Numbers read from log text.
// ---------------------------------------------------------------------------

/// `s` read as a `u64`, or `dflt` when it is not one.
pub open spec fn read_u64(s: Seq<char>, dflt: u64) -> u64 {
    match in_range(unsigned_decimal(s), 0, u64::MAX as int) {
        Some(v) => v as u64,
        None => dflt,
    }
}

/// `s` read as a `u32`, or `dflt` when it is not one.
pub open spec fn read_u32(s: Seq<char>, dflt: u32) -> u32 {
    match in_range(unsigned_decimal(s), 0, u32::MAX as int) {
        Some(v) => v as u32,
        None => dflt,
    }
}

/// `s` read as an `i64`, or `dflt` when it is not one.
pub open spec fn read_i64(s: Seq<char>, dflt: i64) -> i64 {
    match in_range(signed_decimal(s), i64::MIN as int, i64::MAX as int) {
        Some(v) => v as i64,
        None => dflt,
    }
}

fn u64_or(s: &String, dflt: u64) -> (r: u64)
    ensures
        r == read_u64(s@, dflt),
{
    let c = chars_of(s.as_str());
    match parse_u64_chars(c.as_slice()) {
        Some(v) => v,
        None => dflt,
    }
}

fn u32_or(s: &String, dflt: u32) -> (r: u32)
    ensures
        r == read_u32(s@, dflt),
{
    let c = chars_of(s.as_str());
    match parse_u32_chars(c.as_slice()) {
        Some(v) => v,
        None => dflt,
    }
}

fn i64_or(s: &String, dflt: i64) -> (r: i64)
    ensures
        r == read_i64(s@, dflt),
{
    let c = chars_of(s.as_str());
    match parse_i64_chars(c.as_slice()) {
        Some(v) => v,
        None => dflt,
    }
}

// ---------------------------------------------------------------------------
// Hero keys.
// ---------------------------------------------------------------------------

/// The index of the last occurrence of `c` in `s`.
pub open spec fn last_index_of(s: Seq<char>, c: char) -> Option<int>
    decreases s.len(),
{
    if s.len() == 0 {
        None
    } else if s.last() == c {
        Some(s.len() - 1)
    } else {
        last_index_of(s.drop_last(), c)
    }
}

/// A version suffix such as `v2` or `v13`.
pub open spec fn is_version_suffix(s: Seq<char>) -> bool {
    s.len() > 1 && s[0] == 'v' && all_digits(s.skip(1))
}

/// `s` without a trailing `_v<digits>` version suffix.
pub open spec fn without_version(s: Seq<char>) -> Seq<char> {
    match last_index_of(s, '_') {
        Some(pos) => if is_version_suffix(s.skip(pos + 1)) {
            s.take(pos)
        } else {
            s
        },
        None => s,
    }
}

/// A raw hero key from the log, lowercased, without a version suffix, and
/// with the `hero_` prefix.
pub open spec fn normalized_hero(raw: Seq<char>) -> Seq<char> {
    let s = without_version(lowercase(raw));
    if has_prefix(s, "hero_"@) {
        s
    } else {
        "hero_"@ + s
    }
}

fn last_index(s: &[char], c: char) -> (r: Option<usize>)
    ensures
        match r {
            Some(i) => last_index_of(s@, c) == Some(i as int) && i < s.len(),
            None => last_index_of(s@, c) is None,
        },
{
    let mut j: usize = s.len();
    assert(s@.take(j as int) =~= s@);
    while j > 0
        invariant
            j <= s.len(),
            last_index_of(s@, c) == last_index_of(s@.take(j as int), c),
        decreases j,
    {
        if s[j - 1] == c {
            return Some(j - 1);
        }
        assert(s@.take(j as int).drop_last() =~= s@.take(j - 1));
        j = j - 1;
    }
    None
}

fn version_suffix_at(s: &[char], start: usize) -> (r: bool)
    requires
        start <= s.len(),
    ensures
        r == is_version_suffix(s@.skip(start as int)),
{
    let n = s.len();
    let ghost suffix = s@.skip(start as int);
    if n - start <= 1 || s[start] != 'v' {
        return false;
    }
    assert(suffix[0] == s@[start as int]);
    let mut k = start + 1;
    while k < n
        invariant
            start + 1 <= k <= n,
            n == s.len(),
            suffix == s@.skip(start as int),
            forall|i: int| start + 1 <= i < k ==> '0' <= #[trigger] s@[i] && s@[i] <= '9',
        decreases n - k,
    {
        if !('0' <= s[k] && s[k] <= '9') {
            assert(suffix.skip(1)[k - start - 1] == s@[k as int]);
            return false;
        }
        k = k + 1;
    }
    assert forall|i: int| 0 <= i < suffix.skip(1).len() implies crate::numbers::is_ascii_digit(
        #[trigger] suffix.skip(1)[i],
    ) by {
        assert(suffix.skip(1)[i] == s@[start + 1 + i]);
    }
    true
}

/// Normalise a raw hero key from the log: lowercase, strip version suffix (_v2, _v3, ...),
/// and ensure a hero_ prefix so the result is always a valid API class_name.
pub fn normalize_hero_key(raw: &str) -> (r: String)
    ensures
        r@ == normalized_hero(raw@),
        has_prefix(r@, "hero_"@),
{
    let lower = to_lowercase(raw);
    let s = chars_of(lower.as_str());
    let mut t: Vec<char> = Vec::new();
    let mut keep_all = true;
    match last_index(s.as_slice(), '_') {
        Some(pos) => {
            let is_version = version_suffix_at(s.as_slice(), pos + 1);
            if is_version {
                keep_all = false;
                let mut i: usize = 0;
                while i < pos
                    invariant
                        i <= pos,
                        pos < s.len(),
                        t@ == s@.take(i as int),
                    decreases pos - i,
                {
                    t.push(s[i]);
                    assert(s@.take(i + 1) =~= s@.take(i as int).push(s@[i as int]));
                    i = i + 1;
                }
            }
        },
        None => {},
    }
    if keep_all {
        t = s;
    }
    assert(t@ == without_version(lowercase(raw@)));
    let prefix = chars_of("hero_");
    if starts_with(t.as_slice(), prefix.as_slice()) {
        string_from_chars(t.as_slice())
    } else {
        let mut out = prefix;
        let mut rest = t;
        out.append(&mut rest);
        proof {
            assert(out@.take("hero_"@.len() as int) =~= "hero_"@);
        }
        string_from_chars(out.as_slice())
    }
}

// ---------------------------------------------------------------------------
// Maps and match modes.
// ---------------------------------------------------------------------------

/// The match mode once a map name and a stable player count are known; only
/// decided while the mode is still unknown.
pub open spec fn after_mode_inference(s: GameStateView) -> GameStateView {
    if s.match_mode != MatchMode::Unknown || s.pending_player_count == 0 {
        s
    } else if s.map_name == Some("dl_midtown"@) {
        if s.pending_player_count >= 9 {
            GameStateView { match_mode: MatchMode::Standard, ..s }
        } else if s.pending_player_count >= 4 {
            GameStateView { match_mode: MatchMode::StreetBrawl, ..s }
        } else {
            s
        }
    } else {
        s
    }
}

/// The match mode that a map name alone implies.
pub open spec fn mode_of_map(m: Seq<char>) -> MatchMode {
    if m == "new_player_basics"@ {
        MatchMode::TrainingRange
    } else if m == "street_test"@ || m == "street_test_bridge"@ {
        MatchMode::Standard
    } else {
        MatchMode::Unknown
    }
}

/// The state after the log names the map `raw`.
pub open spec fn after_map(s: GameStateView, raw: Seq<char>) -> GameStateView {
    let m = lowercase(raw);
    if s.phase == GamePhase::Spectating || m.len() == 0 || m == "<empty>"@ {
        s
    } else if m == HIDEOUT_MAP@ {
        GameStateView { map_name: Some(m), ..s.entered_hideout() }
    } else {
        let s1 = GameStateView { map_name: Some(m), match_mode: mode_of_map(m), ..s };
        if s1.phase != GamePhase::NotRunning {
            after_mode_inference(
                GameStateView {
                    phase: GamePhase::InMatch,
                    hideout_loaded: false,
                    ..s1.hero_tracking_prepared()
                },
            )
        } else {
            s1
        }
    }
}

/// Finalise match mode once we have both a map name and a stable player count.
/// Only acts when mode is still Unknown; safe to call multiple times.
pub fn try_infer_mode(state: &mut GameState)
    ensures
        final(state)@ == after_mode_inference(old(state)@),
{
    if state.match_mode != MatchMode::Unknown || state.pending_player_count == 0 {
        return;
    }
    let is_midtown = match &state.map_name {
        Some(m) => {
            let a = chars_of(m.as_str());
            let b = chars_of("dl_midtown");
            chars_eq(a.as_slice(), b.as_slice())
        },
        None => false,
    };
    if is_midtown {
        if state.pending_player_count >= 9 {
            state.match_mode = MatchMode::Standard;
        } else if state.pending_player_count >= 4 {
            state.match_mode = MatchMode::StreetBrawl;
        }
    }
}

fn str_is(a: &[char], lit: &str) -> (r: bool)
    ensures
        r == (a@ == lit@),
{
    let b = chars_of(lit);
    chars_eq(a, b.as_slice())
}

/// Applies the map named `map_name` by the log: the hideout map enters the
/// hideout; any other named map starts (or restarts) a match.
pub fn apply_map(state: &mut GameState, map_name: &str)
    ensures
        final(state)@ == after_map(old(state)@, map_name@),
{
    if state.phase == GamePhase::Spectating {
        return;
    }
    let map_lower = to_lowercase(map_name);
    let m = chars_of(map_lower.as_str());
    if m.len() == 0 || str_is(m.as_slice(), "<empty>") {
        return;
    }
    if str_is(m.as_slice(), HIDEOUT_MAP) {
        state.enter_hideout();
        state.map_name = Some(map_lower);
        return;
    }
    state.map_name = Some(map_lower.clone());
    state.match_mode = MatchMode::Unknown;
    if str_is(m.as_slice(), "new_player_basics") {
        state.match_mode = MatchMode::TrainingRange;
    } else if str_is(m.as_slice(), "street_test") || str_is(m.as_slice(), "street_test_bridge") {
        state.match_mode = MatchMode::Standard;
    }
    match state.phase {
        GamePhase::MatchIntro | GamePhase::InQueue | GamePhase::MainMenu | GamePhase::Hideout
        | GamePhase::InMatch | GamePhase::PostMatch => {
            state.phase = GamePhase::InMatch;
            state.prepare_match_hero_tracking();
            state.hideout_loaded = false;
            try_infer_mode(state);
        },
        _ => {},
    }
}

// ---------------------------------------------------------------------------
// Log lines.
// ---------------------------------------------------------------------------

pub const START_MATCHMAKING: &'static str = "k_EMsgClientToGCStartMatchmaking";

pub const STOP_MATCHMAKING: &'static str = "k_EMsgClientToGCStopMatchmaking";

pub const APP_SHUTDOWN: &'static str = "Dispatching EventAppShutdown_t";

pub const SOURCE2_SHUTDOWN: &'static str = "Source2Shutdown";

/// A match is being played or watched.
pub open spec fn in_live_match(p: GamePhase) -> bool {
    p == GamePhase::InMatch || p == GamePhase::MatchIntro || p == GamePhase::Spectating
}

/// A lobby or server connection for a match: hero tracking restarts, and the
/// match intro begins unless a match is already under way.
pub open spec fn after_match_setup(s: GameStateView) -> GameStateView {
    let s1 = s.hero_tracking_prepared();
    if s1.phase == GamePhase::MainMenu || s1.phase == GamePhase::Hideout || s1.phase
        == GamePhase::InQueue || s1.phase == GamePhase::MatchIntro {
        s1.entered_match_intro()
    } else {
        s1
    }
}

/// The effect of the account-id and party signals a line may carry; these are
/// read before, and independently of, the main signal of the line.
pub open spec fn after_side_signals(s: GameStateView, c: LineCaps) -> GameStateView {
    let s1 = if s.local_account_id is None {
        match cap_group(c.local_account_id, 1) {
            Some(g) => if read_u64(g, 0) > 0 {
                GameStateView { local_account_id: Some(read_u64(g, 0)), ..s }
            } else {
                s
            },
            None => s,
        }
    } else {
        s
    };
    match (cap_group(c.party_event, 1), cap_group(c.party_event, 2), cap_group(c.party_event, 3)) {
        (Some(a), Some(b), Some(c)) => s1.after_party_event(read_u64(a, 0), lowercase(b), read_u64(c, 0)),
        _ => s1,
    }
}

/// Main signals, first part: maps and matchmaking.
pub open spec fn chain_maps(s: GameStateView, line: Seq<char>, c: LineCaps, hideout_map: bool) -> GameStateView {
    if c.map_created_physics is Some {
        match cap_group(c.map_created_physics, 1) {
            Some(m) => after_map(s, m),
            None => s,
        }
    } else if c.map_info is Some {
        match cap_group(c.map_info, 1) {
            Some(m) => if m == "start"@ {
                s
            } else {
                after_map(s, m)
            },
            None => s,
        }
    } else if has_infix(line, START_MATCHMAKING@) {
        if s.phase == GamePhase::Hideout || s.phase == GamePhase::MainMenu {
            s.with_phase(GamePhase::InQueue)
        } else {
            s
        }
    } else if has_infix(line, STOP_MATCHMAKING@) {
        if s.phase == GamePhase::InQueue {
            s.with_phase(GamePhase::Hideout)
        } else {
            s
        }
    } else {
        chain_lobby(s, line, c, hideout_map)
    }
}

/// Main signals, second part: lobbies, spectating and server connections.
pub open spec fn chain_lobby(s: GameStateView, line: Seq<char>, c: LineCaps, hideout_map: bool) -> GameStateView {
    if c.lobby_created is Some {
        after_match_setup(s)
    } else if c.lobby_destroyed is Some {
        s.with_phase(GamePhase::PostMatch)
    } else if c.spectate_broadcast is Some {
        GameStateView { hideout_loaded: false, ..s.with_phase(GamePhase::Spectating) }
    } else if c.server_connect is Some {
        match cap_group(c.server_connect, 1) {
            Some(a) => if !has_infix(lowercase(a), "loopback"@) {
                after_match_setup(s)
            } else {
                s
            },
            None => s,
        }
    } else {
        chain_heroes(s, line, c, hideout_map)
    }
}

/// Main signals, third part: heroes and disconnections.
pub open spec fn chain_heroes(s: GameStateView, line: Seq<char>, c: LineCaps, hideout_map: bool) -> GameStateView {
    if c.loaded_hero is Some {
        match cap_group(c.loaded_hero, 1) {
            Some(h) => if s.phase != GamePhase::Hideout || s.hideout_loaded {
                s.after_hero_signal(normalized_hero(h))
            } else {
                s
            },
            None => s,
        }
    } else if c.client_hero_vmdl is Some {
        match cap_group(c.client_hero_vmdl, 1) {
            Some(h) => s.after_hero_signal(normalized_hero(h)),
            None => s,
        }
    } else if c.server_disconnect is Some {
        match cap_group(c.server_disconnect, 1) {
            Some(g) => {
                let reason = uppercase(g);
                if has_infix(reason, "EXITING"@) {
                    GameStateView::initial()
                } else if !has_infix(reason, "LOOPDEACTIVATE"@) && in_live_match(s.phase) {
                    s.with_phase(GamePhase::PostMatch)
                } else {
                    s
                }
            },
            None => s,
        }
    } else if c.loop_mode_menu is Some {
        if in_live_match(s.phase) {
            s.with_phase(GamePhase::PostMatch)
        } else {
            s
        }
    } else {
        chain_game_state(s, line, c, hideout_map)
    }
}

/// The effect of a game-rules state change named `name` with number `id`.
pub open spec fn after_game_state_change(
    s: GameStateView,
    name: Seq<char>,
    id: u32,
    hideout_map: bool,
) -> GameStateView {
    if s.phase != GamePhase::Spectating && !hideout_map && !s.hideout_loaded {
        if name == "matchintro"@ || id == 4 {
            s.entered_match_intro()
        } else if name == "gameinprogress"@ || name == "inprogress"@ || id == 7 {
            s.with_phase(GamePhase::InMatch)
        } else if name == "postgame"@ || id == 6 {
            s.with_phase(GamePhase::PostMatch)
        } else {
            s
        }
    } else {
        s
    }
}

/// Main signals, fourth part: game-rules states, hideout lobby and host.
pub open spec fn chain_game_state(s: GameStateView, line: Seq<char>, c: LineCaps, hideout_map: bool) -> GameStateView {
    if c.change_game_state is Some {
        match (cap_group(c.change_game_state, 1), cap_group(c.change_game_state, 2)) {
            (Some(a), Some(b)) => after_game_state_change(s, lowercase(a), read_u32(b, 0), hideout_map),
            _ => s,
        }
    } else if c.hideout_lobby_state is Some {
        match cap_group(c.hideout_lobby_state, 2) {
            Some(g) => if read_i64(g, -1i64) == 0 && s.phase == GamePhase::Hideout {
                s.party_cleared()
            } else {
                s
            },
            None => s,
        }
    } else if c.host_activate is Some {
        match cap_group(c.host_activate, 1) {
            Some(g) => if lowercase(g) == HIDEOUT_MAP@ {
                GameStateView { hideout_loaded: true, ..s }
            } else {
                s
            },
            None => s,
        }
    } else if c.server_shutdown is Some {
        match cap_group(c.server_shutdown, 1) {
            Some(g) => if has_infix(uppercase(g), "EXITING"@) {
                GameStateView::initial()
            } else {
                s
            },
            None => s,
        }
    } else {
        chain_counts(s, line, c)
    }
}

/// Main signals, last part: shutdown, hero precaching, player counts and bots.
pub open spec fn chain_counts(s: GameStateView, line: Seq<char>, c: LineCaps) -> GameStateView {
    if has_infix(line, APP_SHUTDOWN@) || has_infix(line, SOURCE2_SHUTDOWN@) {
        GameStateView::initial()
    } else if c.precaching_heroes is Some {
        match cap_group(c.precaching_heroes, 1) {
            Some(g) => if read_u32(g, 0) > 0 {
                GameStateView { hideout_loaded: false, ..s }
            } else {
                s
            },
            None => s,
        }
    } else if c.player_info is Some {
        if s.phase == GamePhase::MatchIntro || s.phase == GamePhase::InMatch {
            match cap_group(c.player_info, 1) {
                Some(g) => {
                    let count = read_u32(g, 0);
                    let s1 = if count > 0 && count > s.pending_player_count {
                        GameStateView { pending_player_count: count, ..s }
                    } else {
                        s
                    };
                    if s1.phase == GamePhase::InMatch {
                        after_mode_inference(s1)
                    } else {
                        s1
                    }
                },
                None => s,
            }
        } else {
            s
        }
    } else if c.bot_init is Some && (s.phase == GamePhase::MatchIntro || s.phase
        == GamePhase::InMatch) && s.match_mode == MatchMode::Unknown {
        GameStateView { match_mode: MatchMode::BotMatch, ..s }
    } else {
        s
    }
}

/// What a log line whose pattern captures are `c` does to the game state: its
/// side signals (account id, party events), then the first main signal that
/// the line carries.
pub open spec fn line_effect_with(s: GameStateView, line: Seq<char>, c: LineCaps) -> GameStateView {
    let s1 = after_side_signals(s, c);
    chain_maps(s1, line, c, s1.map_name == Some(HIDEOUT_MAP@))
}

/// What one log line does to the game state.
pub open spec fn line_effect(s: GameStateView, line: Seq<char>) -> GameStateView {
    line_effect_with(s, line, line_caps(line))
}

fn side_signals(lcap: &LineCaptures, state: &mut GameState)
    ensures
        final(state)@ == after_side_signals(old(state)@, lcap@),
{
    if state.local_account_id.is_none() {
        let caps = &lcap.local_account_id;
        match group_of(caps, 1) {
            Some(g) => {
                let id = u64_or(&g, 0);
                if id > 0 {
                    state.local_account_id = Some(id);
                }
            },
            None => {},
        }
    }
    let caps = &lcap.party_event;
    let a = group_of(caps, 1);
    let b = group_of(caps, 2);
    let c = group_of(caps, 3);
    match (a, b, c) {
        (Some(a), Some(b), Some(c)) => {
            let party_id = u64_or(&a, 0);
            let account_id = u64_or(&c, 0);
            state.apply_party_event(party_id, b.as_str(), account_id);
        },
        _ => {},
    }
}

fn match_setup(state: &mut GameState)
    ensures
        final(state)@ == after_match_setup(old(state)@),
{
    state.prepare_match_hero_tracking();
    match state.phase {
        GamePhase::MainMenu | GamePhase::Hideout | GamePhase::InQueue | GamePhase::MatchIntro => {
            state.enter_match_intro();
        },
        _ => {},
    }
}

fn step_maps(line: &str, lc: &Vec<char>, state: &mut GameState, lcap: &LineCaptures, hideout_map: bool)
    requires
        lc@ == line@,
    ensures
        final(state)@ == chain_maps(old(state)@, line@, lcap@, hideout_map),
{
    let caps = &lcap.map_created_physics;
    if caps.is_some() {
        match group_of(caps, 1) {
            Some(m) => apply_map(state, m.as_str()),
            None => {},
        }
        return;
    }
    let caps = &lcap.map_info;
    if caps.is_some() {
        match group_of(caps, 1) {
            Some(m) => {
                let mc = chars_of(m.as_str());
                if !str_is(mc.as_slice(), "start") {
                    apply_map(state, m.as_str());
                }
            },
            None => {},
        }
        return;
    }
    let start = chars_of(START_MATCHMAKING);
    if contains(lc.as_slice(), start.as_slice()) {
        match state.phase {
            GamePhase::Hideout | GamePhase::MainMenu => state.enter_queue(),
            _ => {},
        }
        return;
    }
    let stop = chars_of(STOP_MATCHMAKING);
    if contains(lc.as_slice(), stop.as_slice()) {
        if state.phase == GamePhase::InQueue {
            state.leave_queue();
        }
        return;
    }
    step_lobby(line, lc, state, lcap, hideout_map);
}

fn step_lobby(line: &str, lc: &Vec<char>, state: &mut GameState, lcap: &LineCaptures, hideout_map: bool)
    requires
        lc@ == line@,
    ensures
        final(state)@ == chain_lobby(old(state)@, line@, lcap@, hideout_map),
{
    if lcap.lobby_created.is_some() {
        match_setup(state);
        return;
    }
    if lcap.lobby_destroyed.is_some() {
        state.end_match();
        return;
    }
    if lcap.spectate_broadcast.is_some() {
        state.enter_spectating();
        state.hideout_loaded = false;
        return;
    }
    let caps = &lcap.server_connect;
    if caps.is_some() {
        match group_of(caps, 1) {
            Some(addr) => {
                let lower = to_lowercase(addr.as_str());
                let lc2 = chars_of(lower.as_str());
                let loopback = chars_of("loopback");
                if !contains(lc2.as_slice(), loopback.as_slice()) {
                    match_setup(state);
                }
            },
            None => {},
        }
        return;
    }
    step_heroes(line, state, lcap, hideout_map);
}

fn step_heroes(line: &str, state: &mut GameState, lcap: &LineCaptures, hideout_map: bool)
    ensures
        final(state)@ == chain_heroes(old(state)@, line@, lcap@, hideout_map),
{
    let caps = &lcap.loaded_hero;
    if caps.is_some() {
        match group_of(caps, 1) {
            Some(h) => {
                let hero = normalize_hero_key(h.as_str());
                if state.phase != GamePhase::Hideout || state.hideout_loaded {
                    state.apply_hero_signal(hero.as_str());
                }
            },
            None => {},
        }
        return;
    }
    let caps = &lcap.client_hero_vmdl;
    if caps.is_some() {
        match group_of(caps, 1) {
            Some(h) => {
                let hero = normalize_hero_key(h.as_str());
                state.apply_hero_signal(hero.as_str());
            },
            None => {},
        }
        return;
    }
    let caps = &lcap.server_disconnect;
    if caps.is_some() {
        match group_of(caps, 1) {
            Some(g) => {
                let reason = to_uppercase(g.as_str());
                let rc = chars_of(reason.as_str());
                let exiting = chars_of("EXITING");
                let deactivate = chars_of("LOOPDEACTIVATE");
                if contains(rc.as_slice(), exiting.as_slice()) {
                    state.reset();
                } else if !contains(rc.as_slice(), deactivate.as_slice()) {
                    match state.phase {
                        GamePhase::InMatch | GamePhase::MatchIntro | GamePhase::Spectating => {
                            state.end_match();
                        },
                        _ => {},
                    }
                }
            },
            None => {},
        }
        return;
    }
    if lcap.loop_mode_menu.is_some() {
        match state.phase {
            GamePhase::InMatch | GamePhase::MatchIntro | GamePhase::Spectating => {
                state.end_match();
            },
            _ => {},
        }
        return;
    }
    step_game_state(line, state, lcap, hideout_map);
}

fn game_state_change(state: &mut GameState, name: &String, id: u32, hideout_map: bool)
    ensures
        final(state)@ == after_game_state_change(old(state)@, name@, id, hideout_map),
{
    if state.phase != GamePhase::Spectating && !hideout_map && !state.hideout_loaded {
        let n = chars_of(name.as_str());
        if str_is(n.as_slice(), "matchintro") || id == 4 {
            state.enter_match_intro();
        } else if str_is(n.as_slice(), "gameinprogress") || str_is(n.as_slice(), "inprogress")
            || id == 7 {
            state.start_match();
        } else if str_is(n.as_slice(), "postgame") || id == 6 {
            state.end_match();
        }
    }
}

fn step_game_state(line: &str, state: &mut GameState, lcap: &LineCaptures, hideout_map: bool)
    ensures
        final(state)@ == chain_game_state(old(state)@, line@, lcap@, hideout_map),
{
    let caps = &lcap.change_game_state;
    if caps.is_some() {
        match (group_of(caps, 1), group_of(caps, 2)) {
            (Some(a), Some(b)) => {
                let name = to_lowercase(a.as_str());
                let id = u32_or(&b, 0);
                game_state_change(state, &name, id, hideout_map);
            },
            _ => {},
        }
        return;
    }
    let caps = &lcap.hideout_lobby_state;
    if caps.is_some() {
        match group_of(caps, 2) {
            Some(g) => {
                let lobby_id = i64_or(&g, -1);
                if lobby_id == 0 && state.phase == GamePhase::Hideout {
                    state.clear_party();
                }
            },
            None => {},
        }
        return;
    }
    let caps = &lcap.host_activate;
    if caps.is_some() {
        match group_of(caps, 1) {
            Some(g) => {
                let map = to_lowercase(g.as_str());
                let mc = chars_of(map.as_str());
                if str_is(mc.as_slice(), HIDEOUT_MAP) {
                    state.hideout_loaded = true;
                }
            },
            None => {},
        }
        return;
    }
    let caps = &lcap.server_shutdown;
    if caps.is_some() {
        match group_of(caps, 1) {
            Some(g) => {
                let reason = to_uppercase(g.as_str());
                let rc = chars_of(reason.as_str());
                let exiting = chars_of("EXITING");
                if contains(rc.as_slice(), exiting.as_slice()) {
                    state.reset();
                }
            },
            None => {},
        }
        return;
    }
    step_counts(line, state, lcap);
}

fn step_counts(line: &str, state: &mut GameState, lcap: &LineCaptures)
    ensures
        final(state)@ == chain_counts(old(state)@, line@, lcap@),
{
    let lc = chars_of(line);
    let app = chars_of(APP_SHUTDOWN);
    let src2 = chars_of(SOURCE2_SHUTDOWN);
    if contains(lc.as_slice(), app.as_slice()) || contains(lc.as_slice(), src2.as_slice()) {
        state.reset();
        return;
    }
    let caps = &lcap.precaching_heroes;
    if caps.is_some() {
        match group_of(caps, 1) {
            Some(g) => {
                let count = u32_or(&g, 0);
                if count > 0 {
                    state.hideout_loaded = false;
                }
            },
            None => {},
        }
        return;
    }
    let caps = &lcap.player_info;
    if caps.is_some() {
        match state.phase {
            GamePhase::MatchIntro | GamePhase::InMatch => {
                match group_of(caps, 1) {
                    Some(g) => {
                        let count = u32_or(&g, 0);
                        if count > 0 && count > state.pending_player_count {
                            state.pending_player_count = count;
                        }
                        if state.phase == GamePhase::InMatch {
                            try_infer_mode(state);
                        }
                    },
                    None => {},
                }
            },
            _ => {},
        }
        return;
    }
    let bots = lcap.bot_init.is_some();
    if bots && (state.phase == GamePhase::MatchIntro || state.phase == GamePhase::InMatch)
        && state.match_mode == MatchMode::Unknown {
        state.match_mode = MatchMode::BotMatch;
    }
}

/// Applies one (trimmed) log line to the game state.
pub fn process_line(line: &str, state: &mut GameState, p: &Patterns)
    requires
        p.wf(),
    ensures
        final(state)@ == line_effect(old(state)@, line@),
{
    let lcap = line_captures(line, p);
    apply_captures(line, &lcap, state);
}

/// Applies a log line to the game state, given what each line pattern
/// captured in it: the account id and party events it carries, then the first
/// main signal among maps, matchmaking, lobbies, spectating, server
/// connections, heroes, disconnections, game-rules states, the hideout lobby,
/// the host, shutdowns, hero precaching, player counts and bots.
pub fn apply_captures(line: &str, lcap: &LineCaptures, state: &mut GameState)
    ensures
        final(state)@ == line_effect_with(old(state)@, line@, lcap@),
{
    side_signals(lcap, state);
    let is_hideout_map = match &state.map_name {
        Some(m) => {
            let mc = chars_of(m.as_str());
            str_is(mc.as_slice(), HIDEOUT_MAP)
        },
        None => false,
    };
    let lc = chars_of(line);
    step_maps(line, &lc, state, lcap, is_hideout_map);
}

// ---------------------------------------------------------------------------
// Replaying lines.
// ---------------------------------------------------------------------------

/// The state after each of `lines`, trimmed, has been applied in order;
/// with `skip_blank`, lines that are blank once trimmed are passed over.
pub open spec fn replayed(s: GameStateView, lines: Seq<Seq<char>>, skip_blank: bool) -> GameStateView
    decreases lines.len(),
{
    if lines.len() == 0 {
        s
    } else {
        let prev = replayed(s, lines.drop_last(), skip_blank);
        let t = crate::text::trim(lines.last());
        if skip_blank && t.len() == 0 {
            prev
        } else {
            line_effect(prev, t)
        }
    }
}

fn replay_lines(state: &mut GameState, lines: &Vec<String>, p: &Patterns, skip_blank: bool)
    requires
        p.wf(),
    ensures
        final(state)@ == replayed(old(state)@, lines.deep_view(), skip_blank),
{
    let ghost start = state@;
    let n = lines.len();
    assert(lines.deep_view().take(0) =~= Seq::<Seq<char>>::empty());
    for i in 0..n
        invariant
            n == lines.len(),
            p.wf(),
            state@ == replayed(start, lines.deep_view().take(i as int), skip_blank),
    {
        let t = crate::text::trim_str(lines[i].as_str());
        let blank = t.as_str().is_empty();
        if !(skip_blank && blank) {
            process_line(t.as_str(), state, p);
        }
        assert(lines.deep_view().take(i + 1).drop_last() =~= lines.deep_view().take(i as int));
        assert(lines.deep_view().take(i + 1).last() == lines[i as int]@);
    }
    assert(lines.deep_view().take(n as int) =~= lines.deep_view());
}

/// Replays a log tail read at start-up (or after a resync): the game is taken
/// to be at the main menu, then every line, trimmed, is applied in order.
pub fn replay_log(state: &mut GameState, lines: &Vec<String>, p: &Patterns)
    requires
        p.wf(),
    ensures
        final(state)@ == replayed(old(state)@.with_phase(GamePhase::MainMenu), lines.deep_view(), false),
{
    state.enter_main_menu();
    replay_lines(state, lines, p, false);
}

/// Applies the lines appended to the log since the last poll, trimmed, in
/// order, passing over blank ones.
pub fn apply_new_lines(state: &mut GameState, lines: &Vec<String>, p: &Patterns)
    requires
        p.wf(),
    ensures
        final(state)@ == replayed(old(state)@, lines.deep_view(), true),
{
    replay_lines(state, lines, p, true);
}

/// `lines` without its first one, if there is one.
pub open spec fn without_first_line(lines: Seq<Seq<char>>) -> Seq<Seq<char>> {
    if lines.len() > 0 {
        lines.drop_first()
    } else {
        lines
    }
}

/// The complete lines of the log bytes read from some offset: the bytes are
/// decoded (invalid sequences replaced) and split into lines; when
/// `skip_partial`, the first line, which the offset may have cut, is dropped.
pub fn log_lines(bytes: &[u8], skip_partial: bool) -> (r: Vec<String>)
    ensures
        r.deep_view() == (if skip_partial {
            without_first_line(text_lines(utf8_lossy(bytes@)))
        } else {
            text_lines(utf8_lossy(bytes@))
        }),
{
    let text = decode_lossy(bytes);
    let mut lines = split_lines(text.as_str());
    if skip_partial && lines.len() > 0 {
        let ghost all = lines.deep_view();
        lines.remove(0);
        assert(lines.deep_view() =~= all.drop_first());
    }
    lines
}

// ---------------------------------------------------------------------------
// The polling loop.
// ---------------------------------------------------------------------------

#[verifier::external_type_specification]
#[verifier::external_body]
pub struct ExPathBuf(std::path::PathBuf);

/// Watches the game's console log file.
#[derive(Debug)]
pub struct LogWatcher {
    pub log_path: std::path::PathBuf,
    /// Milliseconds between log file polls (from config).
    pub poll_interval_ms: u64,
}

impl LogWatcher {
    pub fn new(log_path: std::path::PathBuf, poll_interval_ms: u64) -> (r: Self)
        ensures
            r.log_path == log_path,
            r.poll_interval_ms == poll_interval_ms,
    {
        LogWatcher { log_path, poll_interval_ms }
    }
}

/// How far the watcher has read the log.
#[derive(Clone, Copy, PartialEq, Eq, Debug, Structural)]
pub struct WatchProgress {
    /// The log has been replayed since the watcher (re)started.
    pub initialized: bool,
    /// Byte length of the log when it was last read.
    pub last_pos: u64,
}

/// What one poll sees.
#[derive(Clone, Copy, PartialEq, Eq, Debug, Structural)]
pub struct LogObservation {
    /// The log file exists.
    pub exists: bool,
    /// Its length in bytes.
    pub size: u64,
    /// The game phase at the time of the poll.
    pub phase: GamePhase,
    /// Nanoseconds since the log last grew (or since the watcher last synced).
    pub silent_nanos: u128,
}

/// What the watcher does after one poll.
#[derive(Clone, Copy, PartialEq, Eq, Debug, Structural)]
pub enum WatchAction {
    /// The log file is missing: reset the game state when `reset`, then wait two seconds.
    AwaitLog { reset: bool },
    /// Replay the log from byte `start` (dropping the first, partial, line when
    /// `skip_partial`), then poll again at once.
    Resync { start: u64, skip_partial: bool },
    /// The log shrank: poll again at once and resync.
    Restart,
    /// Apply the lines after byte `from`, then wait one poll interval.
    ReadNew { from: u64 },
    /// Nothing new; reset the game state when `reset` (a match gone silent),
    /// then wait one poll interval.
    Idle { reset: bool },
}

pub open spec fn stale_match(obs: LogObservation) -> bool {
    (obs.phase == GamePhase::InMatch || obs.phase == GamePhase::MatchIntro) && obs.silent_nanos
        > (MATCH_STALE_SECS as u128) * 1_000_000_000u128
}

/// The progress and action after one poll.
pub open spec fn watch_transition(pr: WatchProgress, obs: LogObservation) -> (WatchProgress, WatchAction) {
    if !obs.exists {
        if pr.initialized {
            (WatchProgress { initialized: false, last_pos: 0 }, WatchAction::AwaitLog { reset: true })
        } else {
            (pr, WatchAction::AwaitLog { reset: false })
        }
    } else if !pr.initialized {
        let start = if obs.size > RESYNC_BYTES {
            (obs.size - RESYNC_BYTES) as u64
        } else {
            0u64
        };
        (
            WatchProgress { initialized: true, last_pos: obs.size },
            WatchAction::Resync { start, skip_partial: start > 0 },
        )
    } else if obs.size < pr.last_pos {
        (WatchProgress { initialized: false, last_pos: 0 }, WatchAction::Restart)
    } else if obs.size > pr.last_pos {
        (WatchProgress { last_pos: obs.size, ..pr }, WatchAction::ReadNew { from: pr.last_pos })
    } else if stale_match(obs) {
        (WatchProgress { initialized: false, last_pos: 0 }, WatchAction::Idle { reset: true })
    } else {
        (pr, WatchAction::Idle { reset: false })
    }
}

impl WatchProgress {
    pub fn new() -> (r: Self)
        ensures
            !r.initialized,
            r.last_pos == 0,
    {
        WatchProgress { initialized: false, last_pos: 0 }
    }

    /// Decides what to do after a poll of the log and advances the progress.
    pub fn step(&mut self, obs: &LogObservation) -> (r: WatchAction)
        ensures
            (*final(self), r) == watch_transition(*old(self), *obs),
    {
        if !obs.exists {
            if self.initialized {
                self.initialized = false;
                self.last_pos = 0;
                return WatchAction::AwaitLog { reset: true };
            }
            return WatchAction::AwaitLog { reset: false };
        }
        if !self.initialized {
            let start = obs.size.saturating_sub(RESYNC_BYTES);
            self.last_pos = obs.size;
            self.initialized = true;
            return WatchAction::Resync { start, skip_partial: start > 0 };
        }
        if obs.size < self.last_pos {
            self.initialized = false;
            self.last_pos = 0;
            return WatchAction::Restart;
        }
        if obs.size > self.last_pos {
            let from = self.last_pos;
            self.last_pos = obs.size;
            return WatchAction::ReadNew { from };
        }
        let active = obs.phase == GamePhase::InMatch || obs.phase == GamePhase::MatchIntro;
        if active && obs.silent_nanos > (MATCH_STALE_SECS as u128) * 1_000_000_000u128 {
            self.initialized = false;
            self.last_pos = 0;
            return WatchAction::Idle { reset: true };
        }
        WatchAction::Idle { reset: false }
    }
}

// ---------------------------------------------------------------------------
// The last raw signals in a log tail.
// ---------------------------------------------------------------------------

/// Which pattern named the map.
#[derive(Clone, Copy, PartialEq, Eq, Debug, Structural)]
pub enum MapSource {
    CreatedPhysics,
    MapInfo,
}

/// Which pattern named the hero.
#[derive(Clone, Copy, PartialEq, Eq, Debug, Structural)]
pub enum HeroSource {
    ServerLoadedHero,
    ClientVmdl,
}

/// A raw phase signal.
#[derive(Debug)]
pub enum PhaseSignal {
    ChangeGameState { name: String, id: String },
    LobbyCreated,
    LobbyDestroyed,
    SpectateBroadcast,
    StartMatchmaking,
    StopMatchmaking,
}

/// A raw phase signal, with its texts as character sequences.
pub enum PhaseSeen {
    ChangeGameState { name: Seq<char>, id: Seq<char> },
    LobbyCreated,
    LobbyDestroyed,
    SpectateBroadcast,
    StartMatchmaking,
    StopMatchmaking,
}

impl View for PhaseSignal {
    type V = PhaseSeen;

    open spec fn view(&self) -> PhaseSeen {
        match self {
            PhaseSignal::ChangeGameState { name, id } => PhaseSeen::ChangeGameState {
                name: name@,
                id: id@,
            },
            PhaseSignal::LobbyCreated => PhaseSeen::LobbyCreated,
            PhaseSignal::LobbyDestroyed => PhaseSeen::LobbyDestroyed,
            PhaseSignal::SpectateBroadcast => PhaseSeen::SpectateBroadcast,
            PhaseSignal::StartMatchmaking => PhaseSeen::StartMatchmaking,
            PhaseSignal::StopMatchmaking => PhaseSeen::StopMatchmaking,
        }
    }
}

/// A raw match-mode signal: a player count, or a bot being initialised.
#[derive(Debug)]
pub enum ModeSignal {
    Players { count: String },
    BotInit,
}

/// A raw match-mode signal, with its text as a character sequence.
pub enum ModeSeen {
    Players { count: Seq<char> },
    BotInit,
}

impl View for ModeSignal {
    type V = ModeSeen;

    open spec fn view(&self) -> ModeSeen {
        match self {
            ModeSignal::Players { count } => ModeSeen::Players { count: count@ },
            ModeSignal::BotInit => ModeSeen::BotInit,
        }
    }
}

/// The last signal of each kind found in a log tail.
#[derive(Debug)]
pub struct LastSignals {
    pub map: Option<(String, MapSource)>,
    pub phase: Option<PhaseSignal>,
    pub mode: Option<ModeSignal>,
    /// The normalised hero key and where it came from.
    pub hero: Option<(String, HeroSource)>,
}

pub open spec fn map_signal(l: Seq<char>) -> Option<(Seq<char>, MapSource)> {
    match group(MAP_CREATED_PHYSICS@, l, 1) {
        Some(m) => Some((m, MapSource::CreatedPhysics)),
        None => match group(MAP_INFO@, l, 1) {
            Some(m) => Some((m, MapSource::MapInfo)),
            None => None,
        },
    }
}

pub open spec fn phase_signal(l: Seq<char>) -> Option<PhaseSeen> {
    match (group(CHANGE_GAME_STATE@, l, 1), group(CHANGE_GAME_STATE@, l, 2)) {
        (Some(a), Some(b)) => Some(PhaseSeen::ChangeGameState { name: a, id: b }),
        _ => if found(LOBBY_CREATED@, l) {
            Some(PhaseSeen::LobbyCreated)
        } else if found(LOBBY_DESTROYED@, l) {
            Some(PhaseSeen::LobbyDestroyed)
        } else if found(SPECTATE_BROADCAST@, l) {
            Some(PhaseSeen::SpectateBroadcast)
        } else if has_infix(l, START_MATCHMAKING@) {
            Some(PhaseSeen::StartMatchmaking)
        } else if has_infix(l, STOP_MATCHMAKING@) {
            Some(PhaseSeen::StopMatchmaking)
        } else {
            None
        },
    }
}

pub open spec fn mode_signal(l: Seq<char>) -> Option<ModeSeen> {
    match group(PLAYER_INFO@, l, 1) {
        Some(c) => Some(ModeSeen::Players { count: c }),
        None => if found(BOT_INIT@, l) {
            Some(ModeSeen::BotInit)
        } else {
            None
        },
    }
}

pub open spec fn hero_signal(l: Seq<char>) -> Option<(Seq<char>, HeroSource)> {
    match group(LOADED_HERO@, l, 1) {
        Some(h) => Some((normalized_hero(h), HeroSource::ServerLoadedHero)),
        None => match group(CLIENT_HERO_VMDL@, l, 1) {
            Some(h) => Some((normalized_hero(h), HeroSource::ClientVmdl)),
            None => None,
        },
    }
}

/// The signal `f` finds in the last of `lines` (trimmed) that carries one.
pub open spec fn latest<T>(lines: Seq<Seq<char>>, f: spec_fn(Seq<char>) -> Option<T>) -> Option<T>
    decreases lines.len(),
{
    if lines.len() == 0 {
        None
    } else {
        match f(crate::text::trim(lines.last())) {
            Some(x) => Some(x),
            None => latest(lines.drop_last(), f),
        }
    }
}

pub open spec fn opt_pair_view<A>(o: Option<(String, A)>) -> Option<(Seq<char>, A)> {
    match o {
        Some((s, a)) => Some((s@, a)),
        None => None,
    }
}

pub open spec fn opt_phase_view(o: Option<PhaseSignal>) -> Option<PhaseSeen> {
    match o {
        Some(x) => Some(x@),
        None => None,
    }
}

pub open spec fn opt_mode_view(o: Option<ModeSignal>) -> Option<ModeSeen> {
    match o {
        Some(x) => Some(x@),
        None => None,
    }
}

fn map_signal_of(l: &str, p: &Patterns) -> (r: Option<(String, MapSource)>)
    requires
        p.wf(),
    ensures
        opt_pair_view(r) == map_signal(l@),
{
    proof {
        p.lemma_sources();
    }
    match group_of(&captures(&p.map_created_physics, l), 1) {
        Some(m) => Some((m, MapSource::CreatedPhysics)),
        None => match group_of(&captures(&p.map_info, l), 1) {
            Some(m) => Some((m, MapSource::MapInfo)),
            None => None,
        },
    }
}

fn phase_signal_of(l: &str, p: &Patterns) -> (r: Option<PhaseSignal>)
    requires
        p.wf(),
    ensures
        opt_phase_view(r) == phase_signal(l@),
{
    proof {
        p.lemma_sources();
    }
    let caps = captures(&p.change_game_state, l);
    match (group_of(&caps, 1), group_of(&caps, 2)) {
        (Some(a), Some(b)) => {
            return Some(PhaseSignal::ChangeGameState { name: a, id: b });
        },
        _ => {},
    }
    if captures(&p.lobby_created, l).is_some() {
        return Some(PhaseSignal::LobbyCreated);
    }
    if captures(&p.lobby_destroyed, l).is_some() {
        return Some(PhaseSignal::LobbyDestroyed);
    }
    if captures(&p.spectate_broadcast, l).is_some() {
        return Some(PhaseSignal::SpectateBroadcast);
    }
    if crate::text::str_contains(l, START_MATCHMAKING) {
        return Some(PhaseSignal::StartMatchmaking);
    }
    if crate::text::str_contains(l, STOP_MATCHMAKING) {
        return Some(PhaseSignal::StopMatchmaking);
    }
    None
}

fn mode_signal_of(l: &str, p: &Patterns) -> (r: Option<ModeSignal>)
    requires
        p.wf(),
    ensures
        opt_mode_view(r) == mode_signal(l@),
{
    proof {
        p.lemma_sources();
    }
    match group_of(&captures(&p.player_info, l), 1) {
        Some(c) => Some(ModeSignal::Players { count: c }),
        None => if captures(&p.bot_init, l).is_some() {
            Some(ModeSignal::BotInit)
        } else {
            None
        },
    }
}

fn hero_signal_of(l: &str, p: &Patterns) -> (r: Option<(String, HeroSource)>)
    requires
        p.wf(),
    ensures
        opt_pair_view(r) == hero_signal(l@),
{
    proof {
        p.lemma_sources();
    }
    match group_of(&captures(&p.loaded_hero, l), 1) {
        Some(h) => Some((normalize_hero_key(h.as_str()), HeroSource::ServerLoadedHero)),
        None => match group_of(&captures(&p.client_hero_vmdl, l), 1) {
            Some(h) => Some((normalize_hero_key(h.as_str()), HeroSource::ClientVmdl)),
            None => None,
        },
    }
}

proof fn lemma_latest_step<T>(lines: Seq<Seq<char>>, j: int, f: spec_fn(Seq<char>) -> Option<T>)
    requires
        0 < j <= lines.len(),
    ensures
        latest(lines.take(j), f) == (match f(crate::text::trim(lines[j - 1])) {
            Some(x) => Some(x),
            None => latest(lines.take(j - 1), f),
        }),
{
    assert(lines.take(j).drop_last() =~= lines.take(j - 1));
}

/// Scans the buffered log lines in reverse and returns the last raw signal of
/// each kind (map, phase, match mode, hero), so that the state derived from a
/// replay can be cross-checked against what was actually seen in the log.
pub fn log_last_instances(lines: &Vec<String>, p: &Patterns) -> (r: LastSignals)
    requires
        p.wf(),
    ensures
        opt_pair_view(r.map) == latest(lines.deep_view(), |l: Seq<char>| map_signal(l)),
        opt_phase_view(r.phase) == latest(lines.deep_view(), |l: Seq<char>| phase_signal(l)),
        opt_mode_view(r.mode) == latest(lines.deep_view(), |l: Seq<char>| mode_signal(l)),
        opt_pair_view(r.hero) == latest(lines.deep_view(), |l: Seq<char>| hero_signal(l)),
{
    let ghost ls = lines.deep_view();
    let ghost fm = |l: Seq<char>| map_signal(l);
    let ghost fp = |l: Seq<char>| phase_signal(l);
    let ghost fo = |l: Seq<char>| mode_signal(l);
    let ghost fh = |l: Seq<char>| hero_signal(l);
    let mut map: Option<(String, MapSource)> = None;
    let mut phase: Option<PhaseSignal> = None;
    let mut mode: Option<ModeSignal> = None;
    let mut hero: Option<(String, HeroSource)> = None;
    let mut j: usize = lines.len();
    assert(ls.take(j as int) =~= ls);
    while j > 0
        invariant
            j <= lines.len(),
            ls == lines.deep_view(),
            p.wf(),
            fm == (|l: Seq<char>| map_signal(l)),
            fp == (|l: Seq<char>| phase_signal(l)),
            fo == (|l: Seq<char>| mode_signal(l)),
            fh == (|l: Seq<char>| hero_signal(l)),
            map is Some ==> opt_pair_view(map) == latest(ls, fm),
            map is None ==> latest(ls, fm) == latest(ls.take(j as int), fm),
            phase is Some ==> opt_phase_view(phase) == latest(ls, fp),
            phase is None ==> latest(ls, fp) == latest(ls.take(j as int), fp),
            mode is Some ==> opt_mode_view(mode) == latest(ls, fo),
            mode is None ==> latest(ls, fo) == latest(ls.take(j as int), fo),
            hero is Some ==> opt_pair_view(hero) == latest(ls, fh),
            hero is None ==> latest(ls, fh) == latest(ls.take(j as int), fh),
        ensures
            map is None ==> latest(ls, fm) is None,
            phase is None ==> latest(ls, fp) is None,
            mode is None ==> latest(ls, fo) is None,
            hero is None ==> latest(ls, fh) is None,
            map is Some ==> opt_pair_view(map) == latest(ls, fm),
            phase is Some ==> opt_phase_view(phase) == latest(ls, fp),
            mode is Some ==> opt_mode_view(mode) == latest(ls, fo),
            hero is Some ==> opt_pair_view(hero) == latest(ls, fh),
        decreases j,
    {
        let t = crate::text::trim_str(lines[j - 1].as_str());
        proof {
            lemma_latest_step(ls, j as int, fm);
            lemma_latest_step(ls, j as int, fp);
            lemma_latest_step(ls, j as int, fo);
            lemma_latest_step(ls, j as int, fh);
            assert(ls[j - 1] == lines[j - 1]@);
            assert(t@ == crate::text::trim(ls[j - 1]));
            assert(fm(t@) == map_signal(t@));
            assert(fp(t@) == phase_signal(t@));
            assert(fo(t@) == mode_signal(t@));
            assert(fh(t@) == hero_signal(t@));
        }
        if map.is_none() {
            map = map_signal_of(t.as_str(), p);
        }
        if phase.is_none() {
            phase = phase_signal_of(t.as_str(), p);
        }
        if mode.is_none() {
            mode = mode_signal_of(t.as_str(), p);
        }
        if hero.is_none() {
            hero = hero_signal_of(t.as_str(), p);
        }
        j = j - 1;
        if map.is_some() && phase.is_some() && mode.is_some() && hero.is_some() {
            break;
        }
    }
    LastSignals { map, phase, mode, hero }
}

} // verus!

verus! {

// ---------------------------------------------------------------------------
// Properties of the log model.
// ---------------------------------------------------------------------------

proof fn lemma_side_signals_wf(s: GameStateView, c: LineCaps)
    requires
        s.party_wf(),
    ensures
        after_side_signals(s, c).party_wf(),
{
    let s1 = if s.local_account_id is None {
        match cap_group(c.local_account_id, 1) {
            Some(g) => if read_u64(g, 0) > 0 {
                GameStateView { local_account_id: Some(read_u64(g, 0)), ..s }
            } else {
                s
            },
            None => s,
        }
    } else {
        s
    };
    match (cap_group(c.party_event, 1), cap_group(c.party_event, 2), cap_group(c.party_event, 3)) {
        (Some(a), Some(b), Some(d)) => {
            crate::game_state::law_party_event_keeps_party_consistent(s1, read_u64(a, 0), lowercase(b), read_u64(d, 0));
        },
        _ => {},
    }
}

/// Every log line keeps the party bookkeeping consistent: the party size stays
/// at least one, and without a party there are no members and the size is one.
pub proof fn law_line_keeps_party_consistent(s: GameStateView, line: Seq<char>)
    requires
        s.party_wf(),
    ensures
        line_effect(s, line).party_wf(),
{
    lemma_side_signals_wf(s, line_caps(line));
}

/// Replaying any sequence of lines keeps the party bookkeeping consistent.
pub proof fn law_replay_keeps_party_consistent(s: GameStateView, lines: Seq<Seq<char>>, skip_blank: bool)
    requires
        s.party_wf(),
    ensures
        replayed(s, lines, skip_blank).party_wf(),
    decreases lines.len(),
{
    if lines.len() > 0 {
        law_replay_keeps_party_consistent(s, lines.drop_last(), skip_blank);
        law_line_keeps_party_consistent(
            replayed(s, lines.drop_last(), skip_blank),
            crate::text::trim(lines.last()),
        );
    }
}

/// The initial state's party bookkeeping is consistent.
pub proof fn law_initial_party_consistent()
    ensures
        GameStateView::initial().party_wf(),
{
}

/// While spectating, neither hero signals nor map names change the state.
pub proof fn law_spectating_ignores_heroes_and_maps(s: GameStateView, hero: Seq<char>, map: Seq<char>)
    requires
        s.phase == GamePhase::Spectating,
    ensures
        s.after_hero_signal(hero) == s,
        after_map(s, map) == s,
{
}

/// Once a hero is locked in for a match (outside the free-swap modes), a
/// signal for another hero does not change it.
pub proof fn law_hero_locked_in(s: GameStateView, hero: Seq<char>)
    requires
        s.phase == GamePhase::MatchIntro || s.phase == GamePhase::InMatch,
        !crate::game_state::mode_is_free_swap(s.match_mode),
        s.hero_key is Some,
        s.hero_key != Some(hero),
    ensures
        s.after_hero_signal(hero) == s,
{
}

/// An empty map name, or the `<empty>` placeholder, changes nothing.
pub proof fn law_blank_map_ignored(s: GameStateView, raw: Seq<char>)
    requires
        lowercase(raw).len() == 0 || lowercase(raw) == "<empty>"@,
    ensures
        after_map(s, raw) == s,
{
}

/// Inferring the match mode a second time changes nothing.
pub proof fn law_mode_inference_idempotent(s: GameStateView)
    ensures
        after_mode_inference(after_mode_inference(s)) == after_mode_inference(s),
{
}

/// A poll never leaves the watcher positioned beyond the end of the log, and a
/// read always starts where the previous one stopped.
pub proof fn law_watch_position(pr: WatchProgress, obs: LogObservation)
    requires
        pr.initialized ==> pr.last_pos <= obs.size || !obs.exists || obs.size < pr.last_pos,
    ensures
        ({
            let (next, action) = watch_transition(pr, obs);
            &&& next.last_pos == 0 || (obs.exists && next.last_pos == obs.size) || next == pr
            &&& action matches WatchAction::ReadNew { from } ==> from == pr.last_pos && from
                < next.last_pos
            &&& action matches WatchAction::Resync { start, skip_partial } ==> start <= obs.size
                && (skip_partial <==> start > 0)
        }),
{
}

/// A quiet log resets the game state only during a match or its intro, after
/// the log has been silent for longer than the stale limit: the menu, the
/// hideout and the queue may stay silent for any length of time.
pub proof fn law_quiet_log_resets_only_active_match(pr: WatchProgress, obs: LogObservation)
    ensures
        watch_transition(pr, obs).1 == (WatchAction::Idle { reset: true }) ==> {
            &&& obs.phase == GamePhase::InMatch || obs.phase == GamePhase::MatchIntro
            &&& obs.silent_nanos > (MATCH_STALE_SECS as u128) * 1_000_000_000u128
        },
{
}

/// The account id of `b` is that of `a`, or forgotten.
pub open spec fn account_kept_or_forgotten(a: GameStateView, b: GameStateView) -> bool {
    b.local_account_id == a.local_account_id || b.local_account_id is None
}

proof fn lemma_account_chain_counts(s: GameStateView, line: Seq<char>, c: LineCaps)
    ensures
        account_kept_or_forgotten(s, chain_counts(s, line, c)),
{
}

proof fn lemma_account_chain_game_state(s: GameStateView, line: Seq<char>, c: LineCaps, hideout_map: bool)
    ensures
        account_kept_or_forgotten(s, chain_game_state(s, line, c, hideout_map)),
{
    lemma_account_chain_counts(s, line, c);
}

proof fn lemma_account_chain_heroes(s: GameStateView, line: Seq<char>, c: LineCaps, hideout_map: bool)
    ensures
        account_kept_or_forgotten(s, chain_heroes(s, line, c, hideout_map)),
{
    lemma_account_chain_game_state(s, line, c, hideout_map);
}

proof fn lemma_account_chain_lobby(s: GameStateView, line: Seq<char>, c: LineCaps, hideout_map: bool)
    ensures
        account_kept_or_forgotten(s, chain_lobby(s, line, c, hideout_map)),
{
    lemma_account_chain_heroes(s, line, c, hideout_map);
}

proof fn lemma_account_chain_maps(s: GameStateView, line: Seq<char>, c: LineCaps, hideout_map: bool)
    ensures
        account_kept_or_forgotten(s, chain_maps(s, line, c, hideout_map)),
{
    lemma_account_chain_lobby(s, line, c, hideout_map);
}

/// Once the player's account id is known, no log line replaces it with
/// another: it stays, or a reset forgets it.
pub proof fn law_account_id_never_replaced(s: GameStateView, line: Seq<char>)
    requires
        s.local_account_id is Some,
    ensures
        account_kept_or_forgotten(s, line_effect(s, line)),
{
    let c = line_caps(line);
    let s1 = after_side_signals(s, c);
    assert(s1.local_account_id == s.local_account_id);
    lemma_account_chain_maps(s1, line, c, s1.map_name == Some(HIDEOUT_MAP@));
}

/// Applying new lines poll by poll gives the same state as applying them all
/// at once: the chunks in which the log is read do not matter.
pub proof fn law_chunked_reading(s: GameStateView, a: Seq<Seq<char>>, b: Seq<Seq<char>>)
    ensures
        replayed(s, a + b, true) == replayed(replayed(s, a, true), b, true),
    decreases b.len(),
{
    if b.len() == 0 {
        assert(a + b =~= a);
    } else {
        law_chunked_reading(s, a, b.drop_last());
        assert((a + b).drop_last() =~= a + b.drop_last());
        assert((a + b).last() == b.last());
    }
}

/// The hero key, when there is one, is an API class name: it starts with `hero_`.
pub open spec fn hero_key_valid(s: GameStateView) -> bool {
    s.hero_key matches Some(k) ==> has_prefix(k, "hero_"@)
}

proof fn lemma_normalized_hero_prefix(raw: Seq<char>)
    ensures
        has_prefix(normalized_hero(raw), "hero_"@),
{
    let s = without_version(lowercase(raw));
    if !has_prefix(s, "hero_"@) {
        assert(("hero_"@ + s).take("hero_"@.len() as int) =~= "hero_"@);
    }
}

proof fn lemma_hero_valid_chain_counts(s: GameStateView, line: Seq<char>, c: LineCaps)
    requires
        hero_key_valid(s),
    ensures
        hero_key_valid(chain_counts(s, line, c)),
{
}

proof fn lemma_hero_valid_chain_game_state(s: GameStateView, line: Seq<char>, c: LineCaps, hideout_map: bool)
    requires
        hero_key_valid(s),
    ensures
        hero_key_valid(chain_game_state(s, line, c, hideout_map)),
{
    lemma_hero_valid_chain_counts(s, line, c);
}

proof fn lemma_hero_valid_chain_heroes(s: GameStateView, line: Seq<char>, c: LineCaps, hideout_map: bool)
    requires
        hero_key_valid(s),
    ensures
        hero_key_valid(chain_heroes(s, line, c, hideout_map)),
{
    if let Some(h) = cap_group(c.loaded_hero, 1) {
        lemma_normalized_hero_prefix(h);
    }
    if let Some(h) = cap_group(c.client_hero_vmdl, 1) {
        lemma_normalized_hero_prefix(h);
    }
    lemma_hero_valid_chain_game_state(s, line, c, hideout_map);
}

proof fn lemma_hero_valid_chain_maps(s: GameStateView, line: Seq<char>, c: LineCaps, hideout_map: bool)
    requires
        hero_key_valid(s),
    ensures
        hero_key_valid(chain_maps(s, line, c, hideout_map)),
{
    lemma_hero_valid_chain_heroes(s, line, c, hideout_map);
}

/// Every log line keeps the hero key an API class name: a hero named by the
/// log is stored only in its normalised form, which starts with `hero_`.
pub proof fn law_hero_key_is_class_name(s: GameStateView, line: Seq<char>)
    requires
        hero_key_valid(s),
    ensures
        hero_key_valid(line_effect(s, line)),
{
    let c = line_caps(line);
    lemma_hero_valid_chain_maps(after_side_signals(s, c), line, c, after_side_signals(s, c).map_name
        == Some(HIDEOUT_MAP@));
}

/// A line on which a lobby is destroyed ends the match: when no map, no
/// matchmaking message and no lobby creation comes first on the line, the
/// phase becomes `PostMatch`, whatever it was, and only the account and party
/// signals of the line change anything else.
pub proof fn law_lobby_destroyed_ends_match(s: GameStateView, line: Seq<char>, c: LineCaps)
    requires
        (c.map_created_physics is None),
        (c.map_info is None),
        !has_infix(line, START_MATCHMAKING@),
        !has_infix(line, STOP_MATCHMAKING@),
        (c.lobby_created is None),
        (c.lobby_destroyed is Some),
    ensures
        line_effect_with(s, line, c).phase == GamePhase::PostMatch,
        line_effect_with(s, line, c) == (GameStateView {
            phase: GamePhase::PostMatch,
            ..after_side_signals(s, c)
        }),
{
}

/// Matchmaking messages move between the hideout (or main menu) and the
/// queue: when no map signal comes first on the line, a start message queues
/// a player who is in the hideout or the main menu, and a stop message (with
/// no start message) returns a queued player to the hideout. In any other
/// phase the phase is kept.
pub proof fn law_matchmaking_queue(s: GameStateView, line: Seq<char>, c: LineCaps)
    requires
        (c.map_created_physics is None),
        (c.map_info is None),
        has_infix(line, START_MATCHMAKING@) || has_infix(line, STOP_MATCHMAKING@),
    ensures
        has_infix(line, START_MATCHMAKING@) ==> line_effect_with(s, line, c).phase == (if s.phase
            == GamePhase::Hideout || s.phase == GamePhase::MainMenu {
            GamePhase::InQueue
        } else {
            s.phase
        }),
        !has_infix(line, START_MATCHMAKING@) ==> line_effect_with(s, line, c).phase == (if s.phase
            == GamePhase::InQueue {
            GamePhase::Hideout
        } else {
            s.phase
        }),
{
}

/// A lobby being created for a match starts the match intro from the main
/// menu, the hideout, the queue or an earlier intro, forgetting the hero and
/// the match mode; a match already in progress, a finished match or
/// spectating keeps its phase. This holds when no map or matchmaking signal
/// comes first on the line.
pub proof fn law_lobby_created_starts_intro(s: GameStateView, line: Seq<char>, c: LineCaps)
    requires
        (c.map_created_physics is None),
        (c.map_info is None),
        !has_infix(line, START_MATCHMAKING@),
        !has_infix(line, STOP_MATCHMAKING@),
        (c.lobby_created is Some),
    ensures
        s.phase == GamePhase::MainMenu || s.phase == GamePhase::Hideout || s.phase
            == GamePhase::InQueue || s.phase == GamePhase::MatchIntro ==> {
            let r = line_effect_with(s, line, c);
            &&& r.phase == GamePhase::MatchIntro
            &&& r.hero_key is None
            &&& r.match_mode == MatchMode::Unknown
            &&& r.pending_player_count == 0
        },
        !(s.phase == GamePhase::MainMenu || s.phase == GamePhase::Hideout || s.phase
            == GamePhase::InQueue || s.phase == GamePhase::MatchIntro) ==> {
            let r = line_effect_with(s, line, c);
            &&& r.phase == s.phase
            &&& r.hero_key is None
        },
{
}

/// A spectator broadcast puts the player in the spectating phase and marks
/// the hideout as not loaded, when no map, matchmaking or lobby signal comes
/// first on the line.
pub proof fn law_spectate_broadcast(s: GameStateView, line: Seq<char>, c: LineCaps)
    requires
        (c.map_created_physics is None),
        (c.map_info is None),
        !has_infix(line, START_MATCHMAKING@),
        !has_infix(line, STOP_MATCHMAKING@),
        (c.lobby_created is None),
        (c.lobby_destroyed is None),
        (c.spectate_broadcast is Some),
    ensures
        line_effect_with(s, line, c).phase == GamePhase::Spectating,
        !line_effect_with(s, line, c).hideout_loaded,
{
}

/// A game-rules state change moves a match along, outside spectating and
/// outside the hideout: `matchintro` (or state 4) starts the intro,
/// `gameinprogress` or `inprogress` (or state 7) starts the match, and
/// `postgame` (or state 6) ends it. Other states, and any state while
/// spectating or in the hideout, leave the state unchanged.
pub proof fn law_game_rules_state(s: GameStateView, name: Seq<char>, id: u32, hideout_map: bool)
    ensures
        s.phase == GamePhase::Spectating || hideout_map || s.hideout_loaded
            ==> after_game_state_change(s, name, id, hideout_map) == s,
        s.phase != GamePhase::Spectating && !hideout_map && !s.hideout_loaded ==> {
            let r = after_game_state_change(s, name, id, hideout_map);
            &&& (name == "matchintro"@ || id == 4) ==> r.phase == GamePhase::MatchIntro
                && r.hero_key is None && r.match_mode == MatchMode::Unknown
            &&& !(name == "matchintro"@ || id == 4) && (name == "gameinprogress"@ || name
                == "inprogress"@ || id == 7) ==> r == s.with_phase(GamePhase::InMatch)
            &&& !(name == "matchintro"@ || id == 4) && !(name == "gameinprogress"@ || name
                == "inprogress"@ || id == 7) && (name == "postgame"@ || id == 6) ==> r
                == s.with_phase(GamePhase::PostMatch)
            &&& !(name == "matchintro"@ || id == 4) && !(name == "gameinprogress"@ || name
                == "inprogress"@ || id == 7) && !(name == "postgame"@ || id == 6) ==> r == s
        },
{
}

/// Leaving a server: when the disconnect reason (in upper case) names
/// `EXITING` the game is closing and the state goes back to its initial
/// value; any other reason but `LOOPDEACTIVATE` ends a match that is being
/// played or watched. This holds when no earlier signal on the line claims it.
pub proof fn law_server_disconnect(s: GameStateView, line: Seq<char>, c: LineCaps, reason: Seq<char>)
    requires
        (c.map_created_physics is None),
        (c.map_info is None),
        !has_infix(line, START_MATCHMAKING@),
        !has_infix(line, STOP_MATCHMAKING@),
        (c.lobby_created is None),
        (c.lobby_destroyed is None),
        (c.spectate_broadcast is None),
        (c.server_connect is None),
        (c.loaded_hero is None),
        (c.client_hero_vmdl is None),
        cap_group(c.server_disconnect, 1) == Some(reason),
    ensures
        has_infix(uppercase(reason), "EXITING"@) ==> line_effect_with(s, line, c)
            == GameStateView::initial(),
        !has_infix(uppercase(reason), "EXITING"@) && !has_infix(uppercase(reason), "LOOPDEACTIVATE"@)
            && (s.phase == GamePhase::InMatch || s.phase == GamePhase::MatchIntro || s.phase
            == GamePhase::Spectating) ==> line_effect_with(s, line, c).phase == GamePhase::PostMatch,
        !has_infix(uppercase(reason), "EXITING"@) && !(s.phase == GamePhase::InMatch || s.phase
            == GamePhase::MatchIntro || s.phase == GamePhase::Spectating) ==> line_effect_with(
            s,
            line,
            c,
        ).phase == s.phase,
{
}

/// Deadlock's main map tells its modes apart by the number of players: once
/// at least nine players are counted the match is a standard one, four to
/// eight make a street brawl, and fewer leave the mode undecided. A mode that
/// is already known is never changed.
pub proof fn law_mode_from_player_count(s: GameStateView)
    ensures
        s.match_mode != MatchMode::Unknown ==> after_mode_inference(s) == s,
        s.match_mode == MatchMode::Unknown && s.map_name == Some("dl_midtown"@) ==> {
            let r = after_mode_inference(s);
            &&& s.pending_player_count >= 9 ==> r.match_mode == MatchMode::Standard
            &&& 4 <= s.pending_player_count < 9 ==> r.match_mode == MatchMode::StreetBrawl
            &&& s.pending_player_count < 4 ==> r.match_mode == MatchMode::Unknown
            &&& r == GameStateView { match_mode: r.match_mode, ..s }
        },
        s.map_name != Some("dl_midtown"@) ==> after_mode_inference(s) == s,
{
}

/// A map name, read without regard to case, moves the state: the hideout map
/// enters the hideout; while the game runs and is not being spectated, any
/// other map starts a match on that map, the training map in training-range
/// mode and the street test maps in standard mode.
pub proof fn law_map_enters_hideout_or_match(s: GameStateView, raw: Seq<char>)
    requires
        s.phase != GamePhase::Spectating,
        lowercase(raw).len() > 0,
        lowercase(raw) != "<empty>"@,
    ensures
        lowercase(raw) == HIDEOUT_MAP@ ==> {
            let r = after_map(s, raw);
            &&& r.phase == GamePhase::Hideout
            &&& r.map_name == Some(lowercase(raw))
            &&& r.hero_key is None
        },
        lowercase(raw) != HIDEOUT_MAP@ && s.phase != GamePhase::NotRunning ==> {
            let r = after_map(s, raw);
            &&& r.phase == GamePhase::InMatch
            &&& r.map_name == Some(lowercase(raw))
            &&& lowercase(raw) == "new_player_basics"@ ==> r.match_mode == MatchMode::TrainingRange
            &&& (lowercase(raw) == "street_test"@ || lowercase(raw) == "street_test_bridge"@)
                ==> r.match_mode == MatchMode::Standard
        },
{
    reveal_strlit("new_player_basics");
    reveal_strlit("street_test");
    reveal_strlit("street_test_bridge");
    assert("street_test"@.len() != "new_player_basics"@.len());
    assert("street_test_bridge"@.len() != "new_player_basics"@.len());
}

} // verus!
