//! Recognising the game's process, and waiting for it to exit before
//! killing it.
use crate::numbers::{in_range, parse_u32_chars, unsigned_decimal};
use crate::text::{
    ascii_lower_char, chars_eq, chars_of, contains, decode_lossy, has_infix, trim, trim_chars,
    utf8_lossy,
};
use crate::updater::TargetOs;
use vstd::prelude::*;

verus! {

/// The game's process name on `os`.
pub open spec fn game_process_of(os: TargetOs) -> Seq<char> {
    match os {
        TargetOs::Windows => "deadlock.exe"@,
        TargetOs::Unix => "deadlock"@,
    }
}

pub fn game_process(os: TargetOs) -> (r: &'static str)
    ensures
        r@ == game_process_of(os),
{
    match os {
        TargetOs::Windows => "deadlock.exe",
        TargetOs::Unix => "deadlock",
    }
}

/// How long to wait for a clean exit before force-killing.
pub const EXIT_WAIT_SECS: u64 = 30;

/// Whether a process whose `comm` (command name, as `/proc` shows it) is
/// `comm` is the game.
pub fn is_game_comm(comm: &str) -> (r: bool)
    ensures
        r == (trim(comm@) == game_process_of(TargetOs::Unix)),
{
    let c = chars_of(comm);
    let t = trim_chars(c.as_slice());
    let name = chars_of(game_process(TargetOs::Unix));
    chars_eq(t.as_slice(), name.as_slice())
}

/// Whether the output of `tasklist` shows the game: the decoded text,
/// ASCII-lowercased, mentions `deadlock.exe`.
pub fn tasklist_shows_game(stdout: &[u8]) -> (r: bool)
    ensures
        r == has_infix(utf8_lossy(stdout@).map_values(|c: char| ascii_lower_char(c)), "deadlock.exe"@),
{
    let output = decode_lossy(stdout);
    let c = chars_of(output.as_str());
    let mut lower: Vec<char> = Vec::new();
    let mut i: usize = 0;
    while i < c.len()
        invariant
            i <= c.len(),
            c@ == utf8_lossy(stdout@),
            lower@ == c@.take(i as int).map_values(|x: char| ascii_lower_char(x)),
        decreases c.len() - i,
    {
        let x = c[i];
        let y = if 'A' <= x && x <= 'Z' {
            ((x as u8) + 32) as char
        } else {
            x
        };
        assert(y == ascii_lower_char(x)) by {
            if 'A' <= x && x <= 'Z' {
                assert((((x as u8) + 32) as char) == (((x as u32) + 32) as char));
            }
        }
        lower.push(y);
        assert(c@.take(i + 1).map_values(|x: char| ascii_lower_char(x)) =~= c@.take(
            i as int,
        ).map_values(|x: char| ascii_lower_char(x)).push(ascii_lower_char(x)));
        i = i + 1;
    }
    assert(c@.take(c.len() as int) =~= c@);
    let name = chars_of("deadlock.exe");
    contains(lower.as_slice(), name.as_slice())
}

/// The process id to signal for a `/proc` entry named `dir_name` whose command
/// name is `comm`: the entry's number, when the process is the game.
pub fn kill_target(dir_name: &str, comm: &str) -> (r: Option<u32>)
    ensures
        r == (if trim(comm@) == game_process_of(TargetOs::Unix) {
            match in_range(unsigned_decimal(dir_name@), 0, u32::MAX as int) {
                Some(v) => Some(v as u32),
                None => None,
            }
        } else {
            None
        }),
{
    if !is_game_comm(comm) {
        return None;
    }
    let d = chars_of(dir_name);
    parse_u32_chars(d.as_slice())
}

/// What the guard does after one look at the game's process.
#[derive(Clone, Copy, PartialEq, Eq, Debug, Structural)]
pub enum GuardAction {
    /// The game has exited; stop.
    Exited,
    /// The game outlived the wait; kill it and stop.
    ForceKill,
    /// Look again later.
    KeepWaiting,
}

/// Decides after one look whether the game exited, must be killed, or may be
/// waited for a while longer.
pub fn guard_step(running: bool, past_deadline: bool) -> (r: GuardAction)
    ensures
        r == (if !running {
            GuardAction::Exited
        } else if past_deadline {
            GuardAction::ForceKill
        } else {
            GuardAction::KeepWaiting
        }),
{
    if !running {
        GuardAction::Exited
    } else if past_deadline {
        GuardAction::ForceKill
    } else {
        GuardAction::KeepWaiting
    }
}

} // verus!
