//! Launching the game through Steam and the text of the desktop shortcut.
use crate::updater::TargetOs;
use vstd::prelude::*;

verus! {

/// Deadlock's Steam application id.
pub const DEADLOCK_APP_ID: &'static str = "1422450";

/// The arguments given to Steam: launch Deadlock with console logging on.
pub fn launch_args() -> (r: Vec<String>)
    ensures
        r.deep_view() == seq!["-applaunch"@, DEADLOCK_APP_ID@, "-condebug"@],
{
    let mut v: Vec<String> = Vec::new();
    v.push(String::from_str("-applaunch"));
    v.push(String::from_str(DEADLOCK_APP_ID));
    v.push(String::from_str("-condebug"));
    assert(v.deep_view() =~= seq!["-applaunch"@, DEADLOCK_APP_ID@, "-condebug"@]);
    v
}

/// Where Steam's executable is installed on Windows unless found elsewhere.
pub const DEFAULT_STEAM_EXE: &'static str = "C:\\Program Files (x86)\\Steam\\steam.exe";

/// The program that launches the game: on Windows Steam's executable, where it
/// was `found` or else at its default place; elsewhere `steam` from the path.
pub fn steam_program(os: TargetOs, found: Option<&str>) -> (r: String)
    ensures
        r@ == (match os {
            TargetOs::Unix => "steam"@,
            TargetOs::Windows => match found {
                Some(p) => p@,
                None => DEFAULT_STEAM_EXE@,
            },
        }),
{
    match os {
        TargetOs::Unix => String::from_str("steam"),
        TargetOs::Windows => match found {
            Some(p) => String::from_str(p),
            None => String::from_str(DEFAULT_STEAM_EXE),
        },
    }
}

/// The file name of the shortcut placed next to the executable.
pub open spec fn shortcut_file_name_of(os: TargetOs) -> Seq<char> {
    match os {
        TargetOs::Windows => "Deadlock RPC.lnk"@,
        TargetOs::Unix => "deadlock-rpc.desktop"@,
    }
}

pub fn shortcut_file_name(os: TargetOs) -> (r: &'static str)
    ensures
        r@ == shortcut_file_name_of(os),
{
    match os {
        TargetOs::Windows => "Deadlock RPC.lnk",
        TargetOs::Unix => "deadlock-rpc.desktop",
    }
}

/// The file name of the icon shipped in the `assets` folder for `os`.
pub fn icon_file_name(os: TargetOs) -> (r: &'static str)
    ensures
        r@ == (match os {
            TargetOs::Windows => "icon.ico"@,
            TargetOs::Unix => "icon.png"@,
        }),
{
    match os {
        TargetOs::Windows => "icon.ico",
        TargetOs::Unix => "icon.png",
    }
}

/// The `Icon=` line of the desktop entry, if there is an icon.
pub open spec fn icon_line(icon: Option<Seq<char>>) -> Seq<char> {
    match icon {
        Some(p) => "Icon="@ + p + "\n"@,
        None => Seq::empty(),
    }
}

/// The freedesktop entry that starts the executable `exe`.
pub open spec fn desktop_entry_text(exe: Seq<char>, icon: Option<Seq<char>>) -> Seq<char> {
    "[Desktop Entry]\nVersion=1.0\nName=Deadlock RPC\nComment=Discord Rich Presence for Deadlock\nExec="@
        + exe + "\n"@ + icon_line(icon) + "Terminal=false\nType=Application\nCategories=Game;\n"@
}

/// The freedesktop entry that starts the executable `exe`, with the icon at `icon`.
pub fn desktop_entry(exe: &str, icon: Option<&str>) -> (r: String)
    ensures
        r@ == desktop_entry_text(exe@, crate::game_state::opt_slice(icon)),
{
    let s = String::from_str(
        "[Desktop Entry]\nVersion=1.0\nName=Deadlock RPC\nComment=Discord Rich Presence for Deadlock\nExec=",
    );
    let s = s.concat(exe);
    let s = s.concat("\n");
    let s = match icon {
        Some(p) => {
            let t = s.concat("Icon=");
            let t = t.concat(p);
            t.concat("\n")
        },
        None => s,
    };
    let r = s.concat("Terminal=false\nType=Application\nCategories=Game;\n");
    proof {
        match icon {
            Some(p) => {
                assert(r@ =~= desktop_entry_text(exe@, Some(p@)));
            },
            None => {
                assert(r@ =~= desktop_entry_text(exe@, None));
            },
        }
    }
    r
}

/// The part of the shortcut script that sets the icon, if there is one.
pub open spec fn icon_part(icon: Option<Seq<char>>) -> Seq<char> {
    match icon {
        Some(p) => "$s.IconLocation='"@ + p + "';"@,
        None => Seq::empty(),
    }
}

/// The PowerShell command that creates the shortcut `lnk` to `exe`.
pub open spec fn shortcut_script_text(lnk: Seq<char>, exe: Seq<char>, icon: Option<Seq<char>>) -> Seq<char> {
    "$s=(New-Object -COM WScript.Shell).CreateShortcut('"@ + lnk + "');$s.TargetPath='"@ + exe
        + "';"@ + icon_part(icon) + "$s.Save()"@
}

/// The PowerShell command that creates the shortcut `lnk` to `exe`, with the icon at `icon`.
pub fn shortcut_script(lnk: &str, exe: &str, icon: Option<&str>) -> (r: String)
    ensures
        r@ == shortcut_script_text(lnk@, exe@, crate::game_state::opt_slice(icon)),
{
    let s = String::from_str("$s=(New-Object -COM WScript.Shell).CreateShortcut('");
    let s = s.concat(lnk);
    let s = s.concat("');$s.TargetPath='");
    let s = s.concat(exe);
    let s = s.concat("';");
    let s = match icon {
        Some(p) => {
            let t = s.concat("$s.IconLocation='");
            let t = t.concat(p);
            t.concat("';")
        },
        None => s,
    };
    let r = s.concat("$s.Save()");
    proof {
        match icon {
            Some(p) => {
                assert(r@ =~= shortcut_script_text(lnk@, exe@, Some(p@)));
            },
            None => {
                assert(r@ =~= shortcut_script_text(lnk@, exe@, None));
            },
        }
    }
    r
}

/// What start-up does about launching the game.
#[derive(Clone, Copy, PartialEq, Eq, Debug, Structural)]
pub enum StartupLaunch {
    /// Another instance runs: launch the game again (Steam may be updating),
    /// then exit.
    RelaunchAndExit,
    /// Another instance runs and launching was turned off: exit.
    Exit,
    /// Launch the game and carry on.
    Launch,
    /// Carry on without launching the game.
    Carry,
}

/// Decides start-up's launch: whether another instance holds the lock, whether
/// `--no-launch` was given, and the `auto_launch` setting. `--no-launch`
/// always overrides `auto_launch`.
pub fn startup_launch(other_instance: bool, no_launch_flag: bool, auto_launch: bool) -> (r: StartupLaunch)
    ensures
        r == (if other_instance {
            if no_launch_flag {
                StartupLaunch::Exit
            } else {
                StartupLaunch::RelaunchAndExit
            }
        } else if no_launch_flag || !auto_launch {
            StartupLaunch::Carry
        } else {
            StartupLaunch::Launch
        }),
{
    if other_instance {
        if no_launch_flag {
            StartupLaunch::Exit
        } else {
            StartupLaunch::RelaunchAndExit
        }
    } else if no_launch_flag || !auto_launch {
        StartupLaunch::Carry
    } else {
        StartupLaunch::Launch
    }
}

} // verus!
