use deadlock_rpc::launcher::{
    startup_launch, StartupLaunch, desktop_entry, icon_file_name, launch_args, shortcut_file_name, shortcut_script,
    steam_program, DEADLOCK_APP_ID,
};
use deadlock_rpc::process_guard::{
    game_process, guard_step, is_game_comm, kill_target, tasklist_shows_game, GuardAction,
    EXIT_WAIT_SECS,
};
use deadlock_rpc::tray::{build_tray, fallback_icon_rgba, icon_rgba, rgba_to_argb, FALLBACK_ICON_SIZE};
use deadlock_rpc::updater::TargetOs;

#[test]
fn steam_launch_command() {
    assert_eq!(DEADLOCK_APP_ID, "1422450");
    assert_eq!(launch_args(), vec!["-applaunch", "1422450", "-condebug"]);
    assert_eq!(steam_program(TargetOs::Unix, Some("ignored")), "steam");
    assert_eq!(steam_program(TargetOs::Windows, Some("D:\\Steam\\steam.exe")), "D:\\Steam\\steam.exe");
    assert_eq!(
        steam_program(TargetOs::Windows, None),
        "C:\\Program Files (x86)\\Steam\\steam.exe"
    );
}

#[test]
fn shortcut_names() {
    assert_eq!(shortcut_file_name(TargetOs::Windows), "Deadlock RPC.lnk");
    assert_eq!(shortcut_file_name(TargetOs::Unix), "deadlock-rpc.desktop");
    assert_eq!(icon_file_name(TargetOs::Windows), "icon.ico");
    assert_eq!(icon_file_name(TargetOs::Unix), "icon.png");
}

#[test]
fn desktop_entry_text() {
    let with_icon = desktop_entry("/opt/rpc/deadlock-rpc", Some("/opt/rpc/assets/icon.png"));
    assert_eq!(
        with_icon,
        "[Desktop Entry]\nVersion=1.0\nName=Deadlock RPC\nComment=Discord Rich Presence for Deadlock\nExec=/opt/rpc/deadlock-rpc\nIcon=/opt/rpc/assets/icon.png\nTerminal=false\nType=Application\nCategories=Game;\n"
    );
    let without = desktop_entry("/x", None);
    assert!(!without.contains("Icon="));
    assert!(without.contains("Exec=/x\nTerminal=false"));
}

#[test]
fn shortcut_script_text() {
    assert_eq!(
        shortcut_script("C:\\r\\Deadlock RPC.lnk", "C:\\r\\deadlock-rpc.exe", Some("C:\\r\\assets\\icon.ico")),
        "$s=(New-Object -COM WScript.Shell).CreateShortcut('C:\\r\\Deadlock RPC.lnk');$s.TargetPath='C:\\r\\deadlock-rpc.exe';$s.IconLocation='C:\\r\\assets\\icon.ico';$s.Save()"
    );
    assert_eq!(
        shortcut_script("a.lnk", "a.exe", None),
        "$s=(New-Object -COM WScript.Shell).CreateShortcut('a.lnk');$s.TargetPath='a.exe';$s.Save()"
    );
}

#[test]
fn recognising_the_game_process() {
    assert_eq!(game_process(TargetOs::Windows), "deadlock.exe");
    assert_eq!(game_process(TargetOs::Unix), "deadlock");
    assert_eq!(EXIT_WAIT_SECS, 30);
    assert!(is_game_comm("deadlock\n"));
    assert!(!is_game_comm("deadlock-rpc\n"));
    assert!(tasklist_shows_game(b"DEADLOCK.EXE   1234 Console   1   2,000 K"));
    assert!(!tasklist_shows_game(b"INFO: No tasks are running which match the specified criteria."));
    assert!(tasklist_shows_game(&[0xff, b' ', b'd', b'e', b'a', b'd', b'l', b'o', b'c', b'k', b'.', b'e', b'x', b'e']));
}

#[test]
fn kill_targets() {
    assert_eq!(kill_target("4242", "deadlock\n"), Some(4242));
    assert_eq!(kill_target("4242", "bash\n"), None);
    assert_eq!(kill_target("self", "deadlock"), None);
    assert_eq!(kill_target("99999999999", "deadlock"), None);
}

#[test]
fn guard_decisions() {
    assert_eq!(guard_step(false, true), GuardAction::Exited);
    assert_eq!(guard_step(false, false), GuardAction::Exited);
    assert_eq!(guard_step(true, true), GuardAction::ForceKill);
    assert_eq!(guard_step(true, false), GuardAction::KeepWaiting);
}

#[test]
fn argb_reorders_whole_pixels() {
    assert_eq!(rgba_to_argb(&[1, 2, 3, 4, 5, 6, 7, 8]), vec![4, 1, 2, 3, 8, 5, 6, 7]);
    assert_eq!(rgba_to_argb(&[1, 2, 3, 4, 9, 9]), vec![4, 1, 2, 3]);
    assert!(rgba_to_argb(&[]).is_empty());
}

fn png(w: u32, h: u32, px: Vec<u8>) -> Vec<u8> {
    let img = image::RgbaImage::from_raw(w, h, px).unwrap();
    let mut out = std::io::Cursor::new(Vec::new());
    img.write_to(&mut out, image::ImageFormat::Png).unwrap();
    out.into_inner()
}

#[test]
fn tray_image_from_an_icon_file() {
    let file = png(2, 1, vec![10, 20, 30, 255, 40, 50, 60, 128]);
    let t = build_tray(Some(file.as_slice()));
    assert_eq!(t.width, 2);
    assert_eq!(t.height, 1);
    assert_eq!(t.argb, vec![255, 10, 20, 30, 128, 40, 50, 60]);
    let none = build_tray(None);
    assert!(none.argb.is_empty());
    assert_eq!((none.width, none.height), (0, 0));
    let bad = build_tray(Some(&b"not an image"[..]));
    assert!(bad.argb.is_empty());
}

#[test]
fn icon_falls_back_to_a_blue_square() {
    let (px, w, h) = icon_rgba(None);
    assert_eq!((w, h), (FALLBACK_ICON_SIZE, FALLBACK_ICON_SIZE));
    assert_eq!(px, fallback_icon_rgba());
    assert_eq!(px.len(), 32 * 32 * 4);
    assert_eq!(&px[0..8], &[40, 120, 200, 255, 40, 120, 200, 255]);
    let file = png(1, 1, vec![1, 2, 3, 4]);
    assert_eq!(icon_rgba(Some(file.as_slice())), (vec![1, 2, 3, 4], 1, 1));
}

#[test]
fn startup_launch_choices() {
    assert_eq!(startup_launch(true, false, true), StartupLaunch::RelaunchAndExit);
    assert_eq!(startup_launch(true, false, false), StartupLaunch::RelaunchAndExit);
    assert_eq!(startup_launch(true, true, true), StartupLaunch::Exit);
    assert_eq!(startup_launch(false, true, true), StartupLaunch::Carry);
    assert_eq!(startup_launch(false, false, false), StartupLaunch::Carry);
    assert_eq!(startup_launch(false, false, true), StartupLaunch::Launch);
}
