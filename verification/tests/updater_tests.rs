use deadlock_rpc::updater::{
    asset_name, extract_binary, find_asset_url, is_newer, offered_version, parse_version,
    update_prompt_text, zip_binary_path, ReleaseAsset, TargetOs, UpdateAction, UpdateCheck,
    UpdateError, UpdateEvent, UpdateOutcome, UpdatePhase,
};
use std::io::Write;

fn chars(s: &str) -> Vec<char> {
    s.chars().collect()
}

fn asset(name: &str, url: &str) -> ReleaseAsset {
    ReleaseAsset { name: name.to_string(), browser_download_url: url.to_string() }
}

fn zip_with(name: &str, contents: &[u8]) -> Vec<u8> {
    let mut w = zip::ZipWriter::new(std::io::Cursor::new(Vec::new()));
    let opts = zip::write::SimpleFileOptions::default()
        .compression_method(zip::CompressionMethod::Stored);
    w.start_file(name, opts).unwrap();
    w.write_all(contents).unwrap();
    w.finish().unwrap().into_inner()
}

#[test]
fn platform_names() {
    assert_eq!(asset_name(TargetOs::Windows), "deadlock-rpc-setup-windows-x86_64.zip");
    assert_eq!(asset_name(TargetOs::Unix), "deadlock-rpc-setup-linux-x86_64.zip");
    assert_eq!(zip_binary_path(TargetOs::Windows), "deadlock-rpc/deadlock-rpc.exe");
    assert_eq!(zip_binary_path(TargetOs::Unix), "deadlock-rpc/deadlock-rpc");
}

#[test]
fn version_triples() {
    assert_eq!(parse_version(&chars("1.2.3")), (1, 2, 3));
    assert_eq!(parse_version(&chars("1.2")), (1, 2, 0));
    assert_eq!(parse_version(&chars("7")), (7, 0, 0));
    assert_eq!(parse_version(&chars("1.x.3")), (1, 0, 3));
    assert_eq!(parse_version(&chars("")), (0, 0, 0));
    assert_eq!(parse_version(&chars("1.2.3.4")), (1, 2, 0));
}

#[test]
fn newer_versions() {
    assert!(is_newer("v1.2.4", "1.2.3"));
    assert!(is_newer("v2.0.0", "1.9.9"));
    assert!(is_newer("1.3.0", "1.2.9"));
    assert!(!is_newer("v1.2.3", "1.2.3"));
    assert!(!is_newer("v1.2.2", "1.2.3"));
    assert!(!is_newer("v0.9.9", "1.0.0"));
    assert!(is_newer("vv1.0.1", "1.0.0"));
}

#[test]
fn offered_version_drops_the_v() {
    assert_eq!(offered_version("v1.4.0"), "1.4.0");
    assert_eq!(offered_version("1.4.0"), "1.4.0");
}

#[test]
fn prompt_texts() {
    assert_eq!(
        update_prompt_text("1.4.0", "1.3.0", TargetOs::Unix),
        "v1.4.0 is available (you have v1.3.0).\nDownload and install now?"
    );
    assert_eq!(
        update_prompt_text("99.0.0", "1.3.0", TargetOs::Windows),
        "v99.0.0 is available (you have v1.3.0).\r\nDownload and install now?"
    );
}

#[test]
fn asset_for_the_platform() {
    let assets = vec![
        asset("notes.txt", "n"),
        asset("deadlock-rpc-setup-linux-x86_64.zip", "linux-url"),
        asset("deadlock-rpc-setup-windows-x86_64.zip", "windows-url"),
        asset("deadlock-rpc-setup-linux-x86_64.zip", "second-linux-url"),
    ];
    assert_eq!(find_asset_url(&assets, TargetOs::Unix).unwrap(), "linux-url");
    assert_eq!(find_asset_url(&assets, TargetOs::Windows).unwrap(), "windows-url");
    assert!(matches!(
        find_asset_url(&vec![asset("notes.txt", "n")], TargetOs::Unix),
        Err(UpdateError::AssetNotFound)
    ));
}

#[test]
fn binary_taken_out_of_the_archive() {
    let zip = zip_with("deadlock-rpc/deadlock-rpc", b"\x7fELF new build");
    assert_eq!(extract_binary(&zip, TargetOs::Unix).unwrap(), b"\x7fELF new build".to_vec());
    assert!(matches!(extract_binary(&zip, TargetOs::Windows), Err(UpdateError::Archive(_))));
    assert!(matches!(extract_binary(b"not a zip", TargetOs::Unix), Err(UpdateError::Archive(_))));
}

#[test]
fn update_flow_when_accepted() {
    let mut c = UpdateCheck::new("1.0.0", TargetOs::Unix);
    assert_eq!(c.phase, UpdatePhase::FetchingRelease);
    let release = UpdateEvent::Release {
        tag: "v1.1.0".to_string(),
        assets: vec![asset("deadlock-rpc-setup-linux-x86_64.zip", "https://dl/linux.zip")],
    };
    assert!(c.expects(&release));
    match c.step(release) {
        UpdateAction::Ask { version, prompt } => {
            assert_eq!(version, "1.1.0");
            assert_eq!(prompt, "v1.1.0 is available (you have v1.0.0).\nDownload and install now?");
        },
        other => panic!("unexpected action {:?}", other),
    }
    assert_eq!(c.phase, UpdatePhase::AwaitingAnswer);
    match c.step(UpdateEvent::Answer { accepted: true }) {
        UpdateAction::Download { url } => assert_eq!(url, "https://dl/linux.zip"),
        other => panic!("unexpected action {:?}", other),
    }
    let archive = zip_with("deadlock-rpc/deadlock-rpc", b"new");
    match c.step(UpdateEvent::Archive { bytes: archive }) {
        UpdateAction::Install { binary } => assert_eq!(binary, b"new".to_vec()),
        other => panic!("unexpected action {:?}", other),
    }
    assert!(matches!(
        c.step(UpdateEvent::Installed),
        UpdateAction::Finish { outcome: UpdateOutcome::Updated }
    ));
    assert_eq!(c.phase, UpdatePhase::Done);
    assert!(!c.expects(&UpdateEvent::Failed));
}

#[test]
fn update_flow_up_to_date_or_declined() {
    let mut c = UpdateCheck::new("1.0.0", TargetOs::Unix);
    let same = UpdateEvent::Release { tag: "v1.0.0".to_string(), assets: vec![] };
    assert!(matches!(c.step(same), UpdateAction::Finish { outcome: UpdateOutcome::UpToDate }));
    let mut c = UpdateCheck::new("1.0.0", TargetOs::Windows);
    let newer = UpdateEvent::Release { tag: "v2.0.0".to_string(), assets: vec![] };
    assert!(matches!(c.step(newer), UpdateAction::Ask { .. }));
    assert!(!c.expects(&UpdateEvent::Installed));
    assert!(matches!(
        c.step(UpdateEvent::Answer { accepted: false }),
        UpdateAction::Finish { outcome: UpdateOutcome::Skipped }
    ));
}

#[test]
fn update_flow_failures() {
    let mut c = UpdateCheck::new("1.0.0", TargetOs::Unix);
    let newer = UpdateEvent::Release {
        tag: "v2.0.0".to_string(),
        assets: vec![asset("deadlock-rpc-setup-windows-x86_64.zip", "w")],
    };
    c.step(newer);
    assert!(matches!(
        c.step(UpdateEvent::Answer { accepted: true }),
        UpdateAction::Finish { outcome: UpdateOutcome::Failed(Some(UpdateError::AssetNotFound)) }
    ));

    let mut c = UpdateCheck::new("1.0.0", TargetOs::Unix);
    let newer = UpdateEvent::Release {
        tag: "v2.0.0".to_string(),
        assets: vec![asset("deadlock-rpc-setup-linux-x86_64.zip", "l")],
    };
    c.step(newer);
    c.step(UpdateEvent::Answer { accepted: true });
    assert!(matches!(
        c.step(UpdateEvent::Archive { bytes: b"garbage".to_vec() }),
        UpdateAction::Finish { outcome: UpdateOutcome::Failed(Some(UpdateError::Archive(_))) }
    ));

    let mut c = UpdateCheck::new("1.0.0", TargetOs::Unix);
    assert!(matches!(
        c.step(UpdateEvent::Failed),
        UpdateAction::Finish { outcome: UpdateOutcome::Failed(None) }
    ));
}

#[test]
fn newer_is_a_strict_order() {
    assert!(!is_newer("1.2.3", "1.2.3"));
    assert!(is_newer("1.3.0", "1.2.0") && is_newer("1.2.0", "1.1.0"));
    assert!(is_newer("1.3.0", "1.1.0"));
    assert!(!(is_newer("2.0.0", "1.0.0") && is_newer("1.0.0", "2.0.0")));
}

#[test]
fn error_messages() {
    assert_eq!(UpdateError::AssetNotFound.message(), "release asset not found for this platform");
    match extract_binary(b"not a zip", TargetOs::Unix) {
        Err(e) => assert!(!e.message().is_empty()),
        Ok(_) => panic!("not a zip"),
    }
}
