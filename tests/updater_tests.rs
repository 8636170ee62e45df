use discord_updater::updater::{Action, Event, Phase, Updater};
use discord_updater::version::Version;

fn v(s: &str) -> Version {
    Version::parse(s).unwrap()
}

fn to_versions(u: &mut Updater, located: Option<&str>, latest: &str) -> Action {
    assert!(matches!(u.first_action(), Action::Locate));
    let a = u.advance(Event::Located(located.map(|s| s.to_string())));
    assert!(matches!(a, Action::FetchLatest));
    u.advance(Event::LatestVersion(Ok(v(latest))))
}

#[test]
fn equal_versions_finish_without_update() {
    let mut u = Updater::new("/home/u".to_string());
    let a = to_versions(&mut u, Some("/opt/Discord"), "0.0.59");
    match a {
        Action::CheckPath { path } => assert_eq!(path, "/opt/Discord"),
        other => panic!("{other:?}"),
    }
    match u.advance(Event::PathExists(Ok(true))) {
        Action::ReadInstalled { metadata } => assert_eq!(metadata, "/opt/Discord/resources/build_info.json"),
        other => panic!("{other:?}"),
    }
    assert!(matches!(u.advance(Event::InstalledVersion(Ok(v("0.0.59")))), Action::Finish));
    assert_eq!(u.phase, Phase::Done);
    assert!(!u.install_fresh);
}

#[test]
fn newer_install_is_a_no_op() {
    let mut u = Updater::new("/home/u".to_string());
    to_versions(&mut u, Some("/opt/Discord"), "0.0.59");
    u.advance(Event::PathExists(Ok(true)));
    assert!(matches!(u.advance(Event::InstalledVersion(Ok(v("0.0.60")))), Action::Finish));
    assert_eq!(u.phase, Phase::Done);
}

#[test]
fn older_install_is_upgraded() {
    let mut u = Updater::new("/home/u".to_string());
    to_versions(&mut u, Some("/opt/Discord"), "0.0.60");
    u.advance(Event::PathExists(Ok(true)));
    match u.advance(Event::InstalledVersion(Ok(v("0.0.59")))) {
        Action::Download { url, file_name } => {
            assert_eq!(url, "https://dl.discordapp.net/apps/linux/0.0.60/discord-0.0.60.tar.gz");
            assert_eq!(file_name, "discord-0.0.60.tar.gz");
        }
        other => panic!("{other:?}"),
    }
    match u.advance(Event::Downloaded(Ok(()))) {
        Action::Extract { dest } => assert_eq!(dest, "/opt/Discord"),
        other => panic!("{other:?}"),
    }
    assert!(matches!(u.advance(Event::Extracted(Ok(()))), Action::Finish));
}

#[test]
fn missing_path_is_a_fresh_install() {
    let mut u = Updater::new("/home/u".to_string());
    to_versions(&mut u, None, "0.0.60");
    assert_eq!(u.install_path, "/home/u/bin/discord_bin/Discord/Discord");
    let a = u.advance(Event::PathExists(Ok(false)));
    assert!(u.install_fresh);
    assert_eq!(u.current.to_text(), "0.0.0");
    assert!(matches!(a, Action::Download { .. }));
}

#[test]
fn missing_located_path_is_fresh_too() {
    let mut u = Updater::new("/home/u".to_string());
    to_versions(&mut u, Some("/gone/Discord"), "0.0.60");
    u.advance(Event::PathExists(Ok(false)));
    assert!(u.install_fresh);
    assert_eq!(u.current.to_text(), "0.0.0");
}

#[test]
fn fresh_install_links_home_bin() {
    let mut u = Updater::new("/home/u".to_string());
    to_versions(&mut u, None, "0.0.60");
    u.advance(Event::PathExists(Ok(false)));
    u.advance(Event::Downloaded(Ok(())));
    match u.advance(Event::Extracted(Ok(()))) {
        Action::Link { bin_dir, link, target } => {
            assert_eq!(bin_dir, "/home/u/bin");
            assert_eq!(link, "/home/u/bin/discord");
            assert_eq!(target, "/home/u/bin/discord_bin/Discord/Discord");
        }
        other => panic!("{other:?}"),
    }
    assert!(matches!(u.advance(Event::Linked(Ok(()))), Action::Finish));
    assert_eq!(u.phase, Phase::Done);
}

#[test]
fn download_failure_stops_the_run() {
    let mut u = Updater::new("/home/u".to_string());
    to_versions(&mut u, None, "0.0.60");
    u.advance(Event::PathExists(Ok(false)));
    match u.advance(Event::Downloaded(Err("connection reset".to_string()))) {
        Action::Fail { message } => assert_eq!(message, "failed to download the release: connection reset"),
        other => panic!("{other:?}"),
    }
    assert_eq!(u.phase, Phase::Failed);
    assert!(matches!(u.advance(Event::Extracted(Ok(()))), Action::Fail { .. }));
}

#[test]
fn latest_version_failure_is_fatal() {
    let mut u = Updater::new("/home/u".to_string());
    u.advance(Event::Located(None));
    match u.advance(Event::LatestVersion(Err("offline".to_string()))) {
        Action::Fail { message } => assert_eq!(message, "failed to fetch the latest version: offline"),
        other => panic!("{other:?}"),
    }
}

#[test]
fn link_failure_is_fatal() {
    let mut u = Updater::new("/home/u".to_string());
    to_versions(&mut u, None, "0.0.60");
    u.advance(Event::PathExists(Ok(false)));
    u.advance(Event::Downloaded(Ok(())));
    u.advance(Event::Extracted(Ok(())));
    match u.advance(Event::Linked(Err("exists".to_string()))) {
        Action::Fail { message } => assert_eq!(message, "failed to create the link: exists"),
        other => panic!("{other:?}"),
    }
}

#[test]
fn out_of_order_event_fails() {
    let mut u = Updater::new("/home/u".to_string());
    assert!(matches!(u.advance(Event::Downloaded(Ok(()))), Action::Fail { .. }));
    assert_eq!(u.phase, Phase::Failed);
}

#[test]
fn fresh_install_with_zero_latest_only_links() {
    let mut u = Updater::new("/home/u".to_string());
    to_versions(&mut u, None, "0.0.0");
    assert!(matches!(u.advance(Event::PathExists(Ok(false))), Action::Link { .. }));
}
