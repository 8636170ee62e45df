use discord_updater::install::{extraction_result, progress_total, script_result, script_result_quoted, tar_arguments};
use discord_updater::paths::{
    archive_file_name, build_info_path, default_discord_path, download_url, home_bin_dir,
    home_bin_link, install_dir_of, join_path,
};
use discord_updater::version::Version;

#[test]
fn default_path_under_home() {
    assert_eq!(default_discord_path("/home/u"), "/home/u/bin/discord_bin/Discord/Discord");
    assert_eq!(default_discord_path("/home/u/"), "/home/u/bin/discord_bin/Discord/Discord");
}

#[test]
fn joins_paths() {
    assert_eq!(join_path("", "a"), "a");
    assert_eq!(join_path("/x", "/abs"), "/abs");
    assert_eq!(join_path("/x", "y/z"), "/x/y/z");
}

#[test]
fn link_and_metadata_paths() {
    assert_eq!(home_bin_dir("/home/u"), "/home/u/bin");
    assert_eq!(home_bin_link("/home/u"), "/home/u/bin/discord");
    assert_eq!(build_info_path("/opt/Discord"), "/opt/Discord/resources/build_info.json");
}

#[test]
fn download_url_of_version() {
    let v = Version::parse("0.0.59").unwrap();
    assert_eq!(download_url(&v), "https://dl.discordapp.net/apps/linux/0.0.59/discord-0.0.59.tar.gz");
    assert_eq!(archive_file_name(&v), "discord-0.0.59.tar.gz");
}

#[test]
fn tar_strips_top_level_directory() {
    let args = tar_arguments("/tmp/a.tar.gz", "/opt/P");
    assert_eq!(args, vec!["-xvf", "/tmp/a.tar.gz", "-C", "/opt/P", "--strip-components=1"]);
}

#[test]
fn extraction_outcomes() {
    assert_eq!(extraction_result(true, "noise"), Ok(()));
    assert_eq!(extraction_result(false, "bad archive"), Err("tar -xvf failed: bad archive".to_string()));
}

#[test]
fn script_outcomes() {
    assert_eq!(script_result(true, "which x", "/bin/x\n".to_string()), Ok("/bin/x\n".to_string()));
    assert_eq!(script_result(false, "which x", String::new()), Err("script failed: \"which x\"".to_string()));
    assert_eq!(
        script_result(false, "echo \"a\"\n", String::new()),
        Err(format!("script failed: {:?}", "echo \"a\"\n"))
    );
    assert_eq!(
        script_result_quoted(false, "'q'", String::new()),
        Err("script failed: 'q'".to_string())
    );
}

#[test]
fn progress_totals() {
    assert_eq!(progress_total(Some(1234)), 1234);
    assert_eq!(progress_total(None), 0);
}

#[test]
fn install_dir_is_parent_of_binary() {
    assert_eq!(install_dir_of("/opt/Discord/Discord"), Some("/opt/Discord".to_string()));
    assert_eq!(install_dir_of("/Discord"), Some("/".to_string()));
    assert_eq!(install_dir_of("/"), None);
    assert_eq!(install_dir_of(""), None);
    assert_eq!(install_dir_of("Discord"), Some(String::new()));
}
