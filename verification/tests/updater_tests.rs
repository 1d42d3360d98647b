use osu_twitchbot::updater::{
    accepts, calculate_sha256, get_checksum_asset, get_platform_asset, is_auto_update_enabled,
    is_yes, parse_checksum_file, parse_version, same_checksum, select_update,
    set_auto_update_enabled, verify_checksum, GitHubAsset, GitHubRelease, Platform, ReleaseInfo,
    UpdateError, Version,
};

fn asset(name: &str, size: u64) -> GitHubAsset {
    GitHubAsset {
        name: name.to_string(),
        browser_download_url: format!("https://example.invalid/{}", name),
        size,
    }
}

fn release(tag: &str, names: &[&str]) -> GitHubRelease {
    GitHubRelease {
        tag_name: tag.to_string(),
        draft: false,
        prerelease: false,
        assets: names.iter().enumerate().map(|(i, n)| asset(n, 100 + i as u64)).collect(),
    }
}

fn plain(major: u64, minor: u64, patch: u64) -> Version {
    Version { major, minor, patch, pre: String::new(), build: String::new() }
}

#[test]
fn version_tags_may_begin_with_v() {
    assert_eq!(parse_version("v1.2.3").unwrap(), plain(1, 2, 3));
    assert_eq!(parse_version("1.2.3").unwrap(), plain(1, 2, 3));
    assert_eq!(
        parse_version("v10.20.30-rc.1+build.5").unwrap(),
        Version {
            major: 10,
            minor: 20,
            patch: 30,
            pre: "rc.1".to_string(),
            build: "build.5".to_string(),
        }
    );
}

#[test]
fn what_is_no_version_is_refused() {
    for text in ["", "v", "1.2", "vv1.2.3", "1.2.3.4", "01.2.3", "1.2.x", "V1.2.3", " 1.2.3"] {
        match parse_version(text) {
            Err(UpdateError::VersionParse(reason)) => assert!(!reason.is_empty()),
            other => panic!("{:?} was read as {:?}", text, other),
        }
    }
}

#[test]
fn versions_are_written_as_semver_writes_them() {
    assert_eq!(plain(1, 2, 3).to_text(), "1.2.3");
    assert_eq!(plain(0, 0, 0).to_text(), "0.0.0");
    let full = parse_version("v10.20.30-rc.1+build.5").unwrap();
    assert_eq!(full.to_text(), "10.20.30-rc.1+build.5");
    for text in ["1.0.0-alpha", "2.3.4+meta", "18446744073709551615.0.1"] {
        let parsed = parse_version(text).unwrap();
        assert_eq!(parsed.to_text(), semver::Version::parse(text).unwrap().to_string());
    }
}

#[test]
fn newer_release_with_files_is_an_update() {
    let latest = release(
        "v1.3.0",
        &[
            "osu-twitchbot-windows-x86_64.exe",
            "osu-twitchbot-linux-x86_64",
            "osu-twitchbot-linux-x86_64.sha256",
        ],
    );
    let found = select_update(&latest, "1.2.9", Platform::Linux).unwrap().unwrap();
    assert_eq!(
        found,
        ReleaseInfo {
            version: plain(1, 3, 0),
            tag_name: "v1.3.0".to_string(),
            binary_url: "https://example.invalid/osu-twitchbot-linux-x86_64".to_string(),
            binary_name: "osu-twitchbot-linux-x86_64".to_string(),
            checksum_url: Some(
                "https://example.invalid/osu-twitchbot-linux-x86_64.sha256".to_string()
            ),
            checksum_name: Some("osu-twitchbot-linux-x86_64.sha256".to_string()),
            size: 101,
        }
    );
    let windows = select_update(&latest, "1.2.9", Platform::Windows).unwrap().unwrap();
    assert_eq!(windows.binary_name, "osu-twitchbot-windows-x86_64.exe");
    assert_eq!(windows.checksum_url, None);
    assert_eq!(windows.checksum_name, None);
    assert_eq!(windows.size, 100);
}

#[test]
fn release_that_is_not_newer_is_no_update() {
    let latest = release("v1.3.0", &["osu-twitchbot-linux-x86_64"]);
    assert_eq!(select_update(&latest, "1.3.0", Platform::Linux).unwrap(), None);
    assert_eq!(select_update(&latest, "1.3.1", Platform::Linux).unwrap(), None);
    assert_eq!(select_update(&latest, "2.0.0", Platform::Linux).unwrap(), None);
    assert_eq!(select_update(&latest, "v1.10.0", Platform::Linux).unwrap(), None);
}

#[test]
fn versions_compare_as_semver_orders_them() {
    let latest = release("v1.10.0", &["osu-twitchbot-linux-x86_64"]);
    assert!(select_update(&latest, "1.9.0", Platform::Linux).unwrap().is_some());
    assert!(select_update(&latest, "1.10.0-rc.1", Platform::Linux).unwrap().is_some());
    let candidate = release("v1.10.0-rc.2", &["osu-twitchbot-linux-x86_64"]);
    assert!(select_update(&candidate, "1.10.0-rc.1", Platform::Linux).unwrap().is_some());
    assert_eq!(select_update(&candidate, "1.10.0", Platform::Linux).unwrap(), None);
    assert_eq!(select_update(&candidate, "1.10.0-rc.11", Platform::Linux).unwrap(), None);
}

#[test]
fn draft_is_no_update() {
    let mut draft = release("not a version", &[]);
    draft.draft = true;
    assert_eq!(select_update(&draft, "also none", Platform::Other).unwrap(), None);
}

#[test]
fn unreadable_versions_are_errors() {
    let bad_tag = release("latest", &["osu-twitchbot-linux-x86_64"]);
    assert!(matches!(
        select_update(&bad_tag, "1.0.0", Platform::Linux),
        Err(UpdateError::VersionParse(_))
    ));
    let good = release("v2.0.0", &["osu-twitchbot-linux-x86_64"]);
    assert!(matches!(
        select_update(&good, "dev", Platform::Linux),
        Err(UpdateError::VersionParse(_))
    ));
}

#[test]
fn newer_release_without_a_file_for_the_platform_is_an_error() {
    let latest = release("v2.0.0", &["osu-twitchbot-linux-x86_64"]);
    assert_eq!(
        select_update(&latest, "1.0.0", Platform::Windows).unwrap_err(),
        UpdateError::UnsupportedPlatform
    );
    assert_eq!(
        select_update(&latest, "1.0.0", Platform::Other).unwrap_err(),
        UpdateError::UnsupportedPlatform
    );
    assert_eq!(select_update(&latest, "3.0.0", Platform::Other).unwrap(), None);
}

#[test]
fn platform_file_is_the_first_with_the_ending() {
    let latest = release(
        "v1.0.0",
        &["notes.txt", "a-linux-x86_64", "b-linux-x86_64", "a-windows-x86_64.exe", "linux-x86_64.sha256"],
    );
    assert_eq!(get_platform_asset(&latest, Platform::Linux), Some(1));
    assert_eq!(get_platform_asset(&latest, Platform::Windows), Some(3));
    assert_eq!(get_platform_asset(&latest, Platform::Other), None);
    assert_eq!(get_platform_asset(&release("v1.0.0", &[]), Platform::Linux), None);
}

#[test]
fn checksum_file_is_named_after_the_binary() {
    let latest = release("v1.0.0", &["a", "a.sha256", "b.sha256", "a.sha256"]);
    assert_eq!(get_checksum_asset(&latest, "a"), Some(1));
    assert_eq!(get_checksum_asset(&latest, "b"), Some(2));
    assert_eq!(get_checksum_asset(&latest, "c"), None);
    assert_eq!(get_checksum_asset(&latest, ""), None);
}

#[test]
fn updates_need_a_source_and_consent() {
    assert!(is_auto_update_enabled(true, None));
    assert!(is_auto_update_enabled(true, Some(true)));
    assert!(!is_auto_update_enabled(true, Some(false)));
    assert!(!is_auto_update_enabled(false, None));
    assert!(!is_auto_update_enabled(false, Some(true)));
    let mut slot = None;
    set_auto_update_enabled(&mut slot, false);
    assert_eq!(slot, Some(false));
    set_auto_update_enabled(&mut slot, true);
    assert_eq!(slot, Some(false));
}

#[test]
fn checksum_is_found_by_file_name() {
    let content = "ABCDEF0123  other-file\n0123abCD  osu-twitchbot-linux-x86_64\r\nffff  osu-twitchbot-linux-x86_64\n";
    assert_eq!(
        parse_checksum_file(content, "osu-twitchbot-linux-x86_64"),
        Some("0123abcd".to_string())
    );
    assert_eq!(parse_checksum_file(content, "other-file"), Some("abcdef0123".to_string()));
    assert_eq!(parse_checksum_file(content, "missing"), None);
}

#[test]
fn checksum_lines_need_two_words() {
    assert_eq!(parse_checksum_file("", "a"), None);
    assert_eq!(parse_checksum_file("a", "a"), None);
    assert_eq!(parse_checksum_file("hash\na", "a"), None);
    assert_eq!(parse_checksum_file("hash a extra", "a"), Some("hash".to_string()));
    assert_eq!(parse_checksum_file("\n\n  HASH \t a  ", "a"), Some("hash".to_string()));
    assert_eq!(parse_checksum_file("hash *a", "a"), None);
    assert_eq!(parse_checksum_file("hash a\r", "a"), Some("hash".to_string()));
}

#[test]
fn sha256_is_written_in_lower_case_hexadecimal() {
    assert_eq!(
        calculate_sha256(b"abc"),
        "ba7816bf8f01cfea414140de5dae2223b00361a396177a9cb410ff61f20015ad"
    );
    assert_eq!(
        calculate_sha256(b""),
        "e3b0c44298fc1c149afbf4c8996fb92427ae41e4649b934ca495991b7852b855"
    );
}

#[test]
fn checksums_compare_without_case() {
    assert!(same_checksum("ABcd12", "abCD12"));
    assert!(!same_checksum("abcd12", "abcd13"));
    assert!(verify_checksum(
        b"abc",
        "BA7816BF8F01CFEA414140DE5DAE2223B00361A396177A9CB410FF61F20015AD"
    ));
    assert!(!verify_checksum(b"abd", "ba7816bf8f01cfea414140de5dae2223b00361a396177a9cb410ff61f20015ad"));
    assert!(!verify_checksum(b"abc", ""));
}

#[test]
fn answers_are_read_leniently() {
    for input in ["", "\n", "y", "Y\n", "  yes  ", "YES\r\n"] {
        assert!(accepts(input), "{:?}", input);
    }
    for input in ["n", "no", "yess", "y es", "ja"] {
        assert!(!accepts(input), "{:?}", input);
    }
    assert!(is_yes(""));
    assert!(is_yes("y"));
    assert!(is_yes("yes"));
    assert!(!is_yes("Y"));
    assert!(!is_yes(" y"));
}

#[test]
fn update_errors_have_their_sentences() {
    assert_eq!(UpdateError::Network("down".to_string()).to_text(), "Network error: down");
    assert_eq!(
        UpdateError::VersionParse("bad".to_string()).to_text(),
        "Failed to parse version: bad"
    );
    assert_eq!(UpdateError::Io("full".to_string()).to_text(), "IO error: full");
    assert_eq!(UpdateError::ChecksumNotFound.to_text(), "Checksum not found for binary");
    assert_eq!(UpdateError::ChecksumMismatch.to_text(), "Checksum verification failed");
    assert_eq!(
        UpdateError::UnsupportedPlatform.to_text(),
        "No binary available for this platform"
    );
    assert_eq!(UpdateError::NoReleases.to_text(), "No releases found");
    assert_eq!(UpdateError::Restart("x".to_string()).to_text(), "Failed to restart: x");
    assert_eq!(UpdateError::UserDeclined.to_text(), "User declined update");
}
