use osu_twitchbot::detect::{
    describe_process, detect_lazer_version, detect_osu_processes, is_lazer_executable,
    is_osu_process, to_ascii_lowercase, ProcessInfo,
};
use osu_twitchbot::session::{DetectedProcess, OsuClient};

fn process(pid: u32, name: &str, exe: Option<&str>) -> ProcessInfo {
    ProcessInfo {
        pid,
        name: name.to_string(),
        exe_path: exe.map(|e| e.to_string()),
        version_file: None,
        songs_folder: None,
    }
}

#[test]
fn version_stands_between_its_tags() {
    let content = "<?xml version=\"1.0\"?><package><version>2025.101.0-lazer</version></package>";
    assert_eq!(detect_lazer_version(content), Some("2025.101.0".to_string()));
    assert_eq!(
        detect_lazer_version("<version>2024.1208.0</version>"),
        Some("2024.1208.0".to_string())
    );
}

#[test]
fn first_tag_pair_counts() {
    assert_eq!(
        detect_lazer_version("<version>1</version><version>2</version>"),
        Some("1".to_string())
    );
    assert_eq!(detect_lazer_version("</version><version>3-lazer-lazer</version>"), Some("3-lazer".to_string()));
    assert_eq!(detect_lazer_version("<version></version>"), Some(String::new()));
    assert_eq!(detect_lazer_version("<version>-lazer</version>"), Some(String::new()));
}

#[test]
fn missing_tags_give_no_version() {
    assert_eq!(detect_lazer_version(""), None);
    assert_eq!(detect_lazer_version("<version>1.0"), None);
    assert_eq!(detect_lazer_version("1.0</version>"), None);
    assert_eq!(detect_lazer_version("</version><version>"), None);
    assert_eq!(detect_lazer_version("<Version>1</Version>"), None);
}

#[test]
fn clients_are_told_by_their_name() {
    assert!(is_osu_process("osu!"));
    assert!(is_osu_process("osu!.exe"));
    assert!(is_osu_process("OSU!.EXE"));
    assert!(is_osu_process("wine-osu!-preloader"));
    assert!(!is_osu_process("osu"));
    assert!(!is_osu_process("firefox"));
    assert!(!is_osu_process(""));
}

#[test]
fn small_letters_of_the_basic_alphabet_only() {
    let lowered: String = to_ascii_lowercase(&"AbZ!É[@".chars().collect()).into_iter().collect();
    assert_eq!(lowered, "abz!É[@");
}

#[test]
fn newer_client_is_told_by_its_path() {
    assert!(is_lazer_executable(&Some("/opt/osu-lazer/osu!".to_string())));
    assert!(is_lazer_executable(&Some("C:\\Users\\me\\AppData\\Local\\osulazer\\osu!.exe".to_string())));
    assert!(is_lazer_executable(&Some("/opt/OSU-LAZER/osu!".to_string())));
    assert!(!is_lazer_executable(&Some("C:\\osu!\\osu!.exe".to_string())));
    assert!(!is_lazer_executable(&None));
}

#[test]
fn processes_are_described_by_their_kind() {
    let mut lazer = process(5, "osu!", Some("/opt/osu-lazer/osu!"));
    lazer.version_file = Some("<version>2025.101.0-lazer</version>".to_string());
    lazer.songs_folder = Some("/opt/osu-lazer/Songs".to_string());
    assert_eq!(
        describe_process(&lazer),
        DetectedProcess {
            client: OsuClient::Lazer,
            pid: 5,
            version: Some("2025.101.0".to_string()),
            songs_folder: None,
        }
    );
    let mut stable = process(6, "osu!.exe", Some("C:\\osu!\\osu!.exe"));
    stable.version_file = Some("<version>1</version>".to_string());
    stable.songs_folder = Some("C:\\osu!\\Songs".to_string());
    assert_eq!(
        describe_process(&stable),
        DetectedProcess {
            client: OsuClient::Stable,
            pid: 6,
            version: None,
            songs_folder: Some("C:\\osu!\\Songs".to_string()),
        }
    );
}

#[test]
fn first_client_of_each_kind_is_reported() {
    let list = vec![
        process(1, "firefox", Some("/usr/bin/firefox")),
        process(2, "osu!.exe", Some("C:\\osu!\\osu!.exe")),
        process(3, "osu!", Some("/opt/osu-lazer/osu!")),
        process(4, "osu!.exe", None),
        process(5, "osu!", Some("/home/me/lazer/osu!")),
    ];
    let found = detect_osu_processes(&list);
    assert_eq!(found.len(), 2);
    assert_eq!(found[0].pid, 2);
    assert_eq!(found[0].client, OsuClient::Stable);
    assert_eq!(found[1].pid, 3);
    assert_eq!(found[1].client, OsuClient::Lazer);
}

#[test]
fn no_client_gives_an_empty_list() {
    assert!(detect_osu_processes(&vec![]).is_empty());
    assert!(detect_osu_processes(&vec![process(1, "lazer", Some("/opt/lazer/lazer"))]).is_empty());
}

#[test]
fn only_one_kind_may_run() {
    let list = vec![
        process(7, "osu!", Some("/opt/osu-lazer/osu!")),
        process(8, "osu!", Some("/opt/osu-lazer/osu!")),
    ];
    let found = detect_osu_processes(&list);
    assert_eq!(found.len(), 1);
    assert_eq!(found[0].pid, 7);
}
