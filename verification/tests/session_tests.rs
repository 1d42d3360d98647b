use osu_twitchbot::beatmap::{BeatmapData, BeatmapStatus};
use osu_twitchbot::errors::MemoryError;
use osu_twitchbot::mods::{GameplayMods, ModInfo};
use osu_twitchbot::session::{
    connection_text, describe_open_failure, is_transient_message, Coordinator, DetectedProcess, MemoryEvent, OsuClient,
    OsuCommand, OsuStatus, ScanStep, TickStep, DATA_POLLING_INTERVAL_MS, PROCESS_SCAN_INTERVAL_MS,
};

fn snapshot(id: i32, mods: &[&str]) -> BeatmapData {
    let list = mods.iter().map(|m| ModInfo { acronym: m.to_string(), settings: None }).collect();
    BeatmapData {
        id,
        artist: "artist".to_string(),
        title: "title".to_string(),
        difficulty_name: "hard".to_string(),
        creator: "mapper".to_string(),
        status: BeatmapStatus::Ranked,
        mods: Some(GameplayMods::from_mods(list)),
        osu_file_path: None,
        songs_folder: None,
    }
}

fn lazer_process() -> DetectedProcess {
    DetectedProcess {
        client: OsuClient::Lazer,
        pid: 100,
        version: Some("2025.101.0".to_string()),
        songs_folder: None,
    }
}

fn stable_process() -> DetectedProcess {
    DetectedProcess {
        client: OsuClient::Stable,
        pid: 200,
        version: None,
        songs_folder: Some("C:/osu/Songs".to_string()),
    }
}

fn connected(process: DetectedProcess) -> Coordinator {
    let mut coordinator = Coordinator::new();
    coordinator.start_scanning();
    coordinator.on_scan(&vec![process]);
    coordinator.on_reader_ready("client");
    coordinator
}

#[test]
fn identical_snapshots_are_told_once() {
    let mut coordinator = connected(lazer_process());
    let first = coordinator.on_snapshot(snapshot(5, &["HD"]));
    assert_eq!(first, TickStep::Emit(MemoryEvent::BeatmapChanged(Some(snapshot(5, &["HD"])))));
    let second = coordinator.on_snapshot(snapshot(5, &["HD"]));
    assert_eq!(second, TickStep::Quiet);
    assert_eq!(coordinator.current(), Some(snapshot(5, &["HD"])));
}

#[test]
fn snapshots_that_differ_in_modifiers_are_both_told() {
    let mut coordinator = connected(lazer_process());
    let first = coordinator.on_snapshot(snapshot(5, &["HD"]));
    let second = coordinator.on_snapshot(snapshot(5, &["HD", "DT"]));
    assert_eq!(first, TickStep::Emit(MemoryEvent::BeatmapChanged(Some(snapshot(5, &["HD"])))));
    assert_eq!(
        second,
        TickStep::Emit(MemoryEvent::BeatmapChanged(Some(snapshot(5, &["HD", "DT"]))))
    );
}

#[test]
fn snapshots_that_differ_in_id_are_both_told() {
    let mut coordinator = connected(lazer_process());
    assert!(matches!(coordinator.on_snapshot(snapshot(5, &[])), TickStep::Emit(_)));
    assert!(matches!(coordinator.on_snapshot(snapshot(6, &[])), TickStep::Emit(_)));
    assert!(matches!(coordinator.on_snapshot(snapshot(6, &[])), TickStep::Quiet));
}

#[test]
fn other_fields_do_not_count_as_a_change() {
    let mut coordinator = connected(lazer_process());
    coordinator.on_snapshot(snapshot(5, &["HD"]));
    let mut renamed = snapshot(5, &["HD"]);
    renamed.title = "other".to_string();
    assert_eq!(coordinator.on_snapshot(renamed), TickStep::Quiet);
    assert_eq!(coordinator.current(), Some(snapshot(5, &["HD"])));
}

#[test]
fn snapshot_without_modifier_data_differs_from_one_with() {
    let mut coordinator = connected(lazer_process());
    coordinator.on_snapshot(snapshot(5, &[]));
    let mut bare = snapshot(5, &[]);
    bare.mods = None;
    assert!(matches!(coordinator.on_snapshot(bare), TickStep::Emit(_)));
}

#[test]
fn stable_snapshots_take_the_folder_of_the_scan() {
    let mut coordinator = connected(stable_process());
    let step = coordinator.on_snapshot(snapshot(5, &[]));
    let mut expected = snapshot(5, &[]);
    expected.songs_folder = Some("C:/osu/Songs".to_string());
    assert_eq!(step, TickStep::Emit(MemoryEvent::BeatmapChanged(Some(expected.clone()))));
    assert_eq!(coordinator.current(), Some(expected));
}

#[test]
fn lazer_snapshots_keep_their_own_folder() {
    let mut coordinator = connected(lazer_process());
    let mut read = snapshot(5, &[]);
    read.songs_folder = Some("/data/files".to_string());
    coordinator.on_snapshot(read.clone());
    assert_eq!(coordinator.current(), Some(read));
}

#[test]
fn transient_errors_clear_the_snapshot_once() {
    let mut coordinator = connected(lazer_process());
    coordinator.on_snapshot(snapshot(5, &[]));
    let error = MemoryError::ReadFailed("beatmap pointer is null".to_string());
    assert_eq!(
        coordinator.on_read_error(&error),
        TickStep::Emit(MemoryEvent::BeatmapChanged(None))
    );
    assert_eq!(coordinator.current(), None);
    assert_eq!(coordinator.on_read_error(&error), TickStep::Quiet);
    assert!(matches!(coordinator.on_snapshot(snapshot(5, &[])), TickStep::Emit(_)));
}

#[test]
fn other_errors_end_the_session() {
    let mut coordinator = connected(lazer_process());
    coordinator.on_snapshot(snapshot(5, &[]));
    let error = MemoryError::ReadFailed("Failed to read beatmap info: gone".to_string());
    assert_eq!(
        coordinator.on_read_error(&error),
        TickStep::Fatal(MemoryError::ReadFailed(
            "Failed to read memory: Failed to read beatmap info: gone".to_string()
        ))
    );
    assert_eq!(coordinator.current(), Some(snapshot(5, &[])));
    assert_eq!(
        coordinator.on_tick(Err(MemoryError::InvalidString)),
        TickStep::Fatal(MemoryError::ReadFailed("Invalid string data".to_string()))
    );
    assert_eq!(
        coordinator.on_tick(Err(MemoryError::PatternNotFound)),
        TickStep::Fatal(MemoryError::ReadFailed("Pattern not found in memory".to_string()))
    );
}

#[test]
fn error_sentences_are_classified_by_their_words() {
    assert!(is_transient_message("there is no beatmap selected"));
    assert!(is_transient_message("reader not initialized"));
    assert!(is_transient_message("pointer is null"));
    assert!(is_transient_message("an invalid address"));
    assert!(!is_transient_message("Invalid string data"));
    assert!(!is_transient_message("Failed to read memory: address range is not readable"));
    assert!(!is_transient_message("No Beatmap"));
    assert!(!is_transient_message(""));
}

#[test]
fn ticks_follow_their_outcome() {
    let mut coordinator = connected(lazer_process());
    assert!(matches!(coordinator.on_tick(Ok(snapshot(1, &[]))), TickStep::Emit(_)));
    assert!(matches!(coordinator.on_tick(Ok(snapshot(1, &[]))), TickStep::Quiet));
    assert!(matches!(
        coordinator.on_tick(Err(MemoryError::ReadFailed("null".to_string()))),
        TickStep::Emit(MemoryEvent::BeatmapChanged(None))
    ));
}

#[test]
fn session_begins_with_the_first_client_found() {
    let mut coordinator = Coordinator::new();
    assert_eq!(coordinator.status(), OsuStatus::Disconnected);
    assert_eq!(coordinator.on_scan(&vec![lazer_process()]), ScanStep::Wait);
    assert_eq!(
        coordinator.start_scanning(),
        Some(MemoryEvent::StatusChanged(OsuStatus::Scanning))
    );
    assert_eq!(coordinator.on_scan(&vec![]), ScanStep::Wait);
    assert_eq!(coordinator.status(), OsuStatus::Scanning);
    let step = coordinator.on_scan(&vec![stable_process(), lazer_process()]);
    assert_eq!(
        step,
        ScanStep::Attach(stable_process(), MemoryEvent::StatusChanged(OsuStatus::Initializing))
    );
    assert_eq!(coordinator.status(), OsuStatus::Initializing);
}

#[test]
fn one_session_at_a_time() {
    let mut coordinator = Coordinator::new();
    coordinator.start_scanning();
    coordinator.on_scan(&vec![lazer_process()]);
    assert_eq!(coordinator.on_scan(&vec![stable_process()]), ScanStep::Wait);
    assert_eq!(coordinator.start_scanning(), None);
    assert_eq!(
        coordinator.on_reader_ready("Lazer 2025.101.0 (pid 100)"),
        Some(MemoryEvent::StatusChanged(OsuStatus::Connected(
            "Lazer 2025.101.0 (pid 100)".to_string()
        )))
    );
    assert_eq!(coordinator.on_reader_ready("again"), None);
    assert_eq!(coordinator.on_scan(&vec![stable_process()]), ScanStep::Wait);
    assert_eq!(coordinator.start_scanning(), None);
    assert_eq!(
        coordinator.status(),
        OsuStatus::Connected("Lazer 2025.101.0 (pid 100)".to_string())
    );
}

#[test]
fn reads_outside_a_session_are_ignored() {
    let mut coordinator = Coordinator::new();
    assert_eq!(coordinator.on_snapshot(snapshot(1, &[])), TickStep::Quiet);
    assert_eq!(coordinator.on_read_error(&MemoryError::AccessDenied), TickStep::Quiet);
    coordinator.start_scanning();
    assert_eq!(coordinator.on_tick(Ok(snapshot(1, &[]))), TickStep::Quiet);
    assert_eq!(coordinator.current(), None);
}

#[test]
fn requests_are_answered_with_the_current_snapshot() {
    let mut coordinator = Coordinator::new();
    assert_eq!(
        coordinator.on_command(OsuCommand::RequestBeatmapData),
        MemoryEvent::BeatmapDataResponse(None)
    );
    coordinator.start_scanning();
    assert_eq!(
        coordinator.on_command(OsuCommand::RequestBeatmapData),
        MemoryEvent::BeatmapDataResponse(None)
    );
    coordinator.on_scan(&vec![lazer_process()]);
    coordinator.on_reader_ready("client");
    coordinator.on_snapshot(snapshot(3, &["HR"]));
    assert_eq!(
        coordinator.on_command(OsuCommand::RequestBeatmapData),
        MemoryEvent::BeatmapDataResponse(Some(snapshot(3, &["HR"])))
    );
}

#[test]
fn ending_a_session_clears_everything() {
    let mut coordinator = connected(stable_process());
    coordinator.on_snapshot(snapshot(3, &[]));
    let (gone, status) = coordinator.end_session();
    assert_eq!(gone, MemoryEvent::BeatmapChanged(None));
    assert_eq!(status, MemoryEvent::StatusChanged(OsuStatus::Disconnected));
    assert_eq!(coordinator.status(), OsuStatus::Disconnected);
    assert_eq!(coordinator.current(), None);
    coordinator.start_scanning();
    coordinator.on_scan(&vec![lazer_process()]);
    coordinator.on_reader_ready("client");
    let mut read = snapshot(3, &[]);
    read.songs_folder = Some("kept".to_string());
    assert_eq!(
        coordinator.on_snapshot(read.clone()),
        TickStep::Emit(MemoryEvent::BeatmapChanged(Some(read)))
    );
}

#[test]
fn failed_start_returns_to_scanning() {
    let mut coordinator = Coordinator::new();
    coordinator.start_scanning();
    coordinator.on_scan(&vec![lazer_process()]);
    coordinator.end_session();
    assert_eq!(
        coordinator.start_scanning(),
        Some(MemoryEvent::StatusChanged(OsuStatus::Scanning))
    );
}

#[test]
fn attached_clients_are_named() {
    assert_eq!(connection_text(OsuClient::Lazer, "2025.101.0", 4711), "Lazer 2025.101.0 (pid 4711)");
    assert_eq!(connection_text(OsuClient::Stable, "ignored", 0), "Stable (pid 0)");
    assert_eq!(
        connection_text(OsuClient::Stable, "", u32::MAX),
        "Stable (pid 4294967295)"
    );
}

#[test]
fn statuses_of_the_monitor_have_their_words() {
    assert_eq!(OsuStatus::Disconnected.to_text(), "Disconnected");
    assert_eq!(OsuStatus::Scanning.to_text(), "Scanning...");
    assert_eq!(OsuStatus::Initializing.to_text(), "Initializing...");
    assert_eq!(OsuStatus::Connected("Stable (pid 1)".to_string()).to_text(), "Stable (pid 1)");
    assert_eq!(OsuStatus::Scanning.duplicate(), OsuStatus::Scanning);
    let event = MemoryEvent::BeatmapChanged(Some(snapshot(1, &["HD"])));
    assert_eq!(event.duplicate(), event);
    assert_eq!(lazer_process().duplicate(), lazer_process());
}

#[test]
fn intervals_are_fixed() {
    assert_eq!(DATA_POLLING_INTERVAL_MS, 100);
    assert_eq!(PROCESS_SCAN_INTERVAL_MS, 2000);
}

#[test]
fn open_failures_come_with_advice() {
    assert_eq!(
        describe_open_failure(&MemoryError::AccessDenied),
        "Failed to open process: Access denied to process. Try running with admin/root privileges."
    );
}

#[test]
fn failed_start_is_passed_on_as_a_read_failure() {
    let coordinator = Coordinator::new();
    assert_eq!(
        coordinator.on_reader_failed(&MemoryError::PatternNotFound),
        MemoryError::ReadFailed("Pattern not found in memory".to_string())
    );
    assert_eq!(
        coordinator.on_reader_failed(&MemoryError::ReadFailed("API pointer is null".to_string())),
        MemoryError::ReadFailed("Failed to read memory: API pointer is null".to_string())
    );
}

#[test]
fn default_status_is_disconnected() {
    assert_eq!(OsuStatus::default(), OsuStatus::Disconnected);
}
