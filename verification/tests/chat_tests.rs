use osu_twitchbot::beatmap::{BeatmapData, BeatmapStatus};
use osu_twitchbot::chat::{
    classify_message, detect_command, error_for_user, keepalive_expired, ChatBot, ChatReply,
    ChatbotPreferences, CommandType, EventKind, TwitchStatus, RATE_LIMIT_MS,
    SOCKET_KEEPALIVE_SECONDS,
};
use osu_twitchbot::placeholders::PpTexts;

fn song() -> BeatmapData {
    BeatmapData {
        id: 42,
        artist: "A".to_string(),
        title: "T".to_string(),
        difficulty_name: "D".to_string(),
        creator: "C".to_string(),
        status: BeatmapStatus::Loved,
        mods: None,
        osu_file_path: None,
        songs_folder: None,
    }
}

fn values() -> PpTexts {
    PpTexts {
        pp_95: "1".to_string(),
        pp_97: "2".to_string(),
        pp_98: "3".to_string(),
        pp_99: "4".to_string(),
        pp_100: "5".to_string(),
    }
}

#[test]
fn commands_are_told_by_their_first_word() {
    assert_eq!(detect_command("!np", "!np", "!pp"), Some(CommandType::NowPlaying));
    assert_eq!(detect_command("  !np please", "!np", "!pp"), Some(CommandType::NowPlaying));
    assert_eq!(detect_command("!pp", "!np", "!pp"), Some(CommandType::PerformancePoints));
    assert_eq!(detect_command("!npx", "!np", "!pp"), Some(CommandType::NowPlaying));
    assert_eq!(detect_command("say !np", "!np", "!pp"), None);
    assert_eq!(detect_command("!NP", "!np", "!pp"), None);
    assert_eq!(detect_command("", "!np", "!pp"), None);
}

#[test]
fn now_playing_wins_where_both_words_fit() {
    assert_eq!(detect_command("!p", "!p", "!p"), Some(CommandType::NowPlaying));
    assert_eq!(detect_command("hello", "", "!pp"), Some(CommandType::NowPlaying));
    assert_eq!(detect_command("!pp", "!ppp", "!pp"), Some(CommandType::PerformancePoints));
}

#[test]
fn commands_are_rate_limited() {
    let mut bot = ChatBot::new(ChatbotPreferences::default());
    assert_eq!(bot.on_chat_message("!np", 5_000), Some(CommandType::NowPlaying));
    bot.request_sent("m1".to_string(), CommandType::NowPlaying, 5_000);
    assert_eq!(bot.on_chat_message("!np", 5_000 + RATE_LIMIT_MS - 1), None);
    assert_eq!(bot.on_chat_message("!pp", 4_000), None);
    assert_eq!(
        bot.on_chat_message("!pp", 5_000 + RATE_LIMIT_MS),
        Some(CommandType::PerformancePoints)
    );
    assert_eq!(bot.on_chat_message("hello", 9_000), None);
    assert_eq!(RATE_LIMIT_MS, 1000);
}

#[test]
fn unsent_requests_do_not_count_for_the_limit() {
    let bot = ChatBot::new(ChatbotPreferences::default());
    assert_eq!(bot.on_chat_message("!np", 1), Some(CommandType::NowPlaying));
    assert_eq!(bot.on_chat_message("!np", 2), Some(CommandType::NowPlaying));
    assert_eq!(bot.pending_command(), None);
}

#[test]
fn pending_command_is_answered_once() {
    let mut bot = ChatBot::new(ChatbotPreferences::new(
        "!np".to_string(),
        "{artist} - {title}".to_string(),
        "!pp".to_string(),
        "{pp_100}pp".to_string(),
    ));
    assert_eq!(bot.on_snapshot(&Some(song()), None), None);
    bot.request_sent("m7".to_string(), CommandType::NowPlaying, 10);
    assert_eq!(bot.pending_command(), Some(CommandType::NowPlaying));
    assert_eq!(
        bot.on_snapshot(&Some(song()), None),
        Some(ChatReply { message: "A - T".to_string(), reply_to: "m7".to_string() })
    );
    assert_eq!(bot.pending_command(), None);
    assert_eq!(bot.on_snapshot(&Some(song()), None), None);
}

#[test]
fn performance_points_are_answered_with_their_values() {
    let mut bot = ChatBot::new(ChatbotPreferences::new(
        "!np".to_string(),
        "{title}".to_string(),
        "!pp".to_string(),
        "{title}: {pp_95}/{pp_100}".to_string(),
    ));
    bot.request_sent("m8".to_string(), CommandType::PerformancePoints, 10);
    assert_eq!(
        bot.on_snapshot(&Some(song()), Some(values())),
        Some(ChatReply { message: "{title}: 1/5".to_string(), reply_to: "m8".to_string() })
    );
    bot.request_sent("m9".to_string(), CommandType::PerformancePoints, 2000);
    assert_eq!(
        bot.on_snapshot(&Some(song()), None),
        Some(ChatReply {
            message: "pp calculation currently not available".to_string(),
            reply_to: "m9".to_string(),
        })
    );
}

#[test]
fn no_snapshot_is_answered_as_such() {
    let mut bot = ChatBot::new(ChatbotPreferences::default());
    bot.request_sent("m1".to_string(), CommandType::PerformancePoints, 10);
    assert_eq!(
        bot.on_snapshot(&None, Some(values())),
        Some(ChatReply {
            message: "No beatmap currently selected".to_string(),
            reply_to: "m1".to_string(),
        })
    );
}

#[test]
fn later_request_replaces_the_pending_one() {
    let mut bot = ChatBot::new(ChatbotPreferences::default());
    bot.request_sent("m1".to_string(), CommandType::NowPlaying, 10);
    bot.request_sent("m2".to_string(), CommandType::PerformancePoints, 2000);
    assert_eq!(bot.pending_command(), Some(CommandType::PerformancePoints));
    assert_eq!(bot.on_snapshot(&None, None).unwrap().reply_to, "m2");
}

#[test]
fn preferences_change_where_given() {
    let mut prefs = ChatbotPreferences::default();
    assert_eq!(prefs.np_command, "!np");
    assert_eq!(prefs.pp_command, "!pp");
    prefs.update_preferences(Some("!song".to_string()), None, None, Some("{pp_99}".to_string()));
    assert_eq!(prefs.np_command, "!song");
    assert_eq!(prefs.pp_command, "!pp");
    assert_eq!(prefs.pp_format, "{pp_99}");
    let mut bot = ChatBot::new(prefs);
    assert_eq!(bot.on_chat_message("!song", 0), Some(CommandType::NowPlaying));
    bot.update_preferences(None, Some("now: {title}".to_string()), Some("!perf".to_string()), None);
    assert_eq!(bot.on_chat_message("!perf", 0), Some(CommandType::PerformancePoints));
    assert_eq!(bot.on_chat_message("!pp", 0), None);
    bot.request_sent("m".to_string(), CommandType::NowPlaying, 0);
    assert_eq!(bot.on_snapshot(&Some(song()), None).unwrap().message, "now: T");
}

#[test]
fn service_messages_are_classified() {
    assert_eq!(classify_message("session_keepalive", &None), EventKind::Keepalive);
    assert_eq!(
        classify_message("notification", &Some("channel.chat.message".to_string())),
        EventKind::ChatMessage
    );
    assert_eq!(
        classify_message("notification", &Some("channel.follow".to_string())),
        EventKind::OtherNotification
    );
    assert_eq!(classify_message("notification", &None), EventKind::OtherNotification);
    assert_eq!(classify_message("session_reconnect", &None), EventKind::Reconnect);
    assert_eq!(classify_message("revocation", &None), EventKind::Revocation);
    assert_eq!(classify_message("session_welcome", &None), EventKind::Unknown);
    assert_eq!(
        classify_message("session_keepalive", &Some("channel.chat.message".to_string())),
        EventKind::Keepalive
    );
}

#[test]
fn reconnect_requests_are_explained() {
    assert_eq!(
        error_for_user("Server requested reconnect"),
        "Reconnection needed - please reconnect manually"
    );
    assert_eq!(
        error_for_user("WebSocket: Server requested reconnect now"),
        "Reconnection needed - please reconnect manually"
    );
    assert_eq!(error_for_user("Keepalive timeout"), "Keepalive timeout");
}

#[test]
fn silence_beyond_the_keepalive_counts_as_lost() {
    assert_eq!(SOCKET_KEEPALIVE_SECONDS, 30);
    assert!(!keepalive_expired(30_000));
    assert!(keepalive_expired(30_001));
    assert!(!keepalive_expired(0));
}

#[test]
fn bot_statuses_have_their_words() {
    assert_eq!(TwitchStatus::Disconnected.to_text(), "Disconnected");
    assert_eq!(TwitchStatus::Connecting.to_text(), "Connecting...");
    assert_eq!(TwitchStatus::Connected("me".to_string()).to_text(), "Connected as me");
    assert_eq!(TwitchStatus::Error("bad".to_string()).to_text(), "Error: bad");
    assert_eq!(CommandType::NowPlaying.to_text(), "np");
    assert_eq!(CommandType::PerformancePoints.to_text(), "pp");
}

#[test]
fn default_bot_status_is_disconnected() {
    assert_eq!(TwitchStatus::default(), TwitchStatus::Disconnected);
}

#[test]
fn performance_points_are_needed_for_their_command_only() {
    let mut bot = ChatBot::new(ChatbotPreferences::default());
    assert!(!bot.needs_pp(&Some(song())));
    bot.request_sent("m".to_string(), CommandType::NowPlaying, 0);
    assert!(!bot.needs_pp(&Some(song())));
    bot.request_sent("m".to_string(), CommandType::PerformancePoints, 0);
    assert!(bot.needs_pp(&Some(song())));
    assert!(!bot.needs_pp(&None));
}
