use osu_twitchbot::beatmap::BeatmapData;
use osu_twitchbot::chat::{TwitchCommand, TwitchEvent, TwitchStatus};
use osu_twitchbot::logging::{log_info, MAX_LOG_ENTRIES};
use osu_twitchbot::preferences::{np_command_default, pp_format_default, Config};
use osu_twitchbot::session::{MemoryEvent, OsuStatus};
use osu_twitchbot::window::{Effect, Message, State, Tab};

fn prefs(auto_connect: bool) -> Config {
    Config {
        version: "1.0.0".to_string(),
        auto_connect,
        np_command: "!song".to_string(),
        np_format: "{title}".to_string(),
        pp_command: "!perf".to_string(),
        pp_format: "{pp_100}".to_string(),
    }
}

fn connect(token: &str) -> Effect {
    Effect::SendTwitch(TwitchCommand::Connect {
        token: token.to_string(),
        np_command: "!song".to_string(),
        np_format: "{title}".to_string(),
        pp_command: "!perf".to_string(),
        pp_format: "{pp_100}".to_string(),
    })
}

fn only(np_command: Option<&str>, np_format: Option<&str>, pp_command: Option<&str>, pp_format: Option<&str>) -> Effect {
    Effect::SendTwitch(TwitchCommand::UpdatePreferences {
        np_command: np_command.map(|s| s.to_string()),
        np_format: np_format.map(|s| s.to_string()),
        pp_command: pp_command.map(|s| s.to_string()),
        pp_format: pp_format.map(|s| s.to_string()),
    })
}

#[test]
fn window_opens_with_what_was_loaded() {
    let (state, effects) = State::new(Some("secret".to_string()), Some(prefs(false)));
    assert!(effects.is_empty());
    assert_eq!(state.active_tab(), Tab::Main);
    assert_eq!(state.token_input_value(), "secret");
    assert!(state.token_saved());
    assert!(!state.auto_connect_value());
    assert_eq!(state.np_command(), "!song");
    assert_eq!(state.np_format(), "{title}");
    assert_eq!(state.pp_command(), "!perf");
    assert_eq!(state.pp_format(), "{pp_100}");
    assert_eq!(state.current_beatmap(), &None);
    assert_eq!(state.osu_status(), &OsuStatus::Disconnected);
    assert_eq!(state.twitch_status(), &TwitchStatus::Disconnected);
    assert!(state.log_entries().is_empty());
    assert_eq!(state.title(), "osu! twitchbot");
}

#[test]
fn window_opens_with_defaults_where_nothing_was_loaded() {
    let (state, effects) = State::new(None, None);
    assert!(effects.is_empty());
    assert_eq!(state.token_input_value(), "");
    assert!(!state.token_saved());
    assert_eq!(state.np_command(), np_command_default());
    assert_eq!(state.pp_format(), pp_format_default());
}

#[test]
fn window_connects_at_start_where_asked_and_possible() {
    let (state, effects) = State::new(Some("secret".to_string()), Some(prefs(true)));
    assert_eq!(state.twitch_status(), &TwitchStatus::Connecting);
    assert_eq!(effects, vec![connect("secret")]);
    let (idle, none) = State::new(None, Some(prefs(true)));
    assert_eq!(idle.twitch_status(), &TwitchStatus::Disconnected);
    assert!(none.is_empty());
}

#[test]
fn connecting_uses_the_typed_token_first() {
    let (mut state, _) = State::new(Some("saved".to_string()), Some(prefs(false)));
    state.update(Message::TokenInputChanged("typed".to_string()));
    let effects = state.update(Message::ConnectClicked);
    assert_eq!(effects, vec![Effect::SaveToken("typed".to_string()), connect("typed")]);
    assert_eq!(state.twitch_status(), &TwitchStatus::Connecting);
}

#[test]
fn connecting_without_typed_token_loads_the_saved_one() {
    let (mut state, _) = State::new(Some("saved".to_string()), Some(prefs(false)));
    state.update(Message::TokenInputChanged(String::new()));
    assert_eq!(state.update(Message::ConnectClicked), vec![Effect::LoadToken]);
    assert_eq!(state.twitch_status(), &TwitchStatus::Disconnected);
    let effects = state.update(Message::TokenLoaded("saved".to_string()));
    assert_eq!(effects, vec![Effect::SaveToken("saved".to_string()), connect("saved")]);
    assert_eq!(state.twitch_status(), &TwitchStatus::Connecting);
}

#[test]
fn connecting_without_any_token_does_nothing() {
    let (mut state, _) = State::new(None, None);
    assert!(state.update(Message::ConnectClicked).is_empty());
    assert_eq!(state.twitch_status(), &TwitchStatus::Disconnected);
}

#[test]
fn failures_to_connect_are_shown() {
    let (mut state, _) = State::new(None, None);
    assert!(state.update(Message::TokenNotLoaded("locked".to_string())).is_empty());
    assert_eq!(
        state.twitch_status(),
        &TwitchStatus::Error("Failed to load token: locked".to_string())
    );
    assert!(state.update(Message::ConnectNotSent).is_empty());
    assert_eq!(
        state.twitch_status(),
        &TwitchStatus::Error("Failed to send connect command".to_string())
    );
}

#[test]
fn token_counts_as_saved_once_it_was() {
    let (mut state, _) = State::new(None, None);
    state.update(Message::TokenSaved(false));
    assert!(!state.token_saved());
    state.update(Message::TokenSaved(true));
    assert!(state.token_saved());
    state.update(Message::TokenSaved(false));
    assert!(state.token_saved());
    assert_eq!(state.update(Message::ClearTokenClicked), vec![Effect::DeleteToken]);
    assert!(!state.token_saved());
    assert_eq!(state.token_input_value(), "");
}

#[test]
fn preference_changes_are_saved_and_passed_on() {
    let (mut state, _) = State::new(None, Some(prefs(false)));
    assert_eq!(
        state.update(Message::NpCommandChanged("!now".to_string())),
        vec![Effect::SaveNpCommand("!now".to_string()), only(Some("!now"), None, None, None)]
    );
    assert_eq!(
        state.update(Message::NpFormatChanged("{artist}".to_string())),
        vec![Effect::SaveNpFormat("{artist}".to_string()), only(None, Some("{artist}"), None, None)]
    );
    assert_eq!(
        state.update(Message::PpCommandChanged("!p".to_string())),
        vec![Effect::SavePpCommand("!p".to_string()), only(None, None, Some("!p"), None)]
    );
    assert_eq!(
        state.update(Message::PpFormatChanged("{pp_95}".to_string())),
        vec![Effect::SavePpFormat("{pp_95}".to_string()), only(None, None, None, Some("{pp_95}"))]
    );
    assert_eq!(state.np_command(), "!now");
    assert_eq!(state.np_format(), "{artist}");
    assert_eq!(state.pp_command(), "!p");
    assert_eq!(state.pp_format(), "{pp_95}");
    assert_eq!(
        state.update(Message::ResetNpCommand),
        vec![Effect::SaveNpCommand("!np".to_string()), only(Some("!np"), None, None, None)]
    );
    assert_eq!(state.np_command(), "!np");
    state.update(Message::ResetNpFormat);
    state.update(Message::ResetPpCommand);
    let last = state.update(Message::ResetPpFormat);
    assert_eq!(last[0], Effect::SavePpFormat(pp_format_default()));
    assert_eq!(state.pp_command(), "!pp");
    assert_eq!(state.pp_format(), pp_format_default());
    assert_eq!(
        state.update(Message::AutoConnectToggled(true)),
        vec![Effect::SaveAutoConnect(true)]
    );
    assert!(state.auto_connect_value());
}

#[test]
fn events_of_the_monitor_and_the_bot_are_shown() {
    let (mut state, _) = State::new(None, None);
    assert!(state.update(Message::OsuEvent(MemoryEvent::StatusChanged(OsuStatus::Scanning))).is_empty());
    assert_eq!(state.osu_status(), &OsuStatus::Scanning);
    let snapshot = BeatmapData::unknown();
    assert_eq!(
        state.update(Message::OsuEvent(MemoryEvent::BeatmapChanged(Some(snapshot.clone())))),
        vec![Effect::ComputePp]
    );
    assert_eq!(state.current_beatmap(), &Some(snapshot.clone()));
    assert!(state.update(Message::OsuEvent(MemoryEvent::BeatmapDataResponse(None))).is_empty());
    assert_eq!(state.current_beatmap(), &Some(snapshot));
    assert_eq!(
        state.update(Message::OsuEvent(MemoryEvent::BeatmapChanged(None))),
        vec![Effect::ComputePp]
    );
    assert_eq!(state.current_beatmap(), &None);
    state.update(Message::TwitchEvent(TwitchEvent::Connected("me".to_string())));
    assert_eq!(state.twitch_status(), &TwitchStatus::Connected("me".to_string()));
    state.update(Message::TwitchEvent(TwitchEvent::Error("lost".to_string())));
    assert_eq!(state.twitch_status(), &TwitchStatus::Error("lost".to_string()));
    state.update(Message::TwitchEvent(TwitchEvent::Disconnected));
    assert_eq!(state.twitch_status(), &TwitchStatus::Disconnected);
    assert_eq!(
        state.update(Message::DisconnectClicked),
        vec![Effect::SendTwitch(TwitchCommand::Disconnect)]
    );
}

#[test]
fn clicks_on_links_and_tabs() {
    let (mut state, _) = State::new(None, None);
    assert!(state.update(Message::TabSelected(Tab::Console)).is_empty());
    assert_eq!(state.active_tab(), Tab::Console);
    assert_eq!(
        state.update(Message::TokenHelpClicked),
        vec![Effect::OpenUrl("https://osu-twitchbot.dyl.blue/".to_string())]
    );
    assert_eq!(
        state.update(Message::LinkClicked("https://osu.ppy.sh/b/1".to_string())),
        vec![Effect::OpenUrl("https://osu.ppy.sh/b/1".to_string())]
    );
}

#[test]
fn window_log_is_bounded() {
    let (mut state, _) = State::new(None, None);
    for i in 0..MAX_LOG_ENTRIES + 1 {
        state.update(Message::LogEvent(log_info("m", format!("{}", i), "t".to_string())));
    }
    assert_eq!(state.log_entries().len(), MAX_LOG_ENTRIES);
    assert_eq!(state.log_entries()[0].message, "1");
}
