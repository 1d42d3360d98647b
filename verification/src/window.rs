//! The state behind the window: what each event of the window, of the
//! monitor and of the chat bot changes in it, and what is to be done about
//! it outside.

use crate::beatmap::{snapshot_view, status_text, BeatmapData, BeatmapDataView};
use crate::logging::{level_rank, LogLevel};
use crate::placeholders::{
    no_values, np_reply, pp_reply, values_of, Placeholders, PlaceholdersView, PpTexts,
};
use crate::text::{push_signed_decimal, signed_decimal, string_of};
use crate::chat::{TwitchCommand, TwitchCommandView, TwitchEvent, TwitchEventView, TwitchStatus, TwitchStatusView};
use crate::logging::{entry_views, keep_entry, with_entry, LogEntry, LogEntryView, MAX_LOG_ENTRIES};
use crate::preferences::{
    default_np_command, default_np_format, default_pp_command, default_pp_format,
    np_command_default, np_format_default, pp_command_default, pp_format_default, Config,
    ConfigView,
};
use crate::session::{MemoryEvent, MemoryEventView, OsuStatus, OsuStatusView};
use vstd::prelude::*;
use vstd::string::*;

verus! {

/// The pages of the window.
#[derive(Debug, Clone, Copy, PartialEq, Eq, Structural)]
pub enum Tab {
    Main,
    Settings,
    Data,
    Console,
}

/// What can happen to the window.
#[derive(Debug, Clone, PartialEq)]
pub enum Message {
    TabSelected(Tab),
    TokenInputChanged(String),
    AutoConnectToggled(bool),
    TokenHelpClicked,
    ConnectClicked,
    DisconnectClicked,
    ClearTokenClicked,
    NpCommandChanged(String),
    NpFormatChanged(String),
    ResetNpCommand,
    ResetNpFormat,
    PpCommandChanged(String),
    PpFormatChanged(String),
    ResetPpCommand,
    ResetPpFormat,
    OsuEvent(MemoryEvent),
    TwitchEvent(TwitchEvent),
    LogEvent(LogEntry),
    LinkClicked(String),
    /// The saved token was asked for and came.
    TokenLoaded(String),
    /// The saved token was asked for and did not come; the text says why.
    TokenNotLoaded(String),
    /// The token was to be saved; the flag says whether it was.
    TokenSaved(bool),
    /// The command to connect could not be handed to the bot.
    ConnectNotSent,
}

/// A `Message` as mathematics.
pub enum MessageView {
    TabSelected(Tab),
    TokenInputChanged(Seq<char>),
    AutoConnectToggled(bool),
    TokenHelpClicked,
    ConnectClicked,
    DisconnectClicked,
    ClearTokenClicked,
    NpCommandChanged(Seq<char>),
    NpFormatChanged(Seq<char>),
    ResetNpCommand,
    ResetNpFormat,
    PpCommandChanged(Seq<char>),
    PpFormatChanged(Seq<char>),
    ResetPpCommand,
    ResetPpFormat,
    OsuEvent(MemoryEventView),
    TwitchEvent(TwitchEventView),
    LogEvent(LogEntryView),
    LinkClicked(Seq<char>),
    TokenLoaded(Seq<char>),
    TokenNotLoaded(Seq<char>),
    TokenSaved(bool),
    ConnectNotSent,
}

impl View for Message {
    type V = MessageView;

    open spec fn view(&self) -> MessageView {
        match self {
            Message::TabSelected(tab) => MessageView::TabSelected(*tab),
            Message::TokenInputChanged(text) => MessageView::TokenInputChanged(text@),
            Message::AutoConnectToggled(value) => MessageView::AutoConnectToggled(*value),
            Message::TokenHelpClicked => MessageView::TokenHelpClicked,
            Message::ConnectClicked => MessageView::ConnectClicked,
            Message::DisconnectClicked => MessageView::DisconnectClicked,
            Message::ClearTokenClicked => MessageView::ClearTokenClicked,
            Message::NpCommandChanged(text) => MessageView::NpCommandChanged(text@),
            Message::NpFormatChanged(text) => MessageView::NpFormatChanged(text@),
            Message::ResetNpCommand => MessageView::ResetNpCommand,
            Message::ResetNpFormat => MessageView::ResetNpFormat,
            Message::PpCommandChanged(text) => MessageView::PpCommandChanged(text@),
            Message::PpFormatChanged(text) => MessageView::PpFormatChanged(text@),
            Message::ResetPpCommand => MessageView::ResetPpCommand,
            Message::ResetPpFormat => MessageView::ResetPpFormat,
            Message::OsuEvent(event) => MessageView::OsuEvent(event@),
            Message::TwitchEvent(event) => MessageView::TwitchEvent(event@),
            Message::LogEvent(entry) => MessageView::LogEvent(entry@),
            Message::LinkClicked(url) => MessageView::LinkClicked(url@),
            Message::TokenLoaded(token) => MessageView::TokenLoaded(token@),
            Message::TokenNotLoaded(text) => MessageView::TokenNotLoaded(text@),
            Message::TokenSaved(saved) => MessageView::TokenSaved(*saved),
            Message::ConnectNotSent => MessageView::ConnectNotSent,
        }
    }
}

/// What is to be done outside the state.
#[derive(Debug, Clone, PartialEq)]
pub enum Effect {
    SaveAutoConnect(bool),
    SaveNpCommand(String),
    SaveNpFormat(String),
    SavePpCommand(String),
    SavePpFormat(String),
    OpenUrl(String),
    /// Fetch the saved token and report it with `TokenLoaded`.
    LoadToken,
    /// Save the token and report with `TokenSaved`.
    SaveToken(String),
    DeleteToken,
    /// Hand the command to the bot; report `ConnectNotSent` where a command
    /// to connect could not be handed over.
    SendTwitch(TwitchCommand),
    /// Compute the performance points of the current snapshot anew.
    ComputePp,
}

/// An `Effect` as mathematics.
pub enum EffectView {
    SaveAutoConnect(bool),
    SaveNpCommand(Seq<char>),
    SaveNpFormat(Seq<char>),
    SavePpCommand(Seq<char>),
    SavePpFormat(Seq<char>),
    OpenUrl(Seq<char>),
    LoadToken,
    SaveToken(Seq<char>),
    DeleteToken,
    SendTwitch(TwitchCommandView),
    ComputePp,
}

impl View for Effect {
    type V = EffectView;

    open spec fn view(&self) -> EffectView {
        match self {
            Effect::SaveAutoConnect(value) => EffectView::SaveAutoConnect(*value),
            Effect::SaveNpCommand(text) => EffectView::SaveNpCommand(text@),
            Effect::SaveNpFormat(text) => EffectView::SaveNpFormat(text@),
            Effect::SavePpCommand(text) => EffectView::SavePpCommand(text@),
            Effect::SavePpFormat(text) => EffectView::SavePpFormat(text@),
            Effect::OpenUrl(url) => EffectView::OpenUrl(url@),
            Effect::LoadToken => EffectView::LoadToken,
            Effect::SaveToken(token) => EffectView::SaveToken(token@),
            Effect::DeleteToken => EffectView::DeleteToken,
            Effect::SendTwitch(command) => EffectView::SendTwitch(command@),
            Effect::ComputePp => EffectView::ComputePp,
        }
    }
}

/// The views of a list of effects.
pub open spec fn effect_views(list: Seq<Effect>) -> Seq<EffectView> {
    Seq::new(list.len(), |i: int| list[i]@)
}

/// The state of the window as mathematics.
pub struct StateView {
    pub active_tab: Tab,
    pub token_input_value: Seq<char>,
    pub token_saved: bool,
    pub auto_connect_value: bool,
    pub np_command: Seq<char>,
    pub np_format: Seq<char>,
    pub pp_command: Seq<char>,
    pub pp_format: Seq<char>,
    pub current_beatmap: Option<BeatmapDataView>,
    pub osu_status: OsuStatusView,
    pub twitch_status: TwitchStatusView,
    pub log_entries: Seq<LogEntryView>,
}

/// The page to which the help for the token leads.
pub open spec fn help_url() -> Seq<char> {
    "https://osu-twitchbot.dyl.blue/"@
}

/// The command to connect with the given token and the commands and formats
/// of the state.
pub open spec fn connect_command(s: StateView, token: Seq<char>) -> TwitchCommandView {
    TwitchCommandView::Connect {
        token,
        np_command: s.np_command,
        np_format: s.np_format,
        pp_command: s.pp_command,
        pp_format: s.pp_format,
    }
}

/// The state of a window that opens: with the saved token, where there is
/// one, in its input field, and with the preferences that were loaded or
/// those of a user who chose nothing. Where the user asked for it and a
/// token is saved, the window opens connecting.
pub open spec fn opening_state(token: Option<Seq<char>>, prefs: Option<ConfigView>) -> StateView {
    let auto = match prefs {
        Some(p) => p.auto_connect,
        None => false,
    };
    StateView {
        active_tab: Tab::Main,
        token_input_value: match token {
            Some(t) => t,
            None => Seq::empty(),
        },
        token_saved: token is Some,
        auto_connect_value: auto,
        np_command: match prefs {
            Some(p) => p.np_command,
            None => default_np_command(),
        },
        np_format: match prefs {
            Some(p) => p.np_format,
            None => default_np_format(),
        },
        pp_command: match prefs {
            Some(p) => p.pp_command,
            None => default_pp_command(),
        },
        pp_format: match prefs {
            Some(p) => p.pp_format,
            None => default_pp_format(),
        },
        current_beatmap: None,
        osu_status: OsuStatusView::Disconnected,
        twitch_status: if auto && token is Some {
            TwitchStatusView::Connecting
        } else {
            TwitchStatusView::Disconnected
        },
        log_entries: Seq::empty(),
    }
}

/// What is to be done when the window opens: to connect, where the window
/// opens connecting.
pub open spec fn opening_effects(token: Option<Seq<char>>, prefs: Option<ConfigView>) -> Seq<
    EffectView,
> {
    let s = opening_state(token, prefs);
    if s.twitch_status is Connecting {
        seq![EffectView::SendTwitch(connect_command(s, s.token_input_value))]
    } else {
        Seq::empty()
    }
}

/// The state after a message.
pub open spec fn state_after(s: StateView, m: MessageView) -> StateView {
    match m {
        MessageView::TabSelected(tab) => StateView { active_tab: tab, ..s },
        MessageView::TokenInputChanged(text) => StateView { token_input_value: text, ..s },
        MessageView::AutoConnectToggled(value) => StateView { auto_connect_value: value, ..s },
        MessageView::TokenHelpClicked => s,
        MessageView::ConnectClicked => if s.token_input_value.len() > 0 {
            StateView { twitch_status: TwitchStatusView::Connecting, ..s }
        } else {
            s
        },
        MessageView::DisconnectClicked => StateView {
            twitch_status: TwitchStatusView::Disconnected,
            ..s
        },
        MessageView::ClearTokenClicked => StateView {
            token_input_value: Seq::empty(),
            token_saved: false,
            ..s
        },
        MessageView::NpCommandChanged(text) => StateView { np_command: text, ..s },
        MessageView::NpFormatChanged(text) => StateView { np_format: text, ..s },
        MessageView::ResetNpCommand => StateView { np_command: default_np_command(), ..s },
        MessageView::ResetNpFormat => StateView { np_format: default_np_format(), ..s },
        MessageView::PpCommandChanged(text) => StateView { pp_command: text, ..s },
        MessageView::PpFormatChanged(text) => StateView { pp_format: text, ..s },
        MessageView::ResetPpCommand => StateView { pp_command: default_pp_command(), ..s },
        MessageView::ResetPpFormat => StateView { pp_format: default_pp_format(), ..s },
        MessageView::OsuEvent(event) => match event {
            MemoryEventView::StatusChanged(status) => StateView { osu_status: status, ..s },
            MemoryEventView::BeatmapChanged(snapshot) => StateView {
                current_beatmap: snapshot,
                ..s
            },
            MemoryEventView::BeatmapDataResponse(_) => s,
        },
        MessageView::TwitchEvent(event) => match event {
            TwitchEventView::Connected(user) => StateView {
                twitch_status: TwitchStatusView::Connected(user),
                ..s
            },
            TwitchEventView::Disconnected => StateView {
                twitch_status: TwitchStatusView::Disconnected,
                ..s
            },
            TwitchEventView::Error(text) => StateView {
                twitch_status: TwitchStatusView::Error(text),
                ..s
            },
        },
        MessageView::LogEvent(entry) => StateView {
            log_entries: with_entry(s.log_entries, entry, MAX_LOG_ENTRIES as int),
            ..s
        },
        MessageView::LinkClicked(_) => s,
        MessageView::TokenLoaded(_) => StateView {
            twitch_status: TwitchStatusView::Connecting,
            ..s
        },
        MessageView::TokenNotLoaded(text) => StateView {
            twitch_status: TwitchStatusView::Error("Failed to load token: "@ + text),
            ..s
        },
        MessageView::TokenSaved(saved) => if saved {
            StateView { token_saved: true, ..s }
        } else {
            s
        },
        MessageView::ConnectNotSent => StateView {
            twitch_status: TwitchStatusView::Error("Failed to send connect command"@),
            ..s
        },
    }
}

/// A change of preferences that changes what is given and nothing else.
pub open spec fn preference_change(
    np_command: Option<Seq<char>>,
    np_format: Option<Seq<char>>,
    pp_command: Option<Seq<char>>,
    pp_format: Option<Seq<char>>,
) -> EffectView {
    EffectView::SendTwitch(
        TwitchCommandView::UpdatePreferences { np_command, np_format, pp_command, pp_format },
    )
}

/// What is to be done after a message, in this order.
pub open spec fn effects_after(s: StateView, m: MessageView) -> Seq<EffectView> {
    match m {
        MessageView::AutoConnectToggled(value) => seq![EffectView::SaveAutoConnect(value)],
        MessageView::TokenHelpClicked => seq![EffectView::OpenUrl(help_url())],
        MessageView::ConnectClicked => if s.token_input_value.len() > 0 {
            seq![
                EffectView::SaveToken(s.token_input_value),
                EffectView::SendTwitch(connect_command(s, s.token_input_value)),
            ]
        } else if s.token_saved {
            seq![EffectView::LoadToken]
        } else {
            Seq::empty()
        },
        MessageView::DisconnectClicked => seq![
            EffectView::SendTwitch(TwitchCommandView::Disconnect),
        ],
        MessageView::ClearTokenClicked => seq![EffectView::DeleteToken],
        MessageView::NpCommandChanged(text) => seq![
            EffectView::SaveNpCommand(text),
            preference_change(Some(text), None, None, None),
        ],
        MessageView::NpFormatChanged(text) => seq![
            EffectView::SaveNpFormat(text),
            preference_change(None, Some(text), None, None),
        ],
        MessageView::ResetNpCommand => seq![
            EffectView::SaveNpCommand(default_np_command()),
            preference_change(Some(default_np_command()), None, None, None),
        ],
        MessageView::ResetNpFormat => seq![
            EffectView::SaveNpFormat(default_np_format()),
            preference_change(None, Some(default_np_format()), None, None),
        ],
        MessageView::PpCommandChanged(text) => seq![
            EffectView::SavePpCommand(text),
            preference_change(None, None, Some(text), None),
        ],
        MessageView::PpFormatChanged(text) => seq![
            EffectView::SavePpFormat(text),
            preference_change(None, None, None, Some(text)),
        ],
        MessageView::ResetPpCommand => seq![
            EffectView::SavePpCommand(default_pp_command()),
            preference_change(None, None, Some(default_pp_command()), None),
        ],
        MessageView::ResetPpFormat => seq![
            EffectView::SavePpFormat(default_pp_format()),
            preference_change(None, None, None, Some(default_pp_format())),
        ],
        MessageView::OsuEvent(event) => match event {
            MemoryEventView::BeatmapChanged(_) => seq![EffectView::ComputePp],
            _ => Seq::empty(),
        },
        MessageView::LinkClicked(url) => seq![EffectView::OpenUrl(url)],
        MessageView::TokenLoaded(token) => seq![
            EffectView::SaveToken(token),
            EffectView::SendTwitch(connect_command(s, token)),
        ],
        _ => Seq::empty(),
    }
}

/// The state behind the window.
#[derive(Debug, Clone, PartialEq)]
pub struct State {
    active_tab: Tab,
    token_input_value: String,
    token_saved: bool,
    auto_connect_value: bool,
    np_command: String,
    np_format: String,
    pp_command: String,
    pp_format: String,
    current_beatmap: Option<BeatmapData>,
    osu_status: OsuStatus,
    twitch_status: TwitchStatus,
    log_entries: Vec<LogEntry>,
}

impl View for State {
    type V = StateView;

    closed spec fn view(&self) -> StateView {
        StateView {
            active_tab: self.active_tab,
            token_input_value: self.token_input_value@,
            token_saved: self.token_saved,
            auto_connect_value: self.auto_connect_value,
            np_command: self.np_command@,
            np_format: self.np_format@,
            pp_command: self.pp_command@,
            pp_format: self.pp_format@,
            current_beatmap: snapshot_view(self.current_beatmap),
            osu_status: self.osu_status@,
            twitch_status: self.twitch_status@,
            log_entries: entry_views(self.log_entries@),
        }
    }
}

fn none() -> (list: Vec<Effect>)
    ensures
        effect_views(list@) == Seq::<EffectView>::empty(),
{
    let list: Vec<Effect> = Vec::new();
    assert(effect_views(list@) =~= Seq::<EffectView>::empty());
    list
}

fn one(effect: Effect) -> (list: Vec<Effect>)
    ensures
        effect_views(list@) == seq![effect@],
{
    let mut list: Vec<Effect> = Vec::new();
    list.push(effect);
    assert(effect_views(list@) =~= seq![effect@]);
    list
}

fn two(first: Effect, second: Effect) -> (list: Vec<Effect>)
    ensures
        effect_views(list@) == seq![first@, second@],
{
    let mut list: Vec<Effect> = Vec::new();
    list.push(first);
    list.push(second);
    assert(effect_views(list@) =~= seq![first@, second@]);
    list
}

impl State {
    /// The state of a window that opens, and what is to be done then.
    /// `token` is the saved token, `prefs` are the loaded preferences.
    pub fn new(token: Option<String>, prefs: Option<Config>) -> (made: (State, Vec<Effect>))
        ensures
            made.0@ == opening_state(
                crate::beatmap::text_view(token),
                match prefs {
                    Some(p) => Some(p@),
                    None => None,
                },
            ),
            effect_views(made.1@) == opening_effects(
                crate::beatmap::text_view(token),
                match prefs {
                    Some(p) => Some(p@),
                    None => None,
                },
            ),
    {
        let token_saved = token.is_some();
        let token_input_value = match token {
            Some(t) => t,
            None => String::new(),
        };
        let (auto_connect_value, np_command, np_format, pp_command, pp_format) = match prefs {
            Some(p) => (p.auto_connect, p.np_command, p.np_format, p.pp_command, p.pp_format),
            None => (
                false,
                np_command_default(),
                np_format_default(),
                pp_command_default(),
                pp_format_default(),
            ),
        };
        let connecting = auto_connect_value && token_saved;
        let effects = if connecting {
            one(
                Effect::SendTwitch(
                    TwitchCommand::Connect {
                        token: token_input_value.clone(),
                        np_command: np_command.clone(),
                        np_format: np_format.clone(),
                        pp_command: pp_command.clone(),
                        pp_format: pp_format.clone(),
                    },
                ),
            )
        } else {
            none()
        };
        let state = State {
            active_tab: Tab::Main,
            token_input_value,
            token_saved,
            auto_connect_value,
            np_command,
            np_format,
            pp_command,
            pp_format,
            current_beatmap: None,
            osu_status: OsuStatus::Disconnected,
            twitch_status: if connecting {
                TwitchStatus::Connecting
            } else {
                TwitchStatus::Disconnected
            },
            log_entries: Vec::new(),
        };
        assert(state@.log_entries =~= Seq::empty());
        (state, effects)
    }

    /// The title of the window.
    pub fn title(&self) -> (title: String)
        ensures
            title@ == "osu! twitchbot"@,
    {
        String::from_str("osu! twitchbot")
    }

    /// The page that is shown.
    pub fn active_tab(&self) -> (tab: Tab)
        ensures
            tab == self@.active_tab,
    {
        self.active_tab
    }

    /// What stands in the input field of the token.
    pub fn token_input_value(&self) -> (text: &str)
        ensures
            text@ == self@.token_input_value,
    {
        self.token_input_value.as_str()
    }

    /// Whether a token is saved.
    pub fn token_saved(&self) -> (saved: bool)
        ensures
            saved == self@.token_saved,
    {
        self.token_saved
    }

    /// Whether to connect to the chat at start.
    pub fn auto_connect_value(&self) -> (value: bool)
        ensures
            value == self@.auto_connect_value,
    {
        self.auto_connect_value
    }

    /// The command that asks for the beatmap that is playing.
    pub fn np_command(&self) -> (text: &str)
        ensures
            text@ == self@.np_command,
    {
        self.np_command.as_str()
    }

    /// The format of the reply to that command.
    pub fn np_format(&self) -> (text: &str)
        ensures
            text@ == self@.np_format,
    {
        self.np_format.as_str()
    }

    /// The command that asks for performance points.
    pub fn pp_command(&self) -> (text: &str)
        ensures
            text@ == self@.pp_command,
    {
        self.pp_command.as_str()
    }

    /// The format of the reply to that command.
    pub fn pp_format(&self) -> (text: &str)
        ensures
            text@ == self@.pp_format,
    {
        self.pp_format.as_str()
    }

    /// The snapshot that the window shows.
    pub fn current_beatmap(&self) -> (snapshot: &Option<BeatmapData>)
        ensures
            snapshot_view(*snapshot) == self@.current_beatmap,
    {
        &self.current_beatmap
    }

    /// Where the monitor stands.
    pub fn osu_status(&self) -> (status: &OsuStatus)
        ensures
            status@ == self@.osu_status,
    {
        &self.osu_status
    }

    /// Where the bot stands.
    pub fn twitch_status(&self) -> (status: &TwitchStatus)
        ensures
            status@ == self@.twitch_status,
    {
        &self.twitch_status
    }

    /// The log entries that the window shows.
    pub fn log_entries(&self) -> (entries: &Vec<LogEntry>)
        ensures
            entry_views(entries@) == self@.log_entries,
    {
        &self.log_entries
    }

    fn connect(&mut self, token: String) -> (effects: Vec<Effect>)
        ensures
            final(self)@ == (StateView {
                twitch_status: TwitchStatusView::Connecting,
                ..old(self)@
            }),
            effect_views(effects@) == seq![
                EffectView::SaveToken(token@),
                EffectView::SendTwitch(connect_command(old(self)@, token@)),
            ],
    {
        self.twitch_status = TwitchStatus::Connecting;
        two(
            Effect::SaveToken(token.clone()),
            Effect::SendTwitch(
                TwitchCommand::Connect {
                    token,
                    np_command: self.np_command.clone(),
                    np_format: self.np_format.clone(),
                    pp_command: self.pp_command.clone(),
                    pp_format: self.pp_format.clone(),
                },
            ),
        )
    }

    /// Takes a message: changes the state and says what is to be done.
    pub fn update(&mut self, message: Message) -> (effects: Vec<Effect>)
        ensures
            final(self)@ == state_after(old(self)@, message@),
            effect_views(effects@) == effects_after(old(self)@, message@),
    {
        match message {
            Message::TabSelected(tab) => {
                self.active_tab = tab;
                none()
            },
            Message::TokenInputChanged(value) => {
                self.token_input_value = value;
                none()
            },
            Message::AutoConnectToggled(value) => {
                self.auto_connect_value = value;
                one(Effect::SaveAutoConnect(value))
            },
            Message::TokenHelpClicked => one(
                Effect::OpenUrl(String::from_str("https://osu-twitchbot.dyl.blue/")),
            ),
            Message::ConnectClicked => {
                if !self.token_input_value.as_str().is_empty() {
                    let token = self.token_input_value.clone();
                    self.connect(token)
                } else if self.token_saved {
                    one(Effect::LoadToken)
                } else {
                    none()
                }
            },
            Message::DisconnectClicked => {
                self.twitch_status = TwitchStatus::Disconnected;
                one(Effect::SendTwitch(TwitchCommand::Disconnect))
            },
            Message::ClearTokenClicked => {
                self.token_input_value = String::new();
                self.token_saved = false;
                one(Effect::DeleteToken)
            },
            Message::NpCommandChanged(value) => self.change_np_command(value),
            Message::NpFormatChanged(value) => self.change_np_format(value),
            Message::ResetNpCommand => self.change_np_command(np_command_default()),
            Message::ResetNpFormat => self.change_np_format(np_format_default()),
            Message::PpCommandChanged(value) => self.change_pp_command(value),
            Message::PpFormatChanged(value) => self.change_pp_format(value),
            Message::ResetPpCommand => self.change_pp_command(pp_command_default()),
            Message::ResetPpFormat => self.change_pp_format(pp_format_default()),
            Message::OsuEvent(event) => match event {
                MemoryEvent::StatusChanged(status) => {
                    self.osu_status = status;
                    none()
                },
                MemoryEvent::BeatmapChanged(snapshot) => {
                    self.current_beatmap = snapshot;
                    one(Effect::ComputePp)
                },
                MemoryEvent::BeatmapDataResponse(_) => none(),
            },
            Message::TwitchEvent(event) => {
                match event {
                    TwitchEvent::Connected(user) => {
                        self.twitch_status = TwitchStatus::Connected(user);
                    },
                    TwitchEvent::Disconnected => {
                        self.twitch_status = TwitchStatus::Disconnected;
                    },
                    TwitchEvent::Error(text) => {
                        self.twitch_status = TwitchStatus::Error(text);
                    },
                }
                none()
            },
            Message::LogEvent(entry) => {
                keep_entry(&mut self.log_entries, entry);
                none()
            },
            Message::LinkClicked(url) => one(Effect::OpenUrl(url)),
            Message::TokenLoaded(token) => self.connect(token),
            Message::TokenNotLoaded(text) => {
                self.twitch_status = TwitchStatus::Error(
                    String::from_str("Failed to load token: ").concat(text.as_str()),
                );
                none()
            },
            Message::TokenSaved(saved) => {
                if saved {
                    self.token_saved = true;
                }
                none()
            },
            Message::ConnectNotSent => {
                self.twitch_status = TwitchStatus::Error(
                    String::from_str("Failed to send connect command"),
                );
                none()
            },
        }
    }

    fn change_np_command(&mut self, value: String) -> (effects: Vec<Effect>)
        ensures
            final(self)@ == state_after(old(self)@, MessageView::NpCommandChanged(value@)),
            effect_views(effects@) == effects_after(
                old(self)@,
                MessageView::NpCommandChanged(value@),
            ),
    {
        self.np_command = value.clone();
        two(
            Effect::SaveNpCommand(value.clone()),
            Effect::SendTwitch(
                TwitchCommand::UpdatePreferences {
                    np_command: Some(value),
                    np_format: None,
                    pp_command: None,
                    pp_format: None,
                },
            ),
        )
    }

    fn change_np_format(&mut self, value: String) -> (effects: Vec<Effect>)
        ensures
            final(self)@ == state_after(old(self)@, MessageView::NpFormatChanged(value@)),
            effect_views(effects@) == effects_after(
                old(self)@,
                MessageView::NpFormatChanged(value@),
            ),
    {
        self.np_format = value.clone();
        two(
            Effect::SaveNpFormat(value.clone()),
            Effect::SendTwitch(
                TwitchCommand::UpdatePreferences {
                    np_command: None,
                    np_format: Some(value),
                    pp_command: None,
                    pp_format: None,
                },
            ),
        )
    }

    fn change_pp_command(&mut self, value: String) -> (effects: Vec<Effect>)
        ensures
            final(self)@ == state_after(old(self)@, MessageView::PpCommandChanged(value@)),
            effect_views(effects@) == effects_after(
                old(self)@,
                MessageView::PpCommandChanged(value@),
            ),
    {
        self.pp_command = value.clone();
        two(
            Effect::SavePpCommand(value.clone()),
            Effect::SendTwitch(
                TwitchCommand::UpdatePreferences {
                    np_command: None,
                    np_format: None,
                    pp_command: Some(value),
                    pp_format: None,
                },
            ),
        )
    }

    fn change_pp_format(&mut self, value: String) -> (effects: Vec<Effect>)
        ensures
            final(self)@ == state_after(old(self)@, MessageView::PpFormatChanged(value@)),
            effect_views(effects@) == effects_after(
                old(self)@,
                MessageView::PpFormatChanged(value@),
            ),
    {
        self.pp_format = value.clone();
        two(
            Effect::SavePpFormat(value.clone()),
            Effect::SendTwitch(
                TwitchCommand::UpdatePreferences {
                    np_command: None,
                    np_format: None,
                    pp_command: None,
                    pp_format: Some(value),
                },
            ),
        )
    }
}

/// The values of a preview of the reply about the beatmap that is playing:
/// those of the current snapshot, or made-up ones where there is none.
pub open spec fn np_preview_text(s: StateView) -> Seq<char> {
    match s.current_beatmap {
        Some(b) => np_reply(values_of(b), s.np_format),
        None => np_reply(
            PlaceholdersView {
                id: Some("123456"@),
                artist: Some("Artist"@),
                title: Some("Title"@),
                diff: Some("Difficulty"@),
                creator: Some("Creator"@),
                status: Some("Ranked"@),
                link: Some("https://osu.ppy.sh/b/123456"@),
                mods: Some("+NoMod"@),
                ..no_values()
            },
            s.np_format,
        ),
    }
}

/// The words of a row of the data page: the id of the beatmap, or `Local`
/// for a beatmap that was never submitted.
pub open spec fn id_words(id: int) -> Seq<char> {
    if id <= 0 {
        "Local"@
    } else {
        signed_decimal(id)
    }
}

/// The words of a row of the data page: the modifiers in display order, or
/// `None` where there are none to show.
pub open spec fn mods_words(b: BeatmapDataView) -> Seq<char> {
    match b.mods {
        Some(m) => if m.mods_string.len() > 0 {
            m.mods_string
        } else {
            "None"@
        },
        None => "None"@,
    }
}

/// Whether an entry of the given level is shown in the console: every
/// entry that is at least informative.
pub fn shows_in_console(level: LogLevel) -> (shown: bool)
    ensures
        shown == (level_rank(level) >= level_rank(LogLevel::Info)),
{
    level.at_least(LogLevel::Info)
}

/// The words for the id of a beatmap on the data page.
pub fn id_text(id: i32) -> (words: String)
    ensures
        words@ == id_words(id as int),
{
    if id <= 0 {
        String::from_str("Local")
    } else {
        let mut out: Vec<char> = Vec::new();
        push_signed_decimal(&mut out, id as i64);
        string_of(&out)
    }
}

/// The words for the modifiers of a snapshot on the data page.
pub fn mods_text(beatmap: &BeatmapData) -> (words: String)
    ensures
        words@ == mods_words(beatmap@),
{
    match &beatmap.mods {
        Some(m) => if !m.mods_string.as_str().is_empty() {
            m.mods_string.clone()
        } else {
            String::from_str("None")
        },
        None => String::from_str("None"),
    }
}

impl State {
    /// Whether there is a token to connect with: a typed or a saved one.
    pub fn can_connect(&self) -> (can: bool)
        ensures
            can == (self@.token_input_value.len() > 0 || self@.token_saved),
    {
        !self.token_input_value.as_str().is_empty() || self.token_saved
    }

    /// The words in the empty input field of the token.
    pub fn token_placeholder(&self) -> (words: String)
        ensures
            words@ == if self@.token_saved && self@.token_input_value.len() == 0 {
                "Token saved securely"@
            } else {
                "Enter your token here..."@
            },
    {
        if self.token_saved && self.token_input_value.as_str().is_empty() {
            String::from_str("Token saved securely")
        } else {
            String::from_str("Enter your token here...")
        }
    }

    /// A preview of the reply about the beatmap that is playing, in the
    /// format of the state.
    pub fn np_preview(&self) -> (preview: String)
        ensures
            preview@ == np_preview_text(self@),
    {
        match &self.current_beatmap {
            Some(beatmap) => Placeholders::from_beatmap(beatmap).apply_np(self.np_format.as_str()),
            None => Placeholders::sample().apply_np(self.np_format.as_str()),
        }
    }

    /// A preview of the reply about performance points, in the format of
    /// the state: with the values of the current snapshot where both are
    /// there, with made-up values otherwise.
    pub fn pp_preview(&self, pp: &Option<PpTexts>) -> (preview: String)
        ensures
            preview@ == match (self@.current_beatmap, *pp) {
                (Some(b), Some(p)) => pp_reply(
                    PlaceholdersView {
                        pp_95: Some(p.pp_95@),
                        pp_97: Some(p.pp_97@),
                        pp_98: Some(p.pp_98@),
                        pp_99: Some(p.pp_99@),
                        pp_100: Some(p.pp_100@),
                        ..values_of(b)
                    },
                    self@.pp_format,
                ),
                _ => pp_reply(
                    PlaceholdersView {
                        mods: Some("+NoMod"@),
                        pp_95: Some("350"@),
                        pp_97: Some("400"@),
                        pp_98: Some("450"@),
                        pp_99: Some("500"@),
                        pp_100: Some("550"@),
                        ..no_values()
                    },
                    self@.pp_format,
                ),
            },
    {
        match (&self.current_beatmap, pp) {
            (Some(beatmap), Some(values)) => Placeholders::from_beatmap(beatmap).with_pp(
                values,
            ).apply_pp(self.pp_format.as_str()),
            _ => Placeholders::sample_pp().apply_pp(self.pp_format.as_str()),
        }
    }
}

} // verus!
