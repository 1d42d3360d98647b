//! The rules of the chat bot: which chat messages are commands, how often
//! a command is taken, and what is replied once the snapshot has come.

use crate::beatmap::{snapshot_view, text_view, BeatmapData, BeatmapDataView};
use crate::placeholders::{np_reply, pp_reply, values_of, Placeholders, PlaceholdersView, PpTexts};
use crate::preferences::{
    default_np_command, default_np_format, default_pp_command, default_pp_format,
    np_command_default, np_format_default, pp_command_default, pp_format_default,
};
use crate::text::{
    begins_with, chars_of, contains, contains_chars, is_text, starts_with, string_of, trim,
    trimmed,
};
use vstd::prelude::*;
use vstd::string::*;

verus! {

/// The seconds without any message after which the connection counts as
/// lost.
pub const SOCKET_KEEPALIVE_SECONDS: u64 = 30;

/// The milliseconds that must lie between two commands that are taken.
pub const RATE_LIMIT_MS: u64 = 1000;

/// Where the bot stands with the chat service.
#[derive(Debug, Clone, PartialEq)]
pub enum TwitchStatus {
    Disconnected,
    Connecting,
    /// Connected; the text is the name of the account.
    Connected(String),
    Error(String),
}

/// A `TwitchStatus` as mathematics.
pub enum TwitchStatusView {
    Disconnected,
    Connecting,
    Connected(Seq<char>),
    Error(Seq<char>),
}

impl View for TwitchStatus {
    type V = TwitchStatusView;

    open spec fn view(&self) -> TwitchStatusView {
        match self {
            TwitchStatus::Disconnected => TwitchStatusView::Disconnected,
            TwitchStatus::Connecting => TwitchStatusView::Connecting,
            TwitchStatus::Connected(user) => TwitchStatusView::Connected(user@),
            TwitchStatus::Error(text) => TwitchStatusView::Error(text@),
        }
    }
}

/// The words that a status is shown with.
pub open spec fn twitch_status_text(status: TwitchStatusView) -> Seq<char> {
    match status {
        TwitchStatusView::Disconnected => "Disconnected"@,
        TwitchStatusView::Connecting => "Connecting..."@,
        TwitchStatusView::Connected(user) => "Connected as "@ + user,
        TwitchStatusView::Error(text) => "Error: "@ + text,
    }
}

impl TwitchStatus {
    /// The words that this status is shown with.
    pub fn to_text(&self) -> (text: String)
        ensures
            text@ == twitch_status_text(self@),
    {
        match self {
            TwitchStatus::Disconnected => String::from_str("Disconnected"),
            TwitchStatus::Connecting => String::from_str("Connecting..."),
            TwitchStatus::Connected(user) => String::from_str("Connected as ").concat(
                user.as_str(),
            ),
            TwitchStatus::Error(text) => String::from_str("Error: ").concat(text.as_str()),
        }
    }
}

/// What the window may ask of the bot.
#[derive(Debug, Clone, PartialEq)]
pub enum TwitchCommand {
    Connect {
        token: String,
        np_command: String,
        np_format: String,
        pp_command: String,
        pp_format: String,
    },
    Disconnect,
    /// Change the commands and formats that are given; leave the others.
    UpdatePreferences {
        np_command: Option<String>,
        np_format: Option<String>,
        pp_command: Option<String>,
        pp_format: Option<String>,
    },
}

/// What the bot tells the window.
#[derive(Debug, Clone, PartialEq)]
pub enum TwitchEvent {
    Connected(String),
    Disconnected,
    Error(String),
}

/// A `TwitchCommand` as mathematics.
pub enum TwitchCommandView {
    Connect {
        token: Seq<char>,
        np_command: Seq<char>,
        np_format: Seq<char>,
        pp_command: Seq<char>,
        pp_format: Seq<char>,
    },
    Disconnect,
    UpdatePreferences {
        np_command: Option<Seq<char>>,
        np_format: Option<Seq<char>>,
        pp_command: Option<Seq<char>>,
        pp_format: Option<Seq<char>>,
    },
}

impl View for TwitchCommand {
    type V = TwitchCommandView;

    open spec fn view(&self) -> TwitchCommandView {
        match self {
            TwitchCommand::Connect { token, np_command, np_format, pp_command, pp_format } => {
                TwitchCommandView::Connect {
                    token: token@,
                    np_command: np_command@,
                    np_format: np_format@,
                    pp_command: pp_command@,
                    pp_format: pp_format@,
                }
            },
            TwitchCommand::Disconnect => TwitchCommandView::Disconnect,
            TwitchCommand::UpdatePreferences { np_command, np_format, pp_command, pp_format } => {
                TwitchCommandView::UpdatePreferences {
                    np_command: text_view(*np_command),
                    np_format: text_view(*np_format),
                    pp_command: text_view(*pp_command),
                    pp_format: text_view(*pp_format),
                }
            },
        }
    }
}

/// A `TwitchEvent` as mathematics.
pub enum TwitchEventView {
    Connected(Seq<char>),
    Disconnected,
    Error(Seq<char>),
}

impl View for TwitchEvent {
    type V = TwitchEventView;

    open spec fn view(&self) -> TwitchEventView {
        match self {
            TwitchEvent::Connected(user) => TwitchEventView::Connected(user@),
            TwitchEvent::Disconnected => TwitchEventView::Disconnected,
            TwitchEvent::Error(text) => TwitchEventView::Error(text@),
        }
    }
}

/// The two commands that the bot answers.
#[derive(Debug, Clone, Copy, PartialEq, Eq, Structural)]
pub enum CommandType {
    NowPlaying,
    PerformancePoints,
}

impl CommandType {
    /// The short name of this command.
    pub fn to_text(&self) -> (text: String)
        ensures
            text@ == match *self {
                CommandType::NowPlaying => "np"@,
                CommandType::PerformancePoints => "pp"@,
            },
    {
        match self {
            CommandType::NowPlaying => String::from_str("np"),
            CommandType::PerformancePoints => String::from_str("pp"),
        }
    }
}

/// A command that waits for its snapshot.
#[derive(Debug, Clone, PartialEq)]
pub struct PendingRequest {
    /// The chat message that asked; the reply answers it.
    pub message_id: String,
    pub command_type: CommandType,
}

/// The commands and formats of the bot.
#[derive(Debug, Clone, PartialEq)]
pub struct ChatbotPreferences {
    pub np_command: String,
    pub np_format: String,
    pub pp_command: String,
    pub pp_format: String,
}

/// `ChatbotPreferences` as mathematics.
pub struct ChatbotPreferencesView {
    pub np_command: Seq<char>,
    pub np_format: Seq<char>,
    pub pp_command: Seq<char>,
    pub pp_format: Seq<char>,
}

impl View for ChatbotPreferences {
    type V = ChatbotPreferencesView;

    open spec fn view(&self) -> ChatbotPreferencesView {
        ChatbotPreferencesView {
            np_command: self.np_command@,
            np_format: self.np_format@,
            pp_command: self.pp_command@,
            pp_format: self.pp_format@,
        }
    }
}

/// `current`, or `change` where there is one.
pub open spec fn changed_to(current: Seq<char>, change: Option<Seq<char>>) -> Seq<char> {
    match change {
        Some(text) => text,
        None => current,
    }
}

impl ChatbotPreferences {
    /// Preferences with the given commands and formats.
    pub fn new(np_command: String, np_format: String, pp_command: String, pp_format: String) -> (made:
        ChatbotPreferences)
        ensures
            made@ == (ChatbotPreferencesView {
                np_command: np_command@,
                np_format: np_format@,
                pp_command: pp_command@,
                pp_format: pp_format@,
            }),
    {
        ChatbotPreferences { np_command, np_format, pp_command, pp_format }
    }

    /// Changes the commands and formats that are given and leaves the
    /// others.
    pub fn update_preferences(
        &mut self,
        np_command: Option<String>,
        np_format: Option<String>,
        pp_command: Option<String>,
        pp_format: Option<String>,
    )
        ensures
            final(self)@ == (ChatbotPreferencesView {
                np_command: changed_to(old(self)@.np_command, text_view(np_command)),
                np_format: changed_to(old(self)@.np_format, text_view(np_format)),
                pp_command: changed_to(old(self)@.pp_command, text_view(pp_command)),
                pp_format: changed_to(old(self)@.pp_format, text_view(pp_format)),
            }),
    {
        match np_command {
            Some(text) => {
                self.np_command = text;
            },
            None => {},
        }
        match np_format {
            Some(text) => {
                self.np_format = text;
            },
            None => {},
        }
        match pp_command {
            Some(text) => {
                self.pp_command = text;
            },
            None => {},
        }
        match pp_format {
            Some(text) => {
                self.pp_format = text;
            },
            None => {},
        }
    }
}

impl Default for ChatbotPreferences {
    /// The preferences of a user who chose nothing.
    fn default() -> (made: ChatbotPreferences)
        ensures
            made@ == (ChatbotPreferencesView {
                np_command: default_np_command(),
                np_format: default_np_format(),
                pp_command: default_pp_command(),
                pp_format: default_pp_format(),
            }),
    {
        ChatbotPreferences {
            np_command: np_command_default(),
            np_format: np_format_default(),
            pp_command: pp_command_default(),
            pp_format: pp_format_default(),
        }
    }
}

/// What a message of the event service is about.
#[derive(Debug, Clone, Copy, PartialEq, Eq, Structural)]
pub enum EventKind {
    /// The service says that the connection is alive.
    Keepalive,
    /// Somebody wrote in the chat.
    ChatMessage,
    /// A notification that the bot does not act on.
    OtherNotification,
    /// The service asks the bot to connect anew.
    Reconnect,
    /// The service took a subscription away.
    Revocation,
    Unknown,
}

/// What a message with the given type, and the given subscription type, is
/// about.
pub open spec fn kind_of(message_type: Seq<char>, subscription_type: Option<Seq<char>>) -> EventKind {
    if message_type == "session_keepalive"@ {
        EventKind::Keepalive
    } else if message_type == "notification"@ {
        if subscription_type == Some("channel.chat.message"@) {
            EventKind::ChatMessage
        } else {
            EventKind::OtherNotification
        }
    } else if message_type == "session_reconnect"@ {
        EventKind::Reconnect
    } else if message_type == "revocation"@ {
        EventKind::Revocation
    } else {
        EventKind::Unknown
    }
}

/// What a message of the event service is about.
pub fn classify_message(message_type: &str, subscription_type: &Option<String>) -> (kind: EventKind)
    ensures
        kind == kind_of(message_type@, text_view(*subscription_type)),
{
    let kind = chars_of(message_type);
    if is_text(&kind, "session_keepalive") {
        EventKind::Keepalive
    } else if is_text(&kind, "notification") {
        let is_chat = match subscription_type {
            Some(text) => is_text(&chars_of(text.as_str()), "channel.chat.message"),
            None => false,
        };
        if is_chat {
            EventKind::ChatMessage
        } else {
            EventKind::OtherNotification
        }
    } else if is_text(&kind, "session_reconnect") {
        EventKind::Reconnect
    } else if is_text(&kind, "revocation") {
        EventKind::Revocation
    } else {
        EventKind::Unknown
    }
}

/// The command that a chat message is: the one whose word the message
/// begins with, white space in front not counting; the command for the
/// beatmap that is playing where both words fit.
pub open spec fn command_in(text: Seq<char>, np_command: Seq<char>, pp_command: Seq<char>) -> Option<
    CommandType,
> {
    if begins_with(trimmed(text), np_command) {
        Some(CommandType::NowPlaying)
    } else if begins_with(trimmed(text), pp_command) {
        Some(CommandType::PerformancePoints)
    } else {
        None
    }
}

/// The command that a chat message is.
pub fn detect_command(text: &str, np_command: &str, pp_command: &str) -> (command: Option<
    CommandType,
>)
    ensures
        command == command_in(text@, np_command@, pp_command@),
{
    let tidy = trim(&chars_of(text));
    if starts_with(&tidy, &chars_of(np_command)) {
        Some(CommandType::NowPlaying)
    } else if starts_with(&tidy, &chars_of(pp_command)) {
        Some(CommandType::PerformancePoints)
    } else {
        None
    }
}

/// Whether a command at `now` comes too soon after the last one that was
/// taken.
pub open spec fn too_soon(last: Option<u64>, now: u64) -> bool {
    match last {
        Some(t) => (if now >= t {
            now - t
        } else {
            0
        }) < RATE_LIMIT_MS,
        None => false,
    }
}

/// What the words of a failed connection say to the user.
pub open spec fn user_error_text(text: Seq<char>) -> Seq<char> {
    if contains(text, "Server requested reconnect"@) {
        "Reconnection needed - please reconnect manually"@
    } else {
        text
    }
}

/// What the words of a failed connection say to the user.
pub fn error_for_user(text: &str) -> (shown: String)
    ensures
        shown@ == user_error_text(text@),
{
    if contains_chars(&chars_of(text), &chars_of("Server requested reconnect")) {
        String::from_str("Reconnection needed - please reconnect manually")
    } else {
        String::from_str(text)
    }
}

/// Whether the connection counts as lost after `silent_ms` milliseconds
/// without any message.
pub fn keepalive_expired(silent_ms: u64) -> (expired: bool)
    ensures
        expired == (silent_ms > SOCKET_KEEPALIVE_SECONDS * 1000),
{
    silent_ms > SOCKET_KEEPALIVE_SECONDS * 1000
}

/// A message for the chat.
#[derive(Debug, Clone, PartialEq)]
pub struct ChatReply {
    pub message: String,
    /// The chat message that this one answers.
    pub reply_to: String,
}

/// A `ChatReply` as mathematics.
pub struct ChatReplyView {
    pub message: Seq<char>,
    pub reply_to: Seq<char>,
}

impl View for ChatReply {
    type V = ChatReplyView;

    open spec fn view(&self) -> ChatReplyView {
        ChatReplyView { message: self.message@, reply_to: self.reply_to@ }
    }
}

/// The five performance values as mathematics.
pub struct PpTextsView {
    pub pp_95: Seq<char>,
    pub pp_97: Seq<char>,
    pub pp_98: Seq<char>,
    pub pp_99: Seq<char>,
    pub pp_100: Seq<char>,
}

/// The view of optional performance values.
pub open spec fn pp_view(pp: Option<PpTexts>) -> Option<PpTextsView> {
    match pp {
        Some(p) => Some(
            PpTextsView {
                pp_95: p.pp_95@,
                pp_97: p.pp_97@,
                pp_98: p.pp_98@,
                pp_99: p.pp_99@,
                pp_100: p.pp_100@,
            },
        ),
        None => None,
    }
}

/// The words of the reply to a command: for a client without a snapshot
/// that no beatmap is selected; for the beatmap that is playing its format
/// filled in; for performance points their format filled in, or that they
/// are not available where they could not be computed.
pub open spec fn reply_text(
    command: CommandType,
    prefs: ChatbotPreferencesView,
    snapshot: Option<BeatmapDataView>,
    pp: Option<PpTextsView>,
) -> Seq<char> {
    match snapshot {
        None => "No beatmap currently selected"@,
        Some(b) => match command {
            CommandType::NowPlaying => np_reply(values_of(b), prefs.np_format),
            CommandType::PerformancePoints => match pp {
                Some(p) => pp_reply(
                    PlaceholdersView {
                        pp_95: Some(p.pp_95),
                        pp_97: Some(p.pp_97),
                        pp_98: Some(p.pp_98),
                        pp_99: Some(p.pp_99),
                        pp_100: Some(p.pp_100),
                        ..values_of(b)
                    },
                    prefs.pp_format,
                ),
                None => "pp calculation currently not available"@,
            },
        },
    }
}

/// The state of the bot as mathematics.
pub struct ChatBotView {
    pub preferences: ChatbotPreferencesView,
    /// The command that waits for its snapshot, with the chat message that
    /// asked.
    pub pending: Option<(Seq<char>, CommandType)>,
    /// When the last command was taken, in milliseconds.
    pub last_command: Option<u64>,
}

/// The bot between the messages that its caller hands it.
#[derive(Debug, Clone, PartialEq)]
pub struct ChatBot {
    preferences: ChatbotPreferences,
    pending: Option<PendingRequest>,
    last_command: Option<u64>,
}

impl View for ChatBot {
    type V = ChatBotView;

    closed spec fn view(&self) -> ChatBotView {
        ChatBotView {
            preferences: self.preferences@,
            pending: match self.pending {
                Some(request) => Some((request.message_id@, request.command_type)),
                None => None,
            },
            last_command: self.last_command,
        }
    }
}

impl ChatBot {
    /// A bot that has taken no command yet.
    pub fn new(preferences: ChatbotPreferences) -> (bot: ChatBot)
        ensures
            bot@ == (ChatBotView { preferences: preferences@, pending: None, last_command: None }),
    {
        ChatBot { preferences, pending: None, last_command: None }
    }

    /// The command that waits for its snapshot.
    pub fn pending_command(&self) -> (command: Option<CommandType>)
        ensures
            command == match self@.pending {
                Some(request) => Some(request.1),
                None => None,
            },
    {
        match &self.pending {
            Some(request) => Some(request.command_type),
            None => None,
        }
    }

    /// Whether the answer to the waiting command needs the performance
    /// points of `snapshot`: it does where the command asks for them and
    /// there is a snapshot.
    pub fn needs_pp(&self, snapshot: &Option<BeatmapData>) -> (needed: bool)
        ensures
            needed == (snapshot is Some && match self@.pending {
                Some(request) => request.1 == CommandType::PerformancePoints,
                None => false,
            }),
    {
        match (&self.pending, snapshot) {
            (Some(request), Some(_)) => match request.command_type {
                CommandType::PerformancePoints => true,
                CommandType::NowPlaying => false,
            },
            _ => false,
        }
    }

    /// Changes the commands and formats that are given and leaves the
    /// others.
    pub fn update_preferences(
        &mut self,
        np_command: Option<String>,
        np_format: Option<String>,
        pp_command: Option<String>,
        pp_format: Option<String>,
    )
        ensures
            final(self)@ == (ChatBotView {
                preferences: ChatbotPreferencesView {
                    np_command: changed_to(old(self)@.preferences.np_command, text_view(np_command)),
                    np_format: changed_to(old(self)@.preferences.np_format, text_view(np_format)),
                    pp_command: changed_to(old(self)@.preferences.pp_command, text_view(pp_command)),
                    pp_format: changed_to(old(self)@.preferences.pp_format, text_view(pp_format)),
                },
                ..old(self)@
            }),
    {
        self.preferences.update_preferences(np_command, np_format, pp_command, pp_format);
    }

    /// Reads a chat message that came at `now_ms`. The answer is the
    /// command for which a snapshot is to be requested: the command that
    /// the message is, unless it comes too soon after the last one taken.
    pub fn on_chat_message(&self, text: &str, now_ms: u64) -> (command: Option<CommandType>)
        ensures
            command == match command_in(
                text@,
                self@.preferences.np_command,
                self@.preferences.pp_command,
            ) {
                Some(c) => if too_soon(self@.last_command, now_ms) {
                    None
                } else {
                    Some(c)
                },
                None => None,
            },
    {
        match detect_command(
            text,
            self.preferences.np_command.as_str(),
            self.preferences.pp_command.as_str(),
        ) {
            Some(c) => {
                let soon = match self.last_command {
                    Some(t) => {
                        let since: u64 = if now_ms >= t {
                            now_ms - t
                        } else {
                            0
                        };
                        since < RATE_LIMIT_MS
                    },
                    None => false,
                };
                if soon {
                    None
                } else {
                    Some(c)
                }
            },
            None => None,
        }
    }

    /// Records that the request for a snapshot went out at `now_ms`: the
    /// command waits for the snapshot, and the time counts for the rate
    /// limit.
    pub fn request_sent(&mut self, message_id: String, command: CommandType, now_ms: u64)
        ensures
            final(self)@ == (ChatBotView {
                pending: Some((message_id@, command)),
                last_command: Some(now_ms),
                ..old(self)@
            }),
    {
        self.pending = Some(PendingRequest { message_id, command_type: command });
        self.last_command = Some(now_ms);
    }

    /// Takes the snapshot that was requested. Where a command waits for it,
    /// the command is answered and waits no longer; `pp` holds the
    /// performance values where they could be computed.
    pub fn on_snapshot(&mut self, snapshot: &Option<BeatmapData>, pp: Option<PpTexts>) -> (reply:
        Option<ChatReply>)
        ensures
            final(self)@ == (ChatBotView { pending: None, ..old(self)@ }),
            match old(self)@.pending {
                Some(request) => reply is Some && reply->0@ == (ChatReplyView {
                    message: reply_text(
                        request.1,
                        old(self)@.preferences,
                        snapshot_view(*snapshot),
                        pp_view(pp),
                    ),
                    reply_to: request.0,
                }),
                None => reply is None,
            },
    {
        let request = match self.pending.take() {
            Some(request) => request,
            None => {
                return None;
            },
        };
        let message: String = match snapshot {
            None => String::from_str("No beatmap currently selected"),
            Some(beatmap) => match request.command_type {
                CommandType::NowPlaying => Placeholders::from_beatmap(beatmap).apply_np(
                    self.preferences.np_format.as_str(),
                ),
                CommandType::PerformancePoints => match pp {
                    Some(values) => Placeholders::from_beatmap(beatmap).with_pp(&values).apply_pp(
                        self.preferences.pp_format.as_str(),
                    ),
                    None => String::from_str("pp calculation currently not available"),
                },
            },
        };
        Some(ChatReply { message, reply_to: request.message_id })
    }
}

impl Default for TwitchStatus {
    /// The status of a bot that has not connected yet.
    fn default() -> (status: TwitchStatus)
        ensures
            status@ == TwitchStatusView::Disconnected,
    {
        TwitchStatus::Disconnected
    }
}

} // verus!
