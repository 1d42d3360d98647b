//! The user's preferences: whether to connect at start, and the commands
//! and formats of the two chat replies.

use vstd::prelude::*;
use vstd::string::*;

verus! {

/// The command that asks for the beatmap that is playing, unless the user
/// chose another.
pub open spec fn default_np_command() -> Seq<char> {
    "!np"@
}

/// The format of the reply to that command, unless the user chose another.
pub open spec fn default_np_format() -> Seq<char> {
    "{artist} - {title} [{diff}] ({creator}) {mods} | {status} {link}"@
}

/// The command that asks for performance points, unless the user chose
/// another.
pub open spec fn default_pp_command() -> Seq<char> {
    "!pp"@
}

/// The format of the reply to that command, unless the user chose another.
pub open spec fn default_pp_format() -> Seq<char> {
    "95%: {pp_95}pp | 97%: {pp_97}pp | 98%: {pp_98}pp | 99%: {pp_99}pp | 100%: {pp_100}pp {mods}"@
}

/// The command that asks for the beatmap that is playing.
pub fn np_command_default() -> (text: String)
    ensures
        text@ == default_np_command(),
{
    String::from_str("!np")
}

/// The format of the reply to the command for the beatmap that is playing.
pub fn np_format_default() -> (text: String)
    ensures
        text@ == default_np_format(),
{
    String::from_str("{artist} - {title} [{diff}] ({creator}) {mods} | {status} {link}")
}

/// The command that asks for performance points.
pub fn pp_command_default() -> (text: String)
    ensures
        text@ == default_pp_command(),
{
    String::from_str("!pp")
}

/// The format of the reply to the command for performance points.
pub fn pp_format_default() -> (text: String)
    ensures
        text@ == default_pp_format(),
{
    String::from_str(
        "95%: {pp_95}pp | 97%: {pp_97}pp | 98%: {pp_98}pp | 99%: {pp_99}pp | 100%: {pp_100}pp {mods}",
    )
}

/// The preferences as they are kept on disk.
#[derive(Debug, Clone, PartialEq)]
pub struct Config {
    pub version: String,
    pub auto_connect: bool,
    pub np_command: String,
    pub np_format: String,
    pub pp_command: String,
    pub pp_format: String,
}

/// A `Config` as mathematics.
pub struct ConfigView {
    pub version: Seq<char>,
    pub auto_connect: bool,
    pub np_command: Seq<char>,
    pub np_format: Seq<char>,
    pub pp_command: Seq<char>,
    pub pp_format: Seq<char>,
}

impl View for Config {
    type V = ConfigView;

    open spec fn view(&self) -> ConfigView {
        ConfigView {
            version: self.version@,
            auto_connect: self.auto_connect,
            np_command: self.np_command@,
            np_format: self.np_format@,
            pp_command: self.pp_command@,
            pp_format: self.pp_format@,
        }
    }
}

/// The preferences of a user who chose nothing yet, written by the program
/// of version `version`.
pub open spec fn default_config(version: Seq<char>) -> ConfigView {
    ConfigView {
        version,
        auto_connect: false,
        np_command: default_np_command(),
        np_format: default_np_format(),
        pp_command: default_pp_command(),
        pp_format: default_pp_format(),
    }
}

impl Config {
    /// The preferences of a user who chose nothing yet.
    pub fn with_defaults(version: &str) -> (config: Config)
        ensures
            config@ == default_config(version@),
    {
        Config {
            version: String::from_str(version),
            auto_connect: false,
            np_command: np_command_default(),
            np_format: np_format_default(),
            pp_command: pp_command_default(),
            pp_format: pp_format_default(),
        }
    }

    /// A copy of these preferences.
    pub fn duplicate(&self) -> (copy: Config)
        ensures
            copy@ == self@,
    {
        Config {
            version: self.version.clone(),
            auto_connect: self.auto_connect,
            np_command: self.np_command.clone(),
            np_format: self.np_format.clone(),
            pp_command: self.pp_command.clone(),
            pp_format: self.pp_format.clone(),
        }
    }
}

/// The preferences in use.
#[derive(Debug, Clone, PartialEq)]
pub struct PreferencesStore {
    config: Config,
}

impl View for PreferencesStore {
    type V = ConfigView;

    closed spec fn view(&self) -> ConfigView {
        self.config@
    }
}

impl PreferencesStore {
    /// The preferences that were loaded, or those of a user who chose
    /// nothing yet where none could be loaded.
    pub fn load_or_default(loaded: Option<Config>, version: &str) -> (store: PreferencesStore)
        ensures
            store@ == match loaded {
                Some(config) => config@,
                None => default_config(version@),
            },
    {
        match loaded {
            Some(config) => PreferencesStore { config },
            None => PreferencesStore { config: Config::with_defaults(version) },
        }
    }

    /// The preferences as they are to be kept on disk.
    pub fn config(&self) -> (config: Config)
        ensures
            config@ == self@,
    {
        self.config.duplicate()
    }

    /// Whether to connect to the chat at start.
    pub fn auto_connect(&self) -> (value: bool)
        ensures
            value == self@.auto_connect,
    {
        self.config.auto_connect
    }

    /// The command that asks for the beatmap that is playing.
    pub fn np_command(&self) -> (value: &str)
        ensures
            value@ == self@.np_command,
    {
        self.config.np_command.as_str()
    }

    /// The format of the reply to that command.
    pub fn np_format(&self) -> (value: &str)
        ensures
            value@ == self@.np_format,
    {
        self.config.np_format.as_str()
    }

    /// The command that asks for performance points.
    pub fn pp_command(&self) -> (value: &str)
        ensures
            value@ == self@.pp_command,
    {
        self.config.pp_command.as_str()
    }

    /// The format of the reply to that command.
    pub fn pp_format(&self) -> (value: &str)
        ensures
            value@ == self@.pp_format,
    {
        self.config.pp_format.as_str()
    }

    /// Sets whether to connect to the chat at start.
    pub fn set_auto_connect(&mut self, value: bool)
        ensures
            final(self)@ == (ConfigView { auto_connect: value, ..old(self)@ }),
    {
        self.config.auto_connect = value;
    }

    /// Sets the command that asks for the beatmap that is playing.
    pub fn set_np_command(&mut self, value: String)
        ensures
            final(self)@ == (ConfigView { np_command: value@, ..old(self)@ }),
    {
        self.config.np_command = value;
    }

    /// Sets the format of the reply to that command.
    pub fn set_np_format(&mut self, value: String)
        ensures
            final(self)@ == (ConfigView { np_format: value@, ..old(self)@ }),
    {
        self.config.np_format = value;
    }

    /// Sets the command that asks for performance points.
    pub fn set_pp_command(&mut self, value: String)
        ensures
            final(self)@ == (ConfigView { pp_command: value@, ..old(self)@ }),
    {
        self.config.pp_command = value;
    }

    /// Sets the format of the reply to that command.
    pub fn set_pp_format(&mut self, value: String)
        ensures
            final(self)@ == (ConfigView { pp_format: value@, ..old(self)@ }),
    {
        self.config.pp_format = value;
    }
}

} // verus!
