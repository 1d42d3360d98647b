//! Reads the state of a running osu! client out of a captured view of its
//! memory and answers chat commands with it.
//!
//! The memory side: signature scanning (`scan`, `memory`, `regions`),
//! pointer-chain traversal for the two builds of the game (`lazer`,
//! `stable`), string decoding (`strings`), the snapshot and its modifiers
//! (`beatmap`, `mods`, `display_order`), the offset tables (`offsets`), the
//! telling of clients among processes (`detect`) and the rules of a
//! monitoring session (`session`).
//!
//! Around it: the chat bot's rules (`chat`, `placeholders`), the state
//! behind the window (`window`, `theme`, `logging`), the preferences
//! (`preferences`), the command line (`args`) and the rules of the
//! self-update (`updater`). `text` holds what they share for working on
//! characters.
//!
//! Nothing here touches a process, a file or the network: callers hand in
//! what they read and carry out what they are told.

pub mod args;
pub mod beatmap;
pub mod chat;
pub mod detect;
pub mod display_order;
pub mod errors;
pub mod lazer;
pub mod logging;
pub mod memory;
pub mod mods;
pub mod offsets;
pub mod placeholders;
pub mod preferences;
pub mod regions;
pub mod scan;
pub mod session;
pub mod stable;
pub mod strings;
pub mod text;
pub mod theme;
pub mod updater;
pub mod window;
