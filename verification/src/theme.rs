//! The choice between the light and the dark look, and the colours of both.

use crate::text::{chars_of, is_text, lowercase_of, to_lowercase};
use vstd::prelude::*;

verus! {

/// The look that the user asked for.
#[derive(Debug, Clone, Copy, PartialEq, Eq, Structural)]
pub enum ThemeOverride {
    Light,
    Dark,
    /// Whatever the system prefers.
    System,
}

/// What the system says it prefers.
#[derive(Debug, Clone, Copy, PartialEq, Eq, Structural)]
pub enum SystemMode {
    Dark,
    Light,
    /// The system states no preference.
    Default,
}

/// One of the two looks.
#[derive(Debug, Clone, Copy, PartialEq, Eq, Structural)]
pub enum ThemeKind {
    Light,
    Dark,
}

/// The look that a word in lower case names: `light`, `dark`, and `system`
/// or `auto` for the system's choice.
pub open spec fn theme_named(lower: Seq<char>) -> Option<ThemeOverride> {
    if lower == "light"@ {
        Some(ThemeOverride::Light)
    } else if lower == "dark"@ {
        Some(ThemeOverride::Dark)
    } else if lower == "system"@ || lower == "auto"@ {
        Some(ThemeOverride::System)
    } else {
        None
    }
}

/// The look in use: the one asked for, and for the system's choice the one
/// that the system prefers, dark where it states no preference. A user who
/// asked for nothing gets the system's choice.
pub open spec fn theme_in_use(asked: Option<ThemeOverride>, system: SystemMode) -> ThemeKind {
    match asked {
        Some(ThemeOverride::Light) => ThemeKind::Light,
        Some(ThemeOverride::Dark) => ThemeKind::Dark,
        _ => match system {
            SystemMode::Light => ThemeKind::Light,
            _ => ThemeKind::Dark,
        },
    }
}

impl ThemeOverride {
    /// The look that a word names, in any case of letters.
    pub fn from_str(s: &str) -> (theme: Option<ThemeOverride>)
        ensures
            theme == theme_named(lowercase_of(s@)),
    {
        let lower = to_lowercase(s);
        Self::from_lowercase(lower.as_str())
    }

    /// The look that a word in lower case names.
    pub fn from_lowercase(lower: &str) -> (theme: Option<ThemeOverride>)
        ensures
            theme == theme_named(lower@),
    {
        let word = chars_of(lower);
        if is_text(&word, "light") {
            Some(ThemeOverride::Light)
        } else if is_text(&word, "dark") {
            Some(ThemeOverride::Dark)
        } else if is_text(&word, "system") || is_text(&word, "auto") {
            Some(ThemeOverride::System)
        } else {
            None
        }
    }
}

/// Records the look that the user asked for. The first record stands: a
/// later one changes nothing.
pub fn set_theme_override(slot: &mut Option<ThemeOverride>, theme_override: ThemeOverride)
    ensures
        *final(slot) == match *old(slot) {
            Some(first) => Some(first),
            None => Some(theme_override),
        },
{
    if slot.is_none() {
        *slot = Some(theme_override);
    }
}

/// The look in use.
pub fn current_theme(asked: Option<ThemeOverride>, system: SystemMode) -> (kind: ThemeKind)
    ensures
        kind == theme_in_use(asked, system),
{
    match asked {
        Some(ThemeOverride::Light) => ThemeKind::Light,
        Some(ThemeOverride::Dark) => ThemeKind::Dark,
        _ => match system {
            SystemMode::Light => ThemeKind::Light,
            _ => ThemeKind::Dark,
        },
    }
}

/// The colours of a look, each as `0xRRGGBB`.
#[derive(Debug, Clone, Copy, PartialEq, Eq, Structural)]
pub struct ColorPalette {
    pub bg_primary: u32,
    pub bg_secondary: u32,
    pub bg_tertiary: u32,
    pub bg_elevated: u32,
    pub bg_input: u32,
    pub text_primary: u32,
    pub text_secondary: u32,
    pub text_muted: u32,
    pub text_on_accent: u32,
    pub accent: u32,
    pub accent_alt: u32,
    pub border_subtle: u32,
    pub border_muted: u32,
    pub border_default: u32,
    pub status_success: u32,
    pub status_warning: u32,
    pub status_error: u32,
    pub status_info: u32,
    pub status_module: u32,
}

/// The colours of the dark look.
pub open spec fn dark_colors() -> ColorPalette {
    ColorPalette {
        bg_primary: 0x1a1a1a,
        bg_secondary: 0x2a2a2a,
        bg_tertiary: 0x3a3a3a,
        bg_elevated: 0x4a4a4a,
        bg_input: 0x1b1b26,
        text_primary: 0xf5f5f6,
        text_secondary: 0x888888,
        text_muted: 0x666666,
        text_on_accent: 0x1b1b26,
        accent: 0x969eff,
        accent_alt: 0xb08af5,
        border_subtle: 0x333333,
        border_muted: 0x444444,
        border_default: 0x666666,
        status_success: 0x4caf50,
        status_warning: 0xffc107,
        status_error: 0xf44336,
        status_info: 0x2196f3,
        status_module: 0x69b4ff,
    }
}

/// The colours of the light look.
pub open spec fn light_colors() -> ColorPalette {
    ColorPalette {
        bg_primary: 0xffffff,
        bg_secondary: 0xf0f0f0,
        bg_tertiary: 0xe5e5e5,
        bg_elevated: 0xd8d8d8,
        bg_input: 0xffffff,
        text_primary: 0x1a1a1a,
        text_secondary: 0x666666,
        text_muted: 0x999999,
        text_on_accent: 0xffffff,
        accent: 0x969eff,
        accent_alt: 0x7e57c2,
        border_subtle: 0xdddddd,
        border_muted: 0xcccccc,
        border_default: 0xaaaaaa,
        status_success: 0x388e3c,
        status_warning: 0xf57c00,
        status_error: 0xd32f2f,
        status_info: 0x1976d2,
        status_module: 0x1565c0,
    }
}

/// The colours of the dark look.
pub fn dark_palette() -> (colors: ColorPalette)
    ensures
        colors == dark_colors(),
{
    ColorPalette {
        bg_primary: 0x1a1a1a,
        bg_secondary: 0x2a2a2a,
        bg_tertiary: 0x3a3a3a,
        bg_elevated: 0x4a4a4a,
        bg_input: 0x1b1b26,
        text_primary: 0xf5f5f6,
        text_secondary: 0x888888,
        text_muted: 0x666666,
        text_on_accent: 0x1b1b26,
        accent: 0x969eff,
        accent_alt: 0xb08af5,
        border_subtle: 0x333333,
        border_muted: 0x444444,
        border_default: 0x666666,
        status_success: 0x4caf50,
        status_warning: 0xffc107,
        status_error: 0xf44336,
        status_info: 0x2196f3,
        status_module: 0x69b4ff,
    }
}

/// The colours of the light look.
pub fn light_palette() -> (colors: ColorPalette)
    ensures
        colors == light_colors(),
{
    ColorPalette {
        bg_primary: 0xffffff,
        bg_secondary: 0xf0f0f0,
        bg_tertiary: 0xe5e5e5,
        bg_elevated: 0xd8d8d8,
        bg_input: 0xffffff,
        text_primary: 0x1a1a1a,
        text_secondary: 0x666666,
        text_muted: 0x999999,
        text_on_accent: 0xffffff,
        accent: 0x969eff,
        accent_alt: 0x7e57c2,
        border_subtle: 0xdddddd,
        border_muted: 0xcccccc,
        border_default: 0xaaaaaa,
        status_success: 0x388e3c,
        status_warning: 0xf57c00,
        status_error: 0xd32f2f,
        status_info: 0x1976d2,
        status_module: 0x1565c0,
    }
}

/// The colours of a look.
pub fn palette(kind: ThemeKind) -> (colors: ColorPalette)
    ensures
        colors == match kind {
            ThemeKind::Dark => dark_colors(),
            ThemeKind::Light => light_colors(),
        },
{
    match kind {
        ThemeKind::Dark => dark_palette(),
        ThemeKind::Light => light_palette(),
    }
}

impl Default for ThemeOverride {
    /// The look of a user who asked for none: the system's choice.
    fn default() -> (theme: ThemeOverride)
        ensures
            theme == ThemeOverride::System,
    {
        ThemeOverride::System
    }
}

} // verus!
