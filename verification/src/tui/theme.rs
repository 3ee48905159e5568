//! The colours of the interface.

use crate::text::{ascii_lowercase, chars_eq_str, spec_ascii_lowercase, spec_trim, str_chars, trim};
use crate::tui::ansi::Color;
use vstd::prelude::*;

verus! {

/// The colours of the parts of the interface, by name.
#[derive(Debug, Clone)]
pub struct ThemeConfig {
    pub user: String,
    pub assistant: String,
    pub system: String,
    pub status: String,
    pub queue: String,
    pub heading: String,
    pub inline_code: String,
    pub divider: String,
    pub footer: String,
}

/// Colour names that take the place of those of a theme, where they are
/// given.
#[derive(Debug, Clone)]
pub struct ThemeConfigOpt {
    pub user: Option<String>,
    pub assistant: Option<String>,
    pub system: Option<String>,
    pub status: Option<String>,
    pub queue: Option<String>,
    pub heading: Option<String>,
    pub inline_code: Option<String>,
    pub divider: Option<String>,
    pub footer: Option<String>,
}

/// The colours of the parts of the interface.
#[derive(Debug, Clone, Copy, PartialEq, Eq, Structural)]
pub struct Theme {
    pub user: Color,
    pub assistant: Color,
    pub system: Color,
    pub status: Color,
    pub queue: Color,
    pub heading: Color,
    pub inline_code: Color,
    pub divider: Color,
    pub footer: Color,
}

pub struct ThemeNames {
    pub user: Seq<char>,
    pub assistant: Seq<char>,
    pub system: Seq<char>,
    pub status: Seq<char>,
    pub queue: Seq<char>,
    pub heading: Seq<char>,
    pub inline_code: Seq<char>,
    pub divider: Seq<char>,
    pub footer: Seq<char>,
}

impl View for ThemeConfig {
    type V = ThemeNames;

    open spec fn view(&self) -> ThemeNames {
        ThemeNames {
            user: self.user@,
            assistant: self.assistant@,
            system: self.system@,
            status: self.status@,
            queue: self.queue@,
            heading: self.heading@,
            inline_code: self.inline_code@,
            divider: self.divider@,
            footer: self.footer@,
        }
    }
}

pub open spec fn spec_default_theme() -> ThemeNames {
    ThemeNames {
        user: "green"@,
        assistant: "white"@,
        system: "white"@,
        status: "yellow"@,
        queue: "dark_grey"@,
        heading: "cyan"@,
        inline_code: "cyan"@,
        divider: "grey"@,
        footer: "grey"@,
    }
}

/// The colour names used where no theme is given.
pub fn default_theme() -> (theme: ThemeConfig)
    ensures
        theme@ == spec_default_theme(),
{
    ThemeConfig {
        user: "green".to_owned(),
        assistant: "white".to_owned(),
        system: "white".to_owned(),
        status: "yellow".to_owned(),
        queue: "dark_grey".to_owned(),
        heading: "cyan".to_owned(),
        inline_code: "cyan".to_owned(),
        divider: "grey".to_owned(),
        footer: "grey".to_owned(),
    }
}

pub open spec fn pick(value: Option<String>, otherwise: Seq<char>) -> Seq<char> {
    match value {
        Some(v) => v@,
        None => otherwise,
    }
}

fn replace_with(target: &mut String, value: Option<String>)
    ensures
        final(target)@ == pick(value, old(target)@),
{
    if let Some(v) = value {
        *target = v;
    }
}

/// Puts the given names in the place of those of the theme. A name that
/// is not given leaves the theme's own.
pub fn apply_override(config: &mut ThemeConfig, override_config: ThemeConfigOpt)
    ensures
        final(config)@ == (ThemeNames {
            user: pick(override_config.user, old(config)@.user),
            assistant: pick(override_config.assistant, old(config)@.assistant),
            system: pick(override_config.system, old(config)@.system),
            status: pick(override_config.status, old(config)@.status),
            queue: pick(override_config.queue, old(config)@.queue),
            heading: pick(override_config.heading, old(config)@.heading),
            inline_code: pick(override_config.inline_code, old(config)@.inline_code),
            divider: pick(override_config.divider, old(config)@.divider),
            footer: pick(override_config.footer, old(config)@.footer),
        }),
{
    replace_with(&mut config.user, override_config.user);
    replace_with(&mut config.assistant, override_config.assistant);
    replace_with(&mut config.system, override_config.system);
    replace_with(&mut config.status, override_config.status);
    replace_with(&mut config.queue, override_config.queue);
    replace_with(&mut config.heading, override_config.heading);
    replace_with(&mut config.inline_code, override_config.inline_code);
    replace_with(&mut config.divider, override_config.divider);
    replace_with(&mut config.footer, override_config.footer);
}

/// The colour that a name stands for. Names are read without the white
/// space around them and without regard to letter case; a name that is not
/// known stands for white.
pub open spec fn spec_resolve_color(name: Seq<char>) -> Color {
    let key = spec_ascii_lowercase(spec_trim(name));
    if key == "black"@ {
        Color::Black
    } else if key == "dark_grey"@ {
        Color::DarkGrey
    } else if key == "gray"@ || key == "grey"@ {
        Color::Grey
    } else if key == "red"@ {
        Color::Red
    } else if key == "dark_red"@ {
        Color::DarkRed
    } else if key == "green"@ {
        Color::Green
    } else if key == "dark_green"@ {
        Color::DarkGreen
    } else if key == "yellow"@ {
        Color::Yellow
    } else if key == "dark_yellow"@ {
        Color::DarkYellow
    } else if key == "blue"@ {
        Color::Blue
    } else if key == "dark_blue"@ {
        Color::DarkBlue
    } else if key == "magenta"@ {
        Color::Magenta
    } else if key == "dark_magenta"@ {
        Color::DarkMagenta
    } else if key == "cyan"@ {
        Color::Cyan
    } else if key == "dark_cyan"@ {
        Color::DarkCyan
    } else {
        Color::White
    }
}

pub fn resolve_color(name: &str) -> (color: Color)
    ensures
        color == spec_resolve_color(name@),
{
    let key = ascii_lowercase(&trim(&str_chars(name)));
    if chars_eq_str(&key, "black") {
        Color::Black
    } else if chars_eq_str(&key, "dark_grey") {
        Color::DarkGrey
    } else if chars_eq_str(&key, "gray") || chars_eq_str(&key, "grey") {
        Color::Grey
    } else if chars_eq_str(&key, "red") {
        Color::Red
    } else if chars_eq_str(&key, "dark_red") {
        Color::DarkRed
    } else if chars_eq_str(&key, "green") {
        Color::Green
    } else if chars_eq_str(&key, "dark_green") {
        Color::DarkGreen
    } else if chars_eq_str(&key, "yellow") {
        Color::Yellow
    } else if chars_eq_str(&key, "dark_yellow") {
        Color::DarkYellow
    } else if chars_eq_str(&key, "blue") {
        Color::Blue
    } else if chars_eq_str(&key, "dark_blue") {
        Color::DarkBlue
    } else if chars_eq_str(&key, "magenta") {
        Color::Magenta
    } else if chars_eq_str(&key, "dark_magenta") {
        Color::DarkMagenta
    } else if chars_eq_str(&key, "cyan") {
        Color::Cyan
    } else if chars_eq_str(&key, "dark_cyan") {
        Color::DarkCyan
    } else {
        Color::White
    }
}

/// The colours that the names of a theme stand for.
pub fn resolve_theme(config: &ThemeConfig) -> (theme: Theme)
    ensures
        theme == (Theme {
            user: spec_resolve_color(config@.user),
            assistant: spec_resolve_color(config@.assistant),
            system: spec_resolve_color(config@.system),
            status: spec_resolve_color(config@.status),
            queue: spec_resolve_color(config@.queue),
            heading: spec_resolve_color(config@.heading),
            inline_code: spec_resolve_color(config@.inline_code),
            divider: spec_resolve_color(config@.divider),
            footer: spec_resolve_color(config@.footer),
        }),
{
    Theme {
        user: resolve_color(config.user.as_str()),
        assistant: resolve_color(config.assistant.as_str()),
        system: resolve_color(config.system.as_str()),
        status: resolve_color(config.status.as_str()),
        queue: resolve_color(config.queue.as_str()),
        heading: resolve_color(config.heading.as_str()),
        inline_code: resolve_color(config.inline_code.as_str()),
        divider: resolve_color(config.divider.as_str()),
        footer: resolve_color(config.footer.as_str()),
    }
}

} // verus!
