use vstd::prelude::*;

use crate::color::{randomize_color, randomized, Color};

verus! {

/// The colors of the active theme that message rendering reads.
#[derive(Clone, Debug)]
pub struct Theme {
    /// Default color of ordinary text.
    pub text_primary: Color,
    /// Base color of nicknames.
    pub nickname: Color,
    /// Color of URLs.
    pub url: Color,
    /// Color of inline code.
    pub code: Color,
    /// Color of borders.
    pub border: Color,
    /// Color for each formatting color code, by code; `None` (or a code past
    /// the end) means the theme has no color for it.
    pub formatting: Vec<Option<Color>>,
}

/// How nicknames are colored.
#[derive(Clone, Copy, Debug, PartialEq, Eq, Structural)]
pub enum NicknameColor {
    /// Every nickname has the theme's nickname color.
    Solid,
    /// Each nickname gets a color derived from the nickname itself.
    Unique,
}

/// Settings that rendering reads.
#[derive(Clone, Copy, Debug, PartialEq, Eq, Structural)]
pub struct Config {
    pub nickname_color: NicknameColor,
}

/// A participant of a conversation.
#[derive(Clone, Debug)]
pub struct User {
    pub nickname: String,
}

/// A user's color before resolution: a base color, and the seed from which
/// a stable color is derived, if any.
#[derive(Clone, Debug)]
pub struct NickColor {
    pub seed: Option<String>,
    pub color: Color,
}

/// The color that `theme` gives to formatting color code `code`.
pub open spec fn theme_color(theme: Theme, code: u8) -> Option<Color> {
    if (code as int) < theme.formatting@.len() {
        theme.formatting@[code as int]
    } else {
        None
    }
}

/// The seed and base color of `user` under the coloring `kind`.
pub open spec fn nick_color_of(user: User, theme: Theme, kind: NicknameColor) -> NickColor {
    match kind {
        NicknameColor::Solid => NickColor { seed: None, color: theme.nickname },
        NicknameColor::Unique => NickColor { seed: Some(user.nickname), color: theme.nickname },
    }
}

/// The display color of a resolved nickname color.
pub open spec fn display_color(nick: NickColor, theme: Theme) -> Color {
    match nick.seed {
        Some(seed) => randomized(nick.color, seed@),
        None => theme.text_primary,
    }
}

impl Theme {
    /// Looks up the color of formatting color code `code`; `None` when the
    /// theme has none.
    pub fn color(&self, code: u8) -> (r: Option<Color>)
        ensures
            r == theme_color(*self, code),
    {
        if (code as usize) < self.formatting.len() {
            self.formatting[code as usize]
        } else {
            None
        }
    }
}

impl User {
    pub fn nickname(&self) -> (r: &str)
        ensures
            r@ == self.nickname@,
    {
        self.nickname.as_str()
    }

    /// The seed and base color of this user under the coloring `kind`.
    pub fn nick_color(&self, theme: &Theme, kind: NicknameColor) -> (r: NickColor)
        ensures
            r == nick_color_of(*self, *theme, kind),
    {
        match kind {
            NicknameColor::Solid => NickColor { seed: None, color: theme.nickname },
            NicknameColor::Unique => NickColor {
                seed: Some(self.nickname.clone()),
                color: theme.nickname,
            },
        }
    }
}

/// The color in which a nickname is shown: derived from the seed when there
/// is one, else the theme's primary text color.
pub fn resolve_nick_color(nick: &NickColor, theme: &Theme) -> (r: Color)
    ensures
        r == display_color(*nick, *theme),
{
    match &nick.seed {
        Some(seed) => randomize_color(nick.color, seed.as_str()),
        None => theme.text_primary,
    }
}

} // verus!
