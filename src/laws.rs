use vstd::prelude::*;

use crate::render::{
    fragment_span, Border, Font, Formatting, Fragment, Link, Padding, CODE_BORDER_RADIUS,
    CODE_BORDER_WIDTH, CODE_PADDING,
};
use crate::theme::{nick_color_of, theme_color, Config, Theme, User};

verus! {

/// A text fragment renders as its text alone: no link, no color, no
/// decoration and the default font.
pub proof fn lemma_text_fragment_is_plain(s: String, theme: Theme, config: Config)
    ensures
        ({
            let span = fragment_span(Fragment::Text(s), theme, config);
            &&& span.text == s
            &&& span.link is None
            &&& span.color is None
            &&& span.background is None
            &&& !span.underline
            &&& !span.strikethrough
            &&& span.font is None
            &&& span.padding is None
            &&& span.border is None
        }),
{
}

/// A nickname's color depends only on the characters of its seed and on
/// its base color: two users whose seeds read the same and whose base
/// colors agree are shown in the same color, under any themes and settings.
pub proof fn lemma_seeded_color_is_stable(
    u1: User,
    theme1: Theme,
    config1: Config,
    u2: User,
    theme2: Theme,
    config2: Config,
)
    requires
        nick_color_of(u1, theme1, config1.nickname_color).seed is Some,
        nick_color_of(u2, theme2, config2.nickname_color).seed is Some,
        nick_color_of(u1, theme1, config1.nickname_color).seed->Some_0@ == nick_color_of(
            u2,
            theme2,
            config2.nickname_color,
        ).seed->Some_0@,
        nick_color_of(u1, theme1, config1.nickname_color).color == nick_color_of(
            u2,
            theme2,
            config2.nickname_color,
        ).color,
    ensures
        fragment_span(Fragment::User(u1), theme1, config1).color == fragment_span(
            Fragment::User(u2),
            theme2,
            config2,
        ).color,
{
}

/// A nickname without a seed is shown in the theme's primary text color,
/// and links to its user.
pub proof fn lemma_unseeded_nick_uses_primary_text(u: User, theme: Theme, config: Config)
    requires
        nick_color_of(u, theme, config.nickname_color).seed is None,
    ensures
        fragment_span(Fragment::User(u), theme, config).color == Some(theme.text_primary),
        fragment_span(Fragment::User(u), theme, config).link == Some(Link::User(u)),
        fragment_span(Fragment::User(u), theme, config).text == u.nickname,
{
}

/// A URL renders as itself, in the theme's URL color, linking to itself.
pub proof fn lemma_url_fragment_links(s: String, theme: Theme, config: Config)
    ensures
        fragment_span(Fragment::Url(s), theme, config).text == s,
        fragment_span(Fragment::Url(s), theme, config).link == Some(Link::Url(s)),
        fragment_span(Fragment::Url(s), theme, config).color == Some(theme.url),
{
}

/// Bold and italics select the font by their table; neither keeps the
/// default font.
pub proof fn lemma_font_table(text: String, f: Formatting, theme: Theme, config: Config)
    ensures
        ({
            let font = fragment_span(Fragment::Formatted { text, formatting: f }, theme, config).font;
            &&& (f.bold && f.italics ==> font == Some(Font::MonoBoldItalics))
            &&& (f.bold && !f.italics ==> font == Some(Font::MonoBold))
            &&& (!f.bold && f.italics ==> font == Some(Font::MonoItalics))
            &&& (!f.bold && !f.italics ==> font is None)
        }),
{
}

/// Inline code always takes the code color, the code padding and the
/// rounded border, and its explicit background does not show.
pub proof fn lemma_monospace_decoration(text: String, f: Formatting, theme: Theme, config: Config)
    requires
        f.monospace,
    ensures
        ({
            let span = fragment_span(Fragment::Formatted { text, formatting: f }, theme, config);
            &&& span.padding == Some(Padding { vertical: 0, horizontal: CODE_PADDING })
            &&& span.color == Some(theme.code)
            &&& span.border == Some(
                Border { radius: CODE_BORDER_RADIUS, color: theme.border, width: CODE_BORDER_WIDTH },
            )
            &&& span.background is None
            &&& span.text == text
        }),
{
}

/// A color code that the theme lacks sets no color: the span keeps the
/// surrounding one.
pub proof fn lemma_missing_theme_color_is_no_override(
    text: String,
    f: Formatting,
    theme: Theme,
    config: Config,
)
    ensures
        ({
            let span = fragment_span(Fragment::Formatted { text, formatting: f }, theme, config);
            &&& (!f.monospace && (f.fg is None || theme_color(theme, f.fg->Some_0) is None)
                ==> span.color is None)
            &&& (f.bg is None || theme_color(theme, f.bg->Some_0) is None ==> span.background is None)
        }),
{
}

} // verus!
