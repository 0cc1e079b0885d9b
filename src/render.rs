use vstd::prelude::*;

use crate::color::Color;
use crate::theme::{
    display_color, nick_color_of, resolve_nick_color, theme_color, Config, Theme, User,
};

verus! {

/// Horizontal padding, on each side, around inline code.
pub const CODE_PADDING: u16 = 4;

/// Corner radius of the border around inline code.
pub const CODE_BORDER_RADIUS: u16 = 3;

/// Width of the border around inline code.
pub const CODE_BORDER_WIDTH: u16 = 1;

/// The text of the gutter marker: a space and a bullet.
pub const MESSAGE_MARKER_TEXT: &'static str = " \u{2219}";

/// A font other than the default one.
#[derive(Clone, Copy, Debug, PartialEq, Eq, Structural)]
pub enum Font {
    MonoBold,
    MonoItalics,
    MonoBoldItalics,
}

/// Padding around a span, in layout units.
#[derive(Clone, Copy, Debug, PartialEq, Eq, Structural)]
pub struct Padding {
    pub vertical: u16,
    pub horizontal: u16,
}

/// A border drawn around a span.
#[derive(Clone, Copy, Debug, PartialEq, Eq, Structural)]
pub struct Border {
    pub radius: u16,
    pub color: Color,
    pub width: u16,
}

/// What activating a span hands back to the caller.
#[derive(Clone, Debug)]
pub enum Link {
    User(User),
    Url(String),
}

/// Explicit style directives of a run of text. Colors are formatting color
/// codes, looked up in the theme.
#[derive(Clone, Copy, Debug, PartialEq, Eq, Structural)]
pub struct Formatting {
    pub fg: Option<u8>,
    pub bg: Option<u8>,
    pub underline: bool,
    pub strikethrough: bool,
    pub bold: bool,
    pub italics: bool,
    pub monospace: bool,
}

/// One typed unit of message content.
#[derive(Clone, Debug)]
pub enum Fragment {
    Text(String),
    User(User),
    Url(String),
    Formatted { text: String, formatting: Formatting },
}

/// The body of a message.
#[derive(Clone, Debug)]
pub enum Content {
    Plain(String),
    Fragments(Vec<Fragment>),
}

/// A styled, possibly clickable, run of text. `None` in a style field means
/// the surrounding style applies.
#[derive(Clone, Debug)]
pub struct Span {
    pub text: String,
    pub color: Option<Color>,
    pub background: Option<Color>,
    pub underline: bool,
    pub strikethrough: bool,
    pub font: Option<Font>,
    pub link: Option<Link>,
    pub padding: Option<Padding>,
    pub border: Option<Border>,
}

/// A rendered message body: plain text, or a sequence of spans.
#[derive(Clone, Debug)]
pub enum Rendered {
    Plain(String),
    Rich(Vec<Span>),
}

/// Horizontal alignment of a marker within its box.
#[derive(Clone, Copy, Debug, PartialEq, Eq, Structural)]
pub enum Alignment {
    Natural,
    Right,
}

/// The gutter marker of a message, in a box of width `width` when given.
#[derive(Clone, Copy, Debug)]
pub struct Marker<W> {
    pub text: &'static str,
    pub width: Option<W>,
    pub alignment: Alignment,
}

/// The font that the `bold` and `italics` flags select; `None` keeps the
/// default font.
pub open spec fn font_for(bold: bool, italics: bool) -> Option<Font> {
    if bold && italics {
        Some(Font::MonoBoldItalics)
    } else if bold {
        Some(Font::MonoBold)
    } else if italics {
        Some(Font::MonoItalics)
    } else {
        None
    }
}

/// A span that shows `text` with no style of its own.
pub open spec fn plain_span(text: String) -> Span {
    Span {
        text,
        color: None,
        background: None,
        underline: false,
        strikethrough: false,
        font: None,
        link: None,
        padding: None,
        border: None,
    }
}

/// The padding around inline code.
pub open spec fn code_padding() -> Padding {
    Padding { vertical: 0, horizontal: CODE_PADDING }
}

/// The border around inline code in `theme`.
pub open spec fn code_border(theme: Theme) -> Border {
    Border { radius: CODE_BORDER_RADIUS, color: theme.border, width: CODE_BORDER_WIDTH }
}

/// The span of a formatted run. Inline code takes the code color, padding
/// and a border, and shows no background of its own.
pub open spec fn formatted_span(text: String, f: Formatting, theme: Theme) -> Span {
    let fg = match f.fg {
        Some(code) => theme_color(theme, code),
        None => None,
    };
    let bg = match f.bg {
        Some(code) => theme_color(theme, code),
        None => None,
    };
    Span {
        text,
        color: if f.monospace { Some(theme.code) } else { fg },
        background: if f.monospace { None } else { bg },
        underline: f.underline,
        strikethrough: f.strikethrough,
        font: font_for(f.bold, f.italics),
        link: None,
        padding: if f.monospace { Some(code_padding()) } else { None },
        border: if f.monospace { Some(code_border(theme)) } else { None },
    }
}

/// The span of a fragment.
pub open spec fn fragment_span(fragment: Fragment, theme: Theme, config: Config) -> Span {
    match fragment {
        Fragment::Text(s) => plain_span(s),
        Fragment::User(user) => Span {
            color: Some(
                display_color(nick_color_of(user, theme, config.nickname_color), theme),
            ),
            link: Some(Link::User(user)),
            ..plain_span(user.nickname)
        },
        Fragment::Url(s) => Span {
            color: Some(theme.url),
            link: Some(Link::Url(s)),
            ..plain_span(s)
        },
        Fragment::Formatted { text, formatting } => formatted_span(text, formatting, theme),
    }
}

/// The font that the `bold` and `italics` flags select.
pub fn font(bold: bool, italics: bool) -> (r: Option<Font>)
    ensures
        r == font_for(bold, italics),
{
    match (bold, italics) {
        (true, true) => Some(Font::MonoBoldItalics),
        (true, false) => Some(Font::MonoBold),
        (false, true) => Some(Font::MonoItalics),
        (false, false) => None,
    }
}

/// Renders a formatted run of text.
pub fn render_formatted(text: &String, formatting: Formatting, theme: &Theme) -> (r: Span)
    ensures
        r == formatted_span(*text, formatting, *theme),
{
    let fg = match formatting.fg {
        Some(code) => theme.color(code),
        None => None,
    };
    let bg = match formatting.bg {
        Some(code) => theme.color(code),
        None => None,
    };
    let mut span = Span {
        text: text.clone(),
        color: fg,
        background: bg,
        underline: formatting.underline,
        strikethrough: formatting.strikethrough,
        font: None,
        link: None,
        padding: None,
        border: None,
    };
    if formatting.monospace {
        span.padding = Some(Padding { vertical: 0, horizontal: CODE_PADDING });
        span.color = Some(theme.code);
        span.background = None;
        span.border = Some(
            Border { radius: CODE_BORDER_RADIUS, color: theme.border, width: CODE_BORDER_WIDTH },
        );
    }
    span.font = font(formatting.bold, formatting.italics);
    span
}

/// Renders one fragment of a message.
pub fn render_fragment(fragment: &Fragment, theme: &Theme, config: &Config) -> (r: Span)
    ensures
        r == fragment_span(*fragment, *theme, *config),
{
    match fragment {
        Fragment::Text(s) => Span {
            text: s.clone(),
            color: None,
            background: None,
            underline: false,
            strikethrough: false,
            font: None,
            link: None,
            padding: None,
            border: None,
        },
        Fragment::User(user) => {
            let nick = user.nick_color(theme, config.nickname_color);
            let color = resolve_nick_color(&nick, theme);
            Span {
                text: user.nickname.clone(),
                color: Some(color),
                background: None,
                underline: false,
                strikethrough: false,
                font: None,
                link: Some(Link::User(User { nickname: user.nickname.clone() })),
                padding: None,
                border: None,
            }
        },
        Fragment::Url(s) => Span {
            text: s.clone(),
            color: Some(theme.url),
            background: None,
            underline: false,
            strikethrough: false,
            font: None,
            link: Some(Link::Url(s.clone())),
            padding: None,
            border: None,
        },
        Fragment::Formatted { text, formatting } => render_formatted(text, *formatting, theme),
    }
}

/// Renders a message body: plain text stays plain, and each fragment becomes
/// one span, in order.
pub fn message_content(content: &Content, theme: &Theme, config: &Config) -> (r: Rendered)
    ensures
        match *content {
            Content::Plain(text) => r == Rendered::Plain(text),
            Content::Fragments(fragments) => match r {
                Rendered::Rich(spans) => spans@.len() == fragments@.len() && forall|i: int|
                    0 <= i < spans@.len() ==> #[trigger] spans@[i] == fragment_span(
                        fragments@[i],
                        *theme,
                        *config,
                    ),
                Rendered::Plain(_) => false,
            },
        },
{
    match content {
        Content::Plain(text) => Rendered::Plain(text.clone()),
        Content::Fragments(fragments) => {
            let mut spans: Vec<Span> = Vec::new();
            let mut i: usize = 0;
            while i < fragments.len()
                invariant
                    0 <= i <= fragments@.len(),
                    spans@.len() == i,
                    forall|j: int|
                        0 <= j < i ==> #[trigger] spans@[j] == fragment_span(
                            fragments@[j],
                            *theme,
                            *config,
                        ),
                decreases fragments@.len() - i,
            {
                spans.push(render_fragment(&fragments[i], theme, config));
                i += 1;
            }
            Rendered::Rich(spans)
        },
    }
}

/// The gutter marker of a message: right-aligned in a box of `width` when a
/// width is given, at its natural size otherwise.
pub fn message_marker<W>(width: Option<W>) -> (r: Marker<W>)
    ensures
        r.text@ == seq![' ', '\u{2219}'],
        r.width == width,
        r.alignment == (if width is Some {
            Alignment::Right
        } else {
            Alignment::Natural
        }),
{
    let alignment = match &width {
        Some(_) => Alignment::Right,
        None => Alignment::Natural,
    };
    proof {
        reveal_strlit(" \u{2219}");
    }
    Marker { text: MESSAGE_MARKER_TEXT, width, alignment }
}

} // verus!
