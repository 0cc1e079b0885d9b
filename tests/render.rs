use message_render::color::{randomize_color, set_hue, Color};
use message_render::render::{
    font, message_content, message_marker, render_fragment, Alignment, Border, Content, Font,
    Formatting, Fragment, Link, Padding, Rendered, MESSAGE_MARKER_TEXT,
};
use message_render::theme::{resolve_nick_color, Config, NickColor, NicknameColor, Theme, User};

fn rgb(r: u8, g: u8, b: u8) -> Color {
    Color { r, g, b, a: 255 }
}

fn theme() -> Theme {
    Theme {
        text_primary: rgb(220, 220, 220),
        nickname: rgb(200, 100, 50),
        url: rgb(80, 120, 255),
        code: rgb(240, 160, 60),
        border: rgb(60, 60, 60),
        formatting: vec![Some(rgb(255, 255, 255)), Some(rgb(0, 0, 0)), None, Some(rgb(0, 128, 0)), Some(rgb(255, 0, 0))],
    }
}

fn config(kind: NicknameColor) -> Config {
    Config { nickname_color: kind }
}

fn formatting() -> Formatting {
    Formatting {
        fg: None,
        bg: None,
        underline: false,
        strikethrough: false,
        bold: false,
        italics: false,
        monospace: false,
    }
}

fn user(nick: &str) -> User {
    User { nickname: nick.to_string() }
}

#[test]
fn text_fragment_is_plain() {
    let span = render_fragment(&Fragment::Text("hello".to_string()), &theme(), &config(NicknameColor::Unique));
    assert_eq!(span.text, "hello");
    assert!(span.link.is_none());
    assert_eq!(span.color, None);
    assert_eq!(span.background, None);
    assert_eq!(span.font, None);
    assert!(!span.underline && !span.strikethrough);
    assert_eq!(span.padding, None);
    assert_eq!(span.border, None);
}

#[test]
fn seeded_nick_color_is_stable() {
    let t = theme();
    let c = config(NicknameColor::Unique);
    let a = render_fragment(&Fragment::User(user("alice")), &t, &c);
    let b = render_fragment(&Fragment::User(user("alice")), &t, &c);
    assert_eq!(a.color, b.color);
    assert_eq!(a.text, "alice");
    match a.link {
        Some(Link::User(u)) => assert_eq!(u.nickname, "alice"),
        _ => panic!("expected a user link"),
    }
    assert_eq!(a.color, Some(randomize_color(t.nickname, "alice")));
}

#[test]
fn solid_nick_uses_primary_text() {
    let t = theme();
    let span = render_fragment(&Fragment::User(user("bob")), &t, &config(NicknameColor::Solid));
    assert_eq!(span.color, Some(t.text_primary));
    assert_eq!(span.text, "bob");
}

#[test]
fn nick_color_modes() {
    let t = theme();
    let u = user("carol");
    let solid = u.nick_color(&t, NicknameColor::Solid);
    assert_eq!(solid.seed, None);
    assert_eq!(solid.color, t.nickname);
    let unique = u.nick_color(&t, NicknameColor::Unique);
    assert_eq!(unique.seed.as_deref(), Some("carol"));
    assert_eq!(u.nickname(), "carol");
}

#[test]
fn resolve_without_seed_is_primary_text() {
    let t = theme();
    let nick = NickColor { seed: None, color: rgb(1, 2, 3) };
    assert_eq!(resolve_nick_color(&nick, &t), t.text_primary);
}

#[test]
fn resolve_with_seed_derives_color() {
    let t = theme();
    let nick = NickColor { seed: Some("a".to_string()), color: rgb(200, 100, 50) };
    // 'a' is 97, so the hue is 97 degrees: the second sector.
    assert_eq!(resolve_nick_color(&nick, &t), rgb(108, 200, 50));
}

#[test]
fn url_fragment_links_to_itself() {
    let t = theme();
    let span = render_fragment(&Fragment::Url("https://example.org".to_string()), &t, &config(NicknameColor::Solid));
    assert_eq!(span.text, "https://example.org");
    assert_eq!(span.color, Some(t.url));
    match span.link {
        Some(Link::Url(s)) => assert_eq!(s, "https://example.org"),
        _ => panic!("expected a URL link"),
    }
}

#[test]
fn font_table() {
    assert_eq!(font(true, true), Some(Font::MonoBoldItalics));
    assert_eq!(font(true, false), Some(Font::MonoBold));
    assert_eq!(font(false, true), Some(Font::MonoItalics));
    assert_eq!(font(false, false), None);
    for (bold, italics) in [(true, true), (true, false), (false, true), (false, false)] {
        let f = Formatting { bold, italics, ..formatting() };
        let span = render_fragment(
            &Fragment::Formatted { text: "x".to_string(), formatting: f },
            &theme(),
            &config(NicknameColor::Solid),
        );
        assert_eq!(span.font, font(bold, italics));
    }
}

#[test]
fn monospace_overrides_background() {
    let t = theme();
    let f = Formatting { bg: Some(4), monospace: true, ..formatting() };
    let span = render_fragment(
        &Fragment::Formatted { text: "x".to_string(), formatting: f },
        &t,
        &config(NicknameColor::Solid),
    );
    assert_eq!(span.text, "x");
    assert_eq!(span.padding, Some(Padding { vertical: 0, horizontal: 4 }));
    assert_eq!(span.color, Some(t.code));
    assert_eq!(span.border, Some(Border { radius: 3, color: t.border, width: 1 }));
    assert_eq!(span.background, None);
}

#[test]
fn formatted_colors_and_flags() {
    let t = theme();
    let f = Formatting { fg: Some(3), bg: Some(0), underline: true, strikethrough: true, ..formatting() };
    let span = render_fragment(
        &Fragment::Formatted { text: "y".to_string(), formatting: f },
        &t,
        &config(NicknameColor::Solid),
    );
    assert_eq!(span.color, Some(rgb(0, 128, 0)));
    assert_eq!(span.background, Some(rgb(255, 255, 255)));
    assert!(span.underline && span.strikethrough);
    assert!(span.link.is_none());
    assert_eq!(span.padding, None);
}

#[test]
fn missing_theme_color_is_no_override() {
    let t = theme();
    for code in [2u8, 5, 99] {
        assert_eq!(t.color(code), None);
        let f = Formatting { fg: Some(code), bg: Some(code), ..formatting() };
        let span = render_fragment(
            &Fragment::Formatted { text: "z".to_string(), formatting: f },
            &t,
            &config(NicknameColor::Solid),
        );
        assert_eq!(span.color, None);
        assert_eq!(span.background, None);
    }
}

#[test]
fn marker_with_width_is_right_aligned() {
    let m = message_marker(Some(40.0f32));
    assert_eq!(m.width, Some(40.0));
    assert_eq!(m.alignment, Alignment::Right);
    assert_eq!(m.text, " \u{2219}");
    assert_eq!(MESSAGE_MARKER_TEXT.chars().count(), 2);
}

#[test]
fn marker_without_width_is_natural() {
    let m = message_marker::<f32>(None);
    assert_eq!(m.width, None);
    assert_eq!(m.alignment, Alignment::Natural);
    assert_eq!(m.text, " \u{2219}");
}

#[test]
fn plain_content_stays_plain() {
    let r = message_content(&Content::Plain("hi there".to_string()), &theme(), &config(NicknameColor::Solid));
    match r {
        Rendered::Plain(s) => assert_eq!(s, "hi there"),
        Rendered::Rich(_) => panic!("expected plain text"),
    }
}

#[test]
fn fragments_render_in_order() {
    let t = theme();
    let c = config(NicknameColor::Unique);
    let fragments = vec![
        Fragment::Text("hey ".to_string()),
        Fragment::User(user("dave")),
        Fragment::Text(", see ".to_string()),
        Fragment::Url("https://x.y".to_string()),
    ];
    let r = message_content(&Content::Fragments(fragments.clone()), &t, &c);
    match r {
        Rendered::Rich(spans) => {
            assert_eq!(spans.len(), 4);
            let texts: Vec<&str> = spans.iter().map(|s| s.text.as_str()).collect();
            assert_eq!(texts, vec!["hey ", "dave", ", see ", "https://x.y"]);
            for (span, fragment) in spans.iter().zip(fragments.iter()) {
                assert_eq!(span.color, render_fragment(fragment, &t, &c).color);
            }
        }
        Rendered::Plain(_) => panic!("expected spans"),
    }
}

#[test]
fn empty_fragments_render_no_spans() {
    let r = message_content(&Content::Fragments(vec![]), &theme(), &config(NicknameColor::Solid));
    match r {
        Rendered::Rich(spans) => assert!(spans.is_empty()),
        Rendered::Plain(_) => panic!("expected spans"),
    }
}

#[test]
fn set_hue_exact_values() {
    let base = rgb(200, 100, 50);
    assert_eq!(set_hue(base, 0), rgb(200, 50, 50));
    assert_eq!(set_hue(base, 30), rgb(200, 125, 50));
    assert_eq!(set_hue(base, 120), rgb(50, 200, 50));
    assert_eq!(set_hue(base, 359), rgb(200, 50, 53));
    let grey = Color { r: 90, g: 90, b: 90, a: 7 };
    assert_eq!(set_hue(grey, 200), grey);
}

#[test]
fn randomize_depends_on_seed() {
    let base = rgb(200, 100, 50);
    assert_eq!(randomize_color(base, ""), rgb(200, 50, 50));
    // "ab": (97 * 31 + 98) % 360 = 225 degrees.
    assert_eq!(randomize_color(base, "ab"), rgb(50, 88, 200));
    assert_eq!(randomize_color(base, "ab"), randomize_color(base, "ab"));
    assert_ne!(randomize_color(base, "ab"), base);
}
