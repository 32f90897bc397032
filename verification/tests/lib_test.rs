use colored_text::ColoredText;
use colored_text::esthetics::{Color, Style};

#[test]
fn test_display() {
    let c1_1 = ColoredText::text("x").style(Style::Normal).color(Color::Black);
    assert_eq!(c1_1.render(), "\x1b[0;30mx\x1b[0m");

    let c1_2 = ColoredText::text("x").style(Style::Normal).color(Color::Red);
    assert_eq!(c1_2.render(), "\x1b[0;31mx\x1b[0m");

    let c1_3 = ColoredText::text("x").style(Style::Normal).color(Color::Green);
    assert_eq!(c1_3.render(), "\x1b[0;32mx\x1b[0m");

    let c2_6 = ColoredText::text("x").style(Style::Bold).color(Color::Purple);
    assert_eq!(c2_6.render(), "\x1b[1;35mx\x1b[0m");

    let c3_4 = ColoredText::text("x").style(Style::Dimmed).color(Color::Yellow);
    assert_eq!(c3_4.render(), "\x1b[2;33mx\x1b[0m");

    let c4_5 = ColoredText::text("x").style(Style::Italic).color(Color::Blue);
    assert_eq!(c4_5.render(), "\x1b[3;34mx\x1b[0m");

    let c5_6 = ColoredText::text("x").style(Style::Underline).color(Color::Purple);
    assert_eq!(c5_6.render(), "\x1b[4;35mx\x1b[0m");

    let c6_7 = ColoredText::text("x").style(Style::BlinkSlow).color(Color::Cyan);
    assert_eq!(c6_7.render(), "\x1b[5;36mx\x1b[0m");

    let c7_8 = ColoredText::text("x").style(Style::BlinkFast).color(Color::White);
    assert_eq!(c7_8.render(), "\x1b[6;37mx\x1b[0m");

    let c8_1 = ColoredText::text("x").style(Style::Reverse).color(Color::Black);
    assert_eq!(c8_1.render(), "\x1b[7;30mx\x1b[0m");

    let c9_2 = ColoredText::text("x").style(Style::Hidden).color(Color::Red);
    assert_eq!(c9_2.render(), "\x1b[8;31mx\x1b[0m");

    let c10_3 = ColoredText::text("x").style(Style::Strikethrough).color(Color::Green);
    assert_eq!(c10_3.render(), "\x1b[9;32mx\x1b[0m");
}

#[test]
fn lib_default_works() {
    let x = ColoredText::default();
    let string_default = "";
    let y = ColoredText {
        text: string_default,
        style: Style::Normal,
        color: Color::White,
    };

    assert!(x.eq(&y));
    assert!(y.eq(&x));
}

#[test]
fn render_shape_general() {
    let r = ColoredText::new("abc", Style::Underline, Color::Cyan).render();
    let expected = format!(
        "\x1b[{};{}m{}\x1b[0m",
        Style::Underline.code(),
        Color::Cyan.code(),
        "abc"
    );
    assert_eq!(r, expected);
    assert_eq!(r, "\x1b[4;36mabc\x1b[0m");
}

#[test]
fn text_renders_as_defaults() {
    let from_text = ColoredText::text("hello").render();
    let direct = ColoredText::new("hello", Style::Normal, Color::White).render();
    assert_eq!(from_text, direct);
    assert_eq!(from_text, "\x1b[0;37mhello\x1b[0m");
}

#[test]
fn chaining_order_independent() {
    let style_first = ColoredText::text("t").style(Style::Bold).color(Color::Green).render();
    let color_first = ColoredText::text("t").color(Color::Green).style(Style::Bold).render();
    assert_eq!(style_first, color_first);
    assert_eq!(style_first, "\x1b[1;32mt\x1b[0m");
}

#[test]
fn convenience_constructors_equivalent() {
    let color_only = ColoredText::with_color_only("t", Color::Blue).render();
    let color_direct = ColoredText::new("t", Style::Normal, Color::Blue).render();
    assert_eq!(color_only, color_direct);

    let style_only = ColoredText::with_style_only("t", Style::Dimmed).render();
    let style_direct = ColoredText::new("t", Style::Dimmed, Color::White).render();
    assert_eq!(style_only, style_direct);
}

#[test]
fn empty_text_renders_bare_sequences() {
    let r = ColoredText::new("", Style::Normal, Color::White).render();
    assert_eq!(r, "\x1b[0;37m\x1b[0m");
}

#[test]
fn embedded_escapes_pass_through() {
    let r = ColoredText::new("\x1b[9;31mabc", Style::Normal, Color::White).render();
    assert_eq!(r, "\x1b[0;37m\x1b[9;31mabc\x1b[0m");
    assert!(r.contains("\x1b[9;31mabc"));
    assert!(r.ends_with("abc\x1b[0m"));
}

#[test]
fn concrete_scenarios() {
    assert_eq!(ColoredText::new("x", Style::Bold, Color::Red).render(), "\x1b[1;31mx\x1b[0m");
    assert_eq!(
        ColoredText::new("x", Style::Strikethrough, Color::Green).render(),
        "\x1b[9;32mx\x1b[0m"
    );
    assert_eq!(
        ColoredText::text("x").style(Style::Underline).color(Color::Cyan).render(),
        "\x1b[4;36mx\x1b[0m"
    );
    assert_eq!(ColoredText::new("x", Style::Normal, Color::Black).render(), "\x1b[0;30mx\x1b[0m");
}

#[test]
fn equality_distinguishes_fields() {
    let a = ColoredText::new("x", Style::Bold, Color::Red);
    let b = ColoredText::new("x", Style::Bold, Color::Red);
    assert!(a.eq(&b));
    assert!(a != ColoredText::new("y", Style::Bold, Color::Red));
    assert!(a != ColoredText::new("x", Style::Italic, Color::Red));
    assert!(a != ColoredText::new("x", Style::Bold, Color::Blue));
}
