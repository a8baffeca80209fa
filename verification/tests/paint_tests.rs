use cadutil::paint::paint;
use cadutil::report::Style;

const STYLES: [Style; 8] = [
    Style::CyanBold,
    Style::Cyan,
    Style::GreenBold,
    Style::Green,
    Style::RedBold,
    Style::YellowBold,
    Style::Blue,
    Style::Dimmed,
];

#[test]
fn plain_text_is_left_as_it_is() {
    colored::control::set_override(true);
    for text in ["", "Statistics", "  File: a.dxf", "\u{1b}[0m"] {
        assert_eq!(paint(text, Style::Plain), text);
    }
}

#[test]
fn styled_text_with_colouring_on() {
    colored::control::set_override(true);
    assert_eq!(paint("Statistics", Style::CyanBold), "\u{1b}[1;36mStatistics\u{1b}[0m");
    assert_eq!(paint("----------", Style::Cyan), "\u{1b}[36m----------\u{1b}[0m");
    assert_eq!(paint("VALID", Style::GreenBold), "\u{1b}[1;32mVALID\u{1b}[0m");
    assert_eq!(paint("done", Style::Green), "\u{1b}[32mdone\u{1b}[0m");
    assert_eq!(paint("INVALID", Style::RedBold), "\u{1b}[1;31mINVALID\u{1b}[0m");
    assert_eq!(paint("WARN", Style::YellowBold), "\u{1b}[1;33mWARN\u{1b}[0m");
    assert_eq!(paint("INFO", Style::Blue), "\u{1b}[34mINFO\u{1b}[0m");
    assert_eq!(paint("FILE_ERROR", Style::Dimmed), "\u{1b}[2mFILE_ERROR\u{1b}[0m");
}

#[test]
fn styled_text_with_colouring_off() {
    colored::control::set_override(false);
    for style in STYLES {
        assert_eq!(paint("Layers", style), "Layers");
    }
}

#[test]
fn text_comes_through_unbroken_either_way() {
    for on in [true, false] {
        colored::control::set_override(on);
        for style in STYLES {
            for text in ["", "x", "EMPTY_DRAWING", "  a (color: 7)"] {
                let out = paint(text, style);
                assert!(out.contains(text), "{:?} in {:?}", text, out);
                assert!(out.len() >= text.len());
            }
        }
    }
}
