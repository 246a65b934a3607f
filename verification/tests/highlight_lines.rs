use mihomo_tui::highlight::{Fragment, HighlightedLine};
use mihomo_tui::shortcut::ShortcutError;

#[test]
fn highlight_test_from() {
    // beginning
    let hl = HighlightedLine::from("filter", 0).unwrap();
    assert_eq!(hl.parts, vec![Fragment::Hl("f"), Fragment::Raw("ilter")]);

    // middle
    let hl = HighlightedLine::from("filter", 3).unwrap();
    assert_eq!(hl.parts, vec![Fragment::Raw("fil"), Fragment::Hl("t"), Fragment::Raw("er")]);

    // end
    let hl = HighlightedLine::from("filter", 5).unwrap();
    assert_eq!(hl.parts, vec![Fragment::Raw("filte"), Fragment::Hl("r")]);

    // illegal
    let hl = HighlightedLine::from("⁰filter", 0);
    assert!(hl.is_err());
    let hl = HighlightedLine::from("filter", 100);
    assert!(hl.is_err());
}

#[test]
fn highlight_test_to_line() {
    let hl = HighlightedLine::new(vec![Fragment::Hl("f"), Fragment::Raw("ilter")]);
    let spans = hl.into_spans();
    assert_eq!(spans.len(), 2);

    assert_eq!(spans[0].text, "f");
    assert!(spans[0].highlighted);

    assert_eq!(spans[1].text, "ilter");
    assert!(!spans[1].highlighted);
}

#[test]
fn highlight_test_to_line_nonascii() {
    let hl = HighlightedLine::new(vec![Fragment::Hl("⁰"), Fragment::Raw("filter")]);
    let spans = hl.into_spans();
    assert_eq!(spans.len(), 2);

    assert_eq!(spans[0].text, "⁰");
    assert!(spans[0].highlighted);

    assert_eq!(spans[1].text, "filter");
    assert!(!spans[1].highlighted);
}

#[test]
fn highlight_errors_name_the_problem() {
    assert_eq!(HighlightedLine::from("⁰filter", 0).unwrap_err(), ShortcutError::NotAscii);
    let err = HighlightedLine::from("filter", 100).unwrap_err();
    assert_eq!(err, ShortcutError::OutOfBounds(100, 6));
    assert_eq!(err.line_message(), "hl_index 100 is out of bounds for string of length 6");
    assert_eq!(ShortcutError::NotAscii.line_message(), "HighlightedLine::from expects ASCII text");
}

#[test]
fn highlight_from_owned_owns_its_parts() {
    let hl = HighlightedLine::from_owned("filter".to_string(), 1).unwrap();
    assert_eq!(
        hl.parts,
        vec![
            Fragment::RawOwned("f".to_string()),
            Fragment::HlOwned("i".to_string()),
            Fragment::RawOwned("lter".to_string())
        ]
    );
}

#[test]
fn empty_highlight_is_drawn_plain() {
    let spans = HighlightedLine::new(vec![Fragment::Hl(""), Fragment::Raw("x")]).into_spans();
    assert!(!spans[0].highlighted);
}

#[test]
fn owned_text_gives_owned_parts() {
    let hl = HighlightedLine::from_owned("filter".to_string(), 3).unwrap();
    assert_eq!(
        hl.parts,
        vec![Fragment::RawOwned("fil".to_string()), Fragment::HlOwned("t".to_string()), Fragment::RawOwned("er".to_string())]
    );
}
