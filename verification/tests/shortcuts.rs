use mihomo_tui::shortcut::{default_shortcuts, FooterComponent, Fragment, Shortcut, ShortcutError};

#[test]
fn shortcut_test_from() {
    // beginning
    let hl = Shortcut::from("filter", 0).unwrap();
    assert_eq!(hl.parts, vec![Fragment::Hl("f".into()), Fragment::Raw("ilter".into())]);

    // middle
    let hl = Shortcut::from("filter", 3).unwrap();
    assert_eq!(hl.parts, vec![Fragment::Raw("fil".into()), Fragment::Hl("t".into()), Fragment::Raw("er".into())]);

    // end
    let hl = Shortcut::from("filter", 5).unwrap();
    assert_eq!(hl.parts, vec![Fragment::Raw("filte".into()), Fragment::Hl("r".into())]);

    // illegal
    let hl = Shortcut::from("⁰filter", 0);
    assert!(hl.is_err());
    let hl = Shortcut::from("filter", 100);
    assert!(hl.is_err());
}

#[test]
fn shortcut_test_to_line() {
    let hl = Shortcut::new(vec![Fragment::hl("f"), Fragment::raw("ilter")]);
    let spans = hl.into_spans();
    assert_eq!(spans.len(), 2);
    assert_eq!(spans[0].text, "f");
    assert!(spans[0].highlighted);
    assert_eq!(spans[1].text, "ilter");
    assert!(!spans[1].highlighted);
}

#[test]
fn shortcut_test_to_line_nonascii() {
    let hl = Shortcut::new(vec![Fragment::hl("⁰"), Fragment::raw("filter")]);
    let spans = hl.spans();
    assert_eq!(spans.len(), 2);
    assert_eq!(spans[0].text, "⁰");
    assert!(spans[0].highlighted);
    assert_eq!(spans[1].text, "filter");
    assert!(!spans[1].highlighted);
}

#[test]
fn shortcut_errors_have_messages() {
    let err = Shortcut::from("filter", 100).unwrap_err();
    assert_eq!(err, ShortcutError::OutOfBounds(100, 6));
    assert!(err.to_string().contains("out of bounds"));
    assert_eq!(Shortcut::from("⁰x", 0).unwrap_err(), ShortcutError::NotAscii);
}

#[test]
fn footer_starts_with_help_and_quit() {
    let d = default_shortcuts();
    assert_eq!(d.len(), 2);
    assert_eq!(d[0].parts, vec![Fragment::hl("h"), Fragment::raw("elp")]);
    assert_eq!(d[1].parts, vec![Fragment::hl("q"), Fragment::raw("uit")]);
    let mut footer = FooterComponent::new();
    footer.set_shortcuts(vec![Shortcut::new(vec![Fragment::raw("x")])]);
    assert_eq!(footer.shortcuts.len(), 3);
    assert_eq!(footer.shortcuts[2].parts, vec![Fragment::raw("x")]);
}
