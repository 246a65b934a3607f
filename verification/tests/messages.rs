use mihomo_tui::message::{AppMessage, MsgBoxSize, UserError};

#[test]
fn test_msg_box_size_clamps_percentages() {
    assert_eq!(MsgBoxSize::new(0, 101), MsgBoxSize { percent_x: 1, percent_y: 100 });
}

#[test]
fn test_app_message_msg_box_size_builder() {
    let message = AppMessage::from(("Title", "content")).msg_box_size(40, 25);

    assert_eq!(message.msg_box_size, Some(MsgBoxSize { percent_x: 40, percent_y: 25 }));
}

#[test]
fn msg_box_size_keeps_values_in_range() {
    assert_eq!(MsgBoxSize::new(1, 100), MsgBoxSize { percent_x: 1, percent_y: 100 });
    assert_eq!(MsgBoxSize::new(55, 7), MsgBoxSize { percent_x: 55, percent_y: 7 });
    assert_eq!(MsgBoxSize::default(), MsgBoxSize { percent_x: 80, percent_y: 75 });
}

#[test]
fn app_message_keeps_title_and_text() {
    let message = AppMessage::from(("Title", "content"));
    assert_eq!(message.title, "Title");
    assert_eq!(message.message, "content");
    assert_eq!(message.msg_box_size, None);
    let err = UserError::from(("Oops", "broken"));
    assert_eq!(err.title, "Oops");
    assert_eq!(err.message, "broken");
}
