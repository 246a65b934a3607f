//! Messages shown to the user in a message box, and their box size.
use vstd::prelude::*;

verus! {

/// Clamps a percentage into `1..=100`.
pub open spec fn clamp_percent_spec(v: u16) -> u16 {
    if v < 1 {
        1
    } else if v > 100 {
        100
    } else {
        v
    }
}

/// Size of a message box, as percentages of the screen in each direction.
#[derive(Debug, Clone, Copy, PartialEq, Eq)]
pub struct MsgBoxSize {
    pub percent_x: u16,
    pub percent_y: u16,
}

impl MsgBoxSize {
    /// Creates a size with both percentages clamped into `1..=100`.
    pub fn new(percent_x: u16, percent_y: u16) -> (r: Self)
        ensures
            r.percent_x == clamp_percent_spec(percent_x),
            r.percent_y == clamp_percent_spec(percent_y),
    {
        Self { percent_x: clamp_percent(percent_x), percent_y: clamp_percent(percent_y) }
    }
}

impl Default for MsgBoxSize {
    fn default() -> (r: Self)
        ensures
            r.percent_x == 80,
            r.percent_y == 75,
    {
        Self::new(80, 75)
    }
}

fn clamp_percent(v: u16) -> (r: u16)
    ensures
        r == clamp_percent_spec(v),
{
    if v < 1 {
        1
    } else if v > 100 {
        100
    } else {
        v
    }
}

/// A titled message for the message box, with an optional box size.
#[derive(Debug, Clone)]
pub struct AppMessage {
    pub title: &'static str,
    pub message: String,
    pub msg_box_size: Option<MsgBoxSize>,
}

impl AppMessage {
    /// A message from a title and a text, with the default box size.
    pub fn from(value: (&'static str, &str)) -> (r: Self)
        ensures
            r.title == value.0,
            r.message@ == value.1@,
            r.msg_box_size is None,
    {
        Self { title: value.0, message: value.1.to_string(), msg_box_size: None }
    }

    /// A message from a title and an owned text.
    pub fn from_string(title: &'static str, message: String) -> (r: Self)
        ensures
            r.title == title,
            r.message == message,
            r.msg_box_size is None,
    {
        Self { title, message, msg_box_size: None }
    }

    /// Sets the box size, each percentage clamped into `1..=100`.
    pub fn msg_box_size(self, percent_x: u16, percent_y: u16) -> (r: Self)
        ensures
            r.title == self.title,
            r.message == self.message,
            r.msg_box_size == Some(
                MsgBoxSize {
                    percent_x: clamp_percent_spec(percent_x),
                    percent_y: clamp_percent_spec(percent_y),
                },
            ),
    {
        let mut m = self;
        m.msg_box_size = Some(MsgBoxSize::new(percent_x, percent_y));
        m
    }
}

/// An error to report to the user: a title and a text.
#[derive(Debug, Clone)]
pub struct UserError {
    pub title: &'static str,
    pub message: String,
}

impl UserError {
    /// An error from a title and a text.
    pub fn from(value: (&'static str, &str)) -> (r: Self)
        ensures
            r.title == value.0,
            r.message@ == value.1@,
    {
        Self { title: value.0, message: value.1.to_string() }
    }

    /// An error from a title and an owned text.
    pub fn from_string(title: &'static str, message: String) -> (r: Self)
        ensures
            r.title == title,
            r.message == message,
    {
        Self { title, message }
    }
}

} // verus!
