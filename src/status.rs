//! What the status indicators show: the robot's chosen color on the left,
//! the connection state on the right, and the color labels a controller can
//! choose from.
use vstd::prelude::*;
use crate::network::ConnectionState;

verus! {

/// A color of the two indicator lights.
#[derive(Clone, Copy, Debug, PartialEq, Eq, Structural)]
pub enum LedColor {
    Off,
    Red,
    Green,
    Amber,
    Orange,
    Yellow,
}

/// Label of the lime indicator color.
pub const LABEL_LIME: &'static str = "lime";
/// Label of the yellow indicator color.
pub const LABEL_YELLOW: &'static str = "yellow";
/// Label of the amber indicator color.
pub const LABEL_AMBER: &'static str = "amber";
/// Label of the orange indicator color.
pub const LABEL_ORANGE: &'static str = "orange";
/// Label of the red indicator color.
pub const LABEL_RED: &'static str = "red";
/// Label of the dark indicator, used when none was chosen.
pub const LABEL_OFF: &'static str = "black";

/// The left indicator's color for a label; unknown labels are dark.
pub open spec fn label_led(label: Seq<char>) -> LedColor {
    if label == LABEL_LIME@ {
        LedColor::Green
    } else if label == LABEL_YELLOW@ {
        LedColor::Yellow
    } else if label == LABEL_AMBER@ {
        LedColor::Amber
    } else if label == LABEL_ORANGE@ {
        LedColor::Orange
    } else if label == LABEL_RED@ {
        LedColor::Red
    } else {
        LedColor::Off
    }
}

/// The right indicator's color for a connection state.
pub open spec fn connection_led(state: ConnectionState) -> LedColor {
    match state {
        ConnectionState::Disconnected => LedColor::Red,
        ConnectionState::Connecting => LedColor::Amber,
        ConnectionState::Connected => LedColor::Green,
        ConnectionState::Reconnecting => LedColor::Yellow,
    }
}

/// The left indicator's color for the chosen color label.
pub fn label_color(label: &String) -> (r: LedColor)
    ensures
        r == label_led(label@),
{
    if *label == LABEL_LIME.to_owned() {
        LedColor::Green
    } else if *label == LABEL_YELLOW.to_owned() {
        LedColor::Yellow
    } else if *label == LABEL_AMBER.to_owned() {
        LedColor::Amber
    } else if *label == LABEL_ORANGE.to_owned() {
        LedColor::Orange
    } else if *label == LABEL_RED.to_owned() {
        LedColor::Red
    } else {
        LedColor::Off
    }
}

/// The right indicator's color for the connection state.
pub fn connection_color(state: ConnectionState) -> (r: LedColor)
    ensures
        r == connection_led(state),
{
    match state {
        ConnectionState::Disconnected => LedColor::Red,
        ConnectionState::Connecting => LedColor::Amber,
        ConnectionState::Connected => LedColor::Green,
        ConnectionState::Reconnecting => LedColor::Yellow,
    }
}

/// Both indicator colors: the chosen label's on the left, the connection
/// state's on the right.
pub fn indicator_colors(label: &String, state: ConnectionState) -> (r: (LedColor, LedColor))
    ensures
        r == (label_led(label@), connection_led(state)),
{
    (label_color(label), connection_color(state))
}

/// The labels a controller may choose, in the order they are offered.
pub open spec fn labels_spec() -> Seq<Seq<char>> {
    seq![LABEL_LIME@, LABEL_YELLOW@, LABEL_AMBER@, LABEL_ORANGE@, LABEL_RED@]
}

/// The color labels a controller may choose.
pub fn available_colors() -> (r: Vec<String>)
    ensures
        r@.len() == labels_spec().len(),
        forall|i: int| 0 <= i < r@.len() ==> #[trigger] r@[i]@ == labels_spec()[i],
{
    let r = vec![
        LABEL_LIME.to_owned(),
        LABEL_YELLOW.to_owned(),
        LABEL_AMBER.to_owned(),
        LABEL_ORANGE.to_owned(),
        LABEL_RED.to_owned(),
    ];
    r
}

} // verus!
