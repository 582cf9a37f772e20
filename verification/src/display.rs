//! What the display shows at power-on.

use vstd::prelude::*;

verus! {

/// A line of text and the pixel at which it is drawn.
#[derive(Clone, Copy, PartialEq, Eq, Debug)]
pub struct Label {
    pub text: &'static str,
    pub x: i32,
    pub y: i32,
}

/// The one line that the display shows from power-on: the name of the
/// device, at the left edge and half way down a display of 64 rows.
pub fn startup_label() -> (label: Label)
    ensures
        label.text@ == "meloled"@,
        label.x == 0,
        label.y == 32,
{
    Label { text: "meloled", x: 0, y: 32 }
}

} // verus!
