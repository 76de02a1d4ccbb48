//! Screen rotations and their textual form.

use vstd::prelude::*;
use crate::text::same_text;

verus! {

/// Physical orientation of the display panel relative to the native axes of
/// the touch device.
#[derive(Debug, Clone, Copy, PartialEq, Eq, Structural)]
#[allow(non_camel_case_types)]
pub enum ScreenRotation {
    Deg_0,
    Deg_CW90,
    Deg_CW180,
    Deg_CCW90,
}

/// The message returned for a text that names no rotation.
pub open spec fn unknown_rotation_message(text: Seq<char>) -> Seq<char> {
    "Could not convert "@ + text
        + " into screen rotation. Allowed values: 0, CW90, CW180, CCW90"@
}

impl ScreenRotation {
    /// The textual form of a rotation.
    pub open spec fn text(self) -> Seq<char> {
        match self {
            ScreenRotation::Deg_0 => "0"@,
            ScreenRotation::Deg_CW90 => "CW90"@,
            ScreenRotation::Deg_CW180 => "CW180"@,
            ScreenRotation::Deg_CCW90 => "CCW90"@,
        }
    }

    /// The name of a rotation, as diagnostics print it.
    pub open spec fn name_text(self) -> Seq<char> {
        match self {
            ScreenRotation::Deg_0 => "Deg_0"@,
            ScreenRotation::Deg_CW90 => "Deg_CW90"@,
            ScreenRotation::Deg_CW180 => "Deg_CW180"@,
            ScreenRotation::Deg_CCW90 => "Deg_CCW90"@,
        }
    }

    /// The rotation that a text names, if it names one.
    pub open spec fn of_text(text: Seq<char>) -> Option<ScreenRotation> {
        if text == ScreenRotation::Deg_0.text() {
            Some(ScreenRotation::Deg_0)
        } else if text == ScreenRotation::Deg_CW90.text() {
            Some(ScreenRotation::Deg_CW90)
        } else if text == ScreenRotation::Deg_CW180.text() {
            Some(ScreenRotation::Deg_CW180)
        } else if text == ScreenRotation::Deg_CCW90.text() {
            Some(ScreenRotation::Deg_CCW90)
        } else {
            None
        }
    }

    /// The textual form of this rotation.
    pub fn as_str(self) -> (text: &'static str)
        ensures
            text@ == self.text(),
    {
        match self {
            ScreenRotation::Deg_0 => "0",
            ScreenRotation::Deg_CW90 => "CW90",
            ScreenRotation::Deg_CW180 => "CW180",
            ScreenRotation::Deg_CCW90 => "CCW90",
        }
    }

    /// The name of this rotation, as diagnostics print it.
    pub fn name(self) -> (text: &'static str)
        ensures
            text@ == self.name_text(),
    {
        match self {
            ScreenRotation::Deg_0 => "Deg_0",
            ScreenRotation::Deg_CW90 => "Deg_CW90",
            ScreenRotation::Deg_CW180 => "Deg_CW180",
            ScreenRotation::Deg_CCW90 => "Deg_CCW90",
        }
    }

    /// Reads a rotation from its textual form. Any other text is refused
    /// with a message that quotes it and lists the accepted forms.
    pub fn from_str(val: &str) -> (res: Result<ScreenRotation, String>)
        ensures
            match ScreenRotation::of_text(val@) {
                Some(rotation) => res == Ok::<ScreenRotation, String>(rotation),
                None => res matches Err(message) && message@ == unknown_rotation_message(val@),
            },
    {
        if same_text(val, "0") {
            Ok(ScreenRotation::Deg_0)
        } else if same_text(val, "CW90") {
            Ok(ScreenRotation::Deg_CW90)
        } else if same_text(val, "CW180") {
            Ok(ScreenRotation::Deg_CW180)
        } else if same_text(val, "CCW90") {
            Ok(ScreenRotation::Deg_CCW90)
        } else {
            let mut message: String = "Could not convert ".to_owned();
            message.append(val);
            message.append(" into screen rotation. Allowed values: 0, CW90, CW180, CCW90");
            Err(message)
        }
    }
}

impl core::str::FromStr for ScreenRotation {
    type Err = String;

    /// Reads a rotation from its textual form, as the inherent function of
    /// the same name does: each of the four forms gives its rotation, and
    /// any other text is refused with the message that quotes it.
    fn from_str(val: &str) -> (res: Result<ScreenRotation, String>)
        ensures
            match ScreenRotation::of_text(val@) {
                Some(rotation) => res == Ok::<ScreenRotation, String>(rotation),
                None => res matches Err(message) && message@ == unknown_rotation_message(val@),
            },
    {
        ScreenRotation::from_str(val)
    }
}

/// Every rotation is read back from its own textual form, so no two
/// rotations share a text.
pub proof fn lemma_text_round_trip(rotation: ScreenRotation)
    ensures
        ScreenRotation::of_text(rotation.text()) == Some(rotation),
{
    reveal_strlit("0");
    reveal_strlit("CW90");
    reveal_strlit("CW180");
    reveal_strlit("CCW90");
    assert("0"@.len() == 1);
    assert("CW90"@.len() == 4);
    assert("CW180"@.len() == 5);
    assert("CCW90"@.len() == 5);
    assert("CW180"@[1] == 'W');
    assert("CCW90"@[1] == 'C');
}

} // verus!
