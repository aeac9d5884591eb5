//! The lines a run logs.

use vstd::prelude::*;

verus! {

/// A line to log before the device is released.
#[derive(Debug, Clone, Copy, PartialEq, Eq, Structural)]
pub enum Notice {
    /// The image was saved.
    ImageSaved,
    /// No frame was received.
    NoFrame,
}

/// How loudly a line is logged.
#[derive(Debug, Clone, Copy, PartialEq, Eq, Structural)]
pub enum Level {
    Info,
    Warn,
}

/// The level of a notice: a saved image is information, a missing frame a
/// warning.
pub open spec fn level_of(notice: Notice) -> Level {
    match notice {
        Notice::ImageSaved => Level::Info,
        Notice::NoFrame => Level::Warn,
    }
}

/// The text of a notice. Only the notice of a saved image names the file.
pub open spec fn text_of(notice: Notice, file_name: Seq<char>) -> Seq<char> {
    match notice {
        Notice::ImageSaved => "Image saved to '"@ + file_name + "'"@,
        Notice::NoFrame => "No frame received."@,
    }
}

impl Notice {
    /// The level this notice is logged at.
    pub fn level(&self) -> (level: Level)
        ensures
            level == level_of(*self),
    {
        match self {
            Notice::ImageSaved => Level::Info,
            Notice::NoFrame => Level::Warn,
        }
    }

    /// The line to log, given the name of the file the image went to.
    pub fn text(&self, file_name: &str) -> (line: String)
        ensures
            line@ == text_of(*self, file_name@),
    {
        match self {
            Notice::ImageSaved => String::from_str("Image saved to '").concat(file_name).concat(
                "'",
            ),
            Notice::NoFrame => String::from_str("No frame received."),
        }
    }
}

} // verus!
