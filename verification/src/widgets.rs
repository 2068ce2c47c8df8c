//! Widgets of the terminal client.
use vstd::prelude::*;

verus! {

/// A line of command text to be drawn in the terminal.
pub struct CommandInputWidget {
    input: String,
}

impl CommandInputWidget {
    /// A widget that shows `test`.
    pub fn new() -> (widget: Self)
        ensures
            widget.text() == "test"@,
    {
        Self { input: "test".to_string() }
    }

    /// The text that the widget shows.
    pub closed spec fn text(&self) -> Seq<char> {
        self.input@
    }

    /// The text that the widget shows, for drawing it.
    pub fn input(&self) -> (text: &str)
        ensures
            text@ == self.text(),
    {
        self.input.as_str()
    }
}

} // verus!
