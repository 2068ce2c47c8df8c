//! The terminal client: the line being typed, the log of exchanges with the
//! server, and what each key does to them. Drawing and the socket are the
//! caller's; it hands keys and replies in and takes what to send and show out.
use crate::text::{decimal, usize_to_string, utf8_text};
use tui_input::{Input, InputRequest};
use vstd::prelude::*;

verus! {

/// `tui_input::Input`, the editable line with its cursor.
#[verifier::external_type_specification]
#[verifier::external_body]
pub struct ExInput(Input);

/// The text held by an input line.
pub uninterp spec fn input_text(input: Input) -> Seq<char>;

/// The cursor of an input line, as a count of characters before it.
pub uninterp spec fn input_cursor(input: Input) -> nat;

/// The column at which the cursor of `text` is drawn: the display width of
/// the characters before `cursor`.
pub uninterp spec fn visual_cursor_of(text: Seq<char>, cursor: nat) -> usize;

/// How many columns of `text` are scrolled out of sight when it is drawn in
/// `width` columns with the cursor at `cursor`.
pub uninterp spec fn visual_scroll_of(text: Seq<char>, cursor: nat, width: usize) -> usize;

/// The edits that the client makes to its input line.
enum Edit {
    InsertChar(char),
    DeletePrevChar,
    DeleteLine,
}

/// `Input::default`: an empty line with the cursor at its start.
#[verifier::external_body]
fn input_new() -> (input: Input)
    ensures
        input_text(input) == Seq::<char>::empty(),
        input_cursor(input) == 0,
{
    Input::default()
}

/// `Input::handle` with one of the requests `InsertChar`, `DeletePrevChar`
/// and `DeleteLine`. The contract claims: a character goes in at the cursor,
/// which moves past it; the character before the cursor, if any, goes out and
/// the cursor moves back onto its place; the line is emptied and the cursor
/// goes to its start; the cursor never passes the end of the line. The reply
/// of `handle` is dropped. Allocation failure is not modelled, as with
/// `Vec::push`.
#[verifier::external_body]
fn edit_input(input: &mut Input, edit: Edit)
    requires
        input_cursor(*old(input)) <= input_text(*old(input)).len(),
    ensures
        input_cursor(*final(input)) <= input_text(*final(input)).len(),
        edit matches Edit::InsertChar(c) ==> input_text(*final(input)) == input_text(
            *old(input),
        ).take(input_cursor(*old(input)) as int) + seq![c] + input_text(*old(input)).skip(
            input_cursor(*old(input)) as int,
        ) && input_cursor(*final(input)) == input_cursor(*old(input)) + 1,
        edit is DeletePrevChar && input_cursor(*old(input)) == 0 ==> input_text(*final(input))
            == input_text(*old(input)) && input_cursor(*final(input)) == 0,
        edit is DeletePrevChar && input_cursor(*old(input)) > 0 ==> input_text(*final(input))
            == input_text(*old(input)).take(input_cursor(*old(input)) - 1) + input_text(
            *old(input),
        ).skip(input_cursor(*old(input)) as int) && input_cursor(*final(input)) == input_cursor(
            *old(input),
        ) - 1,
        edit is DeleteLine ==> input_text(*final(input)) == Seq::<char>::empty() && input_cursor(
            *final(input),
        ) == 0,
{
    input.handle(
        match edit {
            Edit::InsertChar(c) => InputRequest::InsertChar(c),
            Edit::DeletePrevChar => InputRequest::DeletePrevChar,
            Edit::DeleteLine => InputRequest::DeleteLine,
        },
    );
}

/// `Input::value`: the text of the line.
#[verifier::external_body]
fn input_value(input: &Input) -> (value: &str)
    ensures
        value@ == input_text(*input),
{
    input.value()
}

/// `Input::visual_cursor`: the display column of the cursor, named by
/// `visual_cursor_of`; the contract also claims it is 0 when the cursor is at
/// the start of the line.
#[verifier::external_body]
fn input_visual_cursor(input: &Input) -> (column: usize)
    ensures
        column == visual_cursor_of(input_text(*input), input_cursor(*input)),
        input_cursor(*input) == 0 ==> column == 0,
{
    input.visual_cursor()
}

/// `Input::visual_scroll`: the columns scrolled out of sight in a field
/// `width` columns wide, named by `visual_scroll_of`; the contract also claims
/// that none are while the cursor column fits in the field.
#[verifier::external_body]
fn input_visual_scroll(input: &Input, width: usize) -> (scroll: usize)
    ensures
        scroll == visual_scroll_of(input_text(*input), input_cursor(*input), width),
        visual_cursor_of(input_text(*input), input_cursor(*input)) <= width ==> scroll == 0,
{
    input.visual_scroll(width)
}

/// A key pressed in the client.
#[derive(Debug, Clone, Copy, PartialEq, Eq, Structural)]
pub enum Key {
    Enter,
    Char(char),
    Backspace,
    Esc,
    /// Any key that the client ignores.
    Other,
}

/// What the caller is to do after a key.
#[derive(Debug)]
pub enum KeyOutcome {
    /// Wait for the next key.
    Continue,
    /// Send this line to the server, then hand its reply to `record_exchange`.
    Send(String),
    /// Leave the client.
    Exit,
}

/// The column after the cursor offset is narrowed to 16 bits, as a `u16` cast does.
pub open spec fn narrowed(offset: int) -> int {
    offset % 0x10000
}

/// How far the cursor is drawn from the start of the field: the cursor column
/// minus the columns scrolled away, never below 0.
pub open spec fn cursor_offset(visual_cursor: usize, scroll: usize) -> int {
    if visual_cursor > scroll {
        visual_cursor - scroll
    } else {
        0
    }
}

/// The width of the input field for a first row `first_width` columns wide:
/// 3 columns fewer, at least 0.
pub fn input_width(first_width: u16) -> (width: u16)
    ensures
        width == (if first_width >= 3 {
            first_width - 3
        } else {
            0
        }),
{
    let widest = if first_width > 3 {
        first_width
    } else {
        3
    };
    widest - 3
}

/// Where the terminal cursor goes in the input field whose inner corner is
/// at (`field_x`, `field_y`): one column and one row inside the border, moved
/// right by the cursor offset narrowed to 16 bits. The sums must fit in 16
/// bits.
pub fn cursor_position(field_x: u16, field_y: u16, visual_cursor: usize, scroll: usize) -> (pos: (
    u16,
    u16,
))
    requires
        field_x + narrowed(cursor_offset(visual_cursor, scroll)) + 1 <= u16::MAX,
        field_y + 1 <= u16::MAX,
    ensures
        pos.0 == field_x + narrowed(cursor_offset(visual_cursor, scroll)) + 1,
        pos.1 == field_y + 1,
{
    let top = if visual_cursor > scroll {
        visual_cursor
    } else {
        scroll
    };
    let offset: usize = top - scroll;
    let column: u16 = #[verifier::truncate] (offset as u16);
    assert((#[verifier::truncate] (offset as u16)) == offset % 0x10000) by (bit_vector);
    (field_x + column + 1, field_y + 1)
}

/// The state of the client: the line being typed and the log of exchanges.
pub struct App {
    input: Input,
    messages: Vec<String>,
}

impl Default for App {
    /// An empty line and an empty log.
    fn default() -> (app: Self)
        ensures
            app.well_formed(),
            app.text() == Seq::<char>::empty(),
            app.log() == Seq::<Seq<char>>::empty(),
    {
        let app = Self { input: input_new(), messages: Vec::new() };
        assert(app.log() =~= Seq::<Seq<char>>::empty());
        app
    }
}

impl App {
    /// The line keeps its cursor at its end: the client only appends and
    /// deletes at the end.
    pub closed spec fn well_formed(&self) -> bool {
        input_cursor(self.input) == input_text(self.input).len()
    }

    /// The line being typed.
    pub closed spec fn text(&self) -> Seq<char> {
        input_text(self.input)
    }

    /// The log of exchanges, oldest first.
    pub closed spec fn log(&self) -> Seq<Seq<char>> {
        self.messages@.map_values(|m: String| m@)
    }

    /// What `key` does: a character is appended to the line, backspace
    /// deletes its last character, enter asks for the line to be sent, escape
    /// asks to leave; every other key does nothing. The log is unchanged.
    pub fn on_key(&mut self, key: Key) -> (outcome: KeyOutcome)
        requires
            old(self).well_formed(),
        ensures
            final(self).well_formed(),
            final(self).log() == old(self).log(),
            key matches Key::Char(c) ==> final(self).text() == old(self).text().push(c)
                && outcome is Continue,
            key is Backspace ==> final(self).text() == (if old(self).text().len() > 0 {
                old(self).text().drop_last()
            } else {
                old(self).text()
            }) && outcome is Continue,
            key is Enter ==> final(self).text() == old(self).text() && (outcome matches KeyOutcome::Send(
                line,
            ) && line@ == old(self).text()),
            key is Esc ==> final(self).text() == old(self).text() && outcome is Exit,
            key is Other ==> final(self).text() == old(self).text() && outcome is Continue,
    {
        match key {
            Key::Enter => {
                let line = input_value(&self.input).to_string();
                KeyOutcome::Send(line)
            },
            Key::Char(c) => {
                let ghost before = input_text(self.input);
                edit_input(&mut self.input, Edit::InsertChar(c));
                assert(input_text(self.input) =~= before.push(c));
                KeyOutcome::Continue
            },
            Key::Backspace => {
                let ghost before = input_text(self.input);
                edit_input(&mut self.input, Edit::DeletePrevChar);
                proof {
                    if before.len() > 0 {
                        assert(input_text(self.input) =~= before.drop_last());
                    }
                }
                KeyOutcome::Continue
            },
            Key::Esc => KeyOutcome::Exit,
            Key::Other => KeyOutcome::Continue,
        }
    }

    /// Logs an exchange: the line that was sent, then `response`, the reply
    /// of the server; the line is then emptied.
    pub fn record_exchange(&mut self, response: &str)
        requires
            old(self).well_formed(),
        ensures
            final(self).well_formed(),
            final(self).text() == Seq::<char>::empty(),
            final(self).log() == old(self).log().push("Input: "@ + old(self).text()).push(
                "Response: "@ + response@,
            ),
    {
        let mut sent = "Input: ".to_string();
        sent.append(input_value(&self.input));
        let mut received = "Response: ".to_string();
        received.append(response);
        let ghost before = self.messages@;
        self.messages.push(sent);
        self.messages.push(received);
        assert(self.messages@ =~= before.push(sent).push(received));
        edit_input(&mut self.input, Edit::DeleteLine);
        assert(self.log() =~= old(self).log().push("Input: "@ + old(self).text()).push(
            "Response: "@ + response@,
        ));
    }

    /// Logs an exchange whose reply came as `reply`, bytes of valid UTF-8:
    /// as `record_exchange` with the text they encode.
    pub fn record_reply(&mut self, reply: &[u8])
        requires
            old(self).well_formed(),
            vstd::utf8::valid_utf8(reply@),
        ensures
            final(self).well_formed(),
            final(self).text() == Seq::<char>::empty(),
            final(self).log() == old(self).log().push("Input: "@ + old(self).text()).push(
                "Response: "@ + vstd::utf8::decode_utf8(reply@),
            ),
    {
        match utf8_text(reply) {
            Some(response) => self.record_exchange(response),
            None => {},
        }
    }

    /// The log as drawn: each entry after its position and a colon.
    pub fn message_lines(&self) -> (lines: Vec<String>)
        ensures
            lines@.len() == self.log().len(),
            forall|i: int|
                0 <= i < lines@.len() ==> #[trigger] lines@[i]@ == decimal(i as nat) + ": "@
                    + self.log()[i],
    {
        let mut lines: Vec<String> = Vec::new();
        let mut i: usize = 0;
        while i < self.messages.len()
            invariant
                i <= self.messages@.len(),
                lines@.len() == i,
                forall|j: int|
                    0 <= j < i ==> #[trigger] lines@[j]@ == decimal(j as nat) + ": "@
                        + self.messages@[j]@,
            decreases self.messages@.len() - i,
        {
            let mut line = usize_to_string(i);
            line.append(": ");
            line.append(self.messages[i].as_str());
            lines.push(line);
            i = i + 1;
        }
        lines
    }

    /// The line being typed, for drawing it.
    pub fn value(&self) -> (value: &str)
        ensures
            value@ == self.text(),
    {
        input_value(&self.input)
    }

    /// The display column of the cursor in the line.
    pub fn visual_cursor(&self) -> (column: usize)
        requires
            self.well_formed(),
        ensures
            column == visual_cursor_of(self.text(), self.text().len()),
            self.text().len() == 0 ==> column == 0,
    {
        input_visual_cursor(&self.input)
    }

    /// The columns of the line scrolled out of sight in a field `width`
    /// columns wide.
    pub fn visual_scroll(&self, width: usize) -> (scroll: usize)
        requires
            self.well_formed(),
        ensures
            scroll == visual_scroll_of(self.text(), self.text().len(), width),
            visual_cursor_of(self.text(), self.text().len()) <= width ==> scroll == 0,
    {
        input_visual_scroll(&self.input, width)
    }
}

} // verus!
