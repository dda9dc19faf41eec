use vstd::prelude::*;

verus! {

/// A keyboard or text event, as far as text entry cares.
#[derive(Debug, PartialEq, Eq)]
pub enum TextEvent {
    /// Text typed by the user.
    TextInput(String),
    /// The backspace key went down.
    Backspace,
    /// The return key went down.
    Return,
    /// Anything else.
    Other,
}

/// The text typed so far into the editor.
pub struct TextTool {
    input_string: String,
}

/// Relies on String::push_str: appends `s` to `buf`.
#[verifier::external_body]
fn append_str(buf: &mut String, s: &str)
    ensures
        final(buf)@ == old(buf)@ + s@,
{
    buf.push_str(s)
}

/// Relies on String::push: appends `c` to `buf`.
#[verifier::external_body]
fn append_char(buf: &mut String, c: char)
    ensures
        final(buf)@ == old(buf)@.push(c),
{
    buf.push(c)
}

/// Relies on String::pop: removes and returns the last character of `buf`,
/// or returns `None` and leaves an empty `buf` as it is.
#[verifier::external_body]
fn remove_last(buf: &mut String) -> (r: Option<char>)
    ensures
        old(buf)@.len() == 0 ==> r is None && final(buf)@ == old(buf)@,
        old(buf)@.len() > 0 ==> r == Some(old(buf)@.last()) && final(buf)@ == old(buf)@.drop_last(),
{
    buf.pop()
}

/// The text after `e`, from text `t`.
pub open spec fn edited(t: Seq<char>, e: TextEvent) -> Seq<char> {
    match e {
        TextEvent::TextInput(s) => t + s@,
        TextEvent::Backspace => if t.len() > 0 { t.drop_last() } else { t },
        TextEvent::Return => t.push('\n'),
        TextEvent::Other => t,
    }
}

/// Whether the text is shown again after `e` on text `t`: after typed
/// text, and after a backspace that removed a character.
pub open spec fn echoes(t: Seq<char>, e: TextEvent) -> bool {
    match e {
        TextEvent::TextInput(_) => true,
        TextEvent::Backspace => t.len() > 0,
        _ => false,
    }
}

impl TextTool {
    pub closed spec fn view(&self) -> Seq<char> {
        self.input_string@
    }

    /// An empty buffer.
    pub fn new() -> (r: TextTool)
        ensures
            r@ == Seq::<char>::empty(),
    {
        TextTool { input_string: String::new() }
    }

    /// The text typed so far.
    pub fn text(&self) -> (r: &str)
        ensures
            r@ == self@,
    {
        self.input_string.as_str()
    }

    /// Applies `event` to the text; returns whether the text should be
    /// shown again.
    pub fn handle_event(&mut self, event: &TextEvent) -> (echo: bool)
        ensures
            final(self)@ == edited(old(self)@, *event),
            echo == echoes(old(self)@, *event),
    {
        match event {
            TextEvent::TextInput(text) => {
                append_str(&mut self.input_string, text.as_str());
                true
            },
            TextEvent::Backspace => {
                let removed = remove_last(&mut self.input_string);
                removed.is_some()
            },
            TextEvent::Return => {
                append_char(&mut self.input_string, '\n');
                false
            },
            TextEvent::Other => false,
        }
    }

    /// Appends `text` while text input is `active`; otherwise leaves the
    /// text as it is.
    pub fn paste(&mut self, active: bool, text: String)
        ensures
            final(self)@ == if active { old(self)@ + text@ } else { old(self)@ },
    {
        if active {
            append_str(&mut self.input_string, text.as_str());
        }
    }
}

} // verus!
