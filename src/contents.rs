//! The frame buffer: text gathered for one write to the terminal.
use vstd::prelude::*;

verus! {

/// Relies on `String::push`: it appends the character at the end.
pub assume_specification[ String::push ](s: &mut String, ch: char)
    ensures
        final(s)@ == old(s)@.push(ch),
;

/// Text queued for the terminal, handed out whole by `flush`.
pub struct EditorContents {
    pub content: String,
}

impl View for EditorContents {
    type V = Seq<char>;

    open spec fn view(&self) -> Seq<char> {
        self.content@
    }
}

impl EditorContents {
    pub fn new() -> (r: EditorContents)
        ensures
            r@ == Seq::<char>::empty(),
    {
        EditorContents { content: String::new() }
    }

    pub fn push(&mut self, ch: char)
        ensures
            final(self)@ == old(self)@.push(ch),
    {
        self.content.push(ch)
    }

    pub fn push_str(&mut self, string: &str)
        ensures
            final(self)@ == old(self)@ + string@,
    {
        self.content.append(string)
    }

    /// Hands out everything queued so far and leaves the buffer empty.
    pub fn flush(&mut self) -> (r: String)
        ensures
            r@ == old(self)@,
            final(self)@ == Seq::<char>::empty(),
    {
        let mut out = String::new();
        core::mem::swap(&mut out, &mut self.content);
        out
    }
}

} // verus!
