use vstd::prelude::*;

verus! {

/// The prompt shown before a question: the question, then `>> `.
pub fn prompt(content: &str) -> (r: String)
    ensures
        r@ == content@ + ">> "@,
{
    content.to_owned().concat(">> ")
}

/// Text entered over several lines: each non-blank line is appended, and a
/// blank line or a failed read ends the entry.
pub struct LineInput {
    text: String,
    finished: bool,
}

impl View for LineInput {
    type V = (Seq<char>, bool);

    closed spec fn view(&self) -> (Seq<char>, bool) {
        (self.text@, self.finished)
    }
}

impl LineInput {
    /// An entry with no text that waits for its first line.
    pub fn new() -> (r: LineInput)
        ensures
            r@ == (Seq::<char>::empty(), false),
    {
        LineInput { text: String::new(), finished: false }
    }

    /// Take the result of one read: the line, or `None` where the read failed.
    pub fn feed(&mut self, line: Option<&str>)
        ensures
            old(self)@.1 ==> final(self)@ == old(self)@,
            !old(self)@.1 ==> match line {
                Some(l) => if l@.len() == 0 {
                    final(self)@ == (old(self)@.0, true)
                } else {
                    final(self)@ == (old(self)@.0 + l@, false)
                },
                None => final(self)@ == (old(self)@.0, true),
            },
    {
        if self.finished {
            return;
        }
        match line {
            Some(l) => {
                if l.is_empty() {
                    self.finished = true;
                } else {
                    self.text.append(l);
                }
            },
            None => {
                self.finished = true;
            },
        }
    }

    /// Whether the entry has ended.
    pub fn is_finished(&self) -> (r: bool)
        ensures
            r == self@.1,
    {
        self.finished
    }

    /// The text entered.
    pub fn into_text(self) -> (r: String)
        ensures
            r@ == self@.0,
    {
        self.text
    }
}

} // verus!
