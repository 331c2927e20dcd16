use vstd::prelude::*;

verus! {

/// The line terminator the sink appends after every line written to it.
pub open spec fn newline() -> Seq<char> {
    "\n"@
}

/// An append-only, line-oriented text sink.
///
/// It stands for the process's output stream, but is an explicit value so
/// that callers and tests can capture exactly what was emitted. Its view is
/// the full text accumulated so far, as a sequence of characters.
pub struct Sink {
    text: String,
}

impl View for Sink {
    type V = Seq<char>;

    closed spec fn view(&self) -> Seq<char> {
        self.text@
    }
}

impl Sink {
    /// A fresh sink holding no text.
    pub fn new() -> (s: Sink)
        ensures
            s@ == Seq::<char>::empty(),
    {
        Sink { text: String::new() }
    }

    /// Appends `line` followed by a newline, and nothing else.
    pub fn write_line(&mut self, line: &str)
        ensures
            final(self)@ == old(self)@ + line@ + newline(),
    {
        self.text.append(line);
        self.text.append("\n");
    }

    /// Hands the accumulated text out, consuming the sink.
    pub fn into_text(self) -> (r: String)
        ensures
            r@ == self@,
    {
        self.text
    }
}

} // verus!
