//! The sink that rendered text is appended to.

use vstd::prelude::*;
use vstd::string::StringExecFns;

verus! {

/// An append-only sink for SQL text: it accepts text and accumulates it in
/// order. The renderer never reads back from it.
pub trait SqlWriter {
    /// Everything the sink has accepted so far, in order.
    spec fn text(&self) -> Seq<char>;

    /// Appends `s` to the sink.
    fn write_str(&mut self, s: &str)
        ensures
            final(self).text() == old(self).text() + s@,
    ;

    /// Appends the single character `c` to the sink.
    fn write_char(&mut self, c: char)
        ensures
            final(self).text() == old(self).text().push(c),
    ;
}

/// Calls `String::push`.
///
/// Taken on trust from the documentation of the standard library: the string
/// afterwards is the string before with `c` appended at its end.
#[verifier::external_body]
fn string_push(s: &mut String, c: char)
    ensures
        final(s)@ == old(s)@.push(c),
{
    s.push(c)
}

impl SqlWriter for String {
    open spec fn text(&self) -> Seq<char> {
        self@
    }

    fn write_str(&mut self, s: &str) {
        self.append(s);
    }

    fn write_char(&mut self, c: char) {
        string_push(self, c);
    }
}

} // verus!
