//! Lists of clauses with a separator between them.

use vstd::prelude::*;
use crate::writer::SqlWriter;

verus! {

/// `parts` in their order, with `separator` between neighbours.
pub open spec fn joined(parts: Seq<Seq<char>>, separator: Seq<char>) -> Seq<char>
    decreases parts.len(),
{
    if parts.len() == 0 {
        Seq::empty()
    } else if parts.len() == 1 {
        parts[0]
    } else {
        joined(parts.drop_last(), separator) + separator + parts.last()
    }
}

/// Joining one more part puts the separator before it, unless it is the first.
pub proof fn lemma_joined_push(parts: Seq<Seq<char>>, part: Seq<char>, separator: Seq<char>)
    ensures
        joined(parts.push(part), separator) == if parts.len() == 0 {
            part
        } else {
            joined(parts, separator) + separator + part
        },
{
    assert(parts.push(part).drop_last() == parts);
}

/// A comma-separated list while it is written: has a clause been written yet?
pub struct CommaList {
    started: bool,
}

impl CommaList {
    /// Whether a clause has been opened.
    pub closed spec fn started(&self) -> bool {
        self.started
    }

    /// What opening the next clause writes: the separator, unless the clause
    /// is the first.
    pub open spec fn separator(&self) -> Seq<char> {
        if self.started() {
            ", "@
        } else {
            Seq::empty()
        }
    }

    /// A list in which no clause has been written.
    pub fn new() -> (list: CommaList)
        ensures
            !list.started(),
    {
        CommaList { started: false }
    }

    /// Opens the next clause: writes `, ` unless the clause is the first.
    pub fn next_clause<W: SqlWriter>(&mut self, sql: &mut W)
        ensures
            final(self).started(),
            final(sql).text() == old(sql).text() + old(self).separator(),
    {
        if self.started {
            sql.write_str(", ");
        }
        self.started = true;
    }
}

} // verus!
