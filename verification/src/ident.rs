//! Quoted identifiers.

use vstd::prelude::*;
use crate::writer::SqlWriter;

verus! {

broadcast use vstd::string::group_string_axioms;

/// `name` with every occurrence of the quote character `q` written twice.
pub open spec fn escaped(name: Seq<char>, q: char) -> Seq<char>
    decreases name.len(),
{
    if name.len() == 0 {
        Seq::empty()
    } else if name.last() == q {
        escaped(name.drop_last(), q).push(q).push(q)
    } else {
        escaped(name.drop_last(), q).push(name.last())
    }
}

/// How often `q` occurs in `text`.
pub open spec fn quote_count(text: Seq<char>, q: char) -> nat
    decreases text.len(),
{
    if text.len() == 0 {
        0
    } else if text.last() == q {
        quote_count(text.drop_last(), q) + 1
    } else {
        quote_count(text.drop_last(), q)
    }
}

/// `name` as a quoted identifier: enclosed in `q`, with inner quotes doubled.
pub open spec fn quoted(name: Seq<char>, q: char) -> Seq<char> {
    seq![q] + escaped(name, q) + seq![q]
}

/// Writes `name` as an identifier quoted with `q`.
pub fn write_quoted<W: SqlWriter>(sql: &mut W, name: &str, q: char)
    ensures
        final(sql).text() == old(sql).text() + quoted(name@, q),
{
    sql.write_char(q);
    let ghost start = sql.text();
    for c in it: name.chars()
        invariant
            it.seq() == name@,
            sql.text() == start + escaped(name@.take(it.index()), q),
    {
        proof {
            assert(name@.take(it.index() + 1).drop_last() == name@.take(it.index()));
        }
        if c == q {
            sql.write_char(q);
        }
        sql.write_char(c);
    }
    proof {
        assert(name@.take(name@.len() as int) == name@);
    }
    sql.write_char(q);
}

/// A name that holds no quote character is enclosed as it is.
pub proof fn lemma_escaped_plain(name: Seq<char>, q: char)
    requires
        !name.contains(q),
    ensures
        escaped(name, q) == name,
    decreases name.len(),
{
    if name.len() > 0 {
        assert(name.last() == name[name.len() - 1]);
        assert forall|i: int| 0 <= i < name.drop_last().len() implies name.drop_last()[i] != q by {
            assert(name.drop_last()[i] == name[i]);
        }
        lemma_escaped_plain(name.drop_last(), q);
        assert(name.drop_last().push(name.last()) == name);
    }
}

/// Escaping doubles the quote characters and keeps the others: the escaped
/// name holds twice the quote characters of the name, and is longer by
/// their number.
pub proof fn lemma_escaped_doubles_quotes(name: Seq<char>, q: char)
    ensures
        escaped(name, q).len() == name.len() + quote_count(name, q),
        quote_count(escaped(name, q), q) == 2 * quote_count(name, q),
    decreases name.len(),
{
    if name.len() > 0 {
        lemma_escaped_doubles_quotes(name.drop_last(), q);
        let head = escaped(name.drop_last(), q);
        if name.last() == q {
            assert(head.push(q).drop_last() == head);
            assert(quote_count(head.push(q), q) == quote_count(head, q) + 1);
            assert(head.push(q).push(q).drop_last() == head.push(q));
            assert(quote_count(head.push(q).push(q), q) == quote_count(head.push(q), q) + 1);
        } else {
            assert(head.push(name.last()).drop_last() == head);
            assert(quote_count(head.push(name.last()), q) == quote_count(head, q));
        }
    }
}

} // verus!
