//! Text helpers shared by the registry, the dispatcher and the console lines.

use vstd::prelude::*;

verus! {

/// The character sequences of a list of strings, in order.
pub open spec fn texts(items: Seq<String>) -> Seq<Seq<char>> {
    items.map_values(|item: String| item@)
}

/// `items` written one after another with `separator` between neighbours.
pub open spec fn joined(items: Seq<Seq<char>>, separator: Seq<char>) -> Seq<char>
    decreases items.len(),
{
    if items.len() == 0 {
        Seq::empty()
    } else if items.len() == 1 {
        items[0]
    } else {
        joined(items.drop_last(), separator) + separator + items.last()
    }
}

/// `text` with every `from` turned into `to` and every other character kept.
pub open spec fn replaced(text: Seq<char>, from: char, to: char) -> Seq<char> {
    text.map_values(
        |c: char|
            if c == from {
                to
            } else {
                c
            },
    )
}

/// Joins `items` with `separator` between neighbours.
pub fn join(items: &Vec<String>, separator: &str) -> (out: String)
    ensures
        out@ == joined(texts(items@), separator@),
{
    let mut out = String::new();
    let mut i: usize = 0;
    while i < items.len()
        invariant
            i <= items.len(),
            out@ == joined(texts(items@).take(i as int), separator@),
        decreases items.len() - i,
    {
        if i > 0 {
            out.append(separator);
        }
        out.append(items[i].as_str());
        proof {
            let all = texts(items@);
            assert(all.take(i + 1).drop_last() == all.take(i as int));
            assert(all.take(i + 1).last() == items@[i as int]@);
        }
        i = i + 1;
    }
    proof {
        assert(texts(items@).take(items.len() as int) == texts(items@));
    }
    out
}

/// `String::push` of the standard library: the string grows by exactly the
/// given character, at its end.
#[verifier::external_body]
fn push_char(text: &mut String, c: char)
    ensures
        final(text)@ == old(text)@.push(c),
{
    text.push(c)
}

/// Copies `text`, writing `to` wherever `text` holds `from`.
pub fn replace_char(text: &str, from: char, to: char) -> (out: String)
    ensures
        out@ == replaced(text@, from, to),
{
    let mut out = String::new();
    let chars = text.chars();
    for c in it: chars
        invariant
            it.seq() == text@,
            out@ == replaced(text@.take(it.index()), from, to),
    {
        proof {
            let next = it.index() + 1;
            assert(text@.take(next) == text@.take(it.index()).push(c));
            assert(replaced(text@.take(next), from, to) == replaced(
                text@.take(it.index()),
                from,
                to,
            ).push(
                if c == from {
                    to
                } else {
                    c
                },
            ));
        }
        if c == from {
            push_char(&mut out, to);
        } else {
            push_char(&mut out, c);
        }
    }
    proof {
        assert(text@.take(text@.len() as int) == text@);
    }
    out
}

} // verus!
