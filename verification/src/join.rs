//! Joining key texts with a separator.

use vstd::prelude::*;
use vstd::string::*;

verus! {

/// The contents of a sequence of strings, item by item.
pub open spec fn texts(items: Seq<String>) -> Seq<Seq<char>> {
    items.map_values(|s: String| s@)
}

/// `items` with `separator` placed between each two neighbours: the items
/// stand at the even positions, in order, and the separator at the odd ones.
pub open spec fn interspersed(items: Seq<Seq<char>>, separator: Seq<char>) -> Seq<Seq<char>> {
    if items.len() == 0 {
        Seq::empty()
    } else {
        Seq::new(
            (2 * items.len() - 1) as nat,
            |i: int| if i % 2 == 0 { items[i / 2] } else { separator },
        )
    }
}

/// All parts written one after the other.
pub open spec fn concatenated(parts: Seq<Seq<char>>) -> Seq<char>
    decreases parts.len(),
{
    if parts.len() == 0 {
        Seq::empty()
    } else {
        concatenated(parts.drop_last()) + parts.last()
    }
}

/// The items in order, with one separator between each two neighbours and
/// none before the first or after the last.
pub open spec fn joined(items: Seq<Seq<char>>, separator: Seq<char>) -> Seq<char>
    decreases items.len(),
{
    if items.len() == 0 {
        Seq::empty()
    } else if items.len() == 1 {
        items[0]
    } else {
        joined(items.drop_last(), separator) + separator + items.last()
    }
}

/// Writing out the interspersed sequence gives the joined text.
pub proof fn lemma_concatenated_interspersed(items: Seq<Seq<char>>, separator: Seq<char>)
    ensures
        concatenated(interspersed(items, separator)) == joined(items, separator),
    decreases items.len(),
{
    let parts = interspersed(items, separator);
    if items.len() == 1 {
        assert(concatenated(parts.drop_last()) =~= Seq::<char>::empty());
    } else if items.len() > 1 {
        let shorter = items.drop_last();
        let before = interspersed(shorter, separator);
        lemma_concatenated_interspersed(shorter, separator);
        assert(parts.drop_last().drop_last() =~= before);
        assert(concatenated(parts.drop_last()) == concatenated(before) + separator);
    }
}

/// Calls `itertools::intersperse` on the items and collects what it yields.
/// The contract restates the adaptor's documentation: every item comes out
/// in order, and a copy of the separator comes out between each two of them.
#[verifier::external_body]
fn intersperse(items: Vec<String>, separator: String) -> (parts: Vec<String>)
    ensures
        texts(parts@) == interspersed(texts(items@), separator@),
{
    itertools::intersperse(items, separator).collect()
}

/// Concatenates the parts in order.
pub fn concatenate(parts: &Vec<String>) -> (whole: String)
    ensures
        whole@ == concatenated(texts(parts@)),
{
    let mut whole = String::new();
    let mut i: usize = 0;
    while i < parts.len()
        invariant
            i <= parts.len(),
            whole@ == concatenated(texts(parts@).take(i as int)),
        decreases parts.len() - i,
    {
        whole.append(parts[i].as_str());
        proof {
            let upto = texts(parts@).take(i + 1);
            assert(upto.drop_last() =~= texts(parts@).take(i as int));
        }
        i += 1;
    }
    proof {
        assert(texts(parts@).take(parts.len() as int) =~= texts(parts@));
    }
    whole
}

/// Joins the items with the separator between them.
pub fn join(items: Vec<String>, separator: &str) -> (whole: String)
    ensures
        whole@ == joined(texts(items@), separator@),
{
    let parts = intersperse(items, separator.to_owned());
    proof {
        lemma_concatenated_interspersed(texts(items@), separator@);
    }
    concatenate(&parts)
}

} // verus!
