//! Source text assembled from pieces.
use vstd::prelude::*;
use vstd::string::*;

verus! {

/// The text of each string.
pub open spec fn views(items: Seq<String>) -> Seq<Seq<char>> {
    items.map_values(|s: String| s@)
}

/// The text obtained by writing the pieces one after another.
pub open spec fn concat(pieces: Seq<Seq<char>>) -> Seq<char>
    decreases pieces.len(),
{
    if pieces.len() == 0 {
        Seq::empty()
    } else {
        concat(pieces.drop_last()) + pieces.last()
    }
}

/// The pieces written one after another, with `sep` between two neighbours.
pub open spec fn join(pieces: Seq<Seq<char>>, sep: Seq<char>) -> Seq<char>
    decreases pieces.len(),
{
    if pieces.len() == 0 {
        Seq::empty()
    } else if pieces.len() == 1 {
        pieces[0]
    } else {
        join(pieces.drop_last(), sep) + sep + pieces.last()
    }
}

/// Writing one more piece extends the text by that piece.
pub proof fn lemma_concat_push(pieces: Seq<Seq<char>>, piece: Seq<char>)
    ensures
        concat(pieces.push(piece)) == concat(pieces) + piece,
{
    assert(pieces.push(piece).drop_last() =~= pieces);
}

/// Writes the pieces one after another, with `sep` between two neighbours.
pub fn join_strings(pieces: &Vec<String>, sep: &str) -> (res: String)
    ensures
        res@ == join(views(pieces@), sep@),
{
    let ghost all = views(pieces@);
    let mut res = String::new();
    let mut i: usize = 0;
    while i < pieces.len()
        invariant
            i <= pieces@.len(),
            all == views(pieces@),
            res@ == join(all.take(i as int), sep@),
        decreases pieces@.len() - i,
    {
        if i > 0 {
            res.append(sep);
        }
        res.append(pieces[i].as_str());
        assert(all.take(i + 1).drop_last() =~= all.take(i as int));
        if i == 0 {
            assert(res@ =~= all.take(1)[0]);
        }
        i = i + 1;
    }
    assert(all.take(pieces@.len() as int) =~= all);
    res
}

/// `needle` stands somewhere in `text`.
pub open spec fn occurs_in(needle: Seq<char>, text: Seq<char>) -> bool {
    exists|k: int|
        0 <= k && k + needle.len() <= text.len() && #[trigger] text.subrange(k, k + needle.len())
            == needle
}

/// A text stands in itself.
pub proof fn lemma_occurs_self(text: Seq<char>)
    ensures
        occurs_in(text, text),
{
    let k: int = 0;
    assert(text.subrange(k, k + text.len()) =~= text);
}

/// What stands in a text stands in any text that starts with it.
pub broadcast proof fn lemma_occurs_left(needle: Seq<char>, a: Seq<char>, b: Seq<char>)
    requires
        occurs_in(needle, a),
    ensures
        #[trigger] occurs_in(needle, a + b),
{
    let k = choose|k: int|
        0 <= k && k + needle.len() <= a.len() && #[trigger] a.subrange(k, k + needle.len())
            == needle;
    assert((a + b).subrange(k, k + needle.len()) =~= a.subrange(k, k + needle.len()));
}

/// What stands in a text stands in any text that ends with it.
pub broadcast proof fn lemma_occurs_right(needle: Seq<char>, a: Seq<char>, b: Seq<char>)
    requires
        occurs_in(needle, b),
    ensures
        #[trigger] occurs_in(needle, a + b),
{
    let k = choose|k: int|
        0 <= k && k + needle.len() <= b.len() && #[trigger] b.subrange(k, k + needle.len())
            == needle;
    assert((a + b).subrange(a.len() + k, a.len() + k + needle.len()) =~= b.subrange(
        k,
        k + needle.len(),
    ));
}

/// Each piece stands in the pieces written one after another.
pub proof fn lemma_occurs_concat(pieces: Seq<Seq<char>>, i: int)
    requires
        0 <= i < pieces.len(),
    ensures
        occurs_in(pieces[i], concat(pieces)),
    decreases pieces.len(),
{
    if i == pieces.len() - 1 {
        lemma_occurs_self(pieces[i]);
        lemma_occurs_right(pieces[i], concat(pieces.drop_last()), pieces.last());
    } else {
        lemma_occurs_concat(pieces.drop_last(), i);
        assert(pieces.drop_last()[i] == pieces[i]);
        lemma_occurs_left(pieces[i], concat(pieces.drop_last()), pieces.last());
    }
}

/// What stands in a part of a text stands in the text.
pub proof fn lemma_occurs_within(needle: Seq<char>, part: Seq<char>, text: Seq<char>)
    requires
        occurs_in(needle, part),
        occurs_in(part, text),
    ensures
        occurs_in(needle, text),
{
    let k = choose|k: int|
        0 <= k && k + needle.len() <= part.len() && #[trigger] part.subrange(k, k + needle.len())
            == needle;
    let j = choose|j: int|
        0 <= j && j + part.len() <= text.len() && #[trigger] text.subrange(j, j + part.len())
            == part;
    assert(text.subrange(j + k, j + k + needle.len()) =~= part.subrange(k, k + needle.len()));
}

} // verus!
