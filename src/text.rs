//! Character-sequence models of rendered text and the helpers that append it.
use vstd::prelude::*;

verus! {

/// The character sequences of a list of strings.
pub open spec fn texts(items: Seq<String>) -> Seq<Seq<char>> {
    items.map_values(|s: String| s@)
}

/// `parts` separated by single commas, with no leading or trailing comma.
pub open spec fn comma_join(parts: Seq<Seq<char>>) -> Seq<char>
    decreases parts.len(),
{
    if parts.len() == 0 {
        Seq::empty()
    } else if parts.len() == 1 {
        parts[0]
    } else {
        comma_join(parts.drop_last()) + seq![','] + parts.last()
    }
}

/// Taking one more element of a string list adds its text at the end.
pub proof fn lemma_texts_take_succ(items: Seq<String>, i: int)
    requires
        0 <= i < items.len(),
    ensures
        texts(items.take(i + 1)) == texts(items.take(i)).push(items[i]@),
{
    assert(texts(items.take(i + 1)) =~= texts(items.take(i)).push(items[i]@));
}

/// Appends the items of `items`, separated by single commas, to `out`.
pub fn push_comma_joined(out: &mut String, items: &Vec<String>)
    ensures
        final(out)@ == old(out)@ + comma_join(texts(items@)),
{
    let ghost start = out@;
    let mut i: usize = 0;
    while i < items.len()
        invariant
            i <= items.len(),
            out@ == start + comma_join(texts(items@.take(i as int))),
        decreases items.len() - i,
    {
        proof {
            lemma_texts_take_succ(items@, i as int);
            reveal_strlit(",");
        }
        if i > 0 {
            out.append(",");
        }
        out.append(items[i].as_str());
        proof {
            let done = texts(items@.take(i as int));
            let next = texts(items@.take(i + 1));
            assert(next.drop_last() == done);
            assert(out@ =~= start + comma_join(next));
        }
        i += 1;
    }
    assert(items@.take(items.len() as int) =~= items@);
}

} // verus!
