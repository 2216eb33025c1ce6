//! Helpers on names and other short texts.

use vstd::prelude::*;

verus! {

/// Whether `text` reads exactly `word`.
pub fn text_is(text: &String, word: &str) -> (same: bool)
    ensures
        same == (text@ == word@),
{
    let owned = String::from_str(word);
    *text == owned
}

/// The texts of `names`, one after the other, with a comma between neighbours.
pub open spec fn comma_joined(names: Seq<Seq<char>>) -> Seq<char>
    decreases names.len(),
{
    if names.len() == 0 {
        Seq::empty()
    } else if names.len() == 1 {
        names[0]
    } else {
        comma_joined(names.drop_last()) + seq![','] + names.last()
    }
}

/// The views of a vector of texts.
pub open spec fn text_views(names: Seq<String>) -> Seq<Seq<char>> {
    names.map_values(|name: String| name@)
}

/// Joins `names` with commas, keeping their order.
pub fn join_with_commas(names: &Vec<String>) -> (joined: String)
    ensures
        joined@ == comma_joined(text_views(names@)),
{
    let mut joined = String::new();
    let mut i: usize = 0;
    while i < names.len()
        invariant
            i <= names.len(),
            joined@ == comma_joined(text_views(names@).take(i as int)),
        decreases names.len() - i,
    {
        let ghost done = text_views(names@).take(i as int);
        let ghost next = text_views(names@).take(i + 1);
        assert(next.drop_last() =~= done);
        assert(next.last() == names@[i as int]@);
        if i > 0 {
            joined.append(",");
            proof {
                reveal_strlit(",");
                assert(","@ =~= seq![',']);
            }
        }
        joined.append(names[i].as_str());
        i += 1;
    }
    assert(text_views(names@).take(names.len() as int) =~= text_views(names@));
    joined
}

} // verus!
