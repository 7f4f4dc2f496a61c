//! Joining strings with a separator.
use vstd::prelude::*;

verus! {

/// The items one after the other, with `sep` between each two neighbours.
pub open spec fn joined(items: Seq<Seq<char>>, sep: Seq<char>) -> Seq<char>
    decreases items.len(),
{
    if items.len() == 0 {
        Seq::empty()
    } else if items.len() == 1 {
        items[0]
    } else {
        joined(items.drop_last(), sep) + sep + items.last()
    }
}

/// The views of a sequence of strings.
pub open spec fn strings_view(v: Seq<String>) -> Seq<Seq<char>> {
    v.map_values(|s: String| s@)
}

/// Joins the strings with `sep` between each two neighbours.
pub fn join_with(items: &Vec<String>, sep: &str) -> (r: String)
    ensures
        r@ == joined(strings_view(items@), sep@),
{
    let ghost all = strings_view(items@);
    let mut r = String::new();
    let n = items.len();
    let mut i: usize = 0;
    while i < n
        invariant
            n == items@.len(),
            all == strings_view(items@),
            i <= n,
            r@ == joined(all.take(i as int), sep@),
        decreases n - i,
    {
        proof {
            let next = all.take(i + 1);
            assert(next.drop_last() =~= all.take(i as int));
            assert(next.last() == items@[i as int]@);
        }
        if i > 0 {
            r.append(sep);
        } else {
            assert(r@ =~= Seq::<char>::empty());
        }
        r.append(items[i].as_str());
        i += 1;
    }
    assert(all.take(n as int) =~= all);
    r
}

} // verus!
