use vstd::prelude::*;

verus! {

/// The views of a sequence of strings.
pub open spec fn seq_views(items: Seq<String>) -> Seq<Seq<char>> {
    items.map_values(|s: String| s@)
}

/// Strings joined by single spaces; empty input gives the empty string.
pub open spec fn spec_join_spaces(items: Seq<Seq<char>>) -> Seq<char>
    decreases items.len(),
{
    if items.len() == 0 {
        Seq::empty()
    } else if items.len() == 1 {
        items[0]
    } else {
        spec_join_spaces(items.drop_last()) + seq![' '] + items.last()
    }
}

/// Each string with `prefix` put in front of it.
pub open spec fn spec_prepend_each(items: Seq<Seq<char>>, prefix: Seq<char>) -> Seq<Seq<char>> {
    items.map_values(|s: Seq<char>| prefix + s)
}

/// Prefixed strings joined by spaces: how a list of bare flag names
/// becomes one command-line fragment.
pub open spec fn spec_flag_string(items: Seq<Seq<char>>, prefix: Seq<char>) -> Seq<char> {
    spec_join_spaces(spec_prepend_each(items, prefix))
}

/// Joins strings with single spaces between them.
pub fn join_spaces(items: &Vec<String>) -> (r: String)
    ensures
        r@ == spec_join_spaces(seq_views(items@)),
{
    let views = Ghost(seq_views(items@));
    let mut r = String::new();
    let mut i: usize = 0;
    proof {
        assert(views@.take(0) =~= Seq::<Seq<char>>::empty());
    }
    while i < items.len()
        invariant
            i <= items@.len(),
            views@ == seq_views(items@),
            r@ == spec_join_spaces(views@.take(i as int)),
        decreases items@.len() - i,
    {
        if i > 0 {
            r.append(" ");
            proof {
                reveal_strlit(" ");
                assert(" "@ =~= seq![' ']);
            }
        }
        r.append(items[i].as_str());
        proof {
            assert(views@.take(i + 1).drop_last() =~= views@.take(i as int));
            assert(views@.take(i + 1).last() == items@[i as int]@);
        }
        i = i + 1;
    }
    proof {
        assert(views@.take(items@.len() as int) =~= views@);
    }
    r
}

/// Puts `prefix` in front of every string of `items`.
pub fn prepend_each(items: &Vec<String>, prefix: &str) -> (r: Vec<String>)
    ensures
        seq_views(r@) == spec_prepend_each(seq_views(items@), prefix@),
{
    let mut r: Vec<String> = Vec::new();
    let mut i: usize = 0;
    while i < items.len()
        invariant
            i <= items@.len(),
            r@.len() == i,
            forall|k: int| 0 <= k < i ==> r@[k]@ == prefix@ + items@[k]@,
        decreases items@.len() - i,
    {
        let mut s = String::from_str(prefix);
        s.append(items[i].as_str());
        r.push(s);
        i = i + 1;
    }
    proof {
        assert(seq_views(r@) =~= spec_prepend_each(seq_views(items@), prefix@));
    }
    r
}

/// Builds the command-line fragment for a flag list: every entry gets
/// `prefix`, and the results are joined by spaces.
pub fn flag_string(items: &Vec<String>, prefix: &str) -> (r: String)
    ensures
        r@ == spec_flag_string(seq_views(items@), prefix@),
{
    let prefixed = prepend_each(items, prefix);
    join_spaces(&prefixed)
}

} // verus!
