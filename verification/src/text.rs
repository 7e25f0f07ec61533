use vstd::prelude::*;

verus! {

/// The characters of `parts` laid end to end, with `sep` between each pair of
/// consecutive parts and nowhere else.
pub open spec fn join_with(parts: Seq<Seq<char>>, sep: Seq<char>) -> Seq<char>
    decreases parts.len(),
{
    if parts.len() == 0 {
        Seq::empty()
    } else if parts.len() == 1 {
        parts[0]
    } else {
        parts[0] + sep + join_with(parts.drop_first(), sep)
    }
}

/// Joining one more part on the right appends a separator and that part,
/// except when nothing stood before it.
pub proof fn lemma_join_with_push(parts: Seq<Seq<char>>, sep: Seq<char>, last: Seq<char>)
    ensures
        parts.len() == 0 ==> join_with(parts.push(last), sep) == last,
        parts.len() > 0 ==> join_with(parts.push(last), sep) == join_with(parts, sep) + sep
            + last,
    decreases parts.len(),
{
    if parts.len() == 0 {
        assert(parts.push(last).len() == 1);
        assert(parts.push(last)[0] == last);
    } else if parts.len() == 1 {
        let p = parts.push(last);
        assert(p.len() == 2);
        assert(p[0] == parts[0]);
        assert(p.drop_first() =~= seq![last]);
        assert(join_with(p.drop_first(), sep) == last);
    } else {
        let p = parts.push(last);
        assert(p.drop_first() =~= parts.drop_first().push(last));
        lemma_join_with_push(parts.drop_first(), sep, last);
        assert(p[0] == parts[0]);
        assert(join_with(p, sep) == p[0] + sep + join_with(p.drop_first(), sep));
        assert(join_with(p.drop_first(), sep) == join_with(parts.drop_first(), sep) + sep
            + last);
        assert(parts[0] + sep + (join_with(parts.drop_first(), sep) + sep + last) =~= (parts[0]
            + sep + join_with(parts.drop_first(), sep)) + sep + last);
    }
}

/// Joins the given parts with the given separator between consecutive parts.
pub fn join_strings(parts: &Vec<String>, sep: &str) -> (r: String)
    ensures
        r@ == join_with(parts.deep_view(), sep@),
{
    let mut r = String::new();
    let mut i: usize = 0;
    while i < parts.len()
        invariant
            i <= parts.len(),
            r@ == join_with(parts.deep_view().take(i as int), sep@),
        decreases parts.len() - i,
    {
        proof {
            lemma_join_with_push(parts.deep_view().take(i as int), sep@, parts.deep_view()[
                i as int]);
            assert(parts.deep_view().take(i as int).push(parts.deep_view()[i as int])
                =~= parts.deep_view().take(i + 1 as int));
        }
        if i > 0 {
            r.append(sep);
        }
        r.append(parts[i].as_str());
        i = i + 1;
    }
    proof {
        assert(parts.deep_view().take(parts.len() as int) =~= parts.deep_view());
    }
    r
}

} // verus!
