//! Batch actions over a library's tracks.
use vstd::prelude::*;

verus! {

/// The titles present in a sequence of optional titles, in order.
pub open spec fn spec_titles(ns: Seq<Option<Seq<char>>>) -> Seq<Seq<char>>
    decreases ns.len(),
{
    if ns.len() == 0 {
        seq![]
    } else {
        match ns.last() {
            Some(t) => spec_titles(ns.drop_last()).push(t),
            None => spec_titles(ns.drop_last()),
        }
    }
}

/// The action that collects every track title of a library.
pub struct TrackTitles {}

impl TrackTitles {
    /// Keep the titles that are present, in order.
    #[verifier::loop_isolation(false)]
    pub fn run(names: Vec<Option<String>>) -> (r: Vec<String>)
        ensures
            r.deep_view() == spec_titles(names.deep_view()),
    {
        let ghost ns = names.deep_view();
        let mut r: Vec<String> = Vec::new();
        let mut i: usize = 0;
        while i < names.len()
            invariant
                0 <= i <= names@.len(),
                ns == names.deep_view(),
                ns.len() == names@.len(),
                r.deep_view() == spec_titles(ns.take(i as int)),
            decreases names@.len() - i,
        {
            let ghost pre = r.deep_view();
            match &names[i] {
                Some(t) => {
                    r.push(t.clone());
                    proof {
                        assert(ns[i as int] == Some(t@));
                        assert(r.deep_view() =~= pre.push(t@));
                    }
                },
                None => {
                    proof {
                        assert(ns[i as int] is None);
                    }
                },
            }
            proof {
                assert(ns.take(i + 1).drop_last() =~= ns.take(i as int));
                assert(ns.take(i + 1).last() == ns[i as int]);
            }
            i += 1;
        }
        proof {
            assert(ns.take(ns.len() as int) =~= ns);
        }
        r
    }
}

} // verus!
