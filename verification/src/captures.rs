//! Named substrings extracted by a pattern matcher, scoped to one dispatch
//! call.

use vstd::prelude::*;

verus! {

/// The mapping described by an association list of (name, value) pairs,
/// where a later pair overrides an earlier one with the same name.
pub open spec fn pairs_map(pairs: Seq<(String, String)>) -> Map<Seq<char>, Seq<char>>
    decreases pairs.len(),
{
    if pairs.len() == 0 {
        Map::empty()
    } else {
        pairs_map(pairs.drop_last()).insert(pairs.last().0@, pairs.last().1@)
    }
}

/// Results of a pattern matcher that collects named captures: a mapping from
/// group names to the substrings they matched.
pub struct Captures {
    pub(crate) pairs: Vec<(String, String)>,
}

impl View for Captures {
    type V = Map<Seq<char>, Seq<char>>;

    closed spec fn view(&self) -> Map<Seq<char>, Seq<char>> {
        pairs_map(self.pairs@)
    }
}

/// The view of an optional capture set.
pub open spec fn caps_view(caps: Option<Captures>) -> Option<Map<Seq<char>, Seq<char>>> {
    match caps {
        Some(c) => Some(c@),
        None => None,
    }
}

impl Captures {
    /// The substring captured by the group called `name`, if that group
    /// participated in the match.
    pub fn name(&self, name: &String) -> (r: Option<String>)
        ensures
            match r {
                Some(v) => self@.contains_key(name@) && self@[name@] == v@,
                None => !self@.contains_key(name@),
            },
    {
        let mut i: usize = self.pairs.len();
        proof {
            assert(self.pairs@.take(i as int) =~= self.pairs@);
        }
        while i > 0
            invariant
                i <= self.pairs.len(),
                self@.contains_key(name@) == pairs_map(self.pairs@.take(i as int)).contains_key(
                    name@,
                ),
                self@.contains_key(name@) ==> self@[name@] == pairs_map(
                    self.pairs@.take(i as int),
                )[name@],
            decreases i,
        {
            proof {
                assert(self.pairs@.take(i as int).last() == self.pairs@[i - 1]);
                assert(self.pairs@.take(i as int).drop_last() =~= self.pairs@.take(i - 1));
            }
            let pair = &self.pairs[i - 1];
            if pair.0 == *name {
                return Some(pair.1.clone());
            }
            i -= 1;
        }
        proof {
            assert(self.pairs@.take(0int) =~= Seq::<(String, String)>::empty());
        }
        None
    }
}

} // verus!
