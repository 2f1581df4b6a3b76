//! Accepted symbols that share a name.
//!
//! An address map with two lines for one name assigns that name twice. The
//! map is rendered all the same; this module finds the repetition, so that
//! whoever renders the map can say so.

use vstd::prelude::*;

use crate::symbol::{AcceptedSymbol, AcceptedView};

verus! {

/// Two places in a sequence of symbols that hold the same name.
#[derive(Clone, Copy, Debug, PartialEq, Eq, Structural)]
pub struct Collision {
    /// Where the name stands first.
    pub first: usize,
    /// Where it stands again.
    pub second: usize,
}

/// No name occurs twice.
pub open spec fn names_distinct(symbols: Seq<AcceptedView>) -> bool {
    forall|i: int, j: int|
        0 <= i < j < symbols.len() ==> (#[trigger] symbols[i]).name != (#[trigger] symbols[j]).name
}

/// `c` is the earliest collision of `symbols`: no name occurs twice before
/// `c.second`, and `c.first` is where the name at `c.second` stands first.
pub open spec fn is_earliest_collision(symbols: Seq<AcceptedView>, c: Collision) -> bool {
    &&& c.first < c.second < symbols.len()
    &&& symbols[c.first as int].name == symbols[c.second as int].name
    &&& names_distinct(symbols.take(c.second as int))
}

/// Finds the earliest repetition of a name in `accepted`, if there is one.
pub fn find_collision(accepted: &[AcceptedSymbol]) -> (found: Option<Collision>)
    ensures
        match found {
            Some(c) => is_earliest_collision(accepted.deep_view(), c),
            None => names_distinct(accepted.deep_view()),
        },
{
    let ghost symbols = accepted.deep_view();
    let mut j: usize = 0;
    while j < accepted.len()
        invariant
            j <= accepted.len(),
            symbols == accepted.deep_view(),
            names_distinct(symbols.take(j as int)),
        decreases accepted.len() - j,
    {
        let mut i: usize = 0;
        while i < j
            invariant
                i <= j < accepted.len(),
                symbols == accepted.deep_view(),
                names_distinct(symbols.take(j as int)),
                forall|k: int| 0 <= k < i ==> (#[trigger] symbols[k]).name != symbols[j as int].name,
            decreases j - i,
        {
            assert(symbols[i as int] == accepted[i as int]@);
            assert(symbols[j as int] == accepted[j as int]@);
            if accepted[i].name == accepted[j].name {
                return Some(Collision { first: i, second: j });
            }
            i += 1;
        }
        proof {
            let longer = symbols.take(j + 1);
            assert forall|a: int, b: int| 0 <= a < b < longer.len() implies (#[trigger] longer[a]).name
                != (#[trigger] longer[b]).name by {
                if b < j {
                    assert(symbols.take(j as int)[a] == longer[a]);
                    assert(symbols.take(j as int)[b] == longer[b]);
                }
            }
        }
        j += 1;
    }
    assert(symbols.take(j as int) =~= symbols);
    None
}

} // verus!
