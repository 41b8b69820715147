//! Sequences of (identifier, value) pairs read as finite maps.
use vstd::prelude::*;

verus! {

/// No identifier occurs twice.
pub open spec fn ids_unique<V>(s: Seq<(u32, V)>) -> bool {
    forall|i: int, j: int| 0 <= i < j < s.len() ==> #[trigger] s[i].0 != #[trigger] s[j].0
}

/// Some pair carries the identifier.
pub open spec fn has_id<V>(s: Seq<(u32, V)>, id: u32) -> bool {
    exists|i: int| 0 <= i < s.len() && #[trigger] s[i].0 == id
}

/// The value paired with the identifier, if any.
pub open spec fn lookup<V>(s: Seq<(u32, V)>, id: u32) -> Option<V> {
    if has_id(s, id) {
        Some(s[choose|i: int| 0 <= i < s.len() && #[trigger] s[i].0 == id].1)
    } else {
        None
    }
}

/// With unique identifiers, the value found for the identifier at position
/// `i` is the one at position `i`.
pub proof fn lemma_lookup_at<V>(s: Seq<(u32, V)>, i: int)
    requires
        ids_unique(s),
        0 <= i < s.len(),
    ensures
        lookup(s, s[i].0) == Some(s[i].1),
{
    let id = s[i].0;
    assert(has_id(s, id));
    let j = choose|j: int| 0 <= j < s.len() && #[trigger] s[j].0 == id;
    if j < i {
        assert(s[j].0 != s[i].0);
    } else if i < j {
        assert(s[i].0 != s[j].0);
    }
}

/// The position of the pair with the given identifier, if any.
pub fn find<T>(entries: &Vec<(u32, T)>, id: u32) -> (r: Option<usize>)
    ensures
        match r {
            Some(i) => i < entries@.len() && entries@[i as int].0 == id,
            None => forall|k: int| 0 <= k < entries@.len() ==> #[trigger] entries@[k].0 != id,
        },
{
    let mut i: usize = 0;
    while i < entries.len()
        invariant
            i <= entries@.len(),
            forall|k: int| 0 <= k < i ==> #[trigger] entries@[k].0 != id,
        decreases entries@.len() - i,
    {
        if entries[i].0 == id {
            return Some(i);
        }
        i += 1;
    }
    None
}

} // verus!
