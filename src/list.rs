//! Control lists and property lists: identifiers mapped to tagged values.
use vstd::prelude::*;

use crate::entry::{Control, ControlEntry, Property};
use crate::table::{find, has_id, ids_unique, lemma_lookup_at, lookup};
use crate::value::{ControlValue, ControlValueError, ValueView};

verus! {

/// Why a typed entry could not be read from a list.
#[derive(Clone, Copy, Debug, PartialEq, Eq, Structural)]
pub enum ControlError {
    /// The list holds no value under this identifier.
    NotFound(u32),
    /// The value held does not decode as the entry asked for.
    ValueError(ControlValueError),
}

/// The tagged values of stored pairs.
pub open spec fn pairs_view(s: Seq<(u32, ControlValue)>) -> Seq<(u32, ValueView)> {
    s.map_values(|e: (u32, ControlValue)| (e.0, e.1@))
}

/// The pairs after writing `v` under `id`: the pair under `id` is replaced in
/// place, or, if there is none, a new pair is appended.
pub open spec fn assign(s: Seq<(u32, ValueView)>, id: u32, v: ValueView) -> Seq<(u32, ValueView)> {
    if has_id(s, id) {
        s.map_values(|e: (u32, ValueView)| if e.0 == id { (id, v) } else { e })
    } else {
        s.push((id, v))
    }
}

/// The pairs after writing each of `pairs` in turn.
pub open spec fn assign_all(s: Seq<(u32, ValueView)>, pairs: Seq<(u32, ValueView)>) -> Seq<
    (u32, ValueView),
>
    decreases pairs.len(),
{
    if pairs.len() == 0 {
        s
    } else {
        assign_all(assign(s, pairs[0].0, pairs[0].1), pairs.drop_first())
    }
}

/// What reading the typed entry `C` from the pairs gives.
pub open spec fn get_result<C: ControlEntry>(s: Seq<(u32, ValueView)>) -> Result<C, ControlError> {
    match lookup(s, C::id_spec()) {
        None => Err(ControlError::NotFound(C::id_spec())),
        Some(v) => match C::decode(v) {
            Ok(c) => Ok(c),
            Err(e) => Err(ControlError::ValueError(e)),
        },
    }
}

proof fn lemma_view_index(s: Seq<(u32, ControlValue)>, i: int)
    requires
        0 <= i < s.len(),
    ensures
        pairs_view(s)[i] == (s[i].0, s[i].1@),
        pairs_view(s).len() == s.len(),
{
}

/// Reads the typed entry `C` from stored pairs.
fn get_entry<C: ControlEntry>(entries: &Vec<(u32, ControlValue)>) -> (r: Result<C, ControlError>)
    requires
        ids_unique(pairs_view(entries@)),
    ensures
        r == get_result::<C>(pairs_view(entries@)),
{
    let id = C::entry_id();
    let ghost s = pairs_view(entries@);
    match find(entries, id) {
        None => {
            assert(!has_id(s, id)) by {
                if has_id(s, id) {
                    let k = choose|k: int| 0 <= k < s.len() && #[trigger] s[k].0 == id;
                    lemma_view_index(entries@, k);
                }
            }
            Err(ControlError::NotFound(id))
        },
        Some(i) => {
            proof {
                lemma_view_index(entries@, i as int);
                lemma_lookup_at(s, i as int);
            }
            match C::from_value(&entries[i].1) {
                Ok(c) => Ok(c),
                Err(e) => Err(ControlError::ValueError(e)),
            }
        },
    }
}

/// Writes `v` under `id` into stored pairs.
fn assign_entry(entries: &mut Vec<(u32, ControlValue)>, id: u32, v: ControlValue)
    requires
        ids_unique(pairs_view(old(entries)@)),
    ensures
        pairs_view(final(entries)@) == assign(pairs_view(old(entries)@), id, v@),
        ids_unique(pairs_view(final(entries)@)),
{
    let ghost s = pairs_view(entries@);
    let ghost vv = v@;
    match find(entries, id) {
        None => {
            assert(!has_id(s, id)) by {
                if has_id(s, id) {
                    let k = choose|k: int| 0 <= k < s.len() && #[trigger] s[k].0 == id;
                    lemma_view_index(entries@, k);
                }
            }
            entries.push((id, v));
            assert(pairs_view(entries@) =~= s.push((id, vv)));
        },
        Some(i) => {
            proof {
                lemma_view_index(entries@, i as int);
            }
            assert(s[i as int].0 == id);
            assert(has_id(s, id));
            entries.set(i, (id, v));
            let ghost t = s.map_values(|e: (u32, ValueView)| if e.0 == id { (id, vv) } else { e });
            assert forall|k: int| 0 <= k < s.len() implies #[trigger] pairs_view(entries@)[k] == t[k] by {
                lemma_view_index(entries@, k);
                if k != i {
                    if k < i {
                        assert(s[k].0 != s[i as int].0);
                    } else {
                        assert(s[i as int].0 != s[k].0);
                    }
                }
            }
            assert(pairs_view(entries@) =~= t);
        },
    }
}

/// Writing keeps identifiers unique, and afterwards the written value is the
/// one found under its identifier.
pub proof fn lemma_assign(s: Seq<(u32, ValueView)>, id: u32, v: ValueView)
    requires
        ids_unique(s),
    ensures
        ids_unique(assign(s, id, v)),
        lookup(assign(s, id, v), id) == Some(v),
        assign(s, id, v).len() == if has_id(s, id) { s.len() } else { s.len() + 1 },
{
    let t = assign(s, id, v);
    if has_id(s, id) {
        let k = choose|k: int| 0 <= k < s.len() && #[trigger] s[k].0 == id;
        assert forall|i: int, j: int| 0 <= i < j < t.len() implies #[trigger] t[i].0
            != #[trigger] t[j].0 by {
            assert(s[i].0 != s[j].0);
        }
        assert(t[k] == (id, v));
        lemma_lookup_at(t, k);
    } else {
        assert forall|i: int, j: int| 0 <= i < j < t.len() implies #[trigger] t[i].0
            != #[trigger] t[j].0 by {
            if j == s.len() {
                assert(t[i] == s[i]);
            } else {
                assert(s[i].0 != s[j].0);
            }
        }
        assert(t[s.len() as int] == (id, v));
        lemma_lookup_at(t, s.len() as int);
    }
}

/// Writing under one identifier leaves what is found under every other
/// identifier as it was.
pub proof fn lemma_assign_other(s: Seq<(u32, ValueView)>, id: u32, v: ValueView, other: u32)
    requires
        ids_unique(s),
        other != id,
    ensures
        lookup(assign(s, id, v), other) == lookup(s, other),
{
    let t = assign(s, id, v);
    lemma_assign(s, id, v);
    if has_id(s, other) {
        let k = choose|k: int| 0 <= k < s.len() && #[trigger] s[k].0 == other;
        lemma_lookup_at(s, k);
        assert(t[k] == s[k]);
        lemma_lookup_at(t, k);
    } else {
        assert(!has_id(t, other)) by {
            if has_id(t, other) {
                let k = choose|k: int| 0 <= k < t.len() && #[trigger] t[k].0 == other;
                if k < s.len() {
                    assert(t[k] == s[k]);
                }
            }
        }
    }
}

/// Reading a typed entry right after writing it gives the written value back.
pub proof fn lemma_get_after_set<C: ControlEntry>(s: Seq<(u32, ValueView)>, c: C)
    requires
        ids_unique(s),
    ensures
        get_result::<C>(assign(s, C::id_spec(), c.encode())) == Ok::<C, ControlError>(c),
{
    lemma_assign(s, C::id_spec(), c.encode());
    c.lemma_round_trip();
}

/// Reading a typed entry that the pairs do not hold fails with `NotFound`
/// and the entry's identifier.
pub proof fn lemma_get_absent<C: ControlEntry>(s: Seq<(u32, ValueView)>)
    requires
        !has_id(s, C::id_spec()),
    ensures
        get_result::<C>(s) == Err::<C, ControlError>(ControlError::NotFound(C::id_spec())),
{
}

/// Reading a typed entry whose stored value carries another tag than the
/// entry's fails with a value error, never with a value of the entry.
pub proof fn lemma_get_wrong_kind<C: ControlEntry>(s: Seq<(u32, ValueView)>, v: ValueView)
    requires
        lookup(s, C::id_spec()) == Some(v),
        v.kind() != C::kind_spec(),
    ensures
        get_result::<C>(s) == Err::<C, ControlError>(
            ControlError::ValueError(
                ControlValueError::InvalidType { expected: C::kind_spec(), found: v.kind() },
            ),
        ),
{
    C::lemma_wrong_kind(v);
}

proof fn lemma_assign_all_fresh(s: Seq<(u32, ValueView)>, pairs: Seq<(u32, ValueView)>)
    requires
        ids_unique(s + pairs),
    ensures
        assign_all(s, pairs) == s + pairs,
    decreases pairs.len(),
{
    if pairs.len() == 0 {
        assert(s + pairs =~= s);
    } else {
        let p = pairs[0];
        let u = s + pairs;
        assert(!has_id(s, p.0)) by {
            if has_id(s, p.0) {
                let k = choose|k: int| 0 <= k < s.len() && #[trigger] s[k].0 == p.0;
                assert(u[k].0 != u[s.len() as int].0);
            }
        }
        let s2 = s.push(p);
        let rest = pairs.drop_first();
        assert(s2 + rest =~= u);
        lemma_assign_all_fresh(s2, rest);
    }
}

/// Writing pairs with distinct identifiers one by one into an empty list
/// leaves exactly those pairs, in the order written; walking the list hands
/// them out in that order, each time it is walked.
pub proof fn lemma_insert_distinct(pairs: Seq<(u32, ValueView)>)
    requires
        ids_unique(pairs),
    ensures
        assign_all(Seq::empty(), pairs) == pairs,
{
    let e = Seq::<(u32, ValueView)>::empty();
    assert(e + pairs =~= pairs);
    lemma_assign_all_fresh(e, pairs);
}

/// A mutable list of control values, keyed by control identifier.
pub struct ControlList {
    entries: Vec<(u32, ControlValue)>,
}

impl View for ControlList {
    type V = Seq<(u32, ValueView)>;

    /// The stored pairs, in iteration order.
    closed spec fn view(&self) -> Seq<(u32, ValueView)> {
        pairs_view(self.entries@)
    }
}

impl ControlList {
    /// Every identifier occurs at most once.
    pub open spec fn wf(&self) -> bool {
        ids_unique(self@)
    }

    /// An empty list.
    pub fn new() -> (r: Self)
        ensures
            r.wf(),
            r@ == Seq::<(u32, ValueView)>::empty(),
    {
        let r = ControlList { entries: Vec::new() };
        assert(r@ =~= Seq::<(u32, ValueView)>::empty());
        r
    }

    /// Reads the control `C`: its value if the list holds one under its
    /// identifier and that value decodes as `C`.
    pub fn get<C: Control>(&self) -> (r: Result<C, ControlError>)
        requires
            self.wf(),
        ensures
            r == get_result::<C>(self@),
    {
        get_entry(&self.entries)
    }

    /// Writes the control `val`, replacing any value under its identifier.
    ///
    /// The camera may later ignore a control it does not support: this is not
    /// reported here. Read the control back where confirmation is needed.
    pub fn set<C: Control>(&mut self, val: C) -> (r: Result<(), ControlError>)
        requires
            old(self).wf(),
        ensures
            final(self).wf(),
            final(self)@ == assign(old(self)@, C::id_spec(), val.encode()),
            r == Ok::<(), ControlError>(()),
    {
        let v = val.to_value();
        assign_entry(&mut self.entries, C::entry_id(), v);
        Ok(())
    }

    /// Writes a tagged value under an identifier, replacing any value there.
    pub fn set_raw(&mut self, id: u32, val: ControlValue)
        requires
            old(self).wf(),
        ensures
            final(self).wf(),
            final(self)@ == assign(old(self)@, id, val@),
    {
        assign_entry(&mut self.entries, id, val);
    }

    /// A cursor over the stored pairs, in order.
    pub fn iter(&self) -> (r: ControlListRefIterator<'_>)
        ensures
            r.wf(),
            r.remaining() == self@,
    {
        ControlListRefIterator::start(&self.entries)
    }
}

/// A list of camera properties, keyed by property identifier.
pub struct PropertyList {
    entries: Vec<(u32, ControlValue)>,
}

impl View for PropertyList {
    type V = Seq<(u32, ValueView)>;

    /// The stored pairs, in iteration order.
    closed spec fn view(&self) -> Seq<(u32, ValueView)> {
        pairs_view(self.entries@)
    }
}

impl PropertyList {
    /// Every identifier occurs at most once.
    pub open spec fn wf(&self) -> bool {
        ids_unique(self@)
    }

    /// An empty list.
    pub fn new() -> (r: Self)
        ensures
            r.wf(),
            r@ == Seq::<(u32, ValueView)>::empty(),
    {
        let r = PropertyList { entries: Vec::new() };
        assert(r@ =~= Seq::<(u32, ValueView)>::empty());
        r
    }

    /// Reads the property `C`: its value if the list holds one under its
    /// identifier and that value decodes as `C`.
    pub fn get<C: Property>(&self) -> (r: Result<C, ControlError>)
        requires
            self.wf(),
        ensures
            r == get_result::<C>(self@),
    {
        get_entry(&self.entries)
    }

    /// Writes the property `val`, replacing any value under its identifier.
    ///
    /// The camera may ignore a property it does not support: this is not
    /// reported here. Read the property back where confirmation is needed.
    pub fn set<C: Property>(&mut self, val: C) -> (r: Result<(), ControlError>)
        requires
            old(self).wf(),
        ensures
            final(self).wf(),
            final(self)@ == assign(old(self)@, C::id_spec(), val.encode()),
            r == Ok::<(), ControlError>(()),
    {
        let v = val.to_value();
        assign_entry(&mut self.entries, C::entry_id(), v);
        Ok(())
    }

    /// Writes a tagged value under an identifier, replacing any value there.
    pub fn set_raw(&mut self, id: u32, val: ControlValue)
        requires
            old(self).wf(),
        ensures
            final(self).wf(),
            final(self)@ == assign(old(self)@, id, val@),
    {
        assign_entry(&mut self.entries, id, val);
    }

    /// A cursor over the stored pairs, in order.
    pub fn iter(&self) -> (r: ControlListRefIterator<'_>)
        ensures
            r.wf(),
            r.remaining() == self@,
    {
        ControlListRefIterator::start(&self.entries)
    }
}

/// A single-pass cursor over the pairs of a list, as they were when it was
/// made. The list cannot change while the cursor lives.
pub struct ControlListRefIterator<'d> {
    entries: &'d Vec<(u32, ControlValue)>,
    pos: usize,
}

impl<'d> ControlListRefIterator<'d> {
    /// The cursor stands within the pairs.
    pub closed spec fn wf(&self) -> bool {
        self.pos <= self.entries@.len()
    }

    /// The pairs not yet handed out, in order.
    pub closed spec fn remaining(&self) -> Seq<(u32, ValueView)> {
        pairs_view(self.entries@).subrange(self.pos as int, self.entries@.len() as int)
    }

    fn start(entries: &'d Vec<(u32, ControlValue)>) -> (r: Self)
        ensures
            r.wf(),
            r.remaining() == pairs_view(entries@),
    {
        let r = ControlListRefIterator { entries, pos: 0 };
        assert(r.remaining() =~= pairs_view(entries@));
        r
    }

    /// Hands out the next pair, or nothing once all have been handed out.
    pub fn next(&mut self) -> (r: Option<(u32, ControlValue)>)
        requires
            old(self).wf(),
        ensures
            final(self).wf(),
            match r {
                None => old(self).remaining().len() == 0 && final(self).remaining() == old(
                    self,
                ).remaining(),
                Some(p) => old(self).remaining().len() > 0 && (p.0, p.1@) == old(
                    self,
                ).remaining()[0] && final(self).remaining() == old(self).remaining().drop_first(),
            },
    {
        if self.pos >= self.entries.len() {
            None
        } else {
            let i = self.pos;
            let id = self.entries[i].0;
            let val = self.entries[i].1.clone();
            proof {
                lemma_view_index(self.entries@, i as int);
            }
            self.pos = i + 1;
            assert(self.remaining() =~= old(self).remaining().drop_first());
            Some((id, val))
        }
    }

    /// Hands out all pairs not yet handed out, in order.
    pub fn collect_remaining(&mut self) -> (r: Vec<(u32, ControlValue)>)
        requires
            old(self).wf(),
        ensures
            final(self).wf(),
            pairs_view(r@) == old(self).remaining(),
            final(self).remaining().len() == 0,
    {
        let mut out: Vec<(u32, ControlValue)> = Vec::new();
        loop
            invariant
                self.wf(),
                pairs_view(out@) + self.remaining() == old(self).remaining(),
            decreases self.remaining().len(),
        {
            let ghost before = self.remaining();
            match self.next() {
                None => {
                    assert(pairs_view(out@) =~= old(self).remaining());
                    return out;
                },
                Some(p) => {
                    let ghost prev = pairs_view(out@);
                    out.push(p);
                    assert(pairs_view(out@) =~= prev.push(before[0]));
                    assert(pairs_view(out@) + self.remaining() =~= prev + before);
                },
            }
        }
    }
}

} // verus!
