//! The limits of controls: bounds, default and allowed values.
use vstd::prelude::*;

use crate::table::{find, has_id, ids_unique, lemma_lookup_at, lookup};
use crate::value::{ControlValue, ControlValueError, ValueView};

verus! {

/// The mathematical content of a decoded value, or why it did not decode.
pub open spec fn decoded_view(r: Result<ControlValue, ControlValueError>) -> Result<
    ValueView,
    ControlValueError,
> {
    match r {
        Ok(v) => Ok(v@),
        Err(e) => Err(e),
    }
}

/// Every value decoded.
pub open spec fn all_decoded(s: Seq<Result<ValueView, ControlValueError>>) -> bool {
    forall|i: int| 0 <= i < s.len() ==> #[trigger] s[i] is Ok
}

/// `i` is the position of the first value that did not decode.
pub open spec fn is_first_failure(s: Seq<Result<ValueView, ControlValueError>>, i: int) -> bool {
    &&& 0 <= i < s.len()
    &&& s[i] is Err
    &&& forall|j: int| 0 <= j < i ==> #[trigger] s[j] is Ok
}

/// All values if every one decoded, else the error of the first that did not.
pub open spec fn collect_decoded(s: Seq<Result<ValueView, ControlValueError>>) -> Result<
    Seq<ValueView>,
    ControlValueError,
> {
    if all_decoded(s) {
        Ok(s.map_values(|r: Result<ValueView, ControlValueError>| r->Ok_0))
    } else {
        Err(s[choose|i: int| is_first_failure(s, i)]->Err_0)
    }
}

/// The mathematical content of a list of decoded values.
pub open spec fn values_view(r: Result<Vec<ControlValue>, ControlValueError>) -> Result<
    Seq<ValueView>,
    ControlValueError,
> {
    match r {
        Ok(v) => Ok(v@.map_values(|x: ControlValue| x@)),
        Err(e) => Err(e),
    }
}

/// Where all values decoded, they are handed out all and in order: none when
/// there are none, and exactly as many as there are otherwise.
pub proof fn lemma_collect_all(s: Seq<Result<ValueView, ControlValueError>>)
    requires
        all_decoded(s),
    ensures
        collect_decoded(s) is Ok,
        collect_decoded(s)->Ok_0.len() == s.len(),
        forall|i: int| 0 <= i < s.len() ==> Ok::<ValueView, ControlValueError>(#[trigger] collect_decoded(s)->Ok_0[i]) == s[i],
{
    assert forall|i: int| 0 <= i < s.len() implies Ok::<ValueView, ControlValueError>(#[trigger] collect_decoded(s)->Ok_0[i])
        == s[i] by {
        assert(s[i] is Ok);
    }
}

fn copy_decoded(r: &Result<ControlValue, ControlValueError>) -> (o: Result<
    ControlValue,
    ControlValueError,
>)
    ensures
        decoded_view(o) == decoded_view(*r),
{
    match r {
        Ok(v) => Ok(v.clone()),
        Err(e) => Err(*e),
    }
}

/// The mathematical content of a [`ControlInfo`].
pub struct InfoView {
    pub min: Result<ValueView, ControlValueError>,
    pub max: Result<ValueView, ControlValueError>,
    pub def: Result<ValueView, ControlValueError>,
    pub values: Seq<Result<ValueView, ControlValueError>>,
}

/// The limits of one control: its least, greatest and default value and, for
/// a control with a discrete set of values, that set in order. Each value is
/// held as read from the camera: decoded, or the reason it could not be.
pub struct ControlInfo {
    min: Result<ControlValue, ControlValueError>,
    max: Result<ControlValue, ControlValueError>,
    def: Result<ControlValue, ControlValueError>,
    values: Vec<Result<ControlValue, ControlValueError>>,
}

impl View for ControlInfo {
    type V = InfoView;

    closed spec fn view(&self) -> InfoView {
        InfoView {
            min: decoded_view(self.min),
            max: decoded_view(self.max),
            def: decoded_view(self.def),
            values: self.values@.map_values(|r: Result<ControlValue, ControlValueError>| decoded_view(r)),
        }
    }
}

impl ControlInfo {
    /// The limits of a control, from the values read for it.
    pub fn new(
        min: Result<ControlValue, ControlValueError>,
        max: Result<ControlValue, ControlValueError>,
        def: Result<ControlValue, ControlValueError>,
        values: Vec<Result<ControlValue, ControlValueError>>,
    ) -> (r: Self)
        ensures
            r@.min == decoded_view(min),
            r@.max == decoded_view(max),
            r@.def == decoded_view(def),
            r@.values == values@.map_values(|x: Result<ControlValue, ControlValueError>| decoded_view(x)),
    {
        ControlInfo { min, max, def, values }
    }

    /// The least value of the control.
    pub fn min(&self) -> (r: Result<ControlValue, ControlValueError>)
        ensures
            decoded_view(r) == self@.min,
    {
        copy_decoded(&self.min)
    }

    /// The greatest value of the control.
    pub fn max(&self) -> (r: Result<ControlValue, ControlValueError>)
        ensures
            decoded_view(r) == self@.max,
    {
        copy_decoded(&self.max)
    }

    /// The default value of the control.
    pub fn def(&self) -> (r: Result<ControlValue, ControlValueError>)
        ensures
            decoded_view(r) == self@.def,
    {
        copy_decoded(&self.def)
    }

    /// The discrete values the control accepts, in order; if any of them did
    /// not decode, the error of the first that did not, and no values.
    pub fn values(&self) -> (r: Result<Vec<ControlValue>, ControlValueError>)
        ensures
            values_view(r) == collect_decoded(self@.values),
    {
        let ghost s = self@.values;
        let mut out: Vec<ControlValue> = Vec::new();
        let mut i: usize = 0;
        while i < self.values.len()
            invariant
                s == self@.values,
                i <= self.values@.len(),
                s.len() == self.values@.len(),
                forall|j: int| 0 <= j < i ==> #[trigger] s[j] is Ok,
                out@.len() == i,
                forall|j: int| 0 <= j < i ==> Ok::<ValueView, ControlValueError>(#[trigger] out@[j]@) == s[j],
            decreases self.values@.len() - i,
        {
            assert(s[i as int] == decoded_view(self.values@[i as int]));
            match &self.values[i] {
                Ok(v) => {
                    out.push(v.clone());
                },
                Err(e) => {
                    proof {
                        assert(is_first_failure(s, i as int));
                        assert(!all_decoded(s));
                        let k = choose|k: int| is_first_failure(s, k);
                        assert(k == i) by {
                            if k < i {
                                assert(s[k] is Ok);
                            } else if k > i {
                                assert(s[i as int] is Ok);
                            }
                        }
                    }
                    return Err(*e);
                },
            }
            i += 1;
        }
        assert(all_decoded(s));
        assert(out@.map_values(|x: ControlValue| x@) =~= s.map_values(
            |r: Result<ValueView, ControlValueError>| r->Ok_0,
        ));
        Ok(out)
    }
}

/// The limits of the controls that a camera supports, by control identifier.
pub struct ControlInfoMap {
    entries: Vec<(u32, ControlInfo)>,
}

impl View for ControlInfoMap {
    type V = Seq<(u32, InfoView)>;

    closed spec fn view(&self) -> Seq<(u32, InfoView)> {
        self.entries@.map_values(|e: (u32, ControlInfo)| (e.0, e.1@))
    }
}

impl ControlInfoMap {
    /// Every identifier occurs at most once.
    pub open spec fn wf(&self) -> bool {
        ids_unique(self@)
    }

    /// A map of no controls.
    pub fn new() -> (r: Self)
        ensures
            r.wf(),
            r@ == Seq::<(u32, InfoView)>::empty(),
    {
        let r = ControlInfoMap { entries: Vec::new() };
        assert(r@ =~= Seq::<(u32, InfoView)>::empty());
        r
    }

    /// Adds the limits of a control not yet in the map; a control already in
    /// it is left as it is, and `false` returned.
    pub fn insert(&mut self, id: u32, info: ControlInfo) -> (r: bool)
        requires
            old(self).wf(),
        ensures
            final(self).wf(),
            r == !has_id(old(self)@, id),
            final(self)@ == if r {
                old(self)@.push((id, info@))
            } else {
                old(self)@
            },
    {
        let ghost s = self@;
        match find(&self.entries, id) {
            Some(i) => {
                assert(s[i as int].0 == id);
                false
            },
            None => {
                let ghost iv = info@;
                assert(!has_id(s, id)) by {
                    if has_id(s, id) {
                        let k = choose|k: int| 0 <= k < s.len() && #[trigger] s[k].0 == id;
                        assert(self.entries@[k].0 == id);
                    }
                }
                self.entries.push((id, info));
                assert(self@ =~= s.push((id, iv)));
                assert(ids_unique(self@)) by {
                    assert forall|a: int, b: int| 0 <= a < b < self@.len() implies #[trigger] self@[a].0
                        != #[trigger] self@[b].0 by {
                        if b == s.len() {
                            assert(self@[a] == s[a]);
                        } else {
                            assert(s[a].0 != s[b].0);
                        }
                    }
                }
                true
            },
        }
    }

    /// The limits of a control, or nothing if the camera does not support it.
    pub fn get(&self, id: u32) -> (r: Option<&ControlInfo>)
        requires
            self.wf(),
        ensures
            match r {
                Some(info) => lookup(self@, id) == Some(info@),
                None => lookup(self@, id) == Option::<InfoView>::None,
            },
    {
        let ghost s = self@;
        match find(&self.entries, id) {
            Some(i) => {
                assert(s[i as int] == (id, self.entries@[i as int].1@));
                proof {
                    lemma_lookup_at(s, i as int);
                }
                Some(&self.entries[i].1)
            },
            None => {
                assert(!has_id(s, id)) by {
                    if has_id(s, id) {
                        let k = choose|k: int| 0 <= k < s.len() && #[trigger] s[k].0 == id;
                        assert(self.entries@[k].0 == id);
                    }
                }
                None
            },
        }
    }
}

} // verus!
