use vstd::prelude::*;

use crate::value::{ControlType, ControlValue, ControlValueError, ValueView};

verus! {

/// A statically typed control or property value bound to one fixed numeric
/// identifier, convertible to and from a tagged value.
///
/// Each implementation proves that decoding what it encodes gives the value
/// back, and that a tagged value with another tag than its own is refused.
pub trait ControlEntry: Sized {
    /// The identifier of this entry.
    spec fn id_spec() -> u32;

    /// The tag of the tagged values this entry is encoded as.
    spec fn kind_spec() -> ControlType;

    /// The tagged value that `self` is encoded as.
    spec fn encode(&self) -> ValueView;

    /// The entry decoded from a tagged value, or why it cannot be.
    spec fn decode(v: ValueView) -> Result<Self, ControlValueError>;

    /// The identifier of this entry.
    fn entry_id() -> (r: u32)
        ensures
            r == Self::id_spec(),
    ;

    /// Encodes `self` as a tagged value.
    fn to_value(&self) -> (r: ControlValue)
        ensures
            r@ == self.encode(),
    ;

    /// Decodes a tagged value.
    fn from_value(v: &ControlValue) -> (r: Result<Self, ControlValueError>)
        ensures
            r == Self::decode(v@),
    ;

    /// Decoding the encoding of a value gives that value back.
    proof fn lemma_round_trip(&self)
        ensures
            Self::decode(self.encode()) == Ok::<Self, ControlValueError>(*self),
    ;

    /// Every encoding carries the entry's own tag.
    proof fn lemma_encode_kind(&self)
        ensures
            self.encode().kind() == Self::kind_spec(),
    ;

    /// A tagged value of another tag is refused with a type error.
    proof fn lemma_wrong_kind(v: ValueView)
        requires
            v.kind() != Self::kind_spec(),
        ensures
            Self::decode(v) == Err::<Self, ControlValueError>(
                ControlValueError::InvalidType { expected: Self::kind_spec(), found: v.kind() },
            ),
    ;
}

/// An entry that belongs in a control list.
pub trait Control: ControlEntry {}

/// An entry that belongs in a property list.
pub trait Property: ControlEntry {}

/// An entry whose type is not known statically: only its identifier and its
/// tagged value can be asked for.
pub trait DynControlEntry {
    /// The identifier of the entry.
    spec fn dyn_id(&self) -> u32;

    /// The tagged value of the entry.
    spec fn dyn_value(&self) -> ValueView;

    fn id(&self) -> (r: u32)
        ensures
            r == self.dyn_id(),
    ;

    fn value(&self) -> (r: ControlValue)
        ensures
            r@ == self.dyn_value(),
    ;
}

impl<T: ControlEntry> DynControlEntry for T {
    open spec fn dyn_id(&self) -> u32 {
        T::id_spec()
    }

    open spec fn dyn_value(&self) -> ValueView {
        self.encode()
    }

    fn id(&self) -> (r: u32) {
        T::entry_id()
    }

    fn value(&self) -> (r: ControlValue) {
        self.to_value()
    }
}

/// The error for a tagged value of another tag than `expected`.
pub open spec fn type_error(expected: ControlType, v: ValueView) -> ControlValueError {
    ControlValueError::InvalidType { expected, found: v.kind() }
}

/// The one element of a sequence, or a length error.
pub open spec fn single_spec<T>(s: Seq<T>) -> Result<T, ControlValueError> {
    if s.len() == 1 {
        Ok(s[0])
    } else {
        Err(ControlValueError::InvalidLength { expected: 1, found: s.len() as usize })
    }
}

/// A vector of one element.
pub fn one<T>(x: T) -> (r: Vec<T>)
    ensures
        r@ == seq![x],
{
    let mut r: Vec<T> = Vec::new();
    r.push(x);
    assert(r@ =~= seq![x]);
    r
}

/// The one element of a vector, or a length error.
pub fn single<T: Copy>(v: &Vec<T>) -> (r: Result<T, ControlValueError>)
    ensures
        r == single_spec(v@),
{
    if v.len() == 1 {
        Ok(v[0])
    } else {
        Err(ControlValueError::InvalidLength { expected: 1, found: v.len() })
    }
}

} // verus!
