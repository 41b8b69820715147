//! Properties: fixed characteristics that a camera reports about itself.
use vstd::prelude::*;

use crate::entry::{one, single, single_spec, type_error, ControlEntry, Property};
use crate::geometry::Size;
use crate::value::{ControlType, ControlValue, ControlValueError, ValueView};

verus! {

/// The rotation of the camera relative to its mounting, in degrees.
#[derive(Clone, Copy, Debug, PartialEq, Eq, Structural)]
pub struct Rotation(pub i32);

impl ControlEntry for Rotation {
    open spec fn id_spec() -> u32 {
        2
    }

    open spec fn kind_spec() -> ControlType {
        ControlType::Int32
    }

    open spec fn encode(&self) -> ValueView {
        ValueView::Int32(seq![self.0])
    }

    open spec fn decode(v: ValueView) -> Result<Self, ControlValueError> {
        match v {
            ValueView::Int32(s) => match single_spec(s) {
                Ok(x) => Ok(Rotation(x)),
                Err(e) => Err(e),
            },
            _ => Err(type_error(ControlType::Int32, v)),
        }
    }

    fn entry_id() -> (r: u32) {
        2
    }

    fn to_value(&self) -> (r: ControlValue) {
        ControlValue::Int32(one(self.0))
    }

    fn from_value(v: &ControlValue) -> (r: Result<Self, ControlValueError>) {
        match v {
            ControlValue::Int32(s) => match single(s) {
                Ok(x) => Ok(Rotation(x)),
                Err(e) => Err(e),
            },
            _ => Err(ControlValueError::InvalidType { expected: ControlType::Int32, found: v.kind() }),
        }
    }

    proof fn lemma_round_trip(&self) {
    }

    proof fn lemma_encode_kind(&self) {
    }

    proof fn lemma_wrong_kind(v: ValueView) {
    }
}

impl Property for Rotation {}

/// The size of the full pixel array of the sensor.
#[derive(Clone, Copy, Debug, PartialEq, Eq, Structural)]
pub struct PixelArraySize(pub Size);

impl ControlEntry for PixelArraySize {
    open spec fn id_spec() -> u32 {
        5
    }

    open spec fn kind_spec() -> ControlType {
        ControlType::Size
    }

    open spec fn encode(&self) -> ValueView {
        ValueView::Size(seq![self.0])
    }

    open spec fn decode(v: ValueView) -> Result<Self, ControlValueError> {
        match v {
            ValueView::Size(s) => match single_spec(s) {
                Ok(x) => Ok(PixelArraySize(x)),
                Err(e) => Err(e),
            },
            _ => Err(type_error(ControlType::Size, v)),
        }
    }

    fn entry_id() -> (r: u32) {
        5
    }

    fn to_value(&self) -> (r: ControlValue) {
        ControlValue::Size(one(self.0))
    }

    fn from_value(v: &ControlValue) -> (r: Result<Self, ControlValueError>) {
        match v {
            ControlValue::Size(s) => match single(s) {
                Ok(x) => Ok(PixelArraySize(x)),
                Err(e) => Err(e),
            },
            _ => Err(ControlValueError::InvalidType { expected: ControlType::Size, found: v.kind() }),
        }
    }

    proof fn lemma_round_trip(&self) {
    }

    proof fn lemma_encode_kind(&self) {
    }

    proof fn lemma_wrong_kind(v: ValueView) {
    }
}

impl Property for PixelArraySize {}

} // verus!
