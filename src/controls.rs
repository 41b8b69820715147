//! Controls: entries that a control list carries to and from a camera.
use vstd::prelude::*;

use crate::entry::{one, single, single_spec, type_error, Control, ControlEntry};
use crate::geometry::Rectangle;
use crate::value::{ControlType, ControlValue, ControlValueError, ValueView};

verus! {

/// Whether the automatic exposure and gain algorithm runs.
#[derive(Clone, Copy, Debug, PartialEq, Eq, Structural)]
pub struct AeEnable(pub bool);

impl ControlEntry for AeEnable {
    open spec fn id_spec() -> u32 {
        1
    }

    open spec fn kind_spec() -> ControlType {
        ControlType::Bool
    }

    open spec fn encode(&self) -> ValueView {
        ValueView::Bool(seq![self.0])
    }

    open spec fn decode(v: ValueView) -> Result<Self, ControlValueError> {
        match v {
            ValueView::Bool(s) => match single_spec(s) {
                Ok(x) => Ok(AeEnable(x)),
                Err(e) => Err(e),
            },
            _ => Err(type_error(ControlType::Bool, v)),
        }
    }

    fn entry_id() -> (r: u32) {
        1
    }

    fn to_value(&self) -> (r: ControlValue) {
        ControlValue::Bool(one(self.0))
    }

    fn from_value(v: &ControlValue) -> (r: Result<Self, ControlValueError>) {
        match v {
            ControlValue::Bool(s) => match single(s) {
                Ok(x) => Ok(AeEnable(x)),
                Err(e) => Err(e),
            },
            _ => Err(ControlValueError::InvalidType { expected: ControlType::Bool, found: v.kind() }),
        }
    }

    proof fn lemma_round_trip(&self) {
    }

    proof fn lemma_encode_kind(&self) {
    }

    proof fn lemma_wrong_kind(v: ValueView) {
    }
}

impl Control for AeEnable {}

/// The exposure time of the frame, in microseconds.
#[derive(Clone, Copy, Debug, PartialEq, Eq, Structural)]
pub struct ExposureTime(pub i32);

impl ControlEntry for ExposureTime {
    open spec fn id_spec() -> u32 {
        7
    }

    open spec fn kind_spec() -> ControlType {
        ControlType::Int32
    }

    open spec fn encode(&self) -> ValueView {
        ValueView::Int32(seq![self.0])
    }

    open spec fn decode(v: ValueView) -> Result<Self, ControlValueError> {
        match v {
            ValueView::Int32(s) => match single_spec(s) {
                Ok(x) => Ok(ExposureTime(x)),
                Err(e) => Err(e),
            },
            _ => Err(type_error(ControlType::Int32, v)),
        }
    }

    fn entry_id() -> (r: u32) {
        7
    }

    fn to_value(&self) -> (r: ControlValue) {
        ControlValue::Int32(one(self.0))
    }

    fn from_value(v: &ControlValue) -> (r: Result<Self, ControlValueError>) {
        match v {
            ControlValue::Int32(s) => match single(s) {
                Ok(x) => Ok(ExposureTime(x)),
                Err(e) => Err(e),
            },
            _ => Err(ControlValueError::InvalidType { expected: ControlType::Int32, found: v.kind() }),
        }
    }

    proof fn lemma_round_trip(&self) {
    }

    proof fn lemma_encode_kind(&self) {
    }

    proof fn lemma_wrong_kind(v: ValueView) {
    }
}

impl Control for ExposureTime {}

/// The part of the sensor image that is scaled to the output.
#[derive(Clone, Copy, Debug, PartialEq, Eq, Structural)]
pub struct ScalerCrop(pub Rectangle);

impl ControlEntry for ScalerCrop {
    open spec fn id_spec() -> u32 {
        22
    }

    open spec fn kind_spec() -> ControlType {
        ControlType::Rectangle
    }

    open spec fn encode(&self) -> ValueView {
        ValueView::Rectangle(seq![self.0])
    }

    open spec fn decode(v: ValueView) -> Result<Self, ControlValueError> {
        match v {
            ValueView::Rectangle(s) => match single_spec(s) {
                Ok(x) => Ok(ScalerCrop(x)),
                Err(e) => Err(e),
            },
            _ => Err(type_error(ControlType::Rectangle, v)),
        }
    }

    fn entry_id() -> (r: u32) {
        22
    }

    fn to_value(&self) -> (r: ControlValue) {
        ControlValue::Rectangle(one(self.0))
    }

    fn from_value(v: &ControlValue) -> (r: Result<Self, ControlValueError>) {
        match v {
            ControlValue::Rectangle(s) => match single(s) {
                Ok(x) => Ok(ScalerCrop(x)),
                Err(e) => Err(e),
            },
            _ => Err(ControlValueError::InvalidType { expected: ControlType::Rectangle, found: v.kind() }),
        }
    }

    proof fn lemma_round_trip(&self) {
    }

    proof fn lemma_encode_kind(&self) {
    }

    proof fn lemma_wrong_kind(v: ValueView) {
    }
}

impl Control for ScalerCrop {}

/// The duration of a frame, in microseconds.
#[derive(Clone, Copy, Debug, PartialEq, Eq, Structural)]
pub struct FrameDuration(pub i64);

impl ControlEntry for FrameDuration {
    open spec fn id_spec() -> u32 {
        24
    }

    open spec fn kind_spec() -> ControlType {
        ControlType::Int64
    }

    open spec fn encode(&self) -> ValueView {
        ValueView::Int64(seq![self.0])
    }

    open spec fn decode(v: ValueView) -> Result<Self, ControlValueError> {
        match v {
            ValueView::Int64(s) => match single_spec(s) {
                Ok(x) => Ok(FrameDuration(x)),
                Err(e) => Err(e),
            },
            _ => Err(type_error(ControlType::Int64, v)),
        }
    }

    fn entry_id() -> (r: u32) {
        24
    }

    fn to_value(&self) -> (r: ControlValue) {
        ControlValue::Int64(one(self.0))
    }

    fn from_value(v: &ControlValue) -> (r: Result<Self, ControlValueError>) {
        match v {
            ControlValue::Int64(s) => match single(s) {
                Ok(x) => Ok(FrameDuration(x)),
                Err(e) => Err(e),
            },
            _ => Err(ControlValueError::InvalidType { expected: ControlType::Int64, found: v.kind() }),
        }
    }

    proof fn lemma_round_trip(&self) {
    }

    proof fn lemma_encode_kind(&self) {
    }

    proof fn lemma_wrong_kind(v: ValueView) {
    }
}

impl Control for FrameDuration {}

} // verus!
