//! Typed access to camera control and property values.
//!
//! Values travel as [`ControlValue`]s, a closed tagged union. Concrete
//! controls and properties implement [`ControlEntry`], which fixes their
//! numeric identifier and converts them to and from tagged values. Entry lists
//! map identifiers to tagged values and can be walked pair by pair; info maps
//! give the bounds and allowed values of each supported control.

pub mod geometry;
pub mod value;
pub mod entry;
pub mod controls;
pub mod properties;
pub mod table;
pub mod list;
pub mod info;

pub use entry::{Control, ControlEntry, DynControlEntry, Property};
pub use geometry::{Point, Rectangle, Size};
pub use info::{ControlInfo, ControlInfoMap};
pub use list::{ControlError, ControlList, ControlListRefIterator, PropertyList};
pub use value::{ControlType, ControlValue, ControlValueError};
