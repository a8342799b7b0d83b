//! In-memory model of the handle types of a window compositor: views
//! (on-screen windows) and outputs (displays), together with the geometry
//! and bit-flag value types their state is made of.
//!
//! Every entity is a snapshot held by the caller; mutating an entity never
//! touches a live runtime. Handle value 0 is reserved for the root view.

pub mod handles;
pub mod types;

pub use handles::{HandleError, WlcOutput, WlcView};
pub use types::{Geometry, Point, ResizeEdge, Size, ViewState, ViewType};
