//! Anchors joined by hanging chains: the pointer-driven anchor state machine,
//! the routing of pointer events to one anchor, and the selection-aware
//! position correction that pulls the ends of a taut chain together.
//!
//! The library performs no floating-point arithmetic. Every real quantity
//! (a coordinate, a distance, a length, a radius) is carried as the IEEE-754
//! bit pattern of an `f32`. The quantities that the library compares are
//! distances and lengths, which are never negative; for such values the order
//! of the bit patterns as unsigned integers is the order of the values
//! themselves, NaN coming after every number.
pub mod chain;
pub mod handle;
pub mod point;
pub mod routing;

pub use chain::{Chain, ChainView, Target};
pub use handle::{Handle, HandleState, HandleView};
pub use point::Point;
pub use routing::{dispatch_pointer_moved, route_pointer};
