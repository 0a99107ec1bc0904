//! A bridge between an application's tree of user-interface elements and the
//! accessibility stack of the host operating system.
//!
//! The application describes its elements through [`Accessible`] and gives
//! each of them an identity by wrapping it in a [`Node`]. The bridge keeps
//! exactly one native handle per identity in a [`NativeRefCache`]
//! ([`to_native_ref`]) and answers the queries that assistive technology puts
//! to such a handle: names, roles, values, geometry and structure
//! ([`bridge`]). A query is answered in two steps, which [`attribute_value`]
//! takes together: [`ask`] puts the question to the node and needs no cache,
//! and [`answer_value`] turns what the node said into the value. On Linux it also reads the answer of the start-up probe
//! ([`init`]).
//!
//! Everything here works on plain values. Creating a native object, talking
//! to the message bus and locking a shared cache are the caller's part: the
//! caller passes in a function that creates native objects, the reply that
//! the bus gave, and the cache under an exclusive borrow.

pub mod bridge;
pub mod cache;
pub mod geometry;
pub mod model;
pub mod probe;
pub mod text;

pub use crate::bridge::{
    answer_value, ask, attribute_names, attribute_value, Answer, Attribute, AttributeValue,
};
pub use crate::cache::{to_native_ref, NativeRefCache};
pub use crate::geometry::{NativePoint, NativeSize};
pub use crate::model::{
    Accessible, Dimensions, NativeRef, Node, NodeId, Parent, Position, Role,
};
pub use crate::probe::init;
