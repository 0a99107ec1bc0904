//! The data model: what an application can say about one element of its
//! interface.

use std::sync::Arc;
use vstd::prelude::*;

verus! {

/// The stable identity of a node. The application gives every node its own
/// identity when it builds the node, and never changes it.
pub type NodeId = usize;

/// A handle by which the platform addresses one accessible element. The
/// bridge never looks inside it.
pub type NativeRef = usize;

/// The semantic kind of an element.
#[derive(Clone, Copy, Debug, PartialEq, Eq, Structural)]
pub enum Role {
    Group,
    StaticText,
    Image,
    Button,
    Window,
    ScrollArea,
}

/// Where an element sits, in the coordinate space that the caller chose.
/// Each coordinate is a single-precision number, held as its IEEE 754 bit
/// pattern.
#[derive(Clone, Copy, Debug, PartialEq, Eq, Structural)]
pub struct Position {
    pub x: u32,
    pub y: u32,
}

/// How large an element is. Each extent is a single-precision number, held as
/// its IEEE 754 bit pattern.
#[derive(Clone, Copy, Debug, PartialEq, Eq, Structural)]
pub struct Dimensions {
    pub w: u32,
    pub h: u32,
}

/// An element of the application together with its identity.
///
/// However many shared references point at a node, they all show the same
/// `id`. Two nodes of one tree must not share an identity.
pub struct Node<T> {
    pub id: NodeId,
    pub element: T,
}

/// What an element hangs from: a native object that the platform already
/// knows, such as a window, or another node of the application.
pub enum Parent<T> {
    Native(NativeRef),
    Accessible(Arc<Node<T>>),
}

/// The capability interface that an application implements for the elements
/// it wants to expose.
///
/// Every answer may change between two calls, so the bridge asks again on
/// each query and assumes nothing about what comes back.
pub trait Accessible: Sized {
    fn parent(&self) -> Parent<Self>;

    /// The children, in document order.
    fn children(&self) -> Vec<Arc<Node<Self>>>;

    fn role(&self) -> Role;

    fn title(&self) -> Option<String>;

    fn value(&self) -> Option<String>;

    fn position(&self) -> Position;

    fn dimensions(&self) -> Dimensions;
}

} // verus!
