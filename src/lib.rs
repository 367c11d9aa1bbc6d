//! Socket-aware layout and connection routing for a node-graph editor.
//!
//! Geometry is carried as opaque values of the embedder's point and rectangle types; this crate
//! decides where each value comes from and where it goes: which socket a connection endpoint
//! refers to, in which order nodes and connections are laid out, how a link is oriented, and how
//! pointer input turns into graph events.
pub mod connection;
pub mod graph;
pub mod interaction;
pub mod layout_state;
pub mod mesh;
pub mod socket;

pub use connection::{Endpoint, Link, LinkError};
pub use graph::{layout_pass, GraphElement, PassError};
pub use interaction::{
    CanvasDrag, CanvasInput, EventStatus, GraphEvent, GraphPointer, NodeDrag, NodeReaction,
    PointerEvent,
};
pub use layout_state::{Anchor, LayoutError, ResolveError, SocketLayoutState};
pub use mesh::{ribbon_indices, SegmentCount, SplineError};
pub use socket::{LogicalEndpoint, SocketRole, SocketSide};
