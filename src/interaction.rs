use vstd::prelude::*;

use crate::connection::{needs_swap, Endpoint, Link};
use crate::socket::{LogicalEndpoint, SocketRole};

verus! {

/// The pointer events a node reacts to.
#[derive(Debug, Clone, Copy, PartialEq, Eq, Structural)]
pub enum PointerEvent {
    LeftPressed,
    LeftReleased,
    CursorMoved,
    Other,
}

/// Whether a widget consumed an event.
#[derive(Debug, Clone, Copy, PartialEq, Eq, Structural)]
pub enum EventStatus {
    Ignored,
    Captured,
}

/// A node's drag-to-move state: the screen point the pointer was at when the node last moved
/// under it, while a drag is in progress.
#[derive(Debug, Clone, Copy)]
pub struct NodeDrag<P> {
    anchor: Option<P>,
}

/// What a node does with one pointer event.
#[derive(Debug, Clone, Copy)]
pub struct NodeReaction<P> {
    pub status: EventStatus,
    /// The node moves by the pointer's motion from the first point to the second, in screen
    /// space.
    pub translate: Option<(P, P)>,
}

impl<P: Copy> NodeDrag<P> {
    pub closed spec fn anchor_spec(&self) -> Option<P> {
        self.anchor
    }

    pub fn new() -> (r: Self)
        ensures
            r.anchor_spec() is None,
    {
        NodeDrag { anchor: None }
    }

    /// Whether a drag is in progress. While it is, the node's content and sockets are not
    /// offered events.
    pub fn is_dragging(&self) -> (r: bool)
        ensures
            r == self.anchor_spec() is Some,
    {
        self.anchor.is_some()
    }

    /// Reacts to `event` with the pointer at `cursor` (`None` where it is off the window),
    /// `inside` telling whether it is within the node's bounds. `children` is what the node's
    /// content and sockets answered; they are asked first, and only while no drag is in progress.
    pub fn on_event(
        &mut self,
        event: PointerEvent,
        cursor: Option<P>,
        inside: bool,
        children: EventStatus,
    ) -> (r: NodeReaction<P>)
        ensures
            cursor is None ==> final(self).anchor_spec() == old(self).anchor_spec() && r.status
                == EventStatus::Ignored && r.translate is None,
            // A drag in progress: moving drags, releasing ends it.
            cursor is Some && old(self).anchor_spec() is Some ==> {
                let c = cursor->Some_0;
                let start = old(self).anchor_spec()->Some_0;
                match event {
                    PointerEvent::CursorMoved => {
                        &&& final(self).anchor_spec() == Some(c)
                        &&& r.status == EventStatus::Captured
                        &&& r.translate == Some((start, c))
                    },
                    PointerEvent::LeftReleased => {
                        &&& final(self).anchor_spec() is None
                        &&& r.status == EventStatus::Ignored
                        &&& r.translate is None
                    },
                    PointerEvent::LeftPressed => {
                        &&& final(self).anchor_spec() == if inside {
                            Some(c)
                        } else {
                            Some(start)
                        }
                        &&& r.status == if inside {
                            EventStatus::Captured
                        } else {
                            EventStatus::Ignored
                        }
                        &&& r.translate is None
                    },
                    PointerEvent::Other => {
                        &&& final(self).anchor_spec() == Some(start)
                        &&& r.status == EventStatus::Ignored
                        &&& r.translate is None
                    },
                }
            },
            // No drag: the children have first refusal; a press inside that they leave starts one.
            cursor is Some && old(self).anchor_spec() is None ==> {
                let c = cursor->Some_0;
                let starts = children == EventStatus::Ignored && inside && event
                    == PointerEvent::LeftPressed;
                &&& final(self).anchor_spec() == if starts {
                    Some(c)
                } else {
                    None
                }
                &&& r.status == if starts {
                    EventStatus::Captured
                } else {
                    children
                }
                &&& r.translate is None
            },
    {
        let c = match cursor {
            None => {
                return NodeReaction { status: EventStatus::Ignored, translate: None };
            },
            Some(c) => c,
        };
        let mut status = EventStatus::Ignored;
        let mut translate: Option<(P, P)> = None;
        match self.anchor {
            Some(start) => match event {
                PointerEvent::LeftReleased => {
                    self.anchor = None;
                },
                PointerEvent::CursorMoved => {
                    self.anchor = Some(c);
                    translate = Some((start, c));
                    status = EventStatus::Captured;
                },
                _ => {},
            },
            None => {
                status = children;
            },
        }
        if status == EventStatus::Ignored && inside && event == PointerEvent::LeftPressed {
            self.anchor = Some(c);
            status = EventStatus::Captured;
        }
        NodeReaction { status, translate }
    }
}

/// What the canvas is doing with the left button held.
#[derive(Debug, Clone, Copy, PartialEq, Eq)]
pub enum CanvasDrag<P> {
    Idle,
    /// Panning; the pointer was last at this screen point.
    Panning(P),
    /// Dragging a connection from a socket.
    Connecting,
}

/// Pointer input that reaches the graph canvas. Socket blobs are hit-tested first; a press on
/// no blob is offered to the nodes, and reaches the canvas only if no node captured it.
#[derive(Debug, Clone, Copy)]
pub enum CanvasInput<P> {
    /// The left button went down at `at`, over the blob of socket `blob` if any.
    Pressed { at: P, blob: Option<LogicalEndpoint> },
    Moved { to: P },
    /// The left button went up, over the blob of socket `blob` if any.
    Released { blob: Option<LogicalEndpoint> },
    /// A scroll or pinch around `pivot`, zooming in or out.
    Scrolled { pivot: P, zoom_in: bool },
}

/// What the graph asks its embedder to do.
#[derive(Debug, Clone)]
pub enum GraphEvent<P> {
    /// Pan by the pointer's motion from `from` to `to`, in screen space.
    Translate { from: P, to: P },
    /// Zoom in or out around `pivot`.
    Scale { pivot: P, zoom_in: bool },
    /// Add a connection between two sockets.
    Connect(Link<P>),
    /// Detach the connection that ends at this input socket; the pointer is at the point.
    Disconnect(LogicalEndpoint, P),
    /// Show the connection being dragged from a socket to the pointer, or stop showing it.
    Dangling(Option<(LogicalEndpoint, Link<P>)>),
}

/// The link a drop of a connection dragged from `source` onto socket `target` makes.
pub open spec fn dropped_link<P>(source: LogicalEndpoint, target: LogicalEndpoint) -> (
    Endpoint<P>,
    Endpoint<P>,
) {
    if source.role == SocketRole::Out {
        (Endpoint::Socket(source), Endpoint::Socket(target))
    } else {
        (Endpoint::Socket(target), Endpoint::Socket(source))
    }
}

/// The link from socket `source` to the pointer at `pointer`.
pub open spec fn pointer_link<P>(source: LogicalEndpoint, pointer: P) -> (Endpoint<P>, Endpoint<P>) {
    let s = Endpoint::<P>::Socket(source);
    let p = Endpoint::<P>::Absolute(pointer);
    if needs_swap(s, p) {
        (p, s)
    } else {
        (s, p)
    }
}

/// The event that shows the connection dragged from `source` to `pointer`.
pub open spec fn is_dangling_to<P>(ev: GraphEvent<P>, source: LogicalEndpoint, pointer: P) -> bool {
    ev matches GraphEvent::Dangling(Some((s, l))) && s == source && l@ == pointer_link(
        source,
        pointer,
    )
}

/// The pointer state of a graph canvas: panning and dragging connections.
#[derive(Debug, Clone, Copy)]
pub struct GraphPointer<P> {
    drag: CanvasDrag<P>,
}

impl<P: Copy> GraphPointer<P> {
    pub closed spec fn drag_spec(&self) -> CanvasDrag<P> {
        self.drag
    }

    pub fn new() -> (r: Self)
        ensures
            r.drag_spec() == CanvasDrag::<P>::Idle,
    {
        GraphPointer { drag: CanvasDrag::Idle }
    }

    pub fn drag(&self) -> (r: CanvasDrag<P>)
        ensures
            r == self.drag_spec(),
    {
        self.drag
    }

    /// Turns one pointer input into graph events. `dangling_source` is the socket the embedder
    /// currently drags a connection from, if any.
    pub fn on_input(&mut self, input: CanvasInput<P>, dangling_source: Option<LogicalEndpoint>) -> (r:
        Vec<GraphEvent<P>>)
        ensures
            match input {
                CanvasInput::Scrolled { pivot, zoom_in } => {
                    &&& final(self).drag_spec() == old(self).drag_spec()
                    &&& r@ == seq![GraphEvent::Scale { pivot, zoom_in }]
                },
                CanvasInput::Pressed { at, blob } => match blob {
                    // A press on no blob pans.
                    None => final(self).drag_spec() == CanvasDrag::Panning(at) && r@.len() == 0,
                    // A press on an output starts a connection from it; a press on an input
                    // detaches the connection that ends there, to drag it elsewhere.
                    Some(l) => {
                        &&& final(self).drag_spec() == CanvasDrag::<P>::Connecting
                        &&& r@.len() == 1
                        &&& if l.role == SocketRole::Out {
                            is_dangling_to(r@[0], l, at)
                        } else {
                            r@[0] == GraphEvent::Disconnect(l, at)
                        }
                    },
                },
                CanvasInput::Moved { to } => match old(self).drag_spec() {
                    CanvasDrag::Idle => final(self).drag_spec() == CanvasDrag::<P>::Idle && r@.len()
                        == 0,
                    CanvasDrag::Panning(last) => {
                        &&& final(self).drag_spec() == CanvasDrag::Panning(to)
                        &&& r@ == seq![GraphEvent::Translate { from: last, to }]
                    },
                    CanvasDrag::Connecting => {
                        &&& final(self).drag_spec() == CanvasDrag::<P>::Connecting
                        &&& match dangling_source {
                            None => r@.len() == 0,
                            Some(s) => r@.len() == 1 && is_dangling_to(r@[0], s, to),
                        }
                    },
                },
                CanvasInput::Released { blob } => {
                    &&& final(self).drag_spec() == CanvasDrag::<P>::Idle
                    &&& if old(self).drag_spec() is Connecting {
                        // A drop on a socket of the other role connects; any drop ends the drag.
                        if dangling_source is Some && blob is Some && blob->Some_0.role
                            != dangling_source->Some_0.role {
                            &&& r@.len() == 2
                            &&& r@[0] matches GraphEvent::Connect(l) && l@ == dropped_link::<P>(
                                dangling_source->Some_0,
                                blob->Some_0,
                            )
                            &&& r@[1] == GraphEvent::<P>::Dangling(None)
                        } else {
                            r@ == seq![GraphEvent::<P>::Dangling(None)]
                        }
                    } else {
                        r@.len() == 0
                    }
                },
            },
    {
        let mut events: Vec<GraphEvent<P>> = Vec::new();
        match input {
            CanvasInput::Scrolled { pivot, zoom_in } => {
                events.push(GraphEvent::Scale { pivot, zoom_in });
            },
            CanvasInput::Pressed { at, blob } => match blob {
                None => {
                    self.drag = CanvasDrag::Panning(at);
                },
                Some(l) => {
                    self.drag = CanvasDrag::Connecting;
                    match l.role {
                        SocketRole::Out => {
                            events.push(GraphEvent::Dangling(Some((l, Link::dangling(l, at)))));
                        },
                        SocketRole::In => {
                            events.push(GraphEvent::Disconnect(l, at));
                        },
                    }
                },
            },
            CanvasInput::Moved { to } => match self.drag {
                CanvasDrag::Idle => {},
                CanvasDrag::Panning(last) => {
                    self.drag = CanvasDrag::Panning(to);
                    events.push(GraphEvent::Translate { from: last, to });
                },
                CanvasDrag::Connecting => {
                    if let Some(s) = dangling_source {
                        events.push(GraphEvent::Dangling(Some((s, Link::dangling(s, to)))));
                    }
                },
            },
            CanvasInput::Released { blob } => {
                if let CanvasDrag::Connecting = self.drag {
                    if let (Some(s), Some(t)) = (dangling_source, blob) {
                        if s.role != t.role {
                            if let Ok(link) = Link::from_unordered(
                                Endpoint::Socket(s),
                                Endpoint::Socket(t),
                            ) {
                                events.push(GraphEvent::Connect(link));
                            }
                        }
                    }
                    events.push(GraphEvent::Dangling(None));
                }
                self.drag = CanvasDrag::Idle;
            },
        }
        events
    }
}

} // verus!
