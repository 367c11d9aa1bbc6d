use vstd::prelude::*;

use crate::socket::{LogicalEndpoint, SocketRole};

verus! {

/// One end of a connection: a fixed point in world space, or a socket of a node.
///
/// `P` is the embedder's point type; the library only carries it.
#[derive(Debug, Clone)]
pub enum Endpoint<P> {
    Absolute(P),
    Socket(LogicalEndpoint),
}

/// The endpoint is a socket with the given role.
pub open spec fn is_socket_with_role<P>(e: Endpoint<P>, role: SocketRole) -> bool {
    e matches Endpoint::Socket(l) && l.role == role
}

/// A link may start at an output socket or a point, and may end at an input socket or a point.
pub open spec fn link_ordered<P>(start: Endpoint<P>, end: Endpoint<P>) -> bool {
    &&& !is_socket_with_role(start, SocketRole::In)
    &&& !is_socket_with_role(end, SocketRole::Out)
}

/// Two endpoints that no order can make into a link: two sockets of the same role.
pub open spec fn same_role_sockets<P>(e1: Endpoint<P>, e2: Endpoint<P>) -> bool {
    e1 matches Endpoint::Socket(l1) && e2 matches Endpoint::Socket(l2) && l1.role == l2.role
}

/// Whether two endpoints given in either order must be swapped to form a link.
pub open spec fn needs_swap<P>(e1: Endpoint<P>, e2: Endpoint<P>) -> bool {
    is_socket_with_role(e1, SocketRole::In) || is_socket_with_role(e2, SocketRole::Out)
}

/// An output socket and a point are a link in that order, given in either order; two
/// outputs, or two inputs, are no link.
pub proof fn lemma_canonical_order<P>(out: LogicalEndpoint, other: LogicalEndpoint, p: P)
    requires
        out.role == SocketRole::Out,
    ensures
        !same_role_sockets(Endpoint::Socket(out), Endpoint::Absolute(p)),
        !needs_swap(Endpoint::Socket(out), Endpoint::Absolute(p)),
        !same_role_sockets(Endpoint::Absolute(p), Endpoint::Socket(out)),
        needs_swap(Endpoint::Absolute(p), Endpoint::Socket(out)),
        same_role_sockets(Endpoint::<P>::Socket(out), Endpoint::<P>::Socket(other)) <==> other.role
            == SocketRole::Out,
{
}

impl<P> Endpoint<P> {
    pub fn socket(node_index: usize, role: SocketRole, socket_index: usize) -> (r: Self)
        ensures
            r == Endpoint::<P>::Socket(LogicalEndpoint { node_index, role, socket_index }),
    {
        Endpoint::Socket(LogicalEndpoint { node_index, role, socket_index })
    }

    /// The output socket `socket_index` of node `node_index`: where a connection starts.
    pub fn start(node_index: usize, socket_index: usize) -> (r: Self)
        ensures
            r == Endpoint::<P>::Socket(
                LogicalEndpoint { node_index, role: SocketRole::Out, socket_index },
            ),
    {
        Self::socket(node_index, SocketRole::Out, socket_index)
    }

    /// The input socket `socket_index` of node `node_index`: where a connection ends.
    pub fn end(node_index: usize, socket_index: usize) -> (r: Self)
        ensures
            r == Endpoint::<P>::Socket(
                LogicalEndpoint { node_index, role: SocketRole::In, socket_index },
            ),
    {
        Self::socket(node_index, SocketRole::In, socket_index)
    }
}

/// Why two endpoints do not form a link.
#[derive(Debug, Clone, Copy, PartialEq, Eq, Structural)]
pub enum LinkError {
    /// The start endpoint is an input socket.
    StartNotOutput,
    /// The end endpoint is an output socket.
    EndNotInput,
    /// Both endpoints are sockets of this one role.
    SameRole(SocketRole),
}

/// A copy of `e`: the same socket, or a copy of the point.
fn copy_endpoint<P: Clone>(e: &Endpoint<P>) -> (r: Endpoint<P>)
    ensures
        e is Socket ==> r == *e,
        e is Absolute ==> r is Absolute,
{
    match e {
        Endpoint::Absolute(p) => Endpoint::Absolute(p.clone()),
        Endpoint::Socket(l) => Endpoint::Socket(*l),
    }
}

/// An ordered pair of endpoints: a start that is no input socket, and an end that is no output
/// socket.
#[derive(Debug)]
pub struct Link<P> {
    start: Endpoint<P>,
    end: Endpoint<P>,
}

impl<P> View for Link<P> {
    type V = (Endpoint<P>, Endpoint<P>);

    closed spec fn view(&self) -> (Endpoint<P>, Endpoint<P>) {
        (self.start, self.end)
    }
}

impl<P: Clone> Clone for Link<P> {
    fn clone(&self) -> Self {
        proof {
            use_type_invariant(self);
        }
        Link { start: copy_endpoint(&self.start), end: copy_endpoint(&self.end) }
    }
}

impl<P> Link<P> {
    #[verifier::type_invariant]
    spec fn inv(self) -> bool {
        link_ordered(self.start, self.end)
    }

    /// Builds the link from `start` to `end`, which must already be in order.
    pub fn new(start: Endpoint<P>, end: Endpoint<P>) -> (r: Result<Self, LinkError>)
        ensures
            is_socket_with_role(start, SocketRole::In) ==> r == Err::<Self, LinkError>(
                LinkError::StartNotOutput,
            ),
            !is_socket_with_role(start, SocketRole::In) && is_socket_with_role(
                end,
                SocketRole::Out,
            ) ==> r == Err::<Self, LinkError>(LinkError::EndNotInput),
            link_ordered(start, end) ==> (r matches Ok(l) && l@ == (start, end)),
    {
        if let Endpoint::Socket(l) = &start {
            if l.role == SocketRole::In {
                return Err(LinkError::StartNotOutput);
            }
        }
        if let Endpoint::Socket(l) = &end {
            if l.role == SocketRole::Out {
                return Err(LinkError::EndNotInput);
            }
        }
        Ok(Link { start, end })
    }

    /// Builds a link from two endpoints given in either order: an output socket becomes the
    /// start, an input socket the end. Two sockets of the same role form no link.
    pub fn from_unordered(e1: Endpoint<P>, e2: Endpoint<P>) -> (r: Result<Self, LinkError>)
        ensures
            same_role_sockets(e1, e2) ==> r == Err::<Self, LinkError>(
                LinkError::SameRole(e1->Socket_0.role),
            ),
            !same_role_sockets(e1, e2) && needs_swap(e1, e2) ==> (r matches Ok(l) && l@ == (
                e2,
                e1,
            )),
            !same_role_sockets(e1, e2) && !needs_swap(e1, e2) ==> (r matches Ok(l) && l@ == (
                e1,
                e2,
            )),
    {
        let swap = match (&e1, &e2) {
            (Endpoint::Socket(l1), Endpoint::Socket(l2)) => {
                if l1.role == l2.role {
                    return Err(LinkError::SameRole(l1.role));
                }
                l1.role == SocketRole::In
            },
            (Endpoint::Socket(l1), Endpoint::Absolute(_)) => l1.role == SocketRole::In,
            (Endpoint::Absolute(_), Endpoint::Socket(l2)) => l2.role == SocketRole::Out,
            (Endpoint::Absolute(_), Endpoint::Absolute(_)) => false,
        };
        if swap {
            Ok(Link { start: e2, end: e1 })
        } else {
            Ok(Link { start: e1, end: e2 })
        }
    }

    /// The link between socket `source` and the pointer at `pointer`, in the order
    /// [`Link::from_unordered`] gives them.
    pub fn dangling(source: LogicalEndpoint, pointer: P) -> (r: Self)
        ensures
            ({
                let s = Endpoint::<P>::Socket(source);
                let p = Endpoint::<P>::Absolute(pointer);
                r@ == if needs_swap(s, p) {
                    (p, s)
                } else {
                    (s, p)
                }
            }),
    {
        match source.role {
            SocketRole::Out => Link { start: Endpoint::Socket(source), end: Endpoint::Absolute(pointer) },
            SocketRole::In => Link { start: Endpoint::Absolute(pointer), end: Endpoint::Socket(source) },
        }
    }

    pub fn start(&self) -> (r: &Endpoint<P>)
        ensures
            *r == self@.0,
            !is_socket_with_role(*r, SocketRole::In),
    {
        proof {
            use_type_invariant(self);
        }
        &self.start
    }

    pub fn end(&self) -> (r: &Endpoint<P>)
        ensures
            *r == self@.1,
            !is_socket_with_role(*r, SocketRole::Out),
    {
        proof {
            use_type_invariant(self);
        }
        &self.end
    }

    /// The two sockets of a link between sockets; `None` where an end is a point.
    pub fn unwrap_sockets(&self) -> (r: Option<(LogicalEndpoint, LogicalEndpoint)>)
        ensures
            self@.0 is Socket && self@.1 is Socket ==> r == Some(
                (self@.0->Socket_0, self@.1->Socket_0),
            ),
            !(self@.0 is Socket && self@.1 is Socket) ==> r is None,
            r matches Some((s, e)) ==> s.role == SocketRole::Out && e.role == SocketRole::In,
    {
        proof {
            use_type_invariant(self);
        }
        match (&self.start, &self.end) {
            (Endpoint::Socket(s), Endpoint::Socket(e)) => Some((*s, *e)),
            _ => None,
        }
    }
}

} // verus!
