use vstd::prelude::*;

verus! {

/// The edge of a node on which a socket's blob sits.
#[derive(Debug, Clone, Copy, PartialEq, Eq, Structural)]
pub enum SocketSide {
    Left,
    Right,
}

/// Whether a socket receives (`In`) or emits (`Out`) connections.
#[derive(Debug, Clone, Copy, PartialEq, Eq, Structural)]
pub enum SocketRole {
    In,
    Out,
}

/// A socket addressed by position: the node's index in the graph, the socket's role, and the
/// socket's index among the node's sockets of that role.
#[derive(Debug, Clone, Copy, PartialEq, Eq, Structural)]
pub struct LogicalEndpoint {
    pub node_index: usize,
    pub role: SocketRole,
    pub socket_index: usize,
}

impl SocketRole {
    /// The other role: the role a socket must have to be connected to one of this role.
    pub open spec fn opposite_spec(self) -> SocketRole {
        match self {
            SocketRole::In => SocketRole::Out,
            SocketRole::Out => SocketRole::In,
        }
    }

    #[verifier::when_used_as_spec(opposite_spec)]
    pub fn opposite(self) -> (r: SocketRole)
        ensures
            r == self.opposite_spec(),
    {
        match self {
            SocketRole::In => SocketRole::Out,
            SocketRole::Out => SocketRole::In,
        }
    }
}

} // verus!
