use vstd::prelude::*;

use crate::connection::{Endpoint, Link};
use crate::socket::{LogicalEndpoint, SocketRole};

verus! {

/// The blobs among a node's laid-out sockets that have the given role, in socket order.
pub open spec fn blobs_with_role<R>(sockets: Seq<(SocketRole, R)>, role: SocketRole) -> Seq<R> {
    sockets.filter_map(
        |x: (SocketRole, R)|
            if x.0 == role {
                Some(x.1)
            } else {
                None
            },
    )
}

/// The sockets of a node that have the given role.
pub open spec fn sockets_with_role<R>(sockets: Seq<(SocketRole, R)>, role: SocketRole) -> Seq<
    (SocketRole, R),
> {
    sockets.filter(|x: (SocketRole, R)| x.0 == role)
}

/// The blob rectangles of every socket laid out so far in a pass, per role, indexed by node and
/// then by socket, and whether connections have started to read them.
///
/// `R` is the embedder's rectangle type; the library only carries it.
#[derive(Debug)]
pub struct SocketLayoutState<R> {
    inputs: Vec<Vec<R>>,
    outputs: Vec<Vec<R>>,
    done: bool,
}

/// Where an endpoint lies, before scaling: a world point to be scaled into screen space, or a
/// socket blob whose center is the point.
#[derive(Debug, Clone, Copy, PartialEq, Eq)]
pub enum Anchor<P, R> {
    Point(P),
    Blob(R),
}

/// Where the start and the end of a connection lie.
pub type AnchorPair<P, R> = (Anchor<P, R>, Anchor<P, R>);

/// Why a socket endpoint could not be found in the recorded layout.
#[derive(Debug, Clone, Copy, PartialEq, Eq, Structural)]
pub enum ResolveError {
    /// Only `node_count` nodes have recorded sockets.
    NodeOutOfRange { role: SocketRole, node_index: usize, node_count: usize },
    /// The node has only `socket_count` sockets of the role.
    SocketOutOfRange {
        role: SocketRole,
        node_index: usize,
        socket_index: usize,
        socket_count: usize,
    },
}

/// A node was laid out after a connection had read the recorded sockets.
#[derive(Debug, Clone, Copy, PartialEq, Eq, Structural)]
pub enum LayoutError {
    NodeAfterConnection,
}

/// A node with `k` sockets of a role has `k` blobs of that role: so
/// [`SocketLayoutState::record_node`] appends an entry of length `k` to the inputs for `k` input
/// sockets, and one of length `m` to the outputs for `m` output sockets. Together they are all
/// of its sockets.
pub proof fn lemma_blob_counts<R>(sockets: Seq<(SocketRole, R)>, role: SocketRole)
    ensures
        blobs_with_role(sockets, role).len() == sockets_with_role(sockets, role).len(),
        sockets_with_role(sockets, SocketRole::In).len() + sockets_with_role(
            sockets,
            SocketRole::Out,
        ).len() == sockets.len(),
    decreases sockets.len(),
{
    reveal_with_fuel(Seq::filter, 1);
    if sockets.len() > 0 {
        lemma_blob_counts(sockets.drop_last(), role);
    }
}

/// The recorded blob of socket `l` in tables `inputs` and `outputs`, or why there is none.
pub open spec fn blob_of<R>(
    inputs: Seq<Seq<R>>,
    outputs: Seq<Seq<R>>,
    l: LogicalEndpoint,
) -> Result<R, ResolveError> {
    let table = match l.role {
        SocketRole::In => inputs,
        SocketRole::Out => outputs,
    };
    if l.node_index >= table.len() {
        Err(
            ResolveError::NodeOutOfRange {
                role: l.role,
                node_index: l.node_index,
                node_count: table.len() as usize,
            },
        )
    } else if l.socket_index >= table[l.node_index as int].len() {
        Err(
            ResolveError::SocketOutOfRange {
                role: l.role,
                node_index: l.node_index,
                socket_index: l.socket_index,
                socket_count: table[l.node_index as int].len() as usize,
            },
        )
    } else {
        Ok(table[l.node_index as int][l.socket_index as int])
    }
}

/// Where endpoint `e` lies given tables `inputs` and `outputs`, or why it cannot be found.
pub open spec fn anchor_of<P, R>(
    inputs: Seq<Seq<R>>,
    outputs: Seq<Seq<R>>,
    e: Endpoint<P>,
) -> Result<Anchor<P, R>, ResolveError> {
    match e {
        Endpoint::Absolute(p) => Ok(Anchor::Point(p)),
        Endpoint::Socket(l) => match blob_of(inputs, outputs, l) {
            Ok(r) => Ok(Anchor::Blob(r)),
            Err(err) => Err(err),
        },
    }
}

/// Where both ends of a link lie given tables `inputs` and `outputs`; the start is looked up
/// first.
pub open spec fn link_anchors<P, R>(
    inputs: Seq<Seq<R>>,
    outputs: Seq<Seq<R>>,
    link: (Endpoint<P>, Endpoint<P>),
) -> Result<(Anchor<P, R>, Anchor<P, R>), ResolveError> {
    match anchor_of(inputs, outputs, link.0) {
        Err(e) => Err(e),
        Ok(a) => match anchor_of(inputs, outputs, link.1) {
            Err(e) => Err(e),
            Ok(b) => Ok((a, b)),
        },
    }
}

/// Splits a node's laid-out sockets into its input blobs and its output blobs.
pub fn split_by_role<R: Copy>(sockets: &Vec<(SocketRole, R)>) -> (r: (Vec<R>, Vec<R>))
    ensures
        r.0@ == blobs_with_role(sockets@, SocketRole::In),
        r.1@ == blobs_with_role(sockets@, SocketRole::Out),
{
    let mut ins: Vec<R> = Vec::new();
    let mut outs: Vec<R> = Vec::new();
    let mut i: usize = 0;
    while i < sockets.len()
        invariant
            i <= sockets.len(),
            ins@ == blobs_with_role(sockets@.take(i as int), SocketRole::In),
            outs@ == blobs_with_role(sockets@.take(i as int), SocketRole::Out),
        decreases sockets.len() - i,
    {
        let (role, blob) = sockets[i];
        assert(sockets@.take(i + 1).drop_last() == sockets@.take(i as int));
        match role {
            SocketRole::In => ins.push(blob),
            SocketRole::Out => outs.push(blob),
        }
        i = i + 1;
    }
    assert(sockets@.take(i as int) == sockets@);
    (ins, outs)
}

impl<R> SocketLayoutState<R> {
    /// The blob tables of input sockets, by node and then by socket.
    pub closed spec fn inputs_spec(&self) -> Seq<Seq<R>> {
        self.inputs@.map_values(|v: Vec<R>| v@)
    }

    /// The blob tables of output sockets, by node and then by socket.
    pub closed spec fn outputs_spec(&self) -> Seq<Seq<R>> {
        self.outputs@.map_values(|v: Vec<R>| v@)
    }

    /// Whether a connection has read the tables in this pass.
    pub closed spec fn done_spec(&self) -> bool {
        self.done
    }

    /// The state of a pass that has laid out nothing yet.
    pub open spec fn is_empty_pass(&self) -> bool {
        &&& self.inputs_spec() == Seq::<Seq<R>>::empty()
        &&& self.outputs_spec() == Seq::<Seq<R>>::empty()
        &&& !self.done_spec()
    }

    pub fn new() -> (r: Self)
        ensures
            r.is_empty_pass(),
    {
        let r = SocketLayoutState { inputs: Vec::new(), outputs: Vec::new(), done: false };
        assert(r.inputs_spec() =~= Seq::<Seq<R>>::empty());
        assert(r.outputs_spec() =~= Seq::<Seq<R>>::empty());
        r
    }

    /// Forgets every recorded socket and reopens the state to nodes, for a new pass.
    pub fn clear(&mut self)
        ensures
            final(self).is_empty_pass(),
    {
        self.inputs.clear();
        self.outputs.clear();
        self.done = false;
        assert(self.inputs_spec() =~= Seq::<Seq<R>>::empty());
        assert(self.outputs_spec() =~= Seq::<Seq<R>>::empty());
    }

    pub fn inputs(&self) -> (r: &Vec<Vec<R>>)
        ensures
            r@.map_values(|v: Vec<R>| v@) == self.inputs_spec(),
    {
        &self.inputs
    }

    pub fn outputs(&self) -> (r: &Vec<Vec<R>>)
        ensures
            r@.map_values(|v: Vec<R>| v@) == self.outputs_spec(),
    {
        &self.outputs
    }

    pub fn is_done(&self) -> (r: bool)
        ensures
            r == self.done_spec(),
    {
        self.done
    }

    /// Marks that connections have started to read the tables: from now on in this pass no
    /// node may be recorded.
    pub fn begin_connections(&mut self)
        ensures
            final(self).inputs_spec() == old(self).inputs_spec(),
            final(self).outputs_spec() == old(self).outputs_spec(),
            final(self).done_spec(),
    {
        self.done = true;
    }

    /// Appends one node's input blobs and output blobs, as the next node of the pass.
    ///
    /// Fails, changing nothing, once connections have begun.
    pub fn record_node(&mut self, sockets: &Vec<(SocketRole, R)>) -> (r: Result<(), LayoutError>)
        where
            R: Copy,
        ensures
            old(self).done_spec() ==> r == Err::<(), LayoutError>(LayoutError::NodeAfterConnection)
                && *final(self) == *old(self),
            !old(self).done_spec() ==> r is Ok && final(self).inputs_spec() == old(
                self,
            ).inputs_spec().push(blobs_with_role(sockets@, SocketRole::In))
                && final(self).outputs_spec() == old(self).outputs_spec().push(
                blobs_with_role(sockets@, SocketRole::Out),
            ) && !final(self).done_spec(),
    {
        if self.done {
            return Err(LayoutError::NodeAfterConnection);
        }
        let (ins, outs) = split_by_role(sockets);
        self.inputs.push(ins);
        self.outputs.push(outs);
        assert(self.inputs_spec() =~= old(self).inputs_spec().push(
            blobs_with_role(sockets@, SocketRole::In),
        ));
        assert(self.outputs_spec() =~= old(self).outputs_spec().push(
            blobs_with_role(sockets@, SocketRole::Out),
        ));
        Ok(())
    }

    /// The recorded blob of socket `l`, or why there is none.
    pub fn socket_blob(&self, l: LogicalEndpoint) -> (r: Result<R, ResolveError>)
        where
            R: Copy,
        ensures
            r == blob_of(self.inputs_spec(), self.outputs_spec(), l),
    {
        let table = match l.role {
            SocketRole::In => &self.inputs,
            SocketRole::Out => &self.outputs,
        };
        if l.node_index >= table.len() {
            return Err(
                ResolveError::NodeOutOfRange {
                    role: l.role,
                    node_index: l.node_index,
                    node_count: table.len(),
                },
            );
        }
        let sockets = &table[l.node_index];
        if l.socket_index >= sockets.len() {
            return Err(
                ResolveError::SocketOutOfRange {
                    role: l.role,
                    node_index: l.node_index,
                    socket_index: l.socket_index,
                    socket_count: sockets.len(),
                },
            );
        }
        Ok(sockets[l.socket_index])
    }
}

impl<P: Copy> Endpoint<P> {
    /// Where this endpoint lies given the sockets recorded in `state`, or why it cannot be found.
    pub fn locate<R: Copy>(&self, state: &SocketLayoutState<R>) -> (r: Result<
        Anchor<P, R>,
        ResolveError,
    >)
        ensures
            r == anchor_of(state.inputs_spec(), state.outputs_spec(), *self),
    {
        match self {
            Endpoint::Absolute(p) => Ok(Anchor::Point(*p)),
            Endpoint::Socket(l) => match state.socket_blob(*l) {
                Ok(blob) => Ok(Anchor::Blob(blob)),
                Err(e) => Err(e),
            },
        }
    }
}

impl<P: Copy> Link<P> {
    /// Where both ends of this link lie given the sockets recorded in `state`.
    pub fn anchors<R: Copy>(&self, state: &SocketLayoutState<R>) -> (r: Result<
        (Anchor<P, R>, Anchor<P, R>),
        ResolveError,
    >)
        ensures
            r == link_anchors(state.inputs_spec(), state.outputs_spec(), self@),
    {
        let a = match self.start().locate(state) {
            Ok(a) => a,
            Err(e) => return Err(e),
        };
        let b = match self.end().locate(state) {
            Ok(b) => b,
            Err(e) => return Err(e),
        };
        Ok((a, b))
    }
}

} // verus!
