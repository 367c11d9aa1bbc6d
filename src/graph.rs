use vstd::prelude::*;

use crate::connection::Link;
use crate::layout_state::{
    blobs_with_role, link_anchors, Anchor, AnchorPair, ResolveError, SocketLayoutState,
};
use crate::socket::SocketRole;

verus! {

/// One element of a graph, in layout order: a node with its laid-out sockets (role and blob, in
/// socket order), or a connection.
#[derive(Debug)]
pub enum GraphElement<P, R> {
    Node(Vec<(SocketRole, R)>),
    Connection(Link<P>),
}

impl<P, R> GraphElement<P, R> {
    pub fn is_node(&self) -> (r: bool)
        ensures
            r == self is Node,
    {
        match self {
            GraphElement::Node(_) => true,
            GraphElement::Connection(_) => false,
        }
    }
}

/// Why a layout pass was abandoned.
#[derive(Debug, Clone, Copy, PartialEq, Eq, Structural)]
pub enum PassError {
    /// The element at `element_index` is a node that comes after a connection.
    NodeAfterConnection { element_index: usize },
    /// The connection at `element_index` refers to a socket that no node recorded.
    Unresolved { element_index: usize, error: ResolveError },
}

/// No node comes after a connection.
pub open spec fn nodes_precede_connections<P, R>(es: Seq<GraphElement<P, R>>) -> bool {
    forall|i: int, j: int|
        0 <= i < j < es.len() && #[trigger] es[i] is Connection ==> #[trigger] es[j] is Connection
}

/// The element at `j` is a node that comes after a connection.
pub open spec fn misplaced_node<P, R>(es: Seq<GraphElement<P, R>>, j: int) -> bool {
    &&& 0 <= j < es.len()
    &&& es[j] is Node
    &&& exists|i: int| 0 <= i < j && #[trigger] es[i] is Connection
}

/// What the nodes among `es` record for `role`: one entry per node, in order.
pub open spec fn recorded<P, R>(es: Seq<GraphElement<P, R>>, role: SocketRole) -> Seq<Seq<R>>
    decreases es.len(),
{
    if es.len() == 0 {
        Seq::empty()
    } else {
        let before = recorded(es.drop_last(), role);
        match es.last() {
            GraphElement::Node(sockets) => before.push(blobs_with_role(sockets@, role)),
            GraphElement::Connection(_) => before,
        }
    }
}

/// Some element of `es` is a connection.
pub open spec fn has_connection<P, R>(es: Seq<GraphElement<P, R>>) -> bool {
    exists|i: int| 0 <= i < es.len() && #[trigger] es[i] is Connection
}

/// Every connection among `es` finds both its ends in tables `inputs` and `outputs`.
pub open spec fn all_links_resolve<P, R>(
    inputs: Seq<Seq<R>>,
    outputs: Seq<Seq<R>>,
    es: Seq<GraphElement<P, R>>,
) -> bool {
    forall|j: int|
        0 <= j < es.len() && #[trigger] es[j] is Connection ==> link_anchors(
            inputs,
            outputs,
            es[j]->Connection_0@,
        ) is Ok
}

/// A connection anywhere before a node breaks the order a layout pass requires, and
/// [`layout_pass`] refuses such a graph; a graph of nodes alone keeps the order, has no
/// connection to leave unresolved, and so lays out with the state still open to nodes.
pub proof fn lemma_pass_order<P, R>(
    es: Seq<GraphElement<P, R>>,
    inputs: Seq<Seq<R>>,
    outputs: Seq<Seq<R>>,
)
    ensures
        (exists|i: int, j: int|
            0 <= i < j < es.len() && #[trigger] es[i] is Connection && #[trigger] es[j] is Node)
            ==> !nodes_precede_connections(es),
        (forall|k: int| 0 <= k < es.len() ==> #[trigger] es[k] is Node) ==> {
            &&& nodes_precede_connections(es)
            &&& !has_connection(es)
            &&& all_links_resolve(inputs, outputs, es)
        },
{
}

proof fn lemma_recorded_len<P, R>(es: Seq<GraphElement<P, R>>, role: SocketRole)
    requires
        forall|k: int| 0 <= k < es.len() ==> #[trigger] es[k] is Node,
    ensures
        recorded(es, role).len() == es.len(),
    decreases es.len(),
{
    if es.len() > 0 {
        lemma_recorded_len(es.drop_last(), role);
    }
}

proof fn lemma_recorded_stable<P, R>(es: Seq<GraphElement<P, R>>, i: int, role: SocketRole)
    requires
        0 <= i <= es.len(),
        forall|k: int| i <= k < es.len() ==> #[trigger] es[k] is Connection,
    ensures
        recorded(es.take(i), role) == recorded(es, role),
    decreases es.len(),
{
    if es.len() == i {
        assert(es.take(i) == es);
    } else {
        let rest = es.drop_last();
        assert(rest.take(i) == es.take(i));
        lemma_recorded_stable(rest, i, role);
    }
}

/// Lays out a graph in one pass: every node records its sockets' blobs in `state`, in order,
/// then every connection looks up both its ends among them.
///
/// Returns where each connection's ends lie, in the order of the connections. No node may come
/// after a connection: such a graph is refused before `state` is touched. A connection that refers
/// to a socket no node recorded stops the pass.
pub fn layout_pass<P: Copy, R: Copy>(
    elements: &Vec<GraphElement<P, R>>,
    state: &mut SocketLayoutState<R>,
) -> (r: Result<Vec<(Anchor<P, R>, Anchor<P, R>)>, PassError>)
    ensures
        !nodes_precede_connections(elements@) ==> (r matches Err(
            PassError::NodeAfterConnection { element_index },
        ) && misplaced_node(elements@, element_index as int) && (forall|k: int|
            0 <= k < element_index ==> !misplaced_node(elements@, k))) && *final(state) == *old(
            state,
        ),
        nodes_precede_connections(elements@) ==> {
            &&& final(state).inputs_spec() == recorded(elements@, SocketRole::In)
            &&& final(state).outputs_spec() == recorded(elements@, SocketRole::Out)
            &&& final(state).done_spec() == has_connection(elements@)
            &&& (r is Ok <==> all_links_resolve(
                final(state).inputs_spec(),
                final(state).outputs_spec(),
                elements@,
            ))
        },
        r matches Ok(anchors) ==> {
            let n = final(state).inputs_spec().len();
            &&& n + anchors.len() == elements.len()
            &&& forall|k: int|
                0 <= k < anchors.len() ==> elements@[n + k] is Connection && Ok::<AnchorPair<P, R>, ResolveError>(#[trigger] anchors@[k])
                    == link_anchors(
                    final(state).inputs_spec(),
                    final(state).outputs_spec(),
                    elements@[n + k]->Connection_0@,
                )
        },
        r matches Err(PassError::Unresolved { element_index, error }) ==> {
            &&& element_index < elements.len()
            &&& elements@[element_index as int] is Connection
            &&& link_anchors(
                final(state).inputs_spec(),
                final(state).outputs_spec(),
                elements@[element_index as int]->Connection_0@,
            ) == Err::<(Anchor<P, R>, Anchor<P, R>), ResolveError>(error)
            &&& forall|j: int|
                0 <= j < element_index && #[trigger] elements@[j] is Connection ==> link_anchors(
                    final(state).inputs_spec(),
                    final(state).outputs_spec(),
                    elements@[j]->Connection_0@,
                ) is Ok
        },
{
    let es = Ghost(elements@);
    // The order is checked in full before anything is recorded.
    let mut seen_connection = false;
    let mut i: usize = 0;
    while i < elements.len()
        invariant
            i <= elements.len(),
            es@ == elements@,
            seen_connection == (exists|k: int| 0 <= k < i && #[trigger] es@[k] is Connection),
            forall|k: int| 0 <= k < i ==> !misplaced_node(es@, k),
            forall|a: int, b: int|
                0 <= a < b < i && #[trigger] es@[a] is Connection ==> #[trigger] es@[b] is Connection,
        decreases elements.len() - i,
    {
        match &elements[i] {
            GraphElement::Node(_) => {
                if seen_connection {
                    return Err(PassError::NodeAfterConnection { element_index: i });
                }
            },
            GraphElement::Connection(_) => {
                seen_connection = true;
            },
        }
        i = i + 1;
    }
    state.clear();
    // Nodes first: each records its sockets.
    let mut n: usize = 0;
    while n < elements.len() && elements[n].is_node()
        invariant
            n <= elements.len(),
            es@ == elements@,
            nodes_precede_connections(es@),
            forall|k: int| 0 <= k < n ==> #[trigger] es@[k] is Node,
            state.inputs_spec() == recorded(es@.take(n as int), SocketRole::In),
            state.outputs_spec() == recorded(es@.take(n as int), SocketRole::Out),
            !state.done_spec(),
        decreases elements.len() - n,
    {
        if let GraphElement::Node(sockets) = &elements[n] {
            assert(es@.take(n + 1).drop_last() == es@.take(n as int));
            // No connection has been reached, so the state is still open to nodes.
            let recorded = state.record_node(sockets);
            assert(recorded is Ok);
        }
        n = n + 1;
    }
    assert forall|k: int| n <= k < es@.len() implies #[trigger] es@[k] is Connection by {
        assert(es@[n as int] is Connection);
    }
    proof {
        lemma_recorded_stable(es@, n as int, SocketRole::In);
        lemma_recorded_stable(es@, n as int, SocketRole::Out);
        lemma_recorded_len(es@.take(n as int), SocketRole::In);
    }
    if n < elements.len() {
        assert(es@[n as int] is Connection);
        state.begin_connections();
    }
    // Then connections: each looks up both its ends.
    let mut anchors: Vec<(Anchor<P, R>, Anchor<P, R>)> = Vec::new();
    let mut j: usize = n;
    while j < elements.len()
        invariant
            n <= j <= elements.len(),
            es@ == elements@,
            state.inputs_spec() == recorded(es@, SocketRole::In),
            state.outputs_spec() == recorded(es@, SocketRole::Out),
            state.inputs_spec().len() == n,
            state.done_spec() == has_connection(es@),
            forall|k: int| 0 <= k < n ==> #[trigger] es@[k] is Node,
            forall|k: int| n <= k < es@.len() ==> #[trigger] es@[k] is Connection,
            anchors.len() == j - n,
            forall|k: int|
                n <= k < j ==> link_anchors(
                    state.inputs_spec(),
                    state.outputs_spec(),
                    (#[trigger] es@[k])->Connection_0@,
                ) is Ok,
            forall|k: int|
                0 <= k < anchors.len() ==> Ok::<AnchorPair<P, R>, ResolveError>(#[trigger] anchors@[k]) == link_anchors(
                    state.inputs_spec(),
                    state.outputs_spec(),
                    es@[n + k]->Connection_0@,
                ),
        decreases elements.len() - j,
    {
        if let GraphElement::Connection(link) = &elements[j] {
            match link.anchors(state) {
                Ok(pair) => {
                    anchors.push(pair);
                    assert(anchors@[j - n] == pair);
                },
                Err(error) => {
                    return Err(PassError::Unresolved { element_index: j, error });
                },
            }
        }
        j = j + 1;
    }
    Ok(anchors)
}

} // verus!
