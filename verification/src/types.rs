//! Pipes and the values that stand for live connections.
//!
//! The library never touches a connection itself. Readers, writers and
//! signals are parameters of the types here, so that every rule about them is
//! proved for whatever the caller puts in.

use vstd::prelude::*;

verus! {

/// A byte-stream connection: its two directions and a signal that fires when
/// the connection hangs up. Each part may have been taken away already.
pub struct StreamSocket<R, W, H> {
    pub read: Option<R>,
    pub write: Option<W>,
    pub close: Option<H>,
}

/// The two shapes of transport that a pipe unifies.
#[derive(Clone, Copy, Debug, PartialEq, Eq, Hash, Structural)]
pub enum Shape {
    /// An ordered flow of bytes without boundaries.
    ByteStream,
    /// Discrete messages.
    Datagrams,
}

/// The reading side of a pipe.
#[derive(Debug)]
pub enum Source<B, D> {
    ByteStream(B),
    Datagrams(D),
}

/// The writing side of a pipe.
#[derive(Debug)]
pub enum Sink<B, D> {
    ByteStream(B),
    Datagrams(D),
}

impl<B, D> Source<B, D> {
    /// The shape of this side.
    pub open spec fn shape_of(self) -> Shape {
        match self {
            Source::ByteStream(_) => Shape::ByteStream,
            Source::Datagrams(_) => Shape::Datagrams,
        }
    }

    /// The shape of this side.
    pub fn shape(&self) -> (s: Shape)
        ensures
            s == self.shape_of(),
    {
        match self {
            Source::ByteStream(_) => Shape::ByteStream,
            Source::Datagrams(_) => Shape::Datagrams,
        }
    }
}

impl<B, D> Sink<B, D> {
    /// The shape of this side.
    pub open spec fn shape_of(self) -> Shape {
        match self {
            Sink::ByteStream(_) => Shape::ByteStream,
            Sink::Datagrams(_) => Shape::Datagrams,
        }
    }

    /// The shape of this side.
    pub fn shape(&self) -> (s: Shape)
        ensures
            s == self.shape_of(),
    {
        match self {
            Sink::ByteStream(_) => Shape::ByteStream,
            Sink::Datagrams(_) => Shape::Datagrams,
        }
    }
}

/// One live, bidirectional, already wired data path.
///
/// `closing_notification`, where present, is a one-shot signal by which the
/// owner learns that the origin of the pipe has torn it down.
#[derive(Debug)]
pub struct Bipipe<RB, RD, WB, WD, C> {
    pub r: Source<RB, RD>,
    pub w: Sink<WB, WD>,
    pub closing_notification: Option<C>,
}

/// The closing signal of a pipe that wraps another: the signal of the
/// wrapping node where it has established one of its own, else the signal of
/// the inner pipe, carried forward.
pub open spec fn closing_of<C>(own: Option<C>, inner: Option<C>) -> Option<C> {
    match own {
        Some(signal) => Some(signal),
        None => inner,
    }
}

impl<RB, RD, WB, WD, C> Bipipe<RB, RD, WB, WD, C> {
    /// The pipe of a node that wraps another: its own two sides, and the
    /// closing signal that `closing_of` selects.
    pub fn wrapping(r: Source<RB, RD>, w: Sink<WB, WD>, own: Option<C>, inner: Option<C>) -> (pipe:
        Self)
        ensures
            pipe.r == r,
            pipe.w == w,
            pipe.closing_notification == closing_of(own, inner),
    {
        let closing_notification = match own {
            Some(signal) => Some(signal),
            None => inner,
        };
        Bipipe { r, w, closing_notification }
    }
}

/// A reference into the registry of configured nodes.
#[derive(Clone, Copy, Debug, PartialEq, Eq, Hash, Structural)]
pub struct NodeId(pub usize);

/// Why a node could not produce its pipe.
#[derive(Clone, Copy, Debug, PartialEq, Eq, Hash, Structural)]
pub enum NodeError {
    /// The node reference does not resolve in the registry.
    UnresolvedNode(NodeId),
    /// The inner node's pipe is not of the byte-stream shape, on one side or
    /// on both.
    RequiresByteStream,
    /// The connection ended before it handed over a pipe.
    ClosedWithoutPipe,
}

/// The human-readable cause of a node error.
pub open spec fn node_error_text(e: NodeError) -> Seq<char> {
    match e {
        NodeError::UnresolvedNode(_) => "node reference does not resolve in this context"@,
        NodeError::RequiresByteStream => "HTTP server requires a bytestream-based inner node"@,
        NodeError::ClosedWithoutPipe => "connection closed without producing a pipe"@,
    }
}

impl NodeError {
    /// The human-readable cause.
    pub fn message(&self) -> (m: &'static str)
        ensures
            m@ == node_error_text(*self),
    {
        match self {
            NodeError::UnresolvedNode(_) => "node reference does not resolve in this context",
            NodeError::RequiresByteStream => "HTTP server requires a bytestream-based inner node",
            NodeError::ClosedWithoutPipe => "connection closed without producing a pipe",
        }
    }
}

/// The registry of configured nodes that every node's run is given.
///
/// A node is registered once and keeps its reference; a slot that was retired
/// stays empty, so a stale reference never resolves to another node.
pub struct RunContext<N> {
    pub nodes: Vec<Option<N>>,
}

impl<N> RunContext<N> {
    /// The node that `id` refers to, if there is one.
    pub open spec fn node_at(self, id: NodeId) -> Option<N> {
        if id.0 < self.nodes@.len() {
            self.nodes@[id.0 as int]
        } else {
            None
        }
    }

    /// An empty registry.
    pub fn new() -> (ctx: Self)
        ensures
            ctx.nodes@.len() == 0,
    {
        RunContext { nodes: Vec::new() }
    }

    /// Registers a node and returns its reference. Earlier references keep
    /// their meaning.
    pub fn register(&mut self, node: N) -> (id: NodeId)
        ensures
            id.0 == old(self).nodes@.len(),
            final(self).nodes@ == old(self).nodes@.push(Some(node)),
            final(self).node_at(id) == Some(node),
            forall|other: NodeId|
                other != id ==> final(self).node_at(other) == old(self).node_at(other),
    {
        let id = NodeId(self.nodes.len());
        self.nodes.push(Some(node));
        id
    }

    /// Retires a node: its reference is stale from now on. Returns the node,
    /// if the reference resolved.
    pub fn retire(&mut self, id: NodeId) -> (node: Option<N>)
        ensures
            node == old(self).node_at(id),
            final(self).node_at(id) is None,
            final(self).nodes@.len() == old(self).nodes@.len(),
            forall|other: NodeId|
                other != id ==> final(self).node_at(other) == old(self).node_at(other),
    {
        if id.0 < self.nodes.len() {
            let mut slot: Option<N> = None;
            let ghost before = self.nodes@;
            core::mem::swap(&mut slot, &mut self.nodes[id.0]);
            proof {
                assert forall|other: NodeId| other != id implies self.node_at(other) == old(
                    self,
                ).node_at(other) by {
                    if other.0 < before.len() {
                        assert(self.nodes@[other.0 as int] == before[other.0 as int]);
                    }
                }
            }
            slot
        } else {
            None
        }
    }

    /// Resolves a node reference. It fails exactly for a reference that was
    /// never given out or whose node was retired.
    pub fn resolve(&self, id: NodeId) -> (r: Result<&N, NodeError>)
        ensures
            match r {
                Ok(node) => self.node_at(id) == Some(*node),
                Err(e) => self.node_at(id) is None && e == NodeError::UnresolvedNode(id),
            },
    {
        if id.0 < self.nodes.len() {
            match &self.nodes[id.0] {
                Some(node) => Ok(node),
                None => Err(NodeError::UnresolvedNode(id)),
            }
        } else {
            Err(NodeError::UnresolvedNode(id))
        }
    }
}

} // verus!
