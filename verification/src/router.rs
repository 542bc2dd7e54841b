//! The stream router: what the graph does with each elementary stream that
//! the source discovers.

use vstd::prelude::*;
use crate::graph::{
    downstream_link, upstream_link, Command, GraphModel, Link, Node, NodeKind, Pad, PipelineGraph,
    Port, Shape, ENCODER, FIXED_NODES, SOURCE,
};
use crate::profile::StreamKind;
use crate::text::{characters, starts_with};

verus! {

/// What a discovered stream carries, as far as the router cares.
#[derive(Clone, Copy, Debug, PartialEq, Eq, Structural)]
pub enum StreamClass {
    Video,
    Audio,
    Other,
}

impl StreamClass {
    /// The kind of encoder input that a stream of this class needs, if it
    /// is encoded at all.
    pub open spec fn kind(self) -> Option<StreamKind> {
        match self {
            StreamClass::Video => Some(StreamKind::Video),
            StreamClass::Audio => Some(StreamKind::Audio),
            StreamClass::Other => None,
        }
    }

    /// The kind of encoder input that a stream of this class needs, if it
    /// is encoded at all.
    pub fn encoded_as(self) -> (kind: Option<StreamKind>)
        ensures
            kind == self.kind(),
    {
        match self {
            StreamClass::Video => Some(StreamKind::Video),
            StreamClass::Audio => Some(StreamKind::Audio),
            StreamClass::Other => None,
        }
    }
}

/// The class of a negotiated media type, by its leading category.
pub open spec fn class_of(media_type: Seq<char>) -> StreamClass {
    if "video/"@.is_prefix_of(media_type) {
        StreamClass::Video
    } else if "audio/"@.is_prefix_of(media_type) {
        StreamClass::Audio
    } else {
        StreamClass::Other
    }
}

/// Classifies a discovered stream by the name of its media type.
pub fn classify(media_type: &str) -> (class: StreamClass)
    ensures
        class == class_of(media_type@),
{
    let name = characters(media_type);
    if starts_with(name.as_slice(), characters("video/").as_slice()) {
        StreamClass::Video
    } else if starts_with(name.as_slice(), characters("audio/").as_slice()) {
        StreamClass::Audio
    } else {
        StreamClass::Other
    }
}

/// Every media type has exactly one class: one that begins with `video/` is
/// video, one that begins with `audio/` is audio, and every other one is
/// neither.
pub proof fn classification_is_total(media_type: Seq<char>)
    ensures
        "video/"@.is_prefix_of(media_type) <==> class_of(media_type) == StreamClass::Video,
        "audio/"@.is_prefix_of(media_type) <==> class_of(media_type) == StreamClass::Audio,
        !"video/"@.is_prefix_of(media_type) && !"audio/"@.is_prefix_of(media_type) <==> class_of(
            media_type,
        ) == StreamClass::Other,
{
    reveal_strlit("video/");
    reveal_strlit("audio/");
    if "video/"@.is_prefix_of(media_type) && "audio/"@.is_prefix_of(media_type) {
        assert(media_type.subrange(0, 6)[0] == 'v');
        assert(media_type.subrange(0, 6)[0] == 'a');
    }
}

impl GraphModel {
    /// The encoder input that the next stream of `kind` is given: the
    /// first number of its kind that is not handed out yet.
    pub open spec fn next_pad(self, kind: StreamKind) -> Pad {
        match kind {
            StreamKind::Video => Pad::Video(self.video_pads as usize),
            StreamKind::Audio => Pad::Audio(self.audio_pads as usize),
        }
    }

    /// The graph with one more stream of `kind` routed: a buffer in the
    /// graph's state, a link into it from the source's output for the
    /// stream, and a link out of it into a new encoder input.
    pub open spec fn with_stream(self, kind: StreamKind) -> GraphModel {
        GraphModel {
            nodes: self.nodes.push(Node { kind: NodeKind::Buffer, state: self.state }),
            links: self.links.push(upstream_link(self.buffers())).push(
                downstream_link(self.buffers(), self.next_pad(kind)),
            ),
            video_pads: if kind == StreamKind::Video {
                self.video_pads + 1
            } else {
                self.video_pads
            },
            audio_pads: if kind == StreamKind::Audio {
                self.audio_pads + 1
            } else {
                self.audio_pads
            },
            ..self
        }
    }

    /// The graph after a stream of `class` is discovered. A stream that is
    /// neither video nor audio is left unconnected, and so is every stream
    /// once the graph has given up its nodes.
    pub open spec fn routed(self, class: StreamClass) -> GraphModel {
        match class.kind() {
            Some(kind) => if self.released() {
                self
            } else {
                self.with_stream(kind)
            },
            None => self,
        }
    }
}

/// The commands that route a stream of `class` into `graph`: add its
/// buffer, ask the encoder for an input, link the source's output into the
/// buffer and the buffer into that input, then bring the buffer to the
/// graph's state.
pub open spec fn routing_plan(graph: GraphModel, class: StreamClass) -> Seq<Command> {
    match class.kind() {
        Some(kind) => if graph.released() {
            Seq::empty()
        } else {
            let buffer = graph.nodes.len() as usize;
            let pad = graph.next_pad(kind);
            seq![
                Command::AddNode { node: buffer, kind: NodeKind::Buffer },
                Command::RequestPad(Port { node: ENCODER, pad }),
                Command::Connect(upstream_link(graph.buffers())),
                Command::Connect(downstream_link(graph.buffers(), pad)),
                Command::SyncState(buffer),
            ]
        },
        None => Seq::empty(),
    }
}

impl PipelineGraph {
    /// Routes a stream that the source has discovered, by the name of its
    /// media type, and hands back what the engine is to do for it.
    pub fn route_stream(&mut self, media_type: &str) -> (commands: Vec<Command>)
        ensures
            final(self)@ == old(self)@.routed(class_of(media_type@)),
            final(self)@.wf(),
            commands@ == routing_plan(old(self)@, class_of(media_type@)),
    {
        self.route(classify(media_type))
    }

    /// Routes a stream of a known class.
    pub fn route(&mut self, class: StreamClass) -> (commands: Vec<Command>)
        ensures
            final(self)@ == old(self)@.routed(class),
            final(self)@.wf(),
            commands@ == routing_plan(old(self)@, class),
    {
        proof {
            use_type_invariant(&*self);
        }
        let mut commands: Vec<Command> = Vec::new();
        let buffer: usize = self.shape.nodes.len();
        if buffer == 0 {
            return commands;
        }
        let kind = match class.encoded_as() {
            Some(kind) => kind,
            None => {
                return commands;
            },
        };
        let mut shape = Shape::released();
        std::mem::swap(&mut self.shape, &mut shape);
        let stream: usize = buffer - FIXED_NODES;
        let pad = match kind {
            StreamKind::Video => Pad::Video(shape.video_pads),
            StreamKind::Audio => Pad::Audio(shape.audio_pads),
        };
        let upstream = Link {
            from: Port { node: SOURCE, pad: Pad::Stream(stream) },
            to: Port { node: buffer, pad: Pad::Sink },
        };
        let downstream = Link {
            from: Port { node: buffer, pad: Pad::Src },
            to: Port { node: ENCODER, pad },
        };
        shape.nodes.push(Node { kind: NodeKind::Buffer, state: shape.state });
        shape.links.push(upstream);
        shape.links.push(downstream);
        match kind {
            StreamKind::Video => {
                shape.video_pads = shape.video_pads + 1;
            },
            StreamKind::Audio => {
                shape.audio_pads = shape.audio_pads + 1;
            },
        }
        proof {
            let next = old(self)@.with_stream(kind);
            assert(shape.nodes@.len() == shape.nodes.len());
            assert(shape.nodes@ =~= next.nodes);
            assert(shape.links@ =~= next.links);
            lemma_with_stream_live(old(self)@, kind);
        }
        std::mem::swap(&mut self.shape, &mut shape);
        commands.push(Command::AddNode { node: buffer, kind: NodeKind::Buffer });
        commands.push(Command::RequestPad(Port { node: ENCODER, pad }));
        commands.push(Command::Connect(upstream));
        commands.push(Command::Connect(downstream));
        commands.push(Command::SyncState(buffer));
        assert(commands@ =~= routing_plan(old(self)@, class));
        commands
    }
}

/// A live graph stays live when a stream is routed into it: the new buffer
/// is linked on both sides, and its encoder input is no other buffer's.
pub proof fn lemma_with_stream_live(graph: GraphModel, kind: StreamKind)
    requires
        graph.live(),
        graph.nodes.len() < usize::MAX,
    ensures
        graph.with_stream(kind).live(),
{
    let next = graph.with_stream(kind);
    let fresh = graph.buffers();
    assert forall|i: int| FIXED_NODES <= i < next.nodes.len() implies (#[trigger] next.nodes[i]).kind
        == NodeKind::Buffer by {
        if i < graph.nodes.len() {
            assert(next.nodes[i] == graph.nodes[i]);
        }
    }
    assert forall|i: int| 0 <= i < next.nodes.len() implies (#[trigger] next.nodes[i]).state
        == next.state by {
        if i < graph.nodes.len() {
            assert(next.nodes[i] == graph.nodes[i]);
        }
    }
    assert forall|k: int| 0 <= k < next.buffers() implies #[trigger] next.upstream(k)
        == upstream_link(k) by {
        if k < fresh {
            assert(next.upstream(k) == graph.upstream(k));
        }
    }
    assert forall|k: int| 0 <= k < next.buffers() implies {
        &&& #[trigger] next.downstream(k) == downstream_link(k, next.downstream(k).to.pad)
        &&& next.issued(next.downstream(k).to.pad)
    } by {
        if k < fresh {
            assert(next.downstream(k) == graph.downstream(k));
            assert(graph.issued(graph.downstream(k).to.pad));
        }
    }
    assert forall|j: int, k: int| 0 <= j < k < next.buffers() implies (#[trigger] next.downstream(
        j,
    )).to.pad != (#[trigger] next.downstream(k)).to.pad by {
        assert(next.downstream(j) == graph.downstream(j));
        assert(graph.issued(graph.downstream(j).to.pad));
        if k < fresh {
            assert(next.downstream(k) == graph.downstream(k));
        }
    }
}

/// No link of a live graph touches a node that the graph does not hold yet,
/// leaves the source by an output that no stream was given yet, or enters
/// the encoder by an input that was not handed out yet.
pub proof fn lemma_links_stay_within(graph: GraphModel, i: int)
    requires
        graph.live(),
        0 <= i < graph.links.len(),
    ensures
        graph.links[i].from.node < graph.nodes.len(),
        graph.links[i].to.node < graph.nodes.len(),
        graph.links[i].from.pad matches Pad::Stream(n) ==> n < graph.buffers(),
        graph.links[i].to.pad matches Pad::Video(n) ==> n < graph.video_pads,
        graph.links[i].to.pad matches Pad::Audio(n) ==> n < graph.audio_pads,
{
    if i == 0 {
    } else if i % 2 == 1 {
        let k = (i - 1) / 2;
        assert(graph.upstream(k) == upstream_link(k));
    } else {
        let k = (i - 2) / 2;
        assert(graph.downstream(k) == downstream_link(k, graph.downstream(k).to.pad));
        assert(graph.issued(graph.downstream(k).to.pad));
    }
}

/// Routing a stream adds exactly one buffer and exactly two links, one into
/// the buffer and one out of it, and leaves every node and link that was
/// there as it was. Nothing that was there touches the new buffer, the
/// source output that feeds it or the encoder input that it feeds.
pub proof fn route_adds_one_buffer_and_two_links(graph: GraphModel, kind: StreamKind)
    requires
        graph.live(),
        graph.nodes.len() < usize::MAX,
    ensures
        ({
            let next = graph.with_stream(kind);
            let buffer = graph.nodes.len() as int;
            let into = next.links[graph.links.len() as int];
            let out = next.links[graph.links.len() as int + 1];
            &&& next.live()
            &&& next.nodes.len() == graph.nodes.len() + 1
            &&& next.links.len() == graph.links.len() + 2
            &&& graph.nodes.is_prefix_of(next.nodes)
            &&& graph.links.is_prefix_of(next.links)
            &&& next.nodes[buffer] == (Node { kind: NodeKind::Buffer, state: graph.state })
            &&& into.from.node == SOURCE
            &&& into.to == (Port { node: buffer as usize, pad: Pad::Sink })
            &&& out.from == (Port { node: buffer as usize, pad: Pad::Src })
            &&& out.to == (Port { node: ENCODER, pad: graph.next_pad(kind) })
            &&& forall|i: int|
                0 <= i < graph.links.len() ==> {
                    &&& (#[trigger] graph.links[i]).from.node != buffer
                    &&& graph.links[i].to.node != buffer
                    &&& graph.links[i].from != into.from
                    &&& graph.links[i].to != out.to
                }
        }),
{
    let next = graph.with_stream(kind);
    lemma_with_stream_live(graph, kind);
    assert(graph.nodes =~= next.nodes.subrange(0, graph.nodes.len() as int));
    assert(graph.links =~= next.links.subrange(0, graph.links.len() as int));
    assert forall|i: int| 0 <= i < graph.links.len() implies {
        &&& (#[trigger] graph.links[i]).from.node != graph.nodes.len()
        &&& graph.links[i].to.node != graph.nodes.len()
        &&& graph.links[i].from != next.links[graph.links.len() as int].from
        &&& graph.links[i].to != next.links[graph.links.len() as int + 1].to
    } by {
        lemma_links_stay_within(graph, i);
    }
}

/// A stream that is neither video nor audio leaves the graph as it was and
/// asks nothing of the engine.
pub proof fn other_streams_are_left_alone(graph: GraphModel, media_type: Seq<char>)
    requires
        !"video/"@.is_prefix_of(media_type),
        !"audio/"@.is_prefix_of(media_type),
    ensures
        graph.routed(class_of(media_type)) == graph,
        routing_plan(graph, class_of(media_type)) == Seq::<Command>::empty(),
{
}

/// Two streams routed one after the other do not interfere. Each gets a
/// buffer, a source output and an encoder input of its own; routing the
/// second leaves the first one's links as they were; and in either order
/// the graph ends with the same nodes and the same encoder inputs handed
/// out.
pub proof fn routes_are_independent(graph: GraphModel, first: StreamKind, second: StreamKind)
    requires
        graph.live(),
        graph.nodes.len() + 1 < usize::MAX,
    ensures
        ({
            let one = graph.with_stream(first);
            let both = one.with_stream(second);
            let swapped = graph.with_stream(second).with_stream(first);
            let k = graph.buffers();
            &&& both.live()
            &&& both.nodes.len() == graph.nodes.len() + 2
            &&& both.links.len() == graph.links.len() + 4
            &&& both.upstream(k) == one.upstream(k)
            &&& both.downstream(k) == one.downstream(k)
            &&& both.upstream(k).to.node != both.upstream(k + 1).to.node
            &&& both.upstream(k).from != both.upstream(k + 1).from
            &&& both.downstream(k).from.node != both.downstream(k + 1).from.node
            &&& both.downstream(k).to != both.downstream(k + 1).to
            &&& swapped.live()
            &&& swapped.nodes == both.nodes
            &&& swapped.links.len() == both.links.len()
            &&& forall|pad: Pad| swapped.issued(pad) == both.issued(pad)
        }),
{
    let one = graph.with_stream(first);
    let both = one.with_stream(second);
    let other = graph.with_stream(second);
    let swapped = other.with_stream(first);
    lemma_with_stream_live(graph, first);
    lemma_with_stream_live(one, second);
    lemma_with_stream_live(graph, second);
    lemma_with_stream_live(other, first);
    assert(swapped.nodes =~= both.nodes);
}

} // verus!
