//! The processing graph of one run: its nodes, its links and its lifecycle.
//!
//! The graph is a plan. Every transition hands back the commands that bring
//! a media engine's graph to the same shape; carrying them out is the
//! caller's part.

use vstd::prelude::*;
use crate::config::Config;
use crate::profile::{EncodingProfile, ProfileModel};

verus! {

/// The running states of a graph and of each of its nodes.
#[derive(Clone, Copy, Debug, PartialEq, Eq, Structural)]
pub enum Lifecycle {
    Null,
    Ready,
    Paused,
    Playing,
}

/// What a node does in the graph.
#[derive(Clone, Copy, Debug, PartialEq, Eq, Structural)]
pub enum NodeKind {
    /// Reads the input and splits it into elementary streams.
    Source,
    /// Encodes the streams and multiplexes them into the container.
    Encoder,
    /// Writes the output.
    Sink,
    /// Buffers one elementary stream between source and encoder.
    Buffer,
}

/// A processing node: what it does, and the state it runs in.
#[derive(Clone, Copy, Debug, PartialEq, Eq, Structural)]
pub struct Node {
    pub kind: NodeKind,
    pub state: Lifecycle,
}

/// A connection point of a node.
#[derive(Clone, Copy, Debug, PartialEq, Eq, Structural)]
pub enum Pad {
    /// The one output of a buffer or of the encoder.
    Src,
    /// The one input of a buffer or of the sink.
    Sink,
    /// The output that the source opened for a stream: the number counts
    /// the streams that were routed before it.
    Stream(usize),
    /// A video input of the encoder: the number counts the video inputs
    /// that were asked for before it.
    Video(usize),
    /// An audio input of the encoder: the number counts the audio inputs
    /// that were asked for before it.
    Audio(usize),
}

/// A pad of one node; nodes go by their place among the graph's nodes.
#[derive(Clone, Copy, Debug, PartialEq, Eq, Structural)]
pub struct Port {
    pub node: usize,
    pub pad: Pad,
}

/// A link from an output of one node to an input of another.
#[derive(Clone, Copy, Debug, PartialEq, Eq, Structural)]
pub struct Link {
    pub from: Port,
    pub to: Port,
}

/// One thing for the media engine to do.
#[derive(Clone, Copy, Debug, PartialEq, Eq, Structural)]
pub enum Command {
    /// Create a node of this kind and add it to the graph under this number.
    AddNode { node: usize, kind: NodeKind },
    /// Ask a node for a new input of this pad's kind.
    RequestPad(Port),
    /// Link an output to an input.
    Connect(Link),
    /// Bring a node to the state that the graph is in.
    SyncState(usize),
    /// Drive the graph, and every node in it, to a state.
    SetState(Lifecycle),
}

impl NodeKind {
    /// The engine's name for the kind of element that does this node's
    /// work.
    pub open spec fn factory_name(self) -> Seq<char> {
        match self {
            NodeKind::Source => "uridecodebin"@,
            NodeKind::Encoder => "encodebin"@,
            NodeKind::Sink => "filesink"@,
            NodeKind::Buffer => "queue"@,
        }
    }

    /// The engine's name for the kind of element that does this node's
    /// work.
    pub fn factory(self) -> (name: &'static str)
        ensures
            name@ == self.factory_name(),
    {
        match self {
            NodeKind::Source => "uridecodebin",
            NodeKind::Encoder => "encodebin",
            NodeKind::Sink => "filesink",
            NodeKind::Buffer => "queue",
        }
    }
}

impl Pad {
    /// The engine's name for the pads of this kind, with `%u` where the
    /// engine puts a number of its own choice.
    pub open spec fn template_name(self) -> Seq<char> {
        match self {
            Pad::Src => "src"@,
            Pad::Sink => "sink"@,
            Pad::Stream(_) => "src_%u"@,
            Pad::Video(_) => "video_%u"@,
            Pad::Audio(_) => "audio_%u"@,
        }
    }

    /// The engine's name for the pads of this kind.
    pub fn template(self) -> (name: &'static str)
        ensures
            name@ == self.template_name(),
    {
        match self {
            Pad::Src => "src",
            Pad::Sink => "sink",
            Pad::Stream(_) => "src_%u",
            Pad::Video(_) => "video_%u",
            Pad::Audio(_) => "audio_%u",
        }
    }
}

/// Where the source stands among a graph's nodes.
pub const SOURCE: usize = 0;

/// Where the encoder stands among a graph's nodes.
pub const ENCODER: usize = 1;

/// Where the sink stands among a graph's nodes.
pub const SINK: usize = 2;

/// How many nodes a graph is built with; buffers follow them.
pub const FIXED_NODES: usize = 3;

/// The link that every graph is built with: encoder to sink.
pub open spec fn output_link() -> Link {
    Link { from: Port { node: ENCODER, pad: Pad::Src }, to: Port { node: SINK, pad: Pad::Sink } }
}

/// The link from the source's output for stream `k` into the buffer of
/// that stream.
pub open spec fn upstream_link(k: int) -> Link {
    Link {
        from: Port { node: SOURCE, pad: Pad::Stream(k as usize) },
        to: Port { node: (FIXED_NODES + k) as usize, pad: Pad::Sink },
    }
}

/// The link from the buffer of stream `k` into the encoder's input `pad`.
pub open spec fn downstream_link(k: int, pad: Pad) -> Link {
    Link {
        from: Port { node: (FIXED_NODES + k) as usize, pad: Pad::Src },
        to: Port { node: ENCODER, pad },
    }
}

/// What a graph is, as mathematics.
pub struct GraphModel {
    pub source_uri: Seq<char>,
    pub sink_location: Seq<char>,
    pub profile: ProfileModel,
    pub nodes: Seq<Node>,
    pub links: Seq<Link>,
    pub state: Lifecycle,
    /// How many video inputs the encoder has handed out.
    pub video_pads: nat,
    /// How many audio inputs the encoder has handed out.
    pub audio_pads: nat,
}

impl GraphModel {
    /// The graph as it is built: source, encoder and sink, all at rest, and
    /// the encoder linked to the sink. The source is linked to nothing.
    pub open spec fn initial(
        source_uri: Seq<char>,
        sink_location: Seq<char>,
        profile: ProfileModel,
    ) -> GraphModel {
        GraphModel {
            source_uri,
            sink_location,
            profile,
            nodes: seq![
                Node { kind: NodeKind::Source, state: Lifecycle::Null },
                Node { kind: NodeKind::Encoder, state: Lifecycle::Null },
                Node { kind: NodeKind::Sink, state: Lifecycle::Null },
            ],
            links: seq![output_link()],
            state: Lifecycle::Null,
            video_pads: 0,
            audio_pads: 0,
        }
    }

    /// Whether the graph has given up its nodes.
    pub open spec fn released(self) -> bool {
        self.nodes.len() == 0
    }

    /// How many buffers the graph holds, one for each stream routed.
    pub open spec fn buffers(self) -> int {
        self.nodes.len() - FIXED_NODES
    }

    /// The link into the buffer of stream `k`.
    pub open spec fn upstream(self, k: int) -> Link {
        self.links[1 + 2 * k]
    }

    /// The link out of the buffer of stream `k`.
    pub open spec fn downstream(self, k: int) -> Link {
        self.links[2 + 2 * k]
    }

    /// Whether `pad` is an input that the encoder has handed out.
    pub open spec fn issued(self, pad: Pad) -> bool {
        match pad {
            Pad::Video(n) => n < self.video_pads,
            Pad::Audio(n) => n < self.audio_pads,
            _ => false,
        }
    }

    /// The shape of a graph that holds its nodes: the three fixed nodes,
    /// then one buffer for each stream routed; every node in the graph's
    /// state; every buffer linked on both sides, from the source's output
    /// for its stream and into an encoder input of its own.
    pub open spec fn live(self) -> bool {
        &&& FIXED_NODES <= self.nodes.len() <= usize::MAX
        &&& self.nodes[SOURCE as int].kind == NodeKind::Source
        &&& self.nodes[ENCODER as int].kind == NodeKind::Encoder
        &&& self.nodes[SINK as int].kind == NodeKind::Sink
        &&& forall|i: int|
            FIXED_NODES <= i < self.nodes.len() ==> (#[trigger] self.nodes[i]).kind
                == NodeKind::Buffer
        &&& forall|i: int| 0 <= i < self.nodes.len() ==> (#[trigger] self.nodes[i]).state == self.state
        &&& self.links.len() == 1 + 2 * self.buffers()
        &&& self.links[0] == output_link()
        &&& self.video_pads + self.audio_pads == self.buffers()
        &&& forall|k: int| 0 <= k < self.buffers() ==> #[trigger] self.upstream(k) == upstream_link(k)
        &&& forall|k: int|
            0 <= k < self.buffers() ==> {
                &&& #[trigger] self.downstream(k) == downstream_link(k, self.downstream(k).to.pad)
                &&& self.issued(self.downstream(k).to.pad)
            }
        &&& forall|j: int, k: int|
            0 <= j < k < self.buffers() ==> (#[trigger] self.downstream(j)).to.pad != (
            #[trigger] self.downstream(k)).to.pad
    }

    /// The shape of a graph that has given up its nodes.
    pub open spec fn at_rest(self) -> bool {
        &&& self.nodes.len() == 0
        &&& self.links.len() == 0
        &&& self.state == Lifecycle::Null
        &&& self.video_pads == 0
        &&& self.audio_pads == 0
    }

    /// Well-formedness: a graph either holds its nodes, in the shape above,
    /// or has given them all up.
    pub open spec fn wf(self) -> bool {
        self.live() || self.at_rest()
    }

    /// The graph with every node brought to `target`.
    pub open spec fn in_state(self, target: Lifecycle) -> GraphModel {
        GraphModel {
            nodes: Seq::new(
                self.nodes.len(),
                |i: int| Node { kind: self.nodes[i].kind, state: target },
            ),
            state: target,
            ..self
        }
    }

    /// The graph with every node and link given up.
    pub open spec fn torn_down(self) -> GraphModel {
        GraphModel {
            nodes: Seq::empty(),
            links: Seq::empty(),
            state: Lifecycle::Null,
            video_pads: 0,
            audio_pads: 0,
            ..self
        }
    }

    /// The graph after it is driven to `target`. Driving it to `Null`
    /// gives up its nodes; a graph that has none stays as it is.
    pub open spec fn driven_to(self, target: Lifecycle) -> GraphModel {
        if target == Lifecycle::Null {
            self.torn_down()
        } else if self.released() {
            self
        } else {
            self.in_state(target)
        }
    }
}

/// The commands that build a graph: the three fixed nodes, then the link
/// from encoder to sink.
pub open spec fn construction_plan() -> Seq<Command> {
    seq![
        Command::AddNode { node: SOURCE, kind: NodeKind::Source },
        Command::AddNode { node: ENCODER, kind: NodeKind::Encoder },
        Command::AddNode { node: SINK, kind: NodeKind::Sink },
        Command::Connect(output_link()),
    ]
}

/// The commands that drive a graph to `target`: none where it has no nodes
/// left to drive to a running state.
pub open spec fn transition_plan(graph: GraphModel, target: Lifecycle) -> Seq<Command> {
    if target != Lifecycle::Null && graph.released() {
        Seq::empty()
    } else {
        seq![Command::SetState(target)]
    }
}

/// The part of a graph that changes in the course of a run.
#[derive(Debug)]
pub(crate) struct Shape {
    pub(crate) nodes: Vec<Node>,
    pub(crate) links: Vec<Link>,
    pub(crate) state: Lifecycle,
    pub(crate) video_pads: usize,
    pub(crate) audio_pads: usize,
}

impl Shape {
    /// The shape of a graph that has given up its nodes.
    pub(crate) fn released() -> (shape: Shape)
        ensures
            shape.nodes@ == Seq::<Node>::empty(),
            shape.links@ == Seq::<Link>::empty(),
            shape.state == Lifecycle::Null,
            shape.video_pads == 0,
            shape.audio_pads == 0,
    {
        Shape {
            nodes: Vec::new(),
            links: Vec::new(),
            state: Lifecycle::Null,
            video_pads: 0,
            audio_pads: 0,
        }
    }
}

/// The processing graph of one run. It owns its nodes from construction
/// until it is driven back to `Null`, and is well-formed all the while.
#[derive(Debug)]
pub struct PipelineGraph {
    pub(crate) source_uri: String,
    pub(crate) sink_location: String,
    pub(crate) profile: EncodingProfile,
    pub(crate) shape: Shape,
}

impl View for PipelineGraph {
    type V = GraphModel;

    open(crate) spec fn view(&self) -> GraphModel {
        GraphModel {
            source_uri: self.source_uri@,
            sink_location: self.sink_location@,
            profile: self.profile@,
            nodes: self.shape.nodes@,
            links: self.shape.links@,
            state: self.shape.state,
            video_pads: self.shape.video_pads as nat,
            audio_pads: self.shape.audio_pads as nat,
        }
    }
}

impl PipelineGraph {
    #[verifier::type_invariant]
    pub(crate) open spec fn well_formed(self) -> bool {
        self@.wf()
    }

    /// Builds the graph of a run, at rest: a source that reads the
    /// configuration's input, an encoder that follows `profile`, and a sink
    /// that writes the configuration's output.
    pub fn new(config: &Config, profile: EncodingProfile) -> (graph: PipelineGraph)
        ensures
            graph@ == GraphModel::initial(config.input@, config.output@, profile@),
            graph@.wf(),
    {
        let mut nodes: Vec<Node> = Vec::new();
        nodes.push(Node { kind: NodeKind::Source, state: Lifecycle::Null });
        nodes.push(Node { kind: NodeKind::Encoder, state: Lifecycle::Null });
        nodes.push(Node { kind: NodeKind::Sink, state: Lifecycle::Null });
        let mut links: Vec<Link> = Vec::new();
        links.push(
            Link {
                from: Port { node: ENCODER, pad: Pad::Src },
                to: Port { node: SINK, pad: Pad::Sink },
            },
        );
        let source_uri = config.input.clone();
        let sink_location = config.output.clone();
        proof {
            let model = GraphModel::initial(source_uri@, sink_location@, profile@);
            assert(nodes@ =~= model.nodes);
            assert(links@ =~= model.links);
            assert(model.live());
        }
        PipelineGraph {
            source_uri,
            sink_location,
            profile,
            shape: Shape { nodes, links, state: Lifecycle::Null, video_pads: 0, audio_pads: 0 },
        }
    }

    /// The commands that build the graph in the engine.
    pub fn construction_commands() -> (commands: Vec<Command>)
        ensures
            commands@ == construction_plan(),
    {
        let mut commands: Vec<Command> = Vec::new();
        commands.push(Command::AddNode { node: SOURCE, kind: NodeKind::Source });
        commands.push(Command::AddNode { node: ENCODER, kind: NodeKind::Encoder });
        commands.push(Command::AddNode { node: SINK, kind: NodeKind::Sink });
        commands.push(
            Command::Connect(
                Link {
                    from: Port { node: ENCODER, pad: Pad::Src },
                    to: Port { node: SINK, pad: Pad::Sink },
                },
            ),
        );
        assert(commands@ =~= construction_plan());
        commands
    }

    /// Drives the graph to `target` and hands back what the engine is to
    /// do for it. `Null` gives up every node and link.
    pub fn set_state(&mut self, target: Lifecycle) -> (commands: Vec<Command>)
        ensures
            final(self)@ == old(self)@.driven_to(target),
            final(self)@.wf(),
            commands@ == transition_plan(old(self)@, target),
    {
        proof {
            use_type_invariant(&*self);
        }
        let mut commands: Vec<Command> = Vec::new();
        match target {
            Lifecycle::Null => {
                self.shape = Shape::released();
                commands.push(Command::SetState(Lifecycle::Null));
            },
            _ => {
                if self.shape.nodes.len() > 0 {
                    let mut shape = Shape::released();
                    std::mem::swap(&mut self.shape, &mut shape);
                    let count: usize = shape.nodes.len();
                    let mut i: usize = 0;
                    while i < count
                        invariant
                            count == shape.nodes@.len() == old(self).shape.nodes@.len(),
                            i <= count,
                            forall|j: int|
                                0 <= j < i ==> shape.nodes@[j] == (Node {
                                    kind: old(self).shape.nodes@[j].kind,
                                    state: target,
                                }),
                            forall|j: int|
                                i <= j < count ==> shape.nodes@[j] == old(self).shape.nodes@[j],
                            shape.links == old(self).shape.links,
                            shape.video_pads == old(self).shape.video_pads,
                            shape.audio_pads == old(self).shape.audio_pads,
                        decreases count - i,
                    {
                        let kind = shape.nodes[i].kind;
                        shape.nodes.set(i, Node { kind, state: target });
                        i = i + 1;
                    }
                    shape.state = target;
                    proof {
                        assert(shape.nodes@ =~= old(self)@.in_state(target).nodes);
                        lemma_in_state_live(old(self)@, target);
                    }
                    std::mem::swap(&mut self.shape, &mut shape);
                    commands.push(Command::SetState(target));
                }
            },
        }
        assert(commands@ =~= transition_plan(old(self)@, target));
        commands
    }

    /// Requests the running state: the one transition that a run asks for
    /// once its graph is built.
    pub fn play(&mut self) -> (commands: Vec<Command>)
        ensures
            final(self)@ == old(self)@.driven_to(Lifecycle::Playing),
            final(self)@.wf(),
            commands@ == transition_plan(old(self)@, Lifecycle::Playing),
    {
        self.set_state(Lifecycle::Playing)
    }

    /// Ends the run: drives the graph to `Null`, whatever state it is in,
    /// and gives up every node and link.
    pub fn shutdown(&mut self) -> (commands: Vec<Command>)
        ensures
            final(self)@ == old(self)@.torn_down(),
            final(self)@.at_rest(),
            commands@ == seq![Command::SetState(Lifecycle::Null)],
    {
        self.set_state(Lifecycle::Null)
    }

    /// The state that the graph is in.
    pub fn state(&self) -> (state: Lifecycle)
        ensures
            state == self@.state,
    {
        self.shape.state
    }

    /// The nodes that the graph holds: source, encoder, sink, then the
    /// buffers in the order of their streams.
    pub fn nodes(&self) -> (nodes: &Vec<Node>)
        ensures
            nodes@ == self@.nodes,
    {
        &self.shape.nodes
    }

    /// The links that the graph holds, in the order they were made.
    pub fn links(&self) -> (links: &Vec<Link>)
        ensures
            links@ == self@.links,
    {
        &self.shape.links
    }

    /// Whether the graph has given up its nodes.
    pub fn is_released(&self) -> (released: bool)
        ensures
            released == self@.released(),
            self@.wf(),
    {
        proof {
            use_type_invariant(self);
        }
        self.shape.nodes.len() == 0
    }

    /// How many buffers the graph holds: one for each stream routed, none
    /// once the nodes are given up.
    pub fn buffer_count(&self) -> (count: usize)
        ensures
            count == if self@.released() { 0 } else { self@.buffers() },
            count == self@.video_pads + self@.audio_pads,
            self@.wf(),
    {
        proof {
            use_type_invariant(self);
        }
        if self.shape.nodes.len() == 0 {
            0
        } else {
            self.shape.nodes.len() - FIXED_NODES
        }
    }

    /// The address that the source reads.
    pub fn source_uri(&self) -> (uri: &String)
        ensures
            uri@ == self@.source_uri,
    {
        &self.source_uri
    }

    /// The path that the sink writes.
    pub fn sink_location(&self) -> (location: &String)
        ensures
            location@ == self@.sink_location,
    {
        &self.sink_location
    }

    /// The profile that the encoder follows.
    pub fn profile(&self) -> (profile: &EncodingProfile)
        ensures
            profile@ == self@.profile,
    {
        &self.profile
    }
}

/// A live graph stays live when all of it is brought to another state.
pub proof fn lemma_in_state_live(graph: GraphModel, target: Lifecycle)
    requires
        graph.live(),
    ensures
        graph.in_state(target).live(),
{
    let next = graph.in_state(target);
    assert forall|k: int| 0 <= k < next.buffers() implies #[trigger] next.upstream(k)
        == upstream_link(k) by {
        assert(graph.upstream(k) == upstream_link(k));
    }
    assert forall|k: int| 0 <= k < next.buffers() implies {
        &&& #[trigger] next.downstream(k) == downstream_link(k, next.downstream(k).to.pad)
        &&& next.issued(next.downstream(k).to.pad)
    } by {
        assert(graph.downstream(k) == downstream_link(k, graph.downstream(k).to.pad));
    }
    assert forall|j: int, k: int| 0 <= j < k < next.buffers() implies (#[trigger] next.downstream(
        j,
    )).to.pad != (#[trigger] next.downstream(k)).to.pad by {
        assert(graph.downstream(j).to.pad != graph.downstream(k).to.pad);
    }
}

} // verus!
