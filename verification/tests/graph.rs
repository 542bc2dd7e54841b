use transcoder::config::Config;
use transcoder::graph::{
    Command, Lifecycle, Link, Node, NodeKind, Pad, PipelineGraph, Port, ENCODER, FIXED_NODES, SINK,
    SOURCE,
};
use transcoder::profile::{build_profile, create_encoding_profile};

fn config(input: &str, output: &str) -> Config {
    Config::new(&[String::from("transcoder"), String::from(input), String::from(output)]).unwrap()
}

fn fresh() -> PipelineGraph {
    let config = config("sample.mov", "out.mp4");
    PipelineGraph::new(&config, create_encoding_profile(&config))
}

fn output_link() -> Link {
    Link { from: Port { node: ENCODER, pad: Pad::Src }, to: Port { node: SINK, pad: Pad::Sink } }
}

#[test]
fn a_new_graph_holds_source_encoder_and_sink_at_rest() {
    let graph = fresh();
    assert_eq!(
        graph.nodes(),
        &vec![
            Node { kind: NodeKind::Source, state: Lifecycle::Null },
            Node { kind: NodeKind::Encoder, state: Lifecycle::Null },
            Node { kind: NodeKind::Sink, state: Lifecycle::Null },
        ]
    );
    assert_eq!(graph.state(), Lifecycle::Null);
    assert!(!graph.is_released());
    assert_eq!(graph.buffer_count(), 0);
}

#[test]
fn a_new_graph_links_only_encoder_to_sink() {
    let graph = fresh();
    assert_eq!(graph.links(), &vec![output_link()]);
    assert!(graph.links().iter().all(|l| l.from.node != SOURCE && l.to.node != SOURCE));
}

#[test]
fn a_new_graph_keeps_what_it_was_built_from() {
    let config = config("file:///tmp/in.mov", "/tmp/out.mkv");
    let graph = PipelineGraph::new(&config, create_encoding_profile(&config));
    assert_eq!(graph.source_uri(), "file:///tmp/in.mov");
    assert_eq!(graph.sink_location(), "/tmp/out.mkv");
    assert_eq!(graph.profile(), &build_profile(&config.output_format));
    assert_eq!(graph.profile().container, "video/x-matroska");
}

#[test]
fn fixed_nodes_stand_in_their_places() {
    let graph = fresh();
    assert_eq!(graph.nodes()[SOURCE].kind, NodeKind::Source);
    assert_eq!(graph.nodes()[ENCODER].kind, NodeKind::Encoder);
    assert_eq!(graph.nodes()[SINK].kind, NodeKind::Sink);
    assert_eq!(graph.nodes().len(), FIXED_NODES);
}

#[test]
fn construction_adds_the_nodes_then_links_the_output() {
    assert_eq!(
        PipelineGraph::construction_commands(),
        vec![
            Command::AddNode { node: 0, kind: NodeKind::Source },
            Command::AddNode { node: 1, kind: NodeKind::Encoder },
            Command::AddNode { node: 2, kind: NodeKind::Sink },
            Command::Connect(output_link()),
        ]
    );
}

#[test]
fn play_brings_every_node_to_playing() {
    let mut graph = fresh();
    let commands = graph.play();
    assert_eq!(commands, vec![Command::SetState(Lifecycle::Playing)]);
    assert_eq!(graph.state(), Lifecycle::Playing);
    assert_eq!(graph.nodes().len(), 3);
    assert!(graph.nodes().iter().all(|n| n.state == Lifecycle::Playing));
    assert_eq!(graph.links(), &vec![output_link()]);
}

#[test]
fn set_state_keeps_kinds_and_links() {
    let mut graph = fresh();
    graph.route_stream("video/x-raw");
    let kinds: Vec<NodeKind> = graph.nodes().iter().map(|n| n.kind).collect();
    let links = graph.links().clone();
    for target in [Lifecycle::Ready, Lifecycle::Paused, Lifecycle::Playing, Lifecycle::Paused] {
        assert_eq!(graph.set_state(target), vec![Command::SetState(target)]);
        assert_eq!(graph.state(), target);
        assert!(graph.nodes().iter().all(|n| n.state == target));
        assert_eq!(graph.nodes().iter().map(|n| n.kind).collect::<Vec<NodeKind>>(), kinds);
        assert_eq!(graph.links(), &links);
    }
}

#[test]
fn shutdown_releases_every_node_and_link() {
    let mut graph = fresh();
    graph.play();
    graph.route_stream("video/x-raw");
    graph.route_stream("audio/x-raw");
    assert_eq!(graph.nodes().len(), 5);
    let commands = graph.shutdown();
    assert_eq!(commands, vec![Command::SetState(Lifecycle::Null)]);
    assert_eq!(graph.state(), Lifecycle::Null);
    assert!(graph.nodes().is_empty());
    assert!(graph.links().is_empty());
    assert!(graph.is_released());
    assert_eq!(graph.buffer_count(), 0);
}

#[test]
fn shutdown_works_from_every_state() {
    for target in [Lifecycle::Null, Lifecycle::Ready, Lifecycle::Paused, Lifecycle::Playing] {
        let mut graph = fresh();
        if target != Lifecycle::Null {
            graph.set_state(target);
        }
        assert_eq!(graph.shutdown(), vec![Command::SetState(Lifecycle::Null)]);
        assert_eq!(graph.state(), Lifecycle::Null);
        assert!(graph.is_released());
    }
}

#[test]
fn set_state_null_is_shutdown() {
    let mut graph = fresh();
    graph.play();
    assert_eq!(graph.set_state(Lifecycle::Null), vec![Command::SetState(Lifecycle::Null)]);
    assert!(graph.is_released());
    assert_eq!(graph.state(), Lifecycle::Null);
}

#[test]
fn shutdown_twice_is_shutdown() {
    let mut graph = fresh();
    graph.shutdown();
    assert_eq!(graph.shutdown(), vec![Command::SetState(Lifecycle::Null)]);
    assert!(graph.is_released());
}

#[test]
fn a_released_graph_cannot_be_played() {
    let mut graph = fresh();
    graph.shutdown();
    assert_eq!(graph.play(), vec![]);
    assert_eq!(graph.state(), Lifecycle::Null);
    assert!(graph.is_released());
}

#[test]
fn a_released_graph_keeps_what_it_was_built_from() {
    let mut graph = fresh();
    graph.shutdown();
    assert_eq!(graph.source_uri(), "sample.mov");
    assert_eq!(graph.sink_location(), "out.mp4");
    assert_eq!(graph.profile().container, "video/quicktime, variant=(string)iso");
}

#[test]
fn node_kinds_name_their_elements() {
    assert_eq!(NodeKind::Source.factory(), "uridecodebin");
    assert_eq!(NodeKind::Encoder.factory(), "encodebin");
    assert_eq!(NodeKind::Sink.factory(), "filesink");
    assert_eq!(NodeKind::Buffer.factory(), "queue");
}

#[test]
fn pads_name_their_templates() {
    assert_eq!(Pad::Src.template(), "src");
    assert_eq!(Pad::Sink.template(), "sink");
    assert_eq!(Pad::Stream(0).template(), "src_%u");
    assert_eq!(Pad::Video(0).template(), "video_%u");
    assert_eq!(Pad::Video(7).template(), "video_%u");
    assert_eq!(Pad::Audio(0).template(), "audio_%u");
    assert_eq!(Pad::Audio(3).template(), "audio_%u");
}
