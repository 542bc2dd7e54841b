//! The run: what the orchestrator does with each thing that the engine
//! tells it, from the first stream discovered to the end of the run.

use vstd::prelude::*;
use vstd::string::*;
use crate::config::Config;
use crate::graph::{
    construction_plan, transition_plan, Command, GraphModel, Lifecycle, PipelineGraph,
};
use crate::profile::{create_encoding_profile, profile_of};
use crate::router::{class_of, routing_plan};

verus! {

/// A message read from the graph's bus.
#[derive(Debug, PartialEq, Eq)]
pub enum StreamEvent {
    /// Every stream has run to its end.
    EndOfStream,
    /// A node has failed.
    Error { source: String, description: String },
    /// Anything else; the run takes no notice.
    Other,
}

/// What the engine tells the orchestrator.
#[derive(Debug, PartialEq, Eq)]
pub enum EngineEvent {
    /// The source has opened an output for an elementary stream with a
    /// media type of this name.
    StreamDiscovered(String),
    /// The engine could not carry out a link or a pad request.
    LinkFailed,
    /// A message has arrived on the bus.
    Message(StreamEvent),
}

/// What failed, and how, for the operator to read.
#[derive(Debug, PartialEq, Eq)]
pub struct ErrorReport {
    pub source: String,
    pub description: String,
}

/// What an event means for the run.
#[derive(Debug, PartialEq, Eq)]
pub enum Verdict {
    /// The run goes on.
    Continue,
    /// The run is complete.
    Finished,
    /// The run failed while the graph was running.
    Failed(ErrorReport),
    /// The run was given up because a stream could not be linked.
    Aborted,
}

/// The orchestrator's answer to one event.
#[derive(Debug, PartialEq, Eq)]
pub struct Step {
    pub commands: Vec<Command>,
    pub verdict: Verdict,
}

/// The text of an error report.
pub open spec fn report_text(source: Seq<char>, description: Seq<char>) -> Seq<char> {
    "Error from "@ + source + ": "@ + description
}

impl ErrorReport {
    /// The report as one line of text.
    pub fn message(&self) -> (text: String)
        ensures
            text@ == report_text(self.source@, self.description@),
    {
        let mut text = String::from_str("Error from ");
        text.append(self.source.as_str());
        text.append(": ");
        text.append(self.description.as_str());
        text
    }
}

/// What an event means for the run: the end of the stream completes it, an
/// error or a failed link ends it, and everything else lets it go on.
pub open spec fn verdict_of(event: EngineEvent) -> Verdict {
    match event {
        EngineEvent::StreamDiscovered(_) => Verdict::Continue,
        EngineEvent::LinkFailed => Verdict::Aborted,
        EngineEvent::Message(StreamEvent::EndOfStream) => Verdict::Finished,
        EngineEvent::Message(StreamEvent::Error { source, description }) => Verdict::Failed(
            ErrorReport { source, description },
        ),
        EngineEvent::Message(StreamEvent::Other) => Verdict::Continue,
    }
}

/// The graph after an event: a discovered stream is routed, an event that
/// ends the run tears the graph down, and any other leaves it as it is.
pub open spec fn after_event(graph: GraphModel, event: EngineEvent) -> GraphModel {
    match event {
        EngineEvent::StreamDiscovered(media_type) => graph.routed(class_of(media_type@)),
        _ => if verdict_of(event) is Continue {
            graph
        } else {
            graph.torn_down()
        },
    }
}

/// The commands that answer an event.
pub open spec fn event_plan(graph: GraphModel, event: EngineEvent) -> Seq<Command> {
    match event {
        EngineEvent::StreamDiscovered(media_type) => routing_plan(graph, class_of(media_type@)),
        _ => if verdict_of(event) is Continue {
            Seq::empty()
        } else {
            seq![Command::SetState(Lifecycle::Null)]
        },
    }
}

impl PipelineGraph {
    /// Answers one event: routes a discovered stream, shuts the graph down
    /// on the end of the stream, on an error and on a failed link, and
    /// takes no notice of anything else.
    pub fn handle(&mut self, event: &EngineEvent) -> (step: Step)
        ensures
            final(self)@ == after_event(old(self)@, *event),
            final(self)@.wf(),
            step.commands@ == event_plan(old(self)@, *event),
            step.verdict == verdict_of(*event),
            !(step.verdict is Continue) ==> final(self)@.at_rest(),
    {
        proof {
            use_type_invariant(&*self);
        }
        match event {
            EngineEvent::StreamDiscovered(media_type) => Step {
                commands: self.route_stream(media_type.as_str()),
                verdict: Verdict::Continue,
            },
            EngineEvent::LinkFailed => Step {
                commands: self.shutdown(),
                verdict: Verdict::Aborted,
            },
            EngineEvent::Message(StreamEvent::EndOfStream) => Step {
                commands: self.shutdown(),
                verdict: Verdict::Finished,
            },
            EngineEvent::Message(StreamEvent::Error { source, description }) => Step {
                commands: self.shutdown(),
                verdict: Verdict::Failed(
                    ErrorReport { source: source.clone(), description: description.clone() },
                ),
            },
            EngineEvent::Message(StreamEvent::Other) => Step {
                commands: Vec::new(),
                verdict: Verdict::Continue,
            },
        }
    }
}

/// A run, as mathematics: the graph, every command issued so far, the
/// verdict of the last event read, how many events were read and how many
/// streams were routed.
pub struct RunModel {
    pub graph: GraphModel,
    pub commands: Seq<Command>,
    pub verdict: Verdict,
    pub consumed: nat,
    pub routed: nat,
}

impl RunModel {
    /// A run as it starts: the graph is built from the configuration and
    /// asked to play, and no event is read yet.
    pub open spec fn start(config: Config) -> RunModel {
        let built = GraphModel::initial(
            config.input@,
            config.output@,
            profile_of(config.output_format),
        );
        RunModel {
            graph: built.driven_to(Lifecycle::Playing),
            commands: construction_plan() + transition_plan(built, Lifecycle::Playing),
            verdict: Verdict::Continue,
            consumed: 0,
            routed: 0,
        }
    }

    /// The run after one more event is read.
    pub open spec fn step(self, event: EngineEvent) -> RunModel {
        let graph = after_event(self.graph, event);
        RunModel {
            graph,
            commands: self.commands + event_plan(self.graph, event),
            verdict: verdict_of(event),
            consumed: self.consumed + 1,
            routed: if graph.nodes.len() > self.graph.nodes.len() {
                self.routed + 1
            } else {
                self.routed
            },
        }
    }

    /// The run after it has read `events` from where it stands, one at a
    /// time and in order, up to the first that ends it.
    pub open spec fn run(self, events: Seq<EngineEvent>) -> RunModel
        decreases events.len() - self.consumed,
    {
        if self.verdict is Continue && self.consumed < events.len() {
            self.step(events[self.consumed as int]).run(events)
        } else {
            self
        }
    }
}

/// A run and what it came to.
#[derive(Debug)]
pub struct Run {
    pub graph: PipelineGraph,
    pub commands: Vec<Command>,
    pub verdict: Verdict,
    pub consumed: usize,
    pub routed: usize,
}

impl View for Run {
    type V = RunModel;

    open spec fn view(&self) -> RunModel {
        RunModel {
            graph: self.graph@,
            commands: self.commands@,
            verdict: self.verdict,
            consumed: self.consumed as nat,
            routed: self.routed as nat,
        }
    }
}

/// Runs one transcoding against what the engine told, in the order it told
/// it: builds the graph, asks it to play, and answers each event up to the
/// first that ends the run. Where the events run out first, the run is still
/// going: its verdict is `Continue` and its graph is playing.
pub fn transcode(config: &Config, events: &Vec<EngineEvent>) -> (run: Run)
    ensures
        run@ == RunModel::start(*config).run(events@),
        run.graph@.wf(),
        run.consumed <= events@.len(),
        forall|i: int| 0 <= i < run.consumed - 1 ==> verdict_of(#[trigger] events@[i]) is Continue,
        match run.verdict {
            Verdict::Continue => {
                &&& run.consumed == events@.len()
                &&& forall|i: int|
                    0 <= i < events@.len() ==> verdict_of(#[trigger] events@[i]) is Continue
                &&& run.graph@.live()
                &&& run.graph@.state == Lifecycle::Playing
                &&& run.graph@.buffers() == run.routed
                &&& run.graph@.links.len() == 1 + 2 * run.routed
            },
            _ => {
                &&& run.consumed > 0
                &&& run.verdict == verdict_of(events@[run.consumed - 1])
                &&& run.graph@.at_rest()
            },
        },
{
    let mut graph = PipelineGraph::new(config, create_encoding_profile(config));
    let mut commands = PipelineGraph::construction_commands();
    let mut started = graph.play();
    commands.append(&mut started);
    let mut run = Run { graph, commands, verdict: Verdict::Continue, consumed: 0, routed: 0 };
    let mut going: bool = true;
    while going && run.consumed < events.len()
        invariant
            run@.run(events@) == RunModel::start(*config).run(events@),
            going == (run.verdict is Continue),
            run.graph@.wf(),
            run.consumed <= events@.len(),
            run.routed <= run.consumed,
            forall|i: int|
                0 <= i < run.consumed - 1 ==> verdict_of(#[trigger] events@[i]) is Continue,
            going ==> {
                &&& forall|i: int|
                    0 <= i < run.consumed ==> verdict_of(#[trigger] events@[i]) is Continue
                &&& run.graph@.live()
                &&& run.graph@.state == Lifecycle::Playing
                &&& run.graph@.buffers() == run.routed
            },
            !going ==> {
                &&& run.consumed > 0
                &&& run.verdict == verdict_of(events@[run.consumed - 1])
                &&& run.graph@.at_rest()
            },
        decreases events@.len() - run.consumed,
    {
        let ghost before = run@;
        let held: usize = run.graph.nodes().len();
        let mut step = run.graph.handle(&events[run.consumed]);
        run.commands.append(&mut step.commands);
        if run.graph.nodes().len() > held {
            run.routed = run.routed + 1;
        }
        run.consumed = run.consumed + 1;
        going = matches!(step.verdict, Verdict::Continue);
        run.verdict = step.verdict;
        assert(run@ == before.step(events@[before.consumed as int]));
    }
    run
}

/// However a run ends, it ends with the graph at rest: in `Null`, with
/// every node and link given up.
pub proof fn a_run_that_ended_is_at_rest(run: RunModel, events: Seq<EngineEvent>)
    requires
        run.verdict is Continue || run.graph.at_rest(),
    ensures
        !(run.run(events).verdict is Continue) ==> run.run(events).graph.at_rest(),
    decreases events.len() - run.consumed,
{
    if run.verdict is Continue && run.consumed < events.len() {
        a_run_that_ended_is_at_rest(run.step(events[run.consumed as int]), events);
    }
}

/// A run reads its events in order and stops at the first that ends it:
/// every event read before the last lets the run go on, and the last one
/// read gives the verdict. A run that is still going has read them all.
pub proof fn a_run_stops_at_the_first_ending_event(run: RunModel, events: Seq<EngineEvent>)
    requires
        run.verdict is Continue,
        run.consumed <= events.len(),
    ensures
        ({
            let end = run.run(events);
            &&& run.consumed <= end.consumed <= events.len()
            &&& run.consumed < events.len() ==> run.consumed < end.consumed
            &&& forall|i: int|
                run.consumed <= i < end.consumed - 1 ==> verdict_of(#[trigger] events[i])
                    is Continue
            &&& end.verdict is Continue ==> end.consumed == events.len()
            &&& end.consumed > run.consumed ==> end.verdict == verdict_of(
                events[end.consumed - 1],
            )
        }),
    decreases events.len() - run.consumed,
{
    let end = run.run(events);
    if run.consumed < events.len() {
        let next = run.step(events[run.consumed as int]);
        assert(end == next.run(events));
        if next.verdict is Continue {
            a_run_stops_at_the_first_ending_event(next, events);
            assert(verdict_of(events[run.consumed as int]) is Continue);
            if next.consumed >= events.len() {
                assert(end == next);
            }
        } else {
            assert(end == next);
        }
    }
}

} // verus!
