//! The stage graph of one relay session: how it is laid out, how its wiring
//! is completed once the stream's format is known, and how it is started.

use crate::graph::{Edge, Property, PropertySpec, Stage, StageGraph, StageRole, StageSpec};
use crate::handle::WeakRef;
use crate::probe::EosProbe;
use crate::registry::PipelineObserver;
use vstd::prelude::*;

verus! {

/// Identifier of the source stage.
pub const SOURCE: usize = 0;

/// Identifier of the demultiplexer.
pub const DEMUXER: usize = 1;

/// Identifier of the payloader.
pub const PAYLOADER: usize = 2;

/// Identifier of the buffer between payloader and sink.
pub const QUEUE: usize = 3;

/// Identifier of the sink.
pub const SINK: usize = 4;

/// Whether the pipeline handles the state changes of its stages
/// asynchronously. The dynamic wiring depends on it.
pub const ASYNC_HANDLING: bool = true;

/// What one relay session is configured with.
#[derive(Debug)]
pub struct RelayConfig {
    /// Where the asset is fetched from.
    pub location: String,
    /// Whether the source behaves as a live source.
    pub is_live: bool,
    /// The RTP payload type.
    pub payload_type: u8,
    /// The session identifier, which is the stream's synchronisation source
    /// identifier.
    pub ssrc: u32,
    /// The host that the stream is sent to.
    pub host: String,
    /// The port that the stream is sent to.
    pub port: u16,
}

impl RelayConfig {
    /// The stages that a session of this configuration is made of, by
    /// identifier.
    pub open spec fn plan(&self) -> Seq<StageSpec> {
        seq![
            StageSpec {
                role: StageRole::Source,
                properties: seq![
                    PropertySpec::Location(self.location@),
                    PropertySpec::IsLive(self.is_live),
                ],
            },
            StageSpec { role: StageRole::Demultiplexer, properties: seq![] },
            StageSpec {
                role: StageRole::Payloader,
                properties: seq![
                    PropertySpec::PayloadType(self.payload_type),
                    PropertySpec::Ssrc(self.ssrc),
                ],
            },
            StageSpec { role: StageRole::Buffer, properties: seq![] },
            StageSpec {
                role: StageRole::Sink,
                properties: seq![PropertySpec::Host(self.host@), PropertySpec::Port(self.port)],
            },
        ]
    }

    /// The configuration of the relay of the clapping sample to the local
    /// host, as session `ssrc`.
    pub fn new(ssrc: u32) -> (config: RelayConfig)
        ensures
            config.location@ == "https://downloads.around.video/sound-assets/clapping-2.ogg"@,
            config.is_live,
            config.payload_type == 100,
            config.ssrc == ssrc,
            config.host@ == "127.0.0.1"@,
            config.port == 50000,
    {
        RelayConfig {
            location: "https://downloads.around.video/sound-assets/clapping-2.ogg".to_owned(),
            is_live: true,
            payload_type: 100,
            ssrc,
            host: "127.0.0.1".to_owned(),
            port: 50000,
        }
    }
}

/// The edges that are fixed when the graph is built: source to
/// demultiplexer, payloader to buffer, buffer to sink.
pub open spec fn static_edges() -> Seq<Edge> {
    seq![
        Edge { from: SOURCE, to: DEMUXER },
        Edge { from: PAYLOADER, to: QUEUE },
        Edge { from: QUEUE, to: SINK },
    ]
}

/// The edge that is created when the demultiplexer has found its output
/// format: demultiplexer to payloader.
pub open spec fn dynamic_edge() -> Edge {
    Edge { from: DEMUXER, to: PAYLOADER }
}

/// The edges after the demultiplexer has signalled its output once more,
/// with the payloader reachable or not: the dynamic edge is appended unless
/// it is there already.
pub open spec fn after_pad_added(edges: Seq<Edge>, payloader_alive: bool) -> Seq<Edge> {
    if payloader_alive && !edges.contains(dynamic_edge()) {
        edges.push(dynamic_edge())
    } else {
        edges
    }
}

/// The edges after the demultiplexer has signalled its output once for each
/// item of `signals`, in their order.
pub open spec fn after_signals(edges: Seq<Edge>, signals: Seq<bool>) -> Seq<Edge>
    decreases signals.len(),
{
    if signals.len() == 0 {
        edges
    } else {
        after_pad_added(after_signals(edges, signals.drop_last()), signals.last())
    }
}

/// The dynamic edge occurs at most once among `edges`.
pub open spec fn at_most_one_dynamic_edge(edges: Seq<Edge>) -> bool {
    forall|i: int, j: int|
        0 <= i < j < edges.len() ==> !(#[trigger] edges[i] == dynamic_edge() && #[trigger] edges[j]
            == dynamic_edge())
}

/// The edges of a session's graph: the static ones, followed by the dynamic
/// one once it has been created.
pub open spec fn session_edges(edges: Seq<Edge>) -> bool {
    edges == static_edges() || edges == static_edges().push(dynamic_edge())
}

/// However often the demultiplexer signals its output, the graph of a
/// session holds the dynamic edge at most once, and a signal that comes
/// after the edge was created changes nothing.
pub proof fn lemma_dynamic_edge_created_at_most_once(signals: Seq<bool>)
    ensures
        session_edges(after_signals(static_edges(), signals)),
        at_most_one_dynamic_edge(after_signals(static_edges(), signals)),
        forall|again: bool|
            after_signals(static_edges(), signals).contains(dynamic_edge()) ==> #[trigger] after_pad_added(
                after_signals(static_edges(), signals),
                again,
            ) == after_signals(static_edges(), signals),
    decreases signals.len(),
{
    lemma_wired_after_dynamic_edge();
    if signals.len() > 0 {
        lemma_dynamic_edge_created_at_most_once(signals.drop_last());
    }
}

/// A well-formed pipeline holds the dynamic edge at most once.
pub proof fn lemma_pipeline_wired_at_most_once(pipeline: Pipeline)
    requires
        pipeline.wf(),
    ensures
        at_most_one_dynamic_edge(pipeline.edges()),
{
}

/// The dynamic edge is none of the static edges, and it is there once it has
/// been appended to them.
pub proof fn lemma_wired_after_dynamic_edge()
    ensures
        !static_edges().contains(dynamic_edge()),
        static_edges().push(dynamic_edge()).contains(dynamic_edge()),
{
    assert(static_edges().push(dynamic_edge())[3] == dynamic_edge());
}

/// Why the runtime could not build or start the graph of a session.
#[derive(Clone, Copy, Debug, PartialEq, Eq, Structural)]
pub enum ConstructionError {
    /// No stage of this role could be made.
    StageUnavailable(StageRole),
    /// The stages could not be added to the graph.
    AddRefused,
    /// A static edge could not be created.
    LinkRefused(Edge),
    /// The pipeline was already playing.
    AlreadyStarted,
}

/// What the runtime is to do when the demultiplexer has signalled its
/// output.
#[derive(Clone, Copy, Debug, PartialEq, Eq, Structural)]
pub enum WiringAction {
    /// Connect `from` to `to` and set `to` running.
    LinkAndActivate { from: usize, to: usize },
    /// Leave the graph as it is.
    Nothing,
}

/// The lifecycle state of a pipeline.
#[derive(Clone, Copy, Debug, PartialEq, Eq, Structural)]
pub enum State {
    /// Built, not running.
    Null,
    /// Running.
    Playing,
}

/// The stage graph of one relay session.
#[derive(Debug)]
pub struct Pipeline {
    graph: StageGraph,
    ssrc: u32,
    state: State,
}

impl Pipeline {
    /// The stages, by identifier.
    pub closed spec fn stages(&self) -> Seq<StageSpec> {
        self.graph.stages()
    }

    /// The edges, in the order in which they were created.
    pub closed spec fn edges(&self) -> Seq<Edge> {
        self.graph.edges()
    }

    /// The session that the pipeline relays.
    pub closed spec fn session(&self) -> u32 {
        self.ssrc
    }

    /// The lifecycle state.
    pub closed spec fn lifecycle(&self) -> State {
        self.state
    }

    /// Whether the demultiplexer has been connected to the payloader.
    pub open spec fn wired(&self) -> bool {
        self.edges().contains(dynamic_edge())
    }

    /// The five stages are there in their order, and the edges are the
    /// static ones, followed by the dynamic one once it has been created.
    pub open spec fn wf(&self) -> bool {
        &&& self.stages().len() == 5
        &&& self.stages()[SOURCE as int].role == StageRole::Source
        &&& self.stages()[DEMUXER as int].role == StageRole::Demultiplexer
        &&& self.stages()[PAYLOADER as int].role == StageRole::Payloader
        &&& self.stages()[QUEUE as int].role == StageRole::Buffer
        &&& self.stages()[SINK as int].role == StageRole::Sink
        &&& session_edges(self.edges())
        &&& self.graph_wf()
    }

    /// The graph underneath is well-formed.
    pub closed spec fn graph_wf(&self) -> bool {
        self.graph.wf()
    }

    /// Lays out the graph of a session: the five stages with their
    /// configuration, then the static edges. The dynamic edge is left for
    /// [`Pipeline::pad_added`]; nothing runs yet.
    pub fn new(config: RelayConfig) -> (pipeline: Pipeline)
        ensures
            pipeline.wf(),
            pipeline.stages() == config.plan(),
            pipeline.edges() == static_edges(),
            pipeline.session() == config.ssrc,
            pipeline.lifecycle() == State::Null,
            !pipeline.wired(),
    {
        let ghost plan = config.plan();
        let ssrc = config.ssrc;
        let mut source_properties: Vec<Property> = Vec::new();
        source_properties.push(Property::Location(config.location));
        source_properties.push(Property::IsLive(config.is_live));
        let mut payloader_properties: Vec<Property> = Vec::new();
        payloader_properties.push(Property::PayloadType(config.payload_type));
        payloader_properties.push(Property::Ssrc(ssrc));
        let mut sink_properties: Vec<Property> = Vec::new();
        sink_properties.push(Property::Host(config.host));
        sink_properties.push(Property::Port(config.port));

        let src = Stage { role: StageRole::Source, properties: source_properties };
        let demux = Stage { role: StageRole::Demultiplexer, properties: Vec::new() };
        let payloader = Stage { role: StageRole::Payloader, properties: payloader_properties };
        let queue = Stage { role: StageRole::Buffer, properties: Vec::new() };
        let sink = Stage { role: StageRole::Sink, properties: sink_properties };
        proof {
            assert(src@.properties =~= plan[0].properties);
            assert(demux@.properties =~= plan[1].properties);
            assert(payloader@.properties =~= plan[2].properties);
            assert(queue@.properties =~= plan[3].properties);
            assert(sink@.properties =~= plan[4].properties);
        }

        let mut graph = StageGraph::new();
        graph.add_stage(src);
        graph.add_stage(demux);
        graph.add_stage(payloader);
        graph.add_stage(queue);
        graph.add_stage(sink);
        assert(graph.stages() =~= plan);
        graph.link(SOURCE, DEMUXER).unwrap();
        graph.link(PAYLOADER, QUEUE).unwrap();
        graph.link(QUEUE, SINK).unwrap();
        assert(graph.edges() =~= static_edges());
        Pipeline { graph, ssrc, state: State::Null }
    }

    /// The graph of the session.
    pub fn graph(&self) -> (graph: &StageGraph)
        ensures
            graph.stages() == self.stages(),
            graph.edges() == self.edges(),
            graph.wf() == self.graph_wf(),
    {
        &self.graph
    }

    /// The session that the pipeline relays.
    pub fn ssrc(&self) -> (ssrc: u32)
        ensures
            ssrc == self.session(),
    {
        self.ssrc
    }

    /// The lifecycle state.
    pub fn state(&self) -> (state: State)
        ensures
            state == self.lifecycle(),
    {
        self.state
    }

    /// Whether the demultiplexer has been connected to the payloader.
    pub fn is_wired(&self) -> (wired: bool)
        ensures
            wired == self.wired(),
    {
        self.graph.has_edge(DEMUXER, PAYLOADER)
    }

    /// The demultiplexer has found the format of its output. `payloader_alive`
    /// says whether the payloader could still be reached.
    ///
    /// The first signal that finds the payloader creates the dynamic edge and
    /// asks for the payloader to be set running. A signal that finds no
    /// payloader, or the edge already in place, changes nothing and asks for
    /// nothing.
    pub fn pad_added(&mut self, payloader_alive: bool) -> (action: WiringAction)
        requires
            old(self).wf(),
        ensures
            final(self).wf(),
            final(self).stages() == old(self).stages(),
            final(self).session() == old(self).session(),
            final(self).lifecycle() == old(self).lifecycle(),
            final(self).edges() == after_pad_added(old(self).edges(), payloader_alive),
            action == if payloader_alive && !old(self).wired() {
                WiringAction::LinkAndActivate { from: DEMUXER, to: PAYLOADER }
            } else {
                WiringAction::Nothing
            },
    {
        if !payloader_alive {
            return WiringAction::Nothing;
        }
        proof {
            lemma_wired_after_dynamic_edge();
        }
        match self.graph.link(DEMUXER, PAYLOADER) {
            Ok(()) => WiringAction::LinkAndActivate { from: DEMUXER, to: PAYLOADER },
            Err(_) => WiringAction::Nothing,
        }
    }

    /// Starts the session: the pipeline goes to [`State::Playing`], and the
    /// probe that is to sit on the sink's input is handed out, bound to
    /// `observer`. A pipeline is started once: one that is already playing
    /// stays as it is and hands out no second probe.
    pub fn start<O: PipelineObserver>(&mut self, observer: WeakRef<O>) -> (probe: Option<EosProbe<O>>)
        requires
            old(self).wf(),
        ensures
            final(self).wf(),
            final(self).stages() == old(self).stages(),
            final(self).edges() == old(self).edges(),
            final(self).session() == old(self).session(),
            final(self).lifecycle() == State::Playing,
            probe is Some <==> old(self).lifecycle() == State::Null,
            probe is Some ==> probe->0.session() == old(self).session() && probe->0.observer()
                == observer,
    {
        if self.state == State::Playing {
            return None;
        }
        self.state = State::Playing;
        Some(EosProbe::new(observer, self.ssrc))
    }
}

} // verus!
