//! The stage graph: processing stages and the produces-into edges between
//! them.

use vstd::prelude::*;

verus! {

/// What a stage does in the relay.
#[derive(Clone, Copy, Debug, PartialEq, Eq, Structural)]
pub enum StageRole {
    /// Fetches the remote asset.
    Source,
    /// Splits the container into its elementary streams.
    Demultiplexer,
    /// Packs the audio stream into RTP packets.
    Payloader,
    /// Decouples the payloader from the sink.
    Buffer,
    /// Sends the packets to the network.
    Sink,
}

impl StageRole {
    /// The name of the element factory that makes a stage of this role.
    pub open spec fn factory_name(&self) -> Seq<char> {
        match *self {
            StageRole::Source => "reqwesthttpsrc"@,
            StageRole::Demultiplexer => "oggdemux"@,
            StageRole::Payloader => "rtpopuspay"@,
            StageRole::Buffer => "queue"@,
            StageRole::Sink => "udpsink"@,
        }
    }

    /// The name of the element factory that makes a stage of this role.
    pub fn factory(&self) -> (name: &'static str)
        ensures
            name@ == self.factory_name(),
    {
        match *self {
            StageRole::Source => "reqwesthttpsrc",
            StageRole::Demultiplexer => "oggdemux",
            StageRole::Payloader => "rtpopuspay",
            StageRole::Buffer => "queue",
            StageRole::Sink => "udpsink",
        }
    }
}

/// One configuration property of a stage.
#[derive(Debug)]
pub enum Property {
    /// Where the source fetches the asset from.
    Location(String),
    /// Whether the source behaves as a live source.
    IsLive(bool),
    /// The RTP payload type that the payloader stamps on its packets.
    PayloadType(u8),
    /// The synchronisation source identifier of the payloader's stream.
    Ssrc(u32),
    /// The host that the sink sends to.
    Host(String),
    /// The port that the sink sends to.
    Port(u16),
}

/// The mathematical value of a [`Property`].
pub enum PropertySpec {
    Location(Seq<char>),
    IsLive(bool),
    PayloadType(u8),
    Ssrc(u32),
    Host(Seq<char>),
    Port(u16),
}

impl View for Property {
    type V = PropertySpec;

    open spec fn view(&self) -> PropertySpec {
        match *self {
            Property::Location(s) => PropertySpec::Location(s@),
            Property::IsLive(b) => PropertySpec::IsLive(b),
            Property::PayloadType(pt) => PropertySpec::PayloadType(pt),
            Property::Ssrc(ssrc) => PropertySpec::Ssrc(ssrc),
            Property::Host(s) => PropertySpec::Host(s@),
            Property::Port(port) => PropertySpec::Port(port),
        }
    }
}

impl Property {
    /// The name under which the stage knows the property.
    pub open spec fn key(&self) -> Seq<char> {
        match *self {
            Property::Location(_) => "location"@,
            Property::IsLive(_) => "is-live"@,
            Property::PayloadType(_) => "pt"@,
            Property::Ssrc(_) => "ssrc"@,
            Property::Host(_) => "host"@,
            Property::Port(_) => "port"@,
        }
    }

    /// The name under which the stage knows the property.
    pub fn name(&self) -> (name: &'static str)
        ensures
            name@ == self.key(),
    {
        match *self {
            Property::Location(_) => "location",
            Property::IsLive(_) => "is-live",
            Property::PayloadType(_) => "pt",
            Property::Ssrc(_) => "ssrc",
            Property::Host(_) => "host",
            Property::Port(_) => "port",
        }
    }
}

/// A processing unit of the graph: its role and its configuration, which is
/// fixed when the stage is made.
#[derive(Debug)]
pub struct Stage {
    pub role: StageRole,
    pub properties: Vec<Property>,
}

/// The mathematical value of a [`Stage`].
pub struct StageSpec {
    pub role: StageRole,
    pub properties: Seq<PropertySpec>,
}

impl View for Stage {
    type V = StageSpec;

    open spec fn view(&self) -> StageSpec {
        StageSpec {
            role: self.role,
            properties: self.properties@.map_values(|p: Property| p@),
        }
    }
}

/// A produces-into relation between two stages, named by their identifiers.
#[derive(Clone, Copy, Debug, PartialEq, Eq, Structural)]
pub struct Edge {
    pub from: usize,
    pub to: usize,
}

/// Why an edge was not created.
#[derive(Clone, Copy, Debug, PartialEq, Eq, Structural)]
pub enum LinkError {
    /// An endpoint names no stage of the graph.
    UnknownStage,
    /// The edge is already there.
    AlreadyLinked,
}

/// A directed graph of stages. A stage is identified by the order in which
/// it was added, starting at zero.
#[derive(Debug)]
pub struct StageGraph {
    stages: Vec<Stage>,
    edges: Vec<Edge>,
}

impl StageGraph {
    /// The stages, in the order in which they were added.
    pub closed spec fn stages(&self) -> Seq<StageSpec> {
        self.stages@.map_values(|s: Stage| s@)
    }

    /// The edges, in the order in which they were created.
    pub closed spec fn edges(&self) -> Seq<Edge> {
        self.edges@
    }

    /// Every edge joins two stages of the graph, and no edge occurs twice.
    pub open spec fn wf(&self) -> bool {
        &&& forall|i: int|
            0 <= i < self.edges().len() ==> (#[trigger] self.edges()[i]).from < self.stages().len()
                && self.edges()[i].to < self.stages().len()
        &&& self.edges().no_duplicates()
    }

    /// A graph without stages.
    pub fn new() -> (graph: StageGraph)
        ensures
            graph.wf(),
            graph.stages() == Seq::<StageSpec>::empty(),
            graph.edges() == Seq::<Edge>::empty(),
    {
        StageGraph { stages: Vec::new(), edges: Vec::new() }
    }

    /// The number of stages.
    pub fn stage_count(&self) -> (n: usize)
        ensures
            n == self.stages().len(),
    {
        self.stages.len()
    }

    /// The number of edges.
    pub fn edge_count(&self) -> (n: usize)
        ensures
            n == self.edges().len(),
    {
        self.edges.len()
    }

    /// The stage with identifier `id`, if there is one.
    pub fn stage(&self, id: usize) -> (stage: Option<&Stage>)
        ensures
            stage is Some <==> id < self.stages().len(),
            stage is Some ==> stage->0@ == self.stages()[id as int],
    {
        if id < self.stages.len() {
            Some(&self.stages[id])
        } else {
            None
        }
    }

    /// The edge that was created as the `index`-th, if there is one.
    pub fn edge(&self, index: usize) -> (edge: Option<Edge>)
        ensures
            edge == if index < self.edges().len() {
                Some(self.edges()[index as int])
            } else {
                None
            },
    {
        if index < self.edges.len() {
            Some(self.edges[index])
        } else {
            None
        }
    }

    /// Adds a stage and returns its identifier. The edges stay as they are.
    pub fn add_stage(&mut self, stage: Stage) -> (id: usize)
        requires
            old(self).wf(),
        ensures
            final(self).wf(),
            id == old(self).stages().len(),
            final(self).stages() == old(self).stages().push(stage@),
            final(self).edges() == old(self).edges(),
    {
        let id = self.stages.len();
        self.stages.push(stage);
        assert(self.stages@.map_values(|s: Stage| s@) =~= old(self).stages@.map_values(
            |s: Stage| s@,
        ).push(stage@));
        id
    }

    /// Whether the graph holds the edge from `from` to `to`.
    pub fn has_edge(&self, from: usize, to: usize) -> (found: bool)
        ensures
            found == self.edges().contains((Edge { from, to })),
    {
        let mut i: usize = 0;
        while i < self.edges.len()
            invariant
                i <= self.edges.len(),
                forall|j: int| 0 <= j < i ==> self.edges@[j] != (Edge { from, to }),
            decreases self.edges.len() - i,
        {
            let e = self.edges[i];
            if e.from == from && e.to == to {
                return true;
            }
            i += 1;
        }
        false
    }

    /// Creates the edge from `from` to `to`. Both stages must have been
    /// added before; an edge is created once.
    pub fn link(&mut self, from: usize, to: usize) -> (result: Result<(), LinkError>)
        requires
            old(self).wf(),
        ensures
            final(self).wf(),
            final(self).stages() == old(self).stages(),
            result == old(self).link_result(from, to),
            final(self).edges() == if result is Ok {
                old(self).edges().push((Edge { from, to }))
            } else {
                old(self).edges()
            },
    {
        if from >= self.stages.len() || to >= self.stages.len() {
            return Err(LinkError::UnknownStage);
        }
        if self.has_edge(from, to) {
            return Err(LinkError::AlreadyLinked);
        }
        self.edges.push(Edge { from, to });
        Ok(())
    }

    /// What [`StageGraph::link`] answers for the edge from `from` to `to`.
    pub open spec fn link_result(&self, from: usize, to: usize) -> Result<(), LinkError> {
        if from >= self.stages().len() || to >= self.stages().len() {
            Err(LinkError::UnknownStage)
        } else if self.edges().contains((Edge { from, to })) {
            Err(LinkError::AlreadyLinked)
        } else {
            Ok(())
        }
    }
}

} // verus!
