use audioshare::graph::{Edge, Property, StageRole};
use audioshare::handle::SafeRef;
use audioshare::pipeline::{
    Pipeline, RelayConfig, State, WiringAction, ASYNC_HANDLING, DEMUXER, PAYLOADER, QUEUE, SINK,
    SOURCE,
};
use audioshare::registry::Audioshare;

#[test]
fn default_configuration() {
    let config = RelayConfig::new(123456);
    assert_eq!(
        config.location,
        "https://downloads.around.video/sound-assets/clapping-2.ogg"
    );
    assert!(config.is_live);
    assert_eq!(config.payload_type, 100);
    assert_eq!(config.ssrc, 123456);
    assert_eq!(config.host, "127.0.0.1");
    assert_eq!(config.port, 50000);
    assert!(ASYNC_HANDLING);
}

#[test]
fn stage_identifiers() {
    assert_eq!((SOURCE, DEMUXER, PAYLOADER, QUEUE, SINK), (0, 1, 2, 3, 4));
}

#[test]
fn new_pipeline_holds_the_five_stages() {
    let pipeline = Pipeline::new(RelayConfig::new(123456));
    let graph = pipeline.graph();
    assert_eq!(graph.stage_count(), 5);
    assert_eq!(graph.stage(SOURCE).unwrap().role, StageRole::Source);
    assert_eq!(graph.stage(DEMUXER).unwrap().role, StageRole::Demultiplexer);
    assert_eq!(graph.stage(PAYLOADER).unwrap().role, StageRole::Payloader);
    assert_eq!(graph.stage(QUEUE).unwrap().role, StageRole::Buffer);
    assert_eq!(graph.stage(SINK).unwrap().role, StageRole::Sink);
    assert_eq!(pipeline.ssrc(), 123456);
    assert_eq!(pipeline.state(), State::Null);
}

#[test]
fn new_pipeline_configures_its_stages() {
    let config = RelayConfig {
        location: "http://example.org/a.ogg".to_string(),
        is_live: false,
        payload_type: 96,
        ssrc: 42,
        host: "192.168.1.9".to_string(),
        port: 6000,
    };
    let pipeline = Pipeline::new(config);
    let graph = pipeline.graph();

    let source = &graph.stage(SOURCE).unwrap().properties;
    assert_eq!(source.len(), 2);
    assert!(matches!(&source[0], Property::Location(l) if l == "http://example.org/a.ogg"));
    assert!(matches!(&source[1], Property::IsLive(false)));

    assert!(graph.stage(DEMUXER).unwrap().properties.is_empty());

    let payloader = &graph.stage(PAYLOADER).unwrap().properties;
    assert_eq!(payloader.len(), 2);
    assert!(matches!(&payloader[0], Property::PayloadType(96)));
    assert!(matches!(&payloader[1], Property::Ssrc(42)));

    assert!(graph.stage(QUEUE).unwrap().properties.is_empty());

    let sink = &graph.stage(SINK).unwrap().properties;
    assert_eq!(sink.len(), 2);
    assert!(matches!(&sink[0], Property::Host(h) if h == "192.168.1.9"));
    assert!(matches!(&sink[1], Property::Port(6000)));
    assert_eq!(pipeline.ssrc(), 42);
}

#[test]
fn new_pipeline_holds_the_static_edges_only() {
    let pipeline = Pipeline::new(RelayConfig::new(1));
    let graph = pipeline.graph();
    assert_eq!(graph.edge_count(), 3);
    assert_eq!(graph.edge(0), Some(Edge { from: SOURCE, to: DEMUXER }));
    assert_eq!(graph.edge(1), Some(Edge { from: PAYLOADER, to: QUEUE }));
    assert_eq!(graph.edge(2), Some(Edge { from: QUEUE, to: SINK }));
    assert!(!graph.has_edge(DEMUXER, PAYLOADER));
    assert!(!pipeline.is_wired());
}

#[test]
fn pad_added_creates_the_dynamic_edge() {
    let mut pipeline = Pipeline::new(RelayConfig::new(1));
    assert_eq!(
        pipeline.pad_added(true),
        WiringAction::LinkAndActivate { from: DEMUXER, to: PAYLOADER }
    );
    assert!(pipeline.is_wired());
    assert_eq!(pipeline.graph().edge_count(), 4);
    assert_eq!(pipeline.graph().edge(3), Some(Edge { from: DEMUXER, to: PAYLOADER }));
    assert_eq!(pipeline.state(), State::Null);
}

#[test]
fn pad_added_creates_the_dynamic_edge_once() {
    let mut pipeline = Pipeline::new(RelayConfig::new(1));
    pipeline.pad_added(true);
    for _ in 0..10 {
        assert_eq!(pipeline.pad_added(true), WiringAction::Nothing);
    }
    assert_eq!(pipeline.graph().edge_count(), 4);
    let dynamic = (0..pipeline.graph().edge_count())
        .filter(|i| pipeline.graph().edge(*i) == Some(Edge { from: DEMUXER, to: PAYLOADER }))
        .count();
    assert_eq!(dynamic, 1);
}

#[test]
fn pad_added_without_payloader_does_nothing() {
    let mut pipeline = Pipeline::new(RelayConfig::new(1));
    assert_eq!(pipeline.pad_added(false), WiringAction::Nothing);
    assert!(!pipeline.is_wired());
    assert_eq!(pipeline.graph().edge_count(), 3);
    assert_eq!(
        pipeline.pad_added(true),
        WiringAction::LinkAndActivate { from: DEMUXER, to: PAYLOADER }
    );
    assert_eq!(pipeline.pad_added(false), WiringAction::Nothing);
    assert_eq!(pipeline.graph().edge_count(), 4);
}

#[test]
fn start_sets_the_pipeline_playing() {
    let registry = SafeRef::new(Audioshare::new());
    let mut pipeline = Pipeline::new(RelayConfig::new(77));
    let probe = pipeline.start(registry.downgrade());
    assert_eq!(pipeline.state(), State::Playing);
    assert_eq!(probe.unwrap().ssrc(), 77);
    assert_eq!(pipeline.graph().edge_count(), 3);
    assert_eq!(pipeline.graph().stage_count(), 5);
}

#[test]
fn start_hands_out_one_probe() {
    let registry = SafeRef::new(Audioshare::new());
    let mut pipeline = Pipeline::new(RelayConfig::new(77));
    assert!(pipeline.start(registry.downgrade()).is_some());
    assert!(pipeline.start(registry.downgrade()).is_none());
    assert_eq!(pipeline.state(), State::Playing);
}

#[test]
fn pad_added_after_start() {
    let registry = SafeRef::new(Audioshare::new());
    let mut pipeline = Pipeline::new(RelayConfig::new(77));
    pipeline.start(registry.downgrade());
    assert_eq!(
        pipeline.pad_added(true),
        WiringAction::LinkAndActivate { from: DEMUXER, to: PAYLOADER }
    );
    assert_eq!(pipeline.state(), State::Playing);
    assert!(pipeline.is_wired());
}
