use libaudioverse::engine::Engine;
use libaudioverse::engine::ERROR_INVALID_HANDLE;
use libaudioverse::engine::ERROR_INVALID_PROPERTY;
use libaudioverse::engine::ERROR_RANGE;
use libaudioverse::engine::ERROR_UNKNOWN;
use libaudioverse::engine::PROP_ENVIRONMENT_DISTANCE_MODEL;
use libaudioverse::engine::PROP_ENVIRONMENT_MAX_DISTANCE;
use libaudioverse::initialize;
use libaudioverse::nodes::properties::DistanceModel;
use libaudioverse::nodes::properties::IntProperty;
use libaudioverse::nodes::properties::NodeState;
use libaudioverse::nodes::properties::PanningStrategy;
use libaudioverse::nodes::BufferNode;
use libaudioverse::nodes::EnvironmentNode;
use libaudioverse::nodes::MultipannerNode;
use libaudioverse::nodes::Node;
use libaudioverse::Server;

fn session() -> (Engine, Server) {
    let mut e = Engine::new();
    initialize(&mut e).unwrap();
    let server = Server::new(&mut e).unwrap();
    (e, server)
}

#[test]
fn int_property_round_trips() {
    let (mut e, server) = session();
    let env = EnvironmentNode::new(&mut e, &server, "default").unwrap();
    let channels = env.output_channels();
    assert_eq!(channels.get(&e).unwrap(), 2);
    channels.set(&mut e, 8).unwrap();
    assert_eq!(channels.get(&e).unwrap(), 8);
    assert_eq!(channels.get_range(&e).unwrap(), (0, 8));
}

#[test]
fn out_of_range_int_write_is_rejected_not_clamped() {
    let (mut e, server) = session();
    let env = EnvironmentNode::new(&mut e, &server, "default").unwrap();
    let channels = env.output_channels();
    let err = channels.set(&mut e, 99).unwrap_err();
    assert_eq!(err.code, ERROR_RANGE);
    assert_eq!(err.message, "value out of range");
    assert_eq!(channels.get(&e).unwrap(), 2);
}

#[test]
fn float_property_round_trips() {
    let (mut e, server) = session();
    let env = EnvironmentNode::new(&mut e, &server, "default").unwrap();
    let dist = env.max_distance();
    assert_eq!(dist.get(&e).unwrap(), 150_000);
    dist.set(&mut e, 300_000).unwrap();
    assert_eq!(dist.get(&e).unwrap(), 300_000);
    let (lo, _hi) = dist.get_range(&e).unwrap();
    assert_eq!(lo, 0);
    let err = dist.set(&mut e, -1).unwrap_err();
    assert_eq!(err.code, ERROR_RANGE);
}

#[test]
fn double_property_round_trips() {
    let (mut e, server) = session();
    let node = BufferNode::new(&mut e, &server).unwrap();
    let rate = node.rate();
    assert_eq!(rate.get(&e).unwrap(), 1000);
    rate.set(&mut e, 500).unwrap();
    assert_eq!(rate.get(&e).unwrap(), 500);
}

#[test]
fn bool_property_round_trips() {
    let (mut e, server) = session();
    let node = BufferNode::new(&mut e, &server).unwrap();
    let looping = node.looping();
    assert_eq!(looping.get(&e).unwrap(), false);
    looping.set(&mut e, true).unwrap();
    assert_eq!(looping.get(&e).unwrap(), true);
    looping.set(&mut e, false).unwrap();
    assert_eq!(looping.get(&e).unwrap(), false);
}

#[test]
fn raw_bool_value_out_of_range_fails_typed_read() {
    let (mut e, server) = session();
    let node = BufferNode::new(&mut e, &server).unwrap();
    let looping = node.looping();
    let raw = IntProperty { index: looping.index, node_handle: looping.node_handle };
    raw.set(&mut e, 7).unwrap();
    let err = looping.get(&e).unwrap_err();
    assert_eq!(err.code, ERROR_UNKNOWN);
    assert_eq!(err.message, "Bool property out of range.");
}

#[test]
fn float3_property_round_trips() {
    let (mut e, server) = session();
    let env = EnvironmentNode::new(&mut e, &server, "default").unwrap();
    let pos = env.position();
    assert_eq!(pos.get(&e).unwrap(), [0, 0, 0]);
    pos.set(&mut e, 1000, -2000, 3500).unwrap();
    assert_eq!(pos.get(&e).unwrap(), [1000, -2000, 3500]);
}

#[test]
fn float6_property_round_trips() {
    let (mut e, server) = session();
    let env = EnvironmentNode::new(&mut e, &server, "default").unwrap();
    let orient = env.orientation();
    assert_eq!(orient.get(&e).unwrap(), [0, 0, -1000, 0, 1000, 0]);
    orient.set(&mut e, 0, 1000, 0, 0, 0, 1000).unwrap();
    assert_eq!(orient.get(&e).unwrap(), [0, 1000, 0, 0, 0, 1000]);
}

#[test]
fn distance_model_round_trips() {
    let (mut e, server) = session();
    let env = EnvironmentNode::new(&mut e, &server, "default").unwrap();
    let model = env.distance_model();
    assert_eq!(model.get(&e).unwrap(), DistanceModel::Linear);
    model.set(&mut e, DistanceModel::Inverse).unwrap();
    assert_eq!(model.get(&e).unwrap(), DistanceModel::Inverse);
    model.set(&mut e, DistanceModel::InverseSquare).unwrap();
    assert_eq!(model.get(&e).unwrap(), DistanceModel::InverseSquare);
}

#[test]
fn raw_distance_model_out_of_tag_set_fails_typed_read() {
    let (mut e, server) = session();
    let env = EnvironmentNode::new(&mut e, &server, "default").unwrap();
    assert_eq!(
        e.node_set_int_property(env.handle, PROP_ENVIRONMENT_DISTANCE_MODEL, 99),
        0
    );
    let err = env.distance_model().get(&e).unwrap_err();
    assert_eq!(err.code, ERROR_UNKNOWN);
    assert_eq!(err.message, "Invalid distance model");
}

#[test]
fn node_state_round_trips() {
    let (mut e, server) = session();
    let node = BufferNode::new(&mut e, &server).unwrap();
    let state = node.state();
    assert_eq!(state.get(&e).unwrap(), NodeState::Playing);
    state.set(&mut e, NodeState::Paused).unwrap();
    assert_eq!(state.get(&e).unwrap(), NodeState::Paused);
    state.set(&mut e, NodeState::AlwaysPlaying).unwrap();
    assert_eq!(state.get(&e).unwrap(), NodeState::AlwaysPlaying);
}

#[test]
fn panning_strategy_round_trips() {
    let (mut e, server) = session();
    let env = EnvironmentNode::new(&mut e, &server, "default").unwrap();
    let strategy = env.panning_strategy();
    assert_eq!(strategy.get(&e).unwrap(), PanningStrategy::Stereo);
    strategy.set(&mut e, PanningStrategy::Surround51).unwrap();
    assert_eq!(strategy.get(&e).unwrap(), PanningStrategy::Surround51);
}

#[test]
fn property_type_mismatch_is_rejected() {
    let (mut e, server) = session();
    let env = EnvironmentNode::new(&mut e, &server, "default").unwrap();
    let wrong = IntProperty { index: PROP_ENVIRONMENT_MAX_DISTANCE, node_handle: env.handle };
    let err = wrong.get(&e).unwrap_err();
    assert_eq!(err.code, ERROR_INVALID_PROPERTY);
    assert_eq!(
        err.message,
        "invalid property index or property type mismatch"
    );
}

#[test]
fn unknown_property_index_is_rejected() {
    let (mut e, server) = session();
    let node = BufferNode::new(&mut e, &server).unwrap();
    let missing = IntProperty { index: 4242, node_handle: node.handle };
    let err = missing.get(&e).unwrap_err();
    assert_eq!(err.code, ERROR_INVALID_PROPERTY);
}

#[test]
fn stale_handle_is_rejected() {
    let (mut e, _server) = session();
    let missing = IntProperty { index: 1, node_handle: 4242 };
    let err = missing.get(&e).unwrap_err();
    assert_eq!(err.code, ERROR_INVALID_HANDLE);
    assert_eq!(err.message, "invalid or destroyed handle");
}

#[test]
fn source_copies_environment_defaults() {
    let (mut e, server) = session();
    let env = EnvironmentNode::new(&mut e, &server, "default").unwrap();
    env.max_distance().set(&mut e, 42_000).unwrap();
    env.distance_model()
        .set(&mut e, DistanceModel::InverseSquare)
        .unwrap();
    let source = libaudioverse::nodes::SourceNode::new(&mut e, &server, &env).unwrap();
    assert_eq!(source.max_distance().get(&e).unwrap(), 42_000);
    assert_eq!(
        source.distance_model().get(&e).unwrap(),
        DistanceModel::InverseSquare
    );
    assert_eq!(source.control_distance_model().get(&e).unwrap(), false);
    assert_eq!(source.occlusion().get(&e).unwrap(), 0);
}

#[test]
fn multipanner_addresses_its_panner_properties() {
    let mp = MultipannerNode { handle: 17 };
    assert_eq!(mp.azimuth().node_handle, 17);
    assert_eq!(mp.elevation().index, 2);
    assert_eq!(mp.should_crossfade().index, 3);
    assert_eq!(mp.strategy().index, 4);
    assert_eq!(mp.add().node_handle, 17);
    assert_eq!(mp.mul().node_handle, 17);
    assert_eq!(mp.state().node_handle, 17);
}

#[test]
fn hrtf_node_has_panner_properties() {
    let (mut e, server) = session();
    let hrtf = libaudioverse::nodes::HrtfNode::new(&mut e, &server, "default").unwrap();
    assert_eq!(hrtf.elevation().get(&e).unwrap(), 0);
    hrtf.elevation().set(&mut e, 45_000).unwrap();
    assert_eq!(hrtf.elevation().get(&e).unwrap(), 45_000);
    let err = hrtf.elevation().set(&mut e, 90_001).unwrap_err();
    assert_eq!(err.code, ERROR_RANGE);
    assert_eq!(hrtf.should_crossfade().get(&e).unwrap(), true);
}

#[test]
fn file_streamer_has_stream_properties() {
    let (mut e, server) = session();
    let fs = libaudioverse::nodes::FileStreamerNode::new(&mut e, &server, "song.ogg").unwrap();
    assert_eq!(fs.ended().get(&e).unwrap(), false);
    assert_eq!(fs.looping().get(&e).unwrap(), false);
    assert_eq!(fs.position().get(&e).unwrap(), 0);
}
