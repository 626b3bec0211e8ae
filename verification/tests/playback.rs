use libaudioverse::engine::Engine;
use libaudioverse::engine::ERROR_RANGE;
use libaudioverse::engine::ERROR_UNKNOWN;
use libaudioverse::initialize;
use libaudioverse::nodes::BufferNode;
use libaudioverse::nodes::Node;
use libaudioverse::nodes::properties::NodeState;
use libaudioverse::Buffer;
use libaudioverse::Server;

fn session() -> (Engine, Server) {
    let mut e = Engine::new();
    initialize(&mut e).unwrap();
    let server = Server::construct(&mut e, 44100, 1024).unwrap();
    (e, server)
}

fn two_second_mono_buffer(e: &mut Engine, server: &Server) -> Buffer {
    let buf = Buffer::new(e, server).unwrap();
    let data = vec![0i64; 88200];
    buf.load_from_array(e, 44100, 1, 88200, &data).unwrap();
    buf
}

#[test]
fn load_reports_the_resampled_extent() {
    let (mut e, server) = session();
    let buf = two_second_mono_buffer(&mut e, &server);
    assert_eq!(buf.get_length_in_samples(&e).unwrap(), 88200);
    // Two seconds of audio: two thousand milliseconds.
    assert_eq!(buf.get_duration(&e).unwrap(), 2000);
    buf.normalize(&mut e).unwrap();
    assert_eq!(buf.get_length_in_samples(&e).unwrap(), 88200);
}

#[test]
fn loading_resamples_to_the_server_rate() {
    let (mut e, server) = session();
    let buf = Buffer::new(&mut e, &server).unwrap();
    // One second of audio recorded at 22050 Hz becomes 44100 frames at the
    // server's 44100 Hz.
    let data = vec![0i64; 22050];
    buf.load_from_array(&mut e, 22050, 1, 22050, &data).unwrap();
    assert_eq!(buf.get_length_in_samples(&e).unwrap(), 44100);
    assert_eq!(buf.get_duration(&e).unwrap(), 1000);
}

#[test]
fn load_rejects_mismatched_data_length() {
    let (mut e, server) = session();
    let buf = Buffer::new(&mut e, &server).unwrap();
    let data = vec![0i64; 100];
    let err = buf.load_from_array(&mut e, 44100, 2, 99, &data).unwrap_err();
    assert_eq!(err.code, ERROR_RANGE);
}

#[test]
fn loading_a_buffer_in_use_is_rejected() {
    let (mut e, server) = session();
    let buf = two_second_mono_buffer(&mut e, &server);
    let node = BufferNode::new(&mut e, &server).unwrap();
    node.buffer().set(&mut e, &buf).unwrap();
    let data = vec![0i64; 4];
    let err = buf.load_from_array(&mut e, 44100, 1, 4, &data).unwrap_err();
    assert_eq!(err.code, ERROR_UNKNOWN);
    let err2 = buf.normalize(&mut e).unwrap_err();
    assert_eq!(err2.code, ERROR_UNKNOWN);
}

#[test]
fn binding_a_buffer_rewinds_position_and_sets_its_range() {
    let (mut e, server) = session();
    let buf = two_second_mono_buffer(&mut e, &server);
    let node = BufferNode::new(&mut e, &server).unwrap();
    node.buffer().set(&mut e, &buf).unwrap();
    assert_eq!(node.position().get(&e).unwrap(), 0);
    assert_eq!(node.position().get_range(&e).unwrap(), (0, 88200));
}

#[test]
fn ended_count_increments_exactly_once_at_the_end() {
    let (mut e, server) = session();
    let buf = two_second_mono_buffer(&mut e, &server);
    let node = BufferNode::new(&mut e, &server).unwrap();
    node.buffer().set(&mut e, &buf).unwrap();
    node.connect_server(&mut e, 0).unwrap();
    assert_eq!(node.looping().get(&e).unwrap(), false);

    // Advance playback to the buffer's extent minus one block.
    let extent = buf.get_length_in_samples(&e).unwrap() as i64;
    node.position().set(&mut e, extent - 1024).unwrap();
    assert_eq!(node.ended_count().get(&e).unwrap(), 0);

    // The next processing block reaches the end: the counter goes up once.
    server.process_block(&mut e).unwrap();
    assert_eq!(node.ended_count().get(&e).unwrap(), 1);
    assert_eq!(node.position().get(&e).unwrap(), extent);

    // Further blocks do not count the same end again.
    server.process_block(&mut e).unwrap();
    server.process_block(&mut e).unwrap();
    assert_eq!(node.ended_count().get(&e).unwrap(), 1);
}

#[test]
fn looping_playback_wraps_and_counts_each_loop() {
    let (mut e, server) = session();
    let buf = two_second_mono_buffer(&mut e, &server);
    let node = BufferNode::new(&mut e, &server).unwrap();
    node.buffer().set(&mut e, &buf).unwrap();
    node.connect_server(&mut e, 0).unwrap();
    node.looping().set(&mut e, true).unwrap();
    node.position().set(&mut e, 88200 - 24).unwrap();
    server.process_block(&mut e).unwrap();
    assert_eq!(node.ended_count().get(&e).unwrap(), 1);
    assert_eq!(node.position().get(&e).unwrap(), 1000);
}

#[test]
fn paused_nodes_do_not_advance() {
    let (mut e, server) = session();
    let buf = two_second_mono_buffer(&mut e, &server);
    let node = BufferNode::new(&mut e, &server).unwrap();
    node.buffer().set(&mut e, &buf).unwrap();
    node.connect_server(&mut e, 0).unwrap();
    node.state().set(&mut e, NodeState::Paused).unwrap();
    server.process_block(&mut e).unwrap();
    assert_eq!(node.position().get(&e).unwrap(), 0);
}

#[test]
fn unconnected_playing_nodes_do_not_advance() {
    let (mut e, server) = session();
    let buf = two_second_mono_buffer(&mut e, &server);
    let node = BufferNode::new(&mut e, &server).unwrap();
    node.buffer().set(&mut e, &buf).unwrap();
    // Playing, but no chain leads to the server: nothing needs its audio.
    server.process_block(&mut e).unwrap();
    assert_eq!(node.position().get(&e).unwrap(), 0);
    // An isolated node stops contributing samples anywhere.
    node.connect_server(&mut e, 0).unwrap();
    server.process_block(&mut e).unwrap();
    assert_eq!(node.position().get(&e).unwrap(), 1024);
    node.isolate(&mut e).unwrap();
    server.process_block(&mut e).unwrap();
    assert_eq!(node.position().get(&e).unwrap(), 1024);
}

#[test]
fn always_playing_nodes_advance_unconnected() {
    let (mut e, server) = session();
    let buf = two_second_mono_buffer(&mut e, &server);
    let node = BufferNode::new(&mut e, &server).unwrap();
    node.buffer().set(&mut e, &buf).unwrap();
    node.state().set(&mut e, NodeState::AlwaysPlaying).unwrap();
    server.process_block(&mut e).unwrap();
    assert_eq!(node.position().get(&e).unwrap(), 1024);
}

#[test]
fn playback_rate_scales_the_advance() {
    let (mut e, server) = session();
    let buf = two_second_mono_buffer(&mut e, &server);
    let node = BufferNode::new(&mut e, &server).unwrap();
    node.buffer().set(&mut e, &buf).unwrap();
    node.connect_server(&mut e, 0).unwrap();
    node.rate().set(&mut e, 500).unwrap();
    server.process_block(&mut e).unwrap();
    assert_eq!(node.position().get(&e).unwrap(), 512);
}

#[test]
fn play_async_runs_and_disposes_itself() {
    let (mut e, server) = session();
    let buf = Buffer::new(&mut e, &server).unwrap();
    let data = vec![0i64; 2048];
    buf.load_from_array(&mut e, 44100, 1, 2048, &data).unwrap();
    let env =
        libaudioverse::nodes::EnvironmentNode::new(&mut e, &server, "default").unwrap();
    env.connect_server(&mut e, 0).unwrap();
    env.play_async(&mut e, &buf, 1000, 0, 0, false).unwrap();
    // Two blocks cover the 2048 frames; the spawned playback then ends and
    // the engine disposes of it, releasing the buffer.
    server.process_block(&mut e).unwrap();
    server.process_block(&mut e).unwrap();
    let data2 = vec![0i64; 4];
    buf.load_from_array(&mut e, 44100, 1, 4, &data2).unwrap();
    assert_eq!(buf.get_length_in_samples(&e).unwrap(), 4);
}
