use libaudioverse::engine::Engine;
use libaudioverse::engine::ERROR_INVALID_HANDLE;
use libaudioverse::engine::ERROR_RANGE;
use libaudioverse::initialize;
use libaudioverse::nodes::properties::NodeState;
use libaudioverse::nodes::Node;
use libaudioverse::nodes::PullNode;
use libaudioverse::nodes::PushNode;
use libaudioverse::process::EngineEvent;
use libaudioverse::Server;

fn session() -> (Engine, Server) {
    let mut e = Engine::new();
    initialize(&mut e).unwrap();
    let server = Server::construct(&mut e, 44100, 1024).unwrap();
    (e, server)
}

#[test]
fn pull_node_demands_audio_through_its_token() {
    let (mut e, server) = session();
    let pull = PullNode::new(&mut e, &server, 44100, 2).unwrap();
    pull.connect_server(&mut e, 0).unwrap();
    // No callback registered: nothing is demanded.
    assert_eq!(server.process_block(&mut e).unwrap(), vec![]);
    assert_eq!(pull.set_audio_callback(&mut e, 7).unwrap(), None);
    let events = server.process_block(&mut e).unwrap();
    assert_eq!(
        events,
        vec![EngineEvent::Pull { token: 7, frames: 1024, channels: 2 }]
    );
}

#[test]
fn replacing_a_callback_returns_the_old_token() {
    let (mut e, server) = session();
    let pull = PullNode::new(&mut e, &server, 44100, 1).unwrap();
    assert_eq!(pull.set_audio_callback(&mut e, 7).unwrap(), None);
    assert_eq!(pull.set_audio_callback(&mut e, 8).unwrap(), Some(7));
    pull.connect_server(&mut e, 0).unwrap();
    let events = server.process_block(&mut e).unwrap();
    assert_eq!(
        events,
        vec![EngineEvent::Pull { token: 8, frames: 1024, channels: 1 }]
    );
}

#[test]
fn paused_pull_node_demands_nothing() {
    let (mut e, server) = session();
    let pull = PullNode::new(&mut e, &server, 44100, 2).unwrap();
    pull.set_audio_callback(&mut e, 7).unwrap();
    pull.connect_server(&mut e, 0).unwrap();
    pull.state().set(&mut e, NodeState::Paused).unwrap();
    assert_eq!(server.process_block(&mut e).unwrap(), vec![]);
}

#[test]
fn push_node_signals_low_and_underrun_once_each_way() {
    let (mut e, server) = session();
    let push = PushNode::new(&mut e, &server, 44100, 1).unwrap();
    push.connect_server(&mut e, 0).unwrap();
    push.set_low_callback(&mut e, 21).unwrap();
    push.set_underrun_callback(&mut e, 22).unwrap();
    // Queue three blocks of audio; the default threshold is thirty
    // milliseconds (1323 frames at this rate).
    let data = vec![0i64; 3072];
    push.feed(&mut e, 3072, &data).unwrap();
    // First block: 2048 frames remain, above the threshold.
    assert_eq!(server.process_block(&mut e).unwrap(), vec![]);
    // Second block: 1024 frames remain, under the threshold.
    assert_eq!(
        server.process_block(&mut e).unwrap(),
        vec![EngineEvent::Low { token: 21 }]
    );
    // Third block: the queue empties completely: low and underrun.
    assert_eq!(
        server.process_block(&mut e).unwrap(),
        vec![EngineEvent::Low { token: 21 }, EngineEvent::Underrun { token: 22 }]
    );
    // The queue stays empty: low keeps firing, underrun does not repeat.
    assert_eq!(
        server.process_block(&mut e).unwrap(),
        vec![EngineEvent::Low { token: 21 }]
    );
}

#[test]
fn feed_must_fill_whole_frames() {
    let (mut e, server) = session();
    let push = PushNode::new(&mut e, &server, 44100, 2).unwrap();
    let data = vec![0i64; 3];
    let err = push.feed(&mut e, 3, &data).unwrap_err();
    assert_eq!(err.code, ERROR_RANGE);
}

#[test]
fn feed_rejects_a_mismatched_slice() {
    let (mut e, server) = session();
    let push = PushNode::new(&mut e, &server, 44100, 2).unwrap();
    let data = vec![0i64; 2];
    let err = push.feed(&mut e, 4, &data).unwrap_err();
    assert_eq!(err.code, ERROR_RANGE);
}

#[test]
fn reset_forgets_queued_audio() {
    let (mut e, server) = session();
    let push = PushNode::new(&mut e, &server, 44100, 1).unwrap();
    push.connect_server(&mut e, 0).unwrap();
    push.set_underrun_callback(&mut e, 9).unwrap();
    let data = vec![0i64; 4096];
    push.feed(&mut e, 4096, &data).unwrap();
    push.reset(&mut e).unwrap();
    // The queue was emptied by reset, not by draining: the first block
    // sees an already-empty queue, so no underrun transition fires.
    let events = server.process_block(&mut e).unwrap();
    assert_eq!(events, vec![]);
}

#[test]
fn callback_registration_needs_the_right_node_kind() {
    let (mut e, server) = session();
    let pull = PullNode::new(&mut e, &server, 44100, 2).unwrap();
    let not_push = PushNode { handle: pull.handle };
    let err = not_push.set_low_callback(&mut e, 1).unwrap_err();
    assert_eq!(err.code, ERROR_INVALID_HANDLE);
}

#[test]
fn threshold_is_a_property_in_milliseconds() {
    let (mut e, server) = session();
    let push = PushNode::new(&mut e, &server, 44100, 1).unwrap();
    assert_eq!(push.threshold().get(&e).unwrap(), 30);
    push.threshold().set(&mut e, 100).unwrap();
    assert_eq!(push.threshold().get(&e).unwrap(), 100);
}
