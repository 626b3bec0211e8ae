use libaudioverse::engine::Engine;
use libaudioverse::engine::ERROR_INVALID_HANDLE;
use libaudioverse::initialize;
use libaudioverse::lav_ptr::LavPtr;
use libaudioverse::nodes::BufferNode;
use libaudioverse::nodes::GainNode;
use libaudioverse::nodes::Node;
use libaudioverse::Server;

fn session() -> (Engine, Server) {
    let mut e = Engine::new();
    initialize(&mut e).unwrap();
    let server = Server::new(&mut e).unwrap();
    (e, server)
}

#[test]
fn wrapping_a_fresh_handle_adopts_the_creation_reference() {
    let (mut e, server) = session();
    let node = BufferNode::new(&mut e, &server).unwrap();
    let ptr = LavPtr::new(&mut e, node.handle).unwrap();
    // One unit owned in total: the single release destroys the object.
    ptr.release(&mut e).unwrap();
    let err = node.ended_count().get(&e).unwrap_err();
    assert_eq!(err.code, ERROR_INVALID_HANDLE);
}

#[test]
fn n_clones_need_n_plus_one_drops() {
    let (mut e, server) = session();
    let node = BufferNode::new(&mut e, &server).unwrap();
    let ptr = LavPtr::new(&mut e, node.handle).unwrap();
    let clone_a = ptr.try_clone(&mut e).unwrap();
    let clone_b = ptr.try_clone(&mut e).unwrap();
    // Two clones: after two drops the object is still alive...
    clone_a.release(&mut e).unwrap();
    clone_b.release(&mut e).unwrap();
    assert_eq!(node.ended_count().get(&e).unwrap(), 0);
    // ...and the third drop destroys it, exactly once: a further release
    // through the stale handle is rejected.
    ptr.release(&mut e).unwrap();
    let err = node.ended_count().get(&e).unwrap_err();
    assert_eq!(err.code, ERROR_INVALID_HANDLE);
    let stale = LavPtr { handle: node.handle };
    let err2 = stale.release(&mut e).unwrap_err();
    assert_eq!(err2.code, ERROR_INVALID_HANDLE);
}

#[test]
fn server_connection_keeps_a_node_alive_without_references() {
    let (mut e, server) = session();
    let node = BufferNode::new(&mut e, &server).unwrap();
    node.connect_server(&mut e, 0).unwrap();
    let ptr = LavPtr::new(&mut e, node.handle).unwrap();
    ptr.release(&mut e).unwrap();
    // No reference units remain, but the path to the server retains it.
    assert_eq!(node.ended_count().get(&e).unwrap(), 0);
    // Severing that path lets the engine destroy it.
    node.isolate(&mut e).unwrap();
    let err = node.ended_count().get(&e).unwrap_err();
    assert_eq!(err.code, ERROR_INVALID_HANDLE);
}

#[test]
fn chained_connections_retain_upstream_nodes() {
    let (mut e, server) = session();
    let upstream = GainNode::new(&mut e, &server, 2).unwrap();
    let downstream = GainNode::new(&mut e, &server, 2).unwrap();
    upstream.connect(&mut e, 0, &downstream, 0).unwrap();
    downstream.connect_server(&mut e, 0).unwrap();
    let up_ptr = LavPtr::new(&mut e, upstream.handle).unwrap();
    up_ptr.release(&mut e).unwrap();
    // Alive through downstream, which is alive through the server.
    assert_eq!(upstream.get_output_connection_count(&e).unwrap(), 1);
    // Cutting downstream off the server fells the whole unreferenced chain
    // once downstream's own reference goes.
    let down_ptr = LavPtr::new(&mut e, downstream.handle).unwrap();
    down_ptr.release(&mut e).unwrap();
    downstream.isolate(&mut e).unwrap();
    let err = downstream.get_output_connection_count(&e).unwrap_err();
    assert_eq!(err.code, ERROR_INVALID_HANDLE);
    let err2 = upstream.get_output_connection_count(&e).unwrap_err();
    assert_eq!(err2.code, ERROR_INVALID_HANDLE);
}
