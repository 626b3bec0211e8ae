use libaudioverse::engine::Engine;
use libaudioverse::engine::ERROR_CAUSES_CYCLE;
use libaudioverse::engine::ERROR_RANGE;
use libaudioverse::engine::PROP_NODE_MUL;
use libaudioverse::initialize;
use libaudioverse::nodes::GainNode;
use libaudioverse::nodes::Node;
use libaudioverse::Server;

fn session() -> (Engine, Server) {
    let mut e = Engine::new();
    initialize(&mut e).unwrap();
    let server = Server::new(&mut e).unwrap();
    (e, server)
}

#[test]
fn connect_and_count_edges() {
    let (mut e, server) = session();
    let a = GainNode::new(&mut e, &server, 2).unwrap();
    let b = GainNode::new(&mut e, &server, 2).unwrap();
    assert_eq!(a.get_output_connection_count(&e).unwrap(), 0);
    assert_eq!(b.get_input_connection_count(&e).unwrap(), 0);
    a.connect(&mut e, 0, &b, 0).unwrap();
    a.connect_server(&mut e, 0).unwrap();
    assert_eq!(a.get_output_connection_count(&e).unwrap(), 2);
    assert_eq!(b.get_input_connection_count(&e).unwrap(), 1);
}

#[test]
fn direct_cycle_is_rejected_with_no_partial_edge() {
    let (mut e, server) = session();
    let a = GainNode::new(&mut e, &server, 2).unwrap();
    let b = GainNode::new(&mut e, &server, 2).unwrap();
    a.connect(&mut e, 0, &b, 0).unwrap();
    let err = b.connect(&mut e, 0, &a, 0).unwrap_err();
    assert_eq!(err.code, ERROR_CAUSES_CYCLE);
    assert_eq!(err.message, "connection would cause a cycle");
    // Nothing was installed by the rejected call.
    assert_eq!(b.get_output_connection_count(&e).unwrap(), 0);
    assert_eq!(a.get_input_connection_count(&e).unwrap(), 0);
}

#[test]
fn longer_cycle_is_rejected_too() {
    let (mut e, server) = session();
    let a = GainNode::new(&mut e, &server, 2).unwrap();
    let b = GainNode::new(&mut e, &server, 2).unwrap();
    let c = GainNode::new(&mut e, &server, 2).unwrap();
    a.connect(&mut e, 0, &b, 0).unwrap();
    b.connect(&mut e, 0, &c, 0).unwrap();
    let err = c.connect(&mut e, 0, &a, 0).unwrap_err();
    assert_eq!(err.code, ERROR_CAUSES_CYCLE);
    assert_eq!(c.get_output_connection_count(&e).unwrap(), 0);
}

#[test]
fn self_connection_is_a_cycle() {
    let (mut e, server) = session();
    let a = GainNode::new(&mut e, &server, 2).unwrap();
    let err = a.connect(&mut e, 0, &a, 0).unwrap_err();
    assert_eq!(err.code, ERROR_CAUSES_CYCLE);
}

#[test]
fn isolate_severs_every_output() {
    let (mut e, server) = session();
    let a = GainNode::new(&mut e, &server, 2).unwrap();
    let b = GainNode::new(&mut e, &server, 2).unwrap();
    let c = GainNode::new(&mut e, &server, 2).unwrap();
    a.connect(&mut e, 0, &b, 0).unwrap();
    a.connect(&mut e, 0, &c, 1).unwrap();
    a.connect_server(&mut e, 0).unwrap();
    assert_eq!(a.get_output_connection_count(&e).unwrap(), 3);
    a.isolate(&mut e).unwrap();
    assert_eq!(a.get_output_connection_count(&e).unwrap(), 0);
    assert_eq!(b.get_input_connection_count(&e).unwrap(), 0);
    assert_eq!(c.get_input_connection_count(&e).unwrap(), 0);
}

#[test]
fn disconnect_removes_the_named_edge() {
    let (mut e, server) = session();
    let a = GainNode::new(&mut e, &server, 2).unwrap();
    let b = GainNode::new(&mut e, &server, 2).unwrap();
    a.connect(&mut e, 0, &b, 0).unwrap();
    a.disconnect(&mut e, 0, &b, 0).unwrap();
    assert_eq!(a.get_output_connection_count(&e).unwrap(), 0);
    // Disconnecting a connection that does not exist is an error.
    let err = a.disconnect(&mut e, 0, &b, 0).unwrap_err();
    assert_eq!(err.code, ERROR_RANGE);
}

#[test]
fn property_connections_target_automatable_scalars() {
    let (mut e, server) = session();
    let a = GainNode::new(&mut e, &server, 2).unwrap();
    let b = GainNode::new(&mut e, &server, 2).unwrap();
    a.connect_property(&mut e, 0, &b, PROP_NODE_MUL).unwrap();
    assert_eq!(a.get_output_connection_count(&e).unwrap(), 1);
    // A non-scalar target slot is rejected.
    let err = a.connect_property(&mut e, 0, &b, 4242).unwrap_err();
    assert_eq!(
        err.message,
        "invalid property index or property type mismatch"
    );
}

#[test]
fn reset_leaves_properties_alone() {
    let (mut e, server) = session();
    let a = GainNode::new(&mut e, &server, 2).unwrap();
    a.mul().set(&mut e, 250).unwrap();
    a.reset(&mut e).unwrap();
    assert_eq!(a.mul().get(&e).unwrap(), 250);
}
