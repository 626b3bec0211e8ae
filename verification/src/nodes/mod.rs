//! Nodes: the graph participants that generate, transform, and analyze
//! audio. The [`Node`] trait is the capability set every playable object
//! implements — connecting edges, reaching the server's final mix,
//! isolation, fan-in and fan-out queries, and the three universal
//! properties `add`, `mul`, and `state`.

use vstd::prelude::*;

pub mod properties;

pub mod buffer_node;
pub mod environment_node;
pub mod file_streamer_node;
pub mod gain_node;
pub mod hrtf_node;
pub mod multipanner_node;
pub mod pull_node;
pub mod push_node;
pub mod source_node;

pub use self::buffer_node::BufferNode;
pub use self::environment_node::EnvironmentNode;
pub use self::file_streamer_node::FileStreamerNode;
pub use self::gain_node::GainNode;
pub use self::hrtf_node::HrtfNode;
pub use self::multipanner_node::MultipannerNode;
pub use self::pull_node::PullNode;
pub use self::push_node::PushNode;
pub use self::source_node::SourceNode;

verus! {

use crate::engine::Engine;
use crate::engine::PROP_NODE_ADD;
use crate::engine::PROP_NODE_MUL;
use crate::engine::PROP_NODE_STATE;
use crate::connect::node_connect_spec;
use crate::connect::node_connect_property_spec;
use crate::connect::node_connect_server_spec;
use crate::connect::node_disconnect_spec;
use crate::connect::node_isolate_spec;
use crate::connect::node_reset_spec;
use crate::connect::count_inputs_upto;
use crate::nodes::properties::FloatProperty;
use crate::nodes::properties::NodeStateProperty;
use crate::check;
use crate::lift_code;
use crate::spec_message_for;
use crate::Error;

/// Anything addressed by a raw engine handle. Connection destinations
/// only need their handle, so the graph methods of [`Node`] take any
/// handled value.
pub trait Handled {
    /// The value's raw handle, at the specification level.
    spec fn node_handle_spec(&self) -> i32;

    /// The value's raw handle.
    fn get_handle(&self) -> (h: i32)
        ensures
            h == self.node_handle_spec(),
    ;
}

/// Functionality available on every node of the engine.
pub trait Node: Handled {
    /// Connects an output of this node to an input of another. An edge
    /// that would make the processing graph cyclic is rejected whole; no
    /// partial edge is left installed.
    fn connect<D: Handled>(&self, e: &mut Engine, output: i32, destination: &D, input: i32) -> (r:
        Result<(), Error>)
        requires
            old(e)@.wf(),
        ensures
            final(e)@ == node_connect_spec(
                old(e)@,
                self.node_handle_spec() as int,
                output,
                destination.node_handle_spec() as int,
                input,
            ).1,
            node_connect_spec(
                old(e)@,
                self.node_handle_spec() as int,
                output,
                destination.node_handle_spec() as int,
                input,
            ).0 == 0 <==> r is Ok,
            r matches Err(err) ==> err.code == node_connect_spec(
                old(e)@,
                self.node_handle_spec() as int,
                output,
                destination.node_handle_spec() as int,
                input,
            ).0 && err.message@ == spec_message_for(err.code),
            final(e)@.wf(),
    ;

    /// Connects an output of this node to an automatable scalar property
    /// of another node.
    fn connect_property<D: Handled>(&self, e: &mut Engine, output: i32, destination: &D, slot: i32)
        -> (r: Result<(), Error>)
        requires
            old(e)@.wf(),
        ensures
            final(e)@ == node_connect_property_spec(
                old(e)@,
                self.node_handle_spec() as int,
                output,
                destination.node_handle_spec() as int,
                slot,
            ).1,
            node_connect_property_spec(
                old(e)@,
                self.node_handle_spec() as int,
                output,
                destination.node_handle_spec() as int,
                slot,
            ).0 == 0 <==> r is Ok,
            r matches Err(err) ==> err.code == node_connect_property_spec(
                old(e)@,
                self.node_handle_spec() as int,
                output,
                destination.node_handle_spec() as int,
                slot,
            ).0 && err.message@ == spec_message_for(err.code),
            final(e)@.wf(),
    ;

    /// Connects an output of this node to its server's final mix — the
    /// sole way a node's audio reaches the output, and the anchor that
    /// keeps a connected node alive even with no outside reference.
    fn connect_server(&self, e: &mut Engine, output: i32) -> (r: Result<(), Error>)
        requires
            old(e)@.wf(),
        ensures
            final(e)@ == node_connect_server_spec(
                old(e)@,
                self.node_handle_spec() as int,
                output,
            ).1,
            node_connect_server_spec(old(e)@, self.node_handle_spec() as int, output).0 == 0 <==> r
                is Ok,
            r matches Err(err) ==> err.code == node_connect_server_spec(
                old(e)@,
                self.node_handle_spec() as int,
                output,
            ).0 && err.message@ == spec_message_for(err.code),
            final(e)@.wf(),
    {
        check(e.node_connect_server(self.get_handle(), output))
    }

    /// Severs the connection named by (output, destination, input);
    /// whatever the removal leaves unreferenced and unconnected is
    /// destroyed by the engine.
    fn disconnect<D: Handled>(&self, e: &mut Engine, output: i32, destination: &D, input: i32) -> (r:
        Result<(), Error>)
        requires
            old(e)@.wf(),
        ensures
            final(e)@ == node_disconnect_spec(
                old(e)@,
                self.node_handle_spec() as int,
                output,
                destination.node_handle_spec() as int,
                input,
            ).1,
            node_disconnect_spec(
                old(e)@,
                self.node_handle_spec() as int,
                output,
                destination.node_handle_spec() as int,
                input,
            ).0 == 0 <==> r is Ok,
            r matches Err(err) ==> err.code == node_disconnect_spec(
                old(e)@,
                self.node_handle_spec() as int,
                output,
                destination.node_handle_spec() as int,
                input,
            ).0 && err.message@ == spec_message_for(err.code),
            final(e)@.wf(),
    ;

    /// How many connections arrive at this node's inputs.
    fn get_input_connection_count(&self, e: &Engine) -> (r: Result<u32, Error>)
        requires
            e@.wf(),
        ensures
            !e@.is_alive(self.node_handle_spec() as int) ==> (r matches Err(err) && err.code
                == crate::engine::ERROR_INVALID_HANDLE),
            e@.is_alive(self.node_handle_spec() as int) && count_inputs_upto(
                e@,
                self.node_handle_spec() as int,
                e@.objects.len() as int,
            ) <= u32::MAX ==> (r matches Ok(c) && c == count_inputs_upto(
                e@,
                self.node_handle_spec() as int,
                e@.objects.len() as int,
            )),
    {
        lift_code(e.node_get_input_connection_count(self.get_handle()))
    }

    /// How many connections leave this node's outputs.
    fn get_output_connection_count(&self, e: &Engine) -> (r: Result<u32, Error>)
        requires
            e@.wf(),
        ensures
            !e@.is_alive(self.node_handle_spec() as int) ==> (r matches Err(err) && err.code
                == crate::engine::ERROR_INVALID_HANDLE),
            e@.is_alive(self.node_handle_spec() as int) ==> (r matches Ok(c) && c == e@.obj(
                self.node_handle_spec() as int,
            ).edges.len()),
    {
        lift_code(e.node_get_output_connection_count(self.get_handle()))
    }

    /// Severs every outgoing connection of this node in one step. After
    /// isolation the node no longer influences the mix in any way, but
    /// keeps its state and properties.
    fn isolate(&self, e: &mut Engine) -> (r: Result<(), Error>)
        requires
            old(e)@.wf(),
        ensures
            final(e)@ == node_isolate_spec(old(e)@, self.node_handle_spec() as int).1,
            node_isolate_spec(old(e)@, self.node_handle_spec() as int).0 == 0 <==> r is Ok,
            r matches Err(err) ==> err.code == node_isolate_spec(
                old(e)@,
                self.node_handle_spec() as int,
            ).0 && err.message@ == spec_message_for(err.code),
            final(e)@.wf(),
    {
        check(e.node_isolate(self.get_handle()))
    }

    /// Restores the node's internal processing state without touching any
    /// property value — a distinct operation from isolation.
    fn reset(&self, e: &mut Engine) -> (r: Result<(), Error>)
        requires
            old(e)@.wf(),
        ensures
            final(e)@ == node_reset_spec(old(e)@, self.node_handle_spec() as int).1,
            node_reset_spec(old(e)@, self.node_handle_spec() as int).0 == 0 <==> r is Ok,
            r matches Err(err) ==> err.code == node_reset_spec(
                old(e)@,
                self.node_handle_spec() as int,
            ).0 && err.message@ == spec_message_for(err.code),
            final(e)@.wf(),
    {
        check(e.node_reset(self.get_handle()))
    }

    /// The `add` property: an offset added to the node's output after
    /// `mul` is applied. Unbounded, default zero.
    fn add(&self) -> (p: FloatProperty)
        ensures
            p.index == PROP_NODE_ADD,
            p.node_handle == self.node_handle_spec(),
    {
        FloatProperty { index: PROP_NODE_ADD, node_handle: self.get_handle() }
    }

    /// The `mul` property: a multiplier applied to the node's output
    /// before `add`. Unbounded, default one.
    fn mul(&self) -> (p: FloatProperty)
        ensures
            p.index == PROP_NODE_MUL,
            p.node_handle == self.node_handle_spec(),
    {
        FloatProperty { index: PROP_NODE_MUL, node_handle: self.get_handle() }
    }

    /// The `state` property: always playing, playing, or paused; default
    /// playing.
    fn state(&self) -> (p: NodeStateProperty)
        ensures
            p.index == PROP_NODE_STATE,
            p.node_handle == self.node_handle_spec(),
    {
        NodeStateProperty { index: PROP_NODE_STATE, node_handle: self.get_handle() }
    }
}

} // verus!
