//! A node that plays a buffer.

use vstd::prelude::*;

verus! {

use crate::engine::Engine;
use crate::engine::PROP_BUFFER_BUFFER;
use crate::engine::PROP_BUFFER_POSITION;
use crate::engine::PROP_BUFFER_RATE;
use crate::engine::PROP_BUFFER_LOOPING;
use crate::engine::PROP_BUFFER_ENDED_COUNT;
use crate::create::create_buffer_node_spec;
use crate::server::Server;
use crate::nodes::Node;
use crate::nodes::Handled;
use crate::check;
use crate::nodes::properties::BoolProperty;
use crate::nodes::properties::BufferProperty;
use crate::nodes::properties::DoubleProperty;
use crate::nodes::properties::IntProperty;
use crate::lift_code;
use crate::spec_message_for;
use crate::Error;

/// A node that plays a buffer. Its output carries as many channels as the
/// buffer does, so connecting it directly to the server has the expected
/// effect. It has no inputs.
#[derive(Debug)]
pub struct BufferNode {
    pub handle: i32,
}

impl Handled for BufferNode {
    open spec fn node_handle_spec(&self) -> i32 {
        self.handle
    }

    fn get_handle(&self) -> i32 {
        self.handle
    }
}

impl Node for BufferNode {

    fn connect<D: Handled>(&self, e: &mut Engine, output: i32, destination: &D, input: i32) -> Result<
        (),
        Error,
    > {
        check(e.node_connect(self.get_handle(), output, destination.get_handle(), input))
    }

    fn connect_property<D: Handled>(
        &self,
        e: &mut Engine,
        output: i32,
        destination: &D,
        slot: i32,
    ) -> Result<(), Error> {
        check(e.node_connect_property(self.get_handle(), output, destination.get_handle(), slot))
    }

    fn disconnect<D: Handled>(&self, e: &mut Engine, output: i32, destination: &D, input: i32)
        -> Result<(), Error> {
        check(e.node_disconnect(self.get_handle(), output, destination.get_handle(), input))
    }
}

impl BufferNode {
    /// Creates a buffer-playing node.
    pub fn new(e: &mut Engine, server: &Server) -> (r: Result<BufferNode, Error>)
        requires
            old(e)@.wf(),
        ensures
            final(e)@ == create_buffer_node_spec(old(e)@, server.handle as int).1,
            create_buffer_node_spec(old(e)@, server.handle as int).0 matches Ok(h) ==> (r matches
                Ok(n) && n.handle as int == h),
            create_buffer_node_spec(old(e)@, server.handle as int).0 matches Err(c) ==> (r matches
                Err(err) && err.code == c && err.message@ == spec_message_for(c)),
            final(e)@.wf(),
    {
        match lift_code(e.create_buffer_node(server.handle)) {
            Ok(h) => Ok(BufferNode { handle: h }),
            Err(err) => Err(err),
        }
    }

    /// The buffer being played. Binding a buffer here rewinds the
    /// playback position.
    pub fn buffer(&self) -> (p: BufferProperty)
        ensures
            p.index == PROP_BUFFER_BUFFER,
            p.node_handle == self.handle,
    {
        BufferProperty { index: PROP_BUFFER_BUFFER, node_handle: self.handle }
    }

    /// The `ended_count` property: how many times playback has reached
    /// the buffer's end. Counts each loop when looping; writable, so it
    /// can be reset.
    pub fn ended_count(&self) -> (p: IntProperty)
        ensures
            p.index == PROP_BUFFER_ENDED_COUNT,
            p.node_handle == self.handle,
    {
        IntProperty { index: PROP_BUFFER_ENDED_COUNT, node_handle: self.handle }
    }

    /// The `looping` property: whether playback restarts from the
    /// beginning at the buffer's end. Default false.
    pub fn looping(&self) -> (p: BoolProperty)
        ensures
            p.index == PROP_BUFFER_LOOPING,
            p.node_handle == self.handle,
    {
        BoolProperty { index: PROP_BUFFER_LOOPING, node_handle: self.handle }
    }

    /// The `position` property: the playback position in frames, with a
    /// dynamic range bounded by the extent of the buffer being played.
    /// Default zero.
    pub fn position(&self) -> (p: DoubleProperty)
        ensures
            p.index == PROP_BUFFER_POSITION,
            p.node_handle == self.handle,
    {
        DoubleProperty { index: PROP_BUFFER_POSITION, node_handle: self.handle }
    }

    /// The `rate` property: a playback-rate multiplier in thousandths;
    /// one thousand is identity. Default one thousand.
    pub fn rate(&self) -> (p: DoubleProperty)
        ensures
            p.index == PROP_BUFFER_RATE,
            p.node_handle == self.handle,
    {
        DoubleProperty { index: PROP_BUFFER_RATE, node_handle: self.handle }
    }
}

} // verus!
