//! A plain gain node.

use vstd::prelude::*;

verus! {

use crate::engine::Engine;
use crate::create::create_gain_node_spec;
use crate::server::Server;
use crate::nodes::Node;
use crate::nodes::Handled;
use crate::check;
use crate::lift_code;
use crate::spec_message_for;
use crate::Error;

/// A node that only applies the universal `mul` and `add` — useful for
/// changing the gain of, or mixing, a whole collection of nodes by
/// pointing them at its input.
#[derive(Debug)]
pub struct GainNode {
    pub handle: i32,
}

impl Handled for GainNode {
    open spec fn node_handle_spec(&self) -> i32 {
        self.handle
    }

    fn get_handle(&self) -> i32 {
        self.handle
    }
}

impl Node for GainNode {

    fn connect<D: Handled>(&self, e: &mut Engine, output: i32, destination: &D, input: i32) -> Result<
        (),
        Error,
    > {
        check(e.node_connect(self.get_handle(), output, destination.get_handle(), input))
    }

    fn connect_property<D: Handled>(
        &self,
        e: &mut Engine,
        output: i32,
        destination: &D,
        slot: i32,
    ) -> Result<(), Error> {
        check(e.node_connect_property(self.get_handle(), output, destination.get_handle(), slot))
    }

    fn disconnect<D: Handled>(&self, e: &mut Engine, output: i32, destination: &D, input: i32)
        -> Result<(), Error> {
        check(e.node_disconnect(self.get_handle(), output, destination.get_handle(), input))
    }
}

impl GainNode {
    /// Creates a gain node carrying the given channel count.
    pub fn new(e: &mut Engine, server: &Server, channels: i32) -> (r: Result<GainNode, Error>)
        requires
            old(e)@.wf(),
        ensures
            final(e)@ == create_gain_node_spec(old(e)@, server.handle as int, channels).1,
            create_gain_node_spec(old(e)@, server.handle as int, channels).0 matches Ok(h) ==> (
            r matches Ok(n) && n.handle as int == h),
            create_gain_node_spec(old(e)@, server.handle as int, channels).0 matches Err(c) ==> (
            r matches Err(err) && err.code == c && err.message@ == spec_message_for(c)),
            final(e)@.wf(),
    {
        match lift_code(e.create_gain_node(server.handle, channels)) {
            Ok(h) => Ok(GainNode { handle: h }),
            Err(err) => Err(err),
        }
    }
}

} // verus!
