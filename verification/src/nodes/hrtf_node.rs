//! An HRTF panner node.

use vstd::prelude::*;

verus! {

use crate::engine::Engine;
use crate::engine::PROP_PANNER_AZIMUTH;
use crate::engine::PROP_PANNER_ELEVATION;
use crate::engine::PROP_PANNER_SHOULD_CROSSFADE;
use crate::create::create_hrtf_node_spec;
use crate::server::Server;
use crate::nodes::Node;
use crate::nodes::Handled;
use crate::check;
use crate::nodes::properties::BoolProperty;
use crate::nodes::properties::FloatProperty;
use crate::lift_code;
use crate::spec_message_for;
use crate::Error;

/// An HRTF panner: one mono input, one stereo output with the
/// head-related transfer function applied.
#[derive(Debug)]
pub struct HrtfNode {
    pub handle: i32,
}

impl Handled for HrtfNode {
    open spec fn node_handle_spec(&self) -> i32 {
        self.handle
    }

    fn get_handle(&self) -> i32 {
        self.handle
    }
}

impl Node for HrtfNode {

    fn connect<D: Handled>(&self, e: &mut Engine, output: i32, destination: &D, input: i32) -> Result<
        (),
        Error,
    > {
        check(e.node_connect(self.get_handle(), output, destination.get_handle(), input))
    }

    fn connect_property<D: Handled>(
        &self,
        e: &mut Engine,
        output: i32,
        destination: &D,
        slot: i32,
    ) -> Result<(), Error> {
        check(e.node_connect_property(self.get_handle(), output, destination.get_handle(), slot))
    }

    fn disconnect<D: Handled>(&self, e: &mut Engine, output: i32, destination: &D, input: i32)
        -> Result<(), Error> {
        check(e.node_disconnect(self.get_handle(), output, destination.get_handle(), input))
    }
}

impl HrtfNode {
    /// Creates an HRTF node; the path names an HRTF data set of your own,
    /// or "default" for the engine's built-in set.
    pub fn new(e: &mut Engine, server: &Server, hrtf_path: &str) -> (r: Result<HrtfNode, Error>)
        requires
            old(e)@.wf(),
        ensures
            final(e)@ == create_hrtf_node_spec(old(e)@, server.handle as int).1,
            create_hrtf_node_spec(old(e)@, server.handle as int).0 matches Ok(h) ==> (r matches Ok(
                n,
            ) && n.handle as int == h),
            create_hrtf_node_spec(old(e)@, server.handle as int).0 matches Err(c) ==> (r matches
                Err(err) && err.code == c && err.message@ == spec_message_for(c)),
            final(e)@.wf(),
    {
        match lift_code(e.create_hrtf_node(server.handle, hrtf_path)) {
            Ok(h) => Ok(HrtfNode { handle: h }),
            Err(err) => Err(err),
        }
    }

    /// The `azimuth` property: the horizontal angle in thousandths of a
    /// degree, zero straight ahead, positive clockwise. Unbounded,
    /// default zero.
    pub fn azimuth(&self) -> (p: FloatProperty)
        ensures
            p.index == PROP_PANNER_AZIMUTH,
            p.node_handle == self.handle,
    {
        FloatProperty { index: PROP_PANNER_AZIMUTH, node_handle: self.handle }
    }

    /// The `elevation` property: the vertical angle in thousandths of a
    /// degree, zero horizontal, positive upward; ranges over plus and
    /// minus ninety degrees. Default zero.
    pub fn elevation(&self) -> (p: FloatProperty)
        ensures
            p.index == PROP_PANNER_ELEVATION,
            p.node_handle == self.handle,
    {
        FloatProperty { index: PROP_PANNER_ELEVATION, node_handle: self.handle }
    }

    /// The `should_crossfade` property: whether the panner crossfades its
    /// output on movement; for HRTF panners turning this off produces
    /// audible artifacts even for small updates. Default true.
    pub fn should_crossfade(&self) -> (p: BoolProperty)
        ensures
            p.index == PROP_PANNER_SHOULD_CROSSFADE,
            p.node_handle == self.handle,
    {
        BoolProperty { index: PROP_PANNER_SHOULD_CROSSFADE, node_handle: self.handle }
    }
}

} // verus!
