//! The entry point to the spatialized-sound simulation.

use vstd::prelude::*;

verus! {

use crate::engine::Engine;
use crate::engine::PROP_ENVIRONMENT_REVERB_DISTANCE;
use crate::engine::PROP_ENVIRONMENT_DEFAULT_SIZE;
use crate::engine::PROP_ENVIRONMENT_DISTANCE_MODEL;
use crate::engine::PROP_ENVIRONMENT_MAX_DISTANCE;
use crate::engine::PROP_ENVIRONMENT_MAX_REVERB_LEVEL;
use crate::engine::PROP_ENVIRONMENT_MIN_REVERB_LEVEL;
use crate::engine::PROP_ENVIRONMENT_ORIENTATION;
use crate::engine::PROP_ENVIRONMENT_OUTPUT_CHANNELS;
use crate::engine::PROP_ENVIRONMENT_PANNING_STRATEGY;
use crate::engine::PROP_ENVIRONMENT_POSITION;
use crate::create::create_environment_node_spec;
use crate::process::play_async_spec;
use crate::server::Server;
use crate::buffer::Buffer;
use crate::nodes::Node;
use crate::nodes::Handled;
use crate::nodes::properties::DistanceModelProperty;
use crate::nodes::properties::Float3Property;
use crate::nodes::properties::Float6Property;
use crate::nodes::properties::FloatProperty;
use crate::nodes::properties::IntProperty;
use crate::nodes::properties::PanningStrategyProperty;
use crate::check;
use crate::lift_code;
use crate::spec_message_for;
use crate::Error;

/// The environment node holds the listener and the defaults that sources
/// delegate to, and aggregates the output of every source created against
/// it. It has no inputs; its output carries `output_channels` channels.
#[derive(Debug)]
pub struct EnvironmentNode {
    pub handle: i32,
}

impl Handled for EnvironmentNode {
    open spec fn node_handle_spec(&self) -> i32 {
        self.handle
    }

    fn get_handle(&self) -> i32 {
        self.handle
    }
}

impl Node for EnvironmentNode {

    fn connect<D: Handled>(&self, e: &mut Engine, output: i32, destination: &D, input: i32) -> Result<
        (),
        Error,
    > {
        check(e.node_connect(self.get_handle(), output, destination.get_handle(), input))
    }

    fn connect_property<D: Handled>(
        &self,
        e: &mut Engine,
        output: i32,
        destination: &D,
        slot: i32,
    ) -> Result<(), Error> {
        check(e.node_connect_property(self.get_handle(), output, destination.get_handle(), slot))
    }

    fn disconnect<D: Handled>(&self, e: &mut Engine, output: i32, destination: &D, input: i32)
        -> Result<(), Error> {
        check(e.node_disconnect(self.get_handle(), output, destination.get_handle(), input))
    }
}

impl EnvironmentNode {
    /// Creates an environment node; the path names an HRTF data set, or
    /// "default" for the engine's built-in one.
    pub fn new(e: &mut Engine, server: &Server, hrtf_path: &str) -> (r: Result<
        EnvironmentNode,
        Error,
    >)
        requires
            old(e)@.wf(),
        ensures
            final(e)@ == create_environment_node_spec(old(e)@, server.handle as int).1,
            create_environment_node_spec(old(e)@, server.handle as int).0 matches Ok(h) ==> (
            r matches Ok(n) && n.handle as int == h),
            create_environment_node_spec(old(e)@, server.handle as int).0 matches Err(c) ==> (
            r matches Err(err) && err.code == c && err.message@ == spec_message_for(c)),
            final(e)@.wf(),
    {
        match lift_code(e.create_environment_node(server.handle, hrtf_path)) {
            Ok(h) => Ok(EnvironmentNode { handle: h }),
            Err(err) => Err(err),
        }
    }

    /// The `default_reverb_distance` property: the distance at which a
    /// source is heard only in the reverb, in thousandths. Nonnegative,
    /// default seventy-five.
    pub fn default_reverb_distance(&self) -> (p: FloatProperty)
        ensures
            p.index == PROP_ENVIRONMENT_REVERB_DISTANCE,
            p.node_handle == self.handle,
    {
        FloatProperty { index: PROP_ENVIRONMENT_REVERB_DISTANCE, node_handle: self.handle }
    }

    /// The `default_size` property: the radius given to new sources, in
    /// thousandths; zero is a point source. Default zero.
    pub fn default_size(&self) -> (p: FloatProperty)
        ensures
            p.index == PROP_ENVIRONMENT_DEFAULT_SIZE,
            p.node_handle == self.handle,
    {
        FloatProperty { index: PROP_ENVIRONMENT_DEFAULT_SIZE, node_handle: self.handle }
    }

    /// The `distance_model` property that sources delegate to by default.
    /// Default linear.
    pub fn distance_model(&self) -> (p: DistanceModelProperty)
        ensures
            p.index == PROP_ENVIRONMENT_DISTANCE_MODEL,
            p.node_handle == self.handle,
    {
        DistanceModelProperty { index: PROP_ENVIRONMENT_DISTANCE_MODEL, node_handle: self.handle }
    }

    /// The `max_distance` property: the furthest distance at which a
    /// source is audible, in thousandths. Default one hundred fifty.
    pub fn max_distance(&self) -> (p: FloatProperty)
        ensures
            p.index == PROP_ENVIRONMENT_MAX_DISTANCE,
            p.node_handle == self.handle,
    {
        FloatProperty { index: PROP_ENVIRONMENT_MAX_DISTANCE, node_handle: self.handle }
    }

    /// The `max_reverb_level` property: the most audio diverted to reverb
    /// sends, in thousandths of full scale. Behavior is undefined if it
    /// ever drops under the minimum level. Default six hundred.
    pub fn max_reverb_level(&self) -> (p: FloatProperty)
        ensures
            p.index == PROP_ENVIRONMENT_MAX_REVERB_LEVEL,
            p.node_handle == self.handle,
    {
        FloatProperty { index: PROP_ENVIRONMENT_MAX_REVERB_LEVEL, node_handle: self.handle }
    }

    /// The `min_reverb_level` property: the least audio diverted to a
    /// reverb send, in thousandths of full scale. Default one hundred
    /// fifty.
    pub fn min_reverb_level(&self) -> (p: FloatProperty)
        ensures
            p.index == PROP_ENVIRONMENT_MIN_REVERB_LEVEL,
            p.node_handle == self.handle,
    {
        FloatProperty { index: PROP_ENVIRONMENT_MIN_REVERB_LEVEL, node_handle: self.handle }
    }

    /// The `orientation` property: the listener's at-vector and up-vector
    /// packed together, in thousandths; the two must stay unit length and
    /// orthogonal, which is why they travel as one property.
    pub fn orientation(&self) -> (p: Float6Property)
        ensures
            p.index == PROP_ENVIRONMENT_ORIENTATION,
            p.node_handle == self.handle,
    {
        Float6Property { index: PROP_ENVIRONMENT_ORIENTATION, node_handle: self.handle }
    }

    /// The `output_channels` property: how many channels the
    /// environment's output carries; two, four, six, or eight are the
    /// meaningful values. Ranges over zero to eight, default two.
    pub fn output_channels(&self) -> (p: IntProperty)
        ensures
            p.index == PROP_ENVIRONMENT_OUTPUT_CHANNELS,
            p.node_handle == self.handle,
    {
        IntProperty { index: PROP_ENVIRONMENT_OUTPUT_CHANNELS, node_handle: self.handle }
    }

    /// The `panning_strategy` property that sources delegate to by
    /// default. Default stereo.
    pub fn panning_strategy(&self) -> (p: PanningStrategyProperty)
        ensures
            p.index == PROP_ENVIRONMENT_PANNING_STRATEGY,
            p.node_handle == self.handle,
    {
        PanningStrategyProperty {
            index: PROP_ENVIRONMENT_PANNING_STRATEGY,
            node_handle: self.handle,
        }
    }

    /// The `position` property: the listener's position in world
    /// coordinates, in thousandths. Default the origin.
    pub fn position(&self) -> (p: Float3Property)
        ensures
            p.index == PROP_ENVIRONMENT_POSITION,
            p.node_handle == self.handle,
    {
        Float3Property { index: PROP_ENVIRONMENT_POSITION, node_handle: self.handle }
    }

    /// Plays a buffer at a position using the environment's defaults: the
    /// engine spawns and owns the playing object and disposes of it when
    /// the buffer ends. With `is_dry` the default effect sends are
    /// skipped.
    pub fn play_async(
        &self,
        e: &mut Engine,
        buffer: &Buffer,
        x: i64,
        y: i64,
        z: i64,
        is_dry: bool,
    ) -> (r: Result<(), Error>)
        requires
            old(e)@.wf(),
        ensures
            final(e)@ == play_async_spec(
                old(e)@,
                self.handle as int,
                buffer.handle as int,
                x,
                y,
                z,
                is_dry,
            ).1,
            play_async_spec(
                old(e)@,
                self.handle as int,
                buffer.handle as int,
                x,
                y,
                z,
                is_dry,
            ).0 == 0 <==> r is Ok,
            r matches Err(err) ==> err.code == play_async_spec(
                old(e)@,
                self.handle as int,
                buffer.handle as int,
                x,
                y,
                z,
                is_dry,
            ).0 && err.message@ == spec_message_for(err.code),
            final(e)@.wf(),
    {
        check(e.environment_play_async(self.handle, buffer.handle, x, y, z, is_dry))
    }
}

} // verus!
