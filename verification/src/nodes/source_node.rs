//! A spatialized source.

use vstd::prelude::*;

verus! {

use crate::engine::Engine;
use crate::engine::PROP_SOURCE_CONTROL_DISTANCE_MODEL;
use crate::engine::PROP_SOURCE_CONTROL_PANNING;
use crate::engine::PROP_SOURCE_CONTROL_REVERB;
use crate::engine::PROP_SOURCE_DISTANCE_MODEL;
use crate::engine::PROP_SOURCE_HEAD_RELATIVE;
use crate::engine::PROP_SOURCE_MAX_DISTANCE;
use crate::engine::PROP_SOURCE_MAX_REVERB_LEVEL;
use crate::engine::PROP_SOURCE_MIN_REVERB_LEVEL;
use crate::engine::PROP_SOURCE_OCCLUSION;
use crate::engine::PROP_SOURCE_PANNING_STRATEGY;
use crate::engine::PROP_SOURCE_POSITION;
use crate::engine::PROP_SOURCE_REVERB_DISTANCE;
use crate::engine::PROP_SOURCE_SIZE;
use crate::create::create_source_node_spec;
use crate::server::Server;
use crate::nodes::Node;
use crate::nodes::Handled;
use crate::check;
use crate::nodes::environment_node::EnvironmentNode;
use crate::nodes::properties::BoolProperty;
use crate::nodes::properties::DistanceModelProperty;
use crate::nodes::properties::Float3Property;
use crate::nodes::properties::FloatProperty;
use crate::nodes::properties::PanningStrategyProperty;
use crate::lift_code;
use crate::spec_message_for;
use crate::Error;

/// A source spatializes the mono audio entering its one input according
/// to its own properties and its environment's, and hands the result
/// straight to the environment; it has no outputs. Environments do not
/// keep their sources alive — drop every reference and the source goes
/// silent.
#[derive(Debug)]
pub struct SourceNode {
    pub handle: i32,
}

impl Handled for SourceNode {
    open spec fn node_handle_spec(&self) -> i32 {
        self.handle
    }

    fn get_handle(&self) -> i32 {
        self.handle
    }
}

impl Node for SourceNode {

    fn connect<D: Handled>(&self, e: &mut Engine, output: i32, destination: &D, input: i32) -> Result<
        (),
        Error,
    > {
        check(e.node_connect(self.get_handle(), output, destination.get_handle(), input))
    }

    fn connect_property<D: Handled>(
        &self,
        e: &mut Engine,
        output: i32,
        destination: &D,
        slot: i32,
    ) -> Result<(), Error> {
        check(e.node_connect_property(self.get_handle(), output, destination.get_handle(), slot))
    }

    fn disconnect<D: Handled>(&self, e: &mut Engine, output: i32, destination: &D, input: i32)
        -> Result<(), Error> {
        check(e.node_disconnect(self.get_handle(), output, destination.get_handle(), input))
    }
}

impl SourceNode {
    /// Creates a source against an environment; the source's spatial
    /// defaults are copied from the environment at creation.
    pub fn new(e: &mut Engine, server: &Server, environment_node: &EnvironmentNode) -> (r: Result<
        SourceNode,
        Error,
    >)
        requires
            old(e)@.wf(),
        ensures
            final(e)@ == create_source_node_spec(
                old(e)@,
                server.handle as int,
                environment_node.handle as int,
            ).1,
            create_source_node_spec(
                old(e)@,
                server.handle as int,
                environment_node.handle as int,
            ).0 matches Ok(h) ==> (r matches Ok(n) && n.handle as int == h),
            create_source_node_spec(
                old(e)@,
                server.handle as int,
                environment_node.handle as int,
            ).0 matches Err(c) ==> (r matches Err(err) && err.code == c && err.message@
                == spec_message_for(c)),
            final(e)@.wf(),
    {
        match lift_code(e.create_source_node(server.handle, environment_node.handle)) {
            Ok(h) => Ok(SourceNode { handle: h }),
            Err(err) => Err(err),
        }
    }

    /// The `control_distance_model` property: whether this source uses its
    /// own distance-model properties instead of the environment's.
    /// Default false.
    pub fn control_distance_model(&self) -> (p: BoolProperty)
        ensures
            p.index == PROP_SOURCE_CONTROL_DISTANCE_MODEL,
            p.node_handle == self.handle,
    {
        BoolProperty { index: PROP_SOURCE_CONTROL_DISTANCE_MODEL, node_handle: self.handle }
    }

    /// The `control_panning` property: whether this source uses its own
    /// panning properties instead of the environment's. Default false.
    pub fn control_panning(&self) -> (p: BoolProperty)
        ensures
            p.index == PROP_SOURCE_CONTROL_PANNING,
            p.node_handle == self.handle,
    {
        BoolProperty { index: PROP_SOURCE_CONTROL_PANNING, node_handle: self.handle }
    }

    /// The `control_reverb` property: whether this source uses its own
    /// reverb properties instead of the environment's. Default false.
    pub fn control_reverb(&self) -> (p: BoolProperty)
        ensures
            p.index == PROP_SOURCE_CONTROL_REVERB,
            p.node_handle == self.handle,
    {
        BoolProperty { index: PROP_SOURCE_CONTROL_REVERB, node_handle: self.handle }
    }

    /// The `distance_model` property; honored only once
    /// `control_distance_model` is set. Default copied from the
    /// environment.
    pub fn distance_model(&self) -> (p: DistanceModelProperty)
        ensures
            p.index == PROP_SOURCE_DISTANCE_MODEL,
            p.node_handle == self.handle,
    {
        DistanceModelProperty { index: PROP_SOURCE_DISTANCE_MODEL, node_handle: self.handle }
    }

    /// The `head_relative` property: whether the source's position is
    /// interpreted relative to the listener's head, unaffected by the
    /// environment's position and orientation. Default false.
    pub fn head_relative(&self) -> (p: BoolProperty)
        ensures
            p.index == PROP_SOURCE_HEAD_RELATIVE,
            p.node_handle == self.handle,
    {
        BoolProperty { index: PROP_SOURCE_HEAD_RELATIVE, node_handle: self.handle }
    }

    /// The `max_distance` property: the furthest distance at which this
    /// source is audible, in thousandths; honored only once
    /// `control_distance_model` is set. Default copied from the
    /// environment.
    pub fn max_distance(&self) -> (p: FloatProperty)
        ensures
            p.index == PROP_SOURCE_MAX_DISTANCE,
            p.node_handle == self.handle,
    {
        FloatProperty { index: PROP_SOURCE_MAX_DISTANCE, node_handle: self.handle }
    }

    /// The `max_reverb_level` property, in thousandths of full scale;
    /// honored only once `control_reverb` is set. Default copied from the
    /// environment.
    pub fn max_reverb_level(&self) -> (p: FloatProperty)
        ensures
            p.index == PROP_SOURCE_MAX_REVERB_LEVEL,
            p.node_handle == self.handle,
    {
        FloatProperty { index: PROP_SOURCE_MAX_REVERB_LEVEL, node_handle: self.handle }
    }

    /// The `min_reverb_level` property, in thousandths of full scale;
    /// honored only once `control_reverb` is set. Default copied from the
    /// environment.
    pub fn min_reverb_level(&self) -> (p: FloatProperty)
        ensures
            p.index == PROP_SOURCE_MIN_REVERB_LEVEL,
            p.node_handle == self.handle,
    {
        FloatProperty { index: PROP_SOURCE_MIN_REVERB_LEVEL, node_handle: self.handle }
    }

    /// The `occlusion` property: how occluded the source sounds, from
    /// zero (no effect) to one thousand (all but silent); the quantity is
    /// unitless. Default zero.
    pub fn occlusion(&self) -> (p: FloatProperty)
        ensures
            p.index == PROP_SOURCE_OCCLUSION,
            p.node_handle == self.handle,
    {
        FloatProperty { index: PROP_SOURCE_OCCLUSION, node_handle: self.handle }
    }

    /// The `panning_strategy` property of the source's internal panner;
    /// honored only once `control_panning` is set. Default copied from
    /// the environment.
    pub fn panning_strategy(&self) -> (p: PanningStrategyProperty)
        ensures
            p.index == PROP_SOURCE_PANNING_STRATEGY,
            p.node_handle == self.handle,
    {
        PanningStrategyProperty { index: PROP_SOURCE_PANNING_STRATEGY, node_handle: self.handle }
    }

    /// The `position` property: the source's position in world
    /// coordinates, in thousandths. Default the origin.
    pub fn position(&self) -> (p: Float3Property)
        ensures
            p.index == PROP_SOURCE_POSITION,
            p.node_handle == self.handle,
    {
        Float3Property { index: PROP_SOURCE_POSITION, node_handle: self.handle }
    }

    /// The `reverb_distance` property: the distance at which this source
    /// is heard only through its reverb sends, in thousandths; honored
    /// only once `control_reverb` is set. Default copied from the
    /// environment.
    pub fn reverb_distance(&self) -> (p: FloatProperty)
        ensures
            p.index == PROP_SOURCE_REVERB_DISTANCE,
            p.node_handle == self.handle,
    {
        FloatProperty { index: PROP_SOURCE_REVERB_DISTANCE, node_handle: self.handle }
    }

    /// The `size` property: the source's radius, in thousandths; used to
    /// find the closest point of the source to the listener. Default
    /// copied from the environment.
    pub fn size(&self) -> (p: FloatProperty)
        ensures
            p.index == PROP_SOURCE_SIZE,
            p.node_handle == self.handle,
    {
        FloatProperty { index: PROP_SOURCE_SIZE, node_handle: self.handle }
    }
}

} // verus!
