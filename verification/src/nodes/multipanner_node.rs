//! A panner whose algorithm can be changed at runtime.

use vstd::prelude::*;

verus! {

use crate::engine::Engine;
use crate::engine::PROP_PANNER_AZIMUTH;
use crate::engine::PROP_PANNER_ELEVATION;
use crate::engine::PROP_PANNER_SHOULD_CROSSFADE;
use crate::engine::PROP_PANNER_STRATEGY;
use crate::nodes::Node;
use crate::nodes::Handled;
use crate::check;
use crate::Error;
use crate::nodes::properties::BoolProperty;
use crate::nodes::properties::FloatProperty;
use crate::nodes::properties::PanningStrategyProperty;

/// A panner whose strategy can change at runtime — from HRTF to stereo
/// and back, say, when the user plugs headphones in or out.
#[derive(Debug)]
pub struct MultipannerNode {
    pub handle: i32,
}

impl Handled for MultipannerNode {
    open spec fn node_handle_spec(&self) -> i32 {
        self.handle
    }

    fn get_handle(&self) -> i32 {
        self.handle
    }
}

impl Node for MultipannerNode {

    fn connect<D: Handled>(&self, e: &mut Engine, output: i32, destination: &D, input: i32) -> Result<
        (),
        Error,
    > {
        check(e.node_connect(self.get_handle(), output, destination.get_handle(), input))
    }

    fn connect_property<D: Handled>(
        &self,
        e: &mut Engine,
        output: i32,
        destination: &D,
        slot: i32,
    ) -> Result<(), Error> {
        check(e.node_connect_property(self.get_handle(), output, destination.get_handle(), slot))
    }

    fn disconnect<D: Handled>(&self, e: &mut Engine, output: i32, destination: &D, input: i32)
        -> Result<(), Error> {
        check(e.node_disconnect(self.get_handle(), output, destination.get_handle(), input))
    }
}

impl MultipannerNode {
    /// The `azimuth` property: the horizontal angle in thousandths of a
    /// degree, zero straight ahead, positive clockwise. Unbounded,
    /// default zero.
    pub fn azimuth(&self) -> (p: FloatProperty)
        ensures
            p.index == PROP_PANNER_AZIMUTH,
            p.node_handle == self.handle,
    {
        FloatProperty { index: PROP_PANNER_AZIMUTH, node_handle: self.handle }
    }

    /// The `elevation` property: the vertical angle in thousandths of a
    /// degree, zero horizontal, positive upward; ranges over plus and
    /// minus ninety degrees. Default zero.
    pub fn elevation(&self) -> (p: FloatProperty)
        ensures
            p.index == PROP_PANNER_ELEVATION,
            p.node_handle == self.handle,
    {
        FloatProperty { index: PROP_PANNER_ELEVATION, node_handle: self.handle }
    }

    /// The `should_crossfade` property: whether the panner crossfades on
    /// movement; lack of crossfading introduces audible artifacts.
    /// Default true.
    pub fn should_crossfade(&self) -> (p: BoolProperty)
        ensures
            p.index == PROP_PANNER_SHOULD_CROSSFADE,
            p.node_handle == self.handle,
    {
        BoolProperty { index: PROP_PANNER_SHOULD_CROSSFADE, node_handle: self.handle }
    }

    /// The `strategy` property: which panning strategy is in use.
    /// Default stereo.
    pub fn strategy(&self) -> (p: PanningStrategyProperty)
        ensures
            p.index == PROP_PANNER_STRATEGY,
            p.node_handle == self.handle,
    {
        PanningStrategyProperty { index: PROP_PANNER_STRATEGY, node_handle: self.handle }
    }
}

} // verus!
