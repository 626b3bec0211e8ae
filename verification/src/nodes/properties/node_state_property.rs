//! Proxy to a node-state property.

use vstd::prelude::*;

verus! {

use crate::engine::Engine;
use crate::engine::PropKind;
use crate::engine::ERROR_UNKNOWN;
use crate::props::get_scalar_spec;
use crate::props::set_scalar_spec;
use crate::check;
use crate::spec_message_for;
use crate::Error;

/// The state of a node in the processing graph.
#[derive(Clone, Copy, PartialEq, Eq, Structural, Debug)]
pub enum NodeState {
    /// The node advances on every block, whether or not anything needs
    /// its audio.
    AlwaysPlaying,
    /// The node advances while other nodes need audio from it.
    Playing,
    /// The node is paused.
    Paused,
}

/// The integer tag the engine stores for each node state.
pub open spec fn spec_node_state_to_int(m: NodeState) -> i32 {
    match m {
        NodeState::AlwaysPlaying => 0,
        NodeState::Playing => 1,
        NodeState::Paused => 2,
    }
}

/// The node state an engine integer names, if it names one — the tag set
/// is closed, so an unrecognized value is nothing rather than a default.
pub open spec fn spec_node_state_from_int(v: i32) -> Option<NodeState> {
    if v == 0 {
        Some(NodeState::AlwaysPlaying)
    } else if v == 1 {
        Some(NodeState::Playing)
    } else if v == 2 {
        Some(NodeState::Paused)
    } else {
        None
    }
}

/// The integer tag the engine stores for each node state.
pub fn node_state_to_int(m: NodeState) -> (r: i32)
    ensures
        r == spec_node_state_to_int(m),
{
    match m {
        NodeState::AlwaysPlaying => 0,
        NodeState::Playing => 1,
        NodeState::Paused => 2,
    }
}

/// Proxy to a node-state property: a typed view over the integer
/// primitive whose value set is the closed tag set of [`NodeState`].
pub struct NodeStateProperty {
    /// The index the engine uses to identify this property on its node.
    pub index: i32,
    /// The handle of the owning node.
    pub node_handle: i32,
}

impl NodeStateProperty {
    /// Reads the current state; a raw value outside the closed tag set is
    /// an error, never a default.
    pub fn get(&self, e: &Engine) -> (r: Result<NodeState, Error>)
        requires
            e@.wf(),
        ensures
            get_scalar_spec(e@, self.node_handle as int, self.index, PropKind::PInt) matches Ok(v)
                ==> (spec_node_state_from_int(v as i32) matches Some(m) ==> r == Ok::<
                NodeState,
                Error,
            >(m)),
            (get_scalar_spec(e@, self.node_handle as int, self.index, PropKind::PInt) matches Ok(v)
                && spec_node_state_from_int(v as i32) is None) ==> (r matches Err(err)
                && err.code == ERROR_UNKNOWN && err.message@ == "Invalid node state"@),
            get_scalar_spec(e@, self.node_handle as int, self.index, PropKind::PInt) matches Err(c)
                ==> (r matches Err(err) && err.code == c && err.message@ == spec_message_for(c)),
    {
        let raw = match crate::lift_code(e.node_get_int_property(self.node_handle, self.index)) {
            Ok(v) => v,
            Err(err) => {
                return Err(err);
            },
        };
        if raw == 0 {
            Ok(NodeState::AlwaysPlaying)
        } else if raw == 1 {
            Ok(NodeState::Playing)
        } else if raw == 2 {
            Ok(NodeState::Paused)
        } else {
            Err(Error { code: ERROR_UNKNOWN, message: String::from_str("Invalid node state") })
        }
    }

    /// Writes the raw integer behind the model.
    fn set_int(&self, e: &mut Engine, value: i32) -> (r: Result<(), Error>)
        requires
            old(e)@.wf(),
        ensures
            final(e)@ == set_scalar_spec(
                old(e)@,
                self.node_handle as int,
                self.index,
                PropKind::PInt,
                value as i64,
            ).1,
            set_scalar_spec(
                old(e)@,
                self.node_handle as int,
                self.index,
                PropKind::PInt,
                value as i64,
            ).0 == 0 <==> r is Ok,
            r matches Err(err) ==> err.code == set_scalar_spec(
                old(e)@,
                self.node_handle as int,
                self.index,
                PropKind::PInt,
                value as i64,
            ).0 && err.message@ == spec_message_for(err.code),
            final(e)@.wf(),
    {
        check(e.node_set_int_property(self.node_handle, self.index, value))
    }

    /// Writes a state; only values of the closed tag set can ever be
    /// stored through this typed path.
    pub fn set(&self, e: &mut Engine, node_state: NodeState) -> (r: Result<(), Error>)
        requires
            old(e)@.wf(),
        ensures
            final(e)@ == set_scalar_spec(
                old(e)@,
                self.node_handle as int,
                self.index,
                PropKind::PInt,
                spec_node_state_to_int(node_state) as i64,
            ).1,
            set_scalar_spec(
                old(e)@,
                self.node_handle as int,
                self.index,
                PropKind::PInt,
                spec_node_state_to_int(node_state) as i64,
            ).0 == 0 <==> r is Ok,
            final(e)@.wf(),
    {
        self.set_int(e, node_state_to_int(node_state))
    }
}

} // verus!
