//! Proxy to an integer property.

use vstd::prelude::*;

verus! {

use crate::engine::Engine;
use crate::engine::PropKind;
use crate::props::get_scalar_spec;
use crate::props::set_scalar_spec;
use crate::props::get_range_spec;
use crate::check;
use crate::lift_code;
use crate::spec_message_for;
use crate::Error;

/// Proxy to an integer property: a (handle, index) address read and
/// written through the engine's 32-bit integer primitive.
pub struct IntProperty {
    /// The index the engine uses to identify this property on its node.
    pub index: i32,
    /// The handle of the owning node.
    pub node_handle: i32,
}

impl IntProperty {
    /// Reads the current value.
    pub fn get(&self, e: &Engine) -> (r: Result<i32, Error>)
        requires
            e@.wf(),
        ensures
            get_scalar_spec(e@, self.node_handle as int, self.index, PropKind::PInt) matches Ok(v)
                ==> (r matches Ok(v2) && v2 as i64 == v),
            get_scalar_spec(e@, self.node_handle as int, self.index, PropKind::PInt) matches Err(c)
                ==> (r matches Err(err) && err.code == c && err.message@ == spec_message_for(c)),
    {
        lift_code(e.node_get_int_property(self.node_handle, self.index))
    }

    /// The declared range of the property: (smallest, largest) accepted
    /// value.
    pub fn get_range(&self, e: &Engine) -> (r: Result<(i32, i32), Error>)
        requires
            e@.wf(),
        ensures
            get_range_spec(e@, self.node_handle as int, self.index, PropKind::PInt) matches Ok(p)
                ==> (r matches Ok(p2) && p2.0 as i64 == p.0 && p2.1 as i64 == p.1),
            get_range_spec(e@, self.node_handle as int, self.index, PropKind::PInt) matches Err(c)
                ==> (r matches Err(err) && err.code == c && err.message@ == spec_message_for(c)),
    {
        lift_code(e.node_get_int_property_range(self.node_handle, self.index))
    }

    /// Writes a value; the engine rejects anything outside the declared
    /// range rather than clamping it.
    pub fn set(&self, e: &mut Engine, value: i32) -> (r: Result<(), Error>)
        requires
            old(e)@.wf(),
        ensures
            final(e)@ == set_scalar_spec(
                old(e)@,
                self.node_handle as int,
                self.index,
                PropKind::PInt,
                value as i64,
            ).1,
            set_scalar_spec(
                old(e)@,
                self.node_handle as int,
                self.index,
                PropKind::PInt,
                value as i64,
            ).0 == 0 <==> r is Ok,
            r matches Err(err) ==> err.code == set_scalar_spec(
                old(e)@,
                self.node_handle as int,
                self.index,
                PropKind::PInt,
                value as i64,
            ).0 && err.message@ == spec_message_for(err.code),
            final(e)@.wf(),
    {
        check(e.node_set_int_property(self.node_handle, self.index, value))
    }
}

} // verus!
