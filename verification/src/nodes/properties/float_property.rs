//! Proxy to a single-precision scalar property.

use vstd::prelude::*;

verus! {

use crate::engine::Engine;
use crate::engine::PropKind;
use crate::props::get_scalar_spec;
use crate::props::set_scalar_spec;
use crate::props::get_range_spec;
use crate::check;
use crate::lift_code;
use crate::spec_message_for;
use crate::Error;

/// Proxy to a real-valued property carried in single precision by the
/// engine; this binding addresses it as a fixed-point integer in
/// thousandths.
pub struct FloatProperty {
    /// The index the engine uses to identify this property on its node.
    pub index: i32,
    /// The handle of the owning node.
    pub node_handle: i32,
}

impl FloatProperty {
    /// Reads the current value, in thousandths.
    pub fn get(&self, e: &Engine) -> (r: Result<i64, Error>)
        ensures
            get_scalar_spec(e@, self.node_handle as int, self.index, PropKind::PFloat) matches Ok(
                v,
            ) ==> (r matches Ok(v2) && v2 == v),
            get_scalar_spec(e@, self.node_handle as int, self.index, PropKind::PFloat) matches Err(
                c,
            ) ==> (r matches Err(err) && err.code == c && err.message@ == spec_message_for(c)),
    {
        lift_code(e.node_get_float_property(self.node_handle, self.index))
    }

    /// The declared range of the property: (smallest, largest) accepted
    /// value, in thousandths.
    pub fn get_range(&self, e: &Engine) -> (r: Result<(i64, i64), Error>)
        ensures
            get_range_spec(e@, self.node_handle as int, self.index, PropKind::PFloat) matches Ok(p)
                ==> (r matches Ok(p2) && p2 == p),
            get_range_spec(e@, self.node_handle as int, self.index, PropKind::PFloat) matches Err(
                c,
            ) ==> (r matches Err(err) && err.code == c && err.message@ == spec_message_for(c)),
    {
        lift_code(e.node_get_float_property_range(self.node_handle, self.index))
    }

    /// Writes a value, in thousandths; the engine rejects anything outside
    /// the declared range rather than clamping it.
    pub fn set(&self, e: &mut Engine, value: i64) -> (r: Result<(), Error>)
        requires
            old(e)@.wf(),
        ensures
            final(e)@ == set_scalar_spec(
                old(e)@,
                self.node_handle as int,
                self.index,
                PropKind::PFloat,
                value,
            ).1,
            set_scalar_spec(
                old(e)@,
                self.node_handle as int,
                self.index,
                PropKind::PFloat,
                value,
            ).0 == 0 <==> r is Ok,
            r matches Err(err) ==> err.code == set_scalar_spec(
                old(e)@,
                self.node_handle as int,
                self.index,
                PropKind::PFloat,
                value,
            ).0 && err.message@ == spec_message_for(err.code),
            final(e)@.wf(),
    {
        check(e.node_set_float_property(self.node_handle, self.index, value))
    }
}

} // verus!
