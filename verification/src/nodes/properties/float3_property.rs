//! Proxy to a three-vector property.

use vstd::prelude::*;

verus! {

use crate::engine::Engine;
use crate::props::read_lane_spec;
use crate::props::set_float3_spec;
use crate::check;
use crate::spec_message_for;
use crate::Error;

/// Proxy to a three-vector property (a position in world coordinates,
/// say). Reads go lane by lane through the engine; a failure partway
/// through a read aborts it, and writes land in one engine call.
pub struct Float3Property {
    /// The index the engine uses to identify this property on its node.
    pub index: i32,
    /// The handle of the owning node.
    pub node_handle: i32,
}

impl Float3Property {
    /// Reads the three lanes, in thousandths.
    pub fn get(&self, e: &Engine) -> (r: Result<[i64; 3], Error>)
        ensures
            r matches Ok(v) ==> read_lane_spec(e@, self.node_handle as int, self.index, 0) == Ok::<
                i64,
                i32,
            >(v[0]) && read_lane_spec(e@, self.node_handle as int, self.index, 1) == Ok::<
                i64,
                i32,
            >(v[1]) && read_lane_spec(e@, self.node_handle as int, self.index, 2) == Ok::<
                i64,
                i32,
            >(v[2]),
            r matches Err(err) ==> (read_lane_spec(e@, self.node_handle as int, self.index, 0)
                matches Err(c) || read_lane_spec(e@, self.node_handle as int, self.index, 1)
                matches Err(c) || read_lane_spec(e@, self.node_handle as int, self.index, 2)
                matches Err(c)) && err.message@ == spec_message_for(err.code),
    {
        let a = match crate::lift_code(
            e.node_read_float_array_property(self.node_handle, self.index, 0),
        ) {
            Ok(v) => v,
            Err(err) => {
                return Err(err);
            },
        };
        let b = match crate::lift_code(
            e.node_read_float_array_property(self.node_handle, self.index, 1),
        ) {
            Ok(v) => v,
            Err(err) => {
                return Err(err);
            },
        };
        let c = match crate::lift_code(
            e.node_read_float_array_property(self.node_handle, self.index, 2),
        ) {
            Ok(v) => v,
            Err(err) => {
                return Err(err);
            },
        };
        Ok([a, b, c])
    }

    /// Writes the three lanes, in thousandths.
    pub fn set(&self, e: &mut Engine, v1: i64, v2: i64, v3: i64) -> (r: Result<(), Error>)
        requires
            old(e)@.wf(),
        ensures
            final(e)@ == set_float3_spec(
                old(e)@,
                self.node_handle as int,
                self.index,
                v1,
                v2,
                v3,
            ).1,
            set_float3_spec(old(e)@, self.node_handle as int, self.index, v1, v2, v3).0 == 0 <==> r
                is Ok,
            r matches Err(err) ==> err.code == set_float3_spec(
                old(e)@,
                self.node_handle as int,
                self.index,
                v1,
                v2,
                v3,
            ).0 && err.message@ == spec_message_for(err.code),
            final(e)@.wf(),
    {
        check(e.node_set_float3_property(self.node_handle, self.index, v1, v2, v3))
    }
}

} // verus!
