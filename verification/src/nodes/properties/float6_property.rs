//! Proxy to a six-vector property.

use vstd::prelude::*;

verus! {

use crate::engine::Engine;
use crate::props::read_lane_spec;
use crate::props::set_float6_spec;
use crate::check;
use crate::spec_message_for;
use crate::Error;

/// Proxy to a six-vector property (two packed three-vectors, as in a
/// listener orientation). Reads go lane by lane through the engine; a
/// failure partway through a read aborts it, and writes land in one
/// engine call.
pub struct Float6Property {
    /// The index the engine uses to identify this property on its node.
    pub index: i32,
    /// The handle of the owning node.
    pub node_handle: i32,
}

impl Float6Property {
    /// Reads the six lanes, in thousandths.
    pub fn get(&self, e: &Engine) -> (r: Result<[i64; 6], Error>)
        ensures
            r matches Ok(v) ==> forall|lane: int| 0 <= lane < 6 ==> read_lane_spec(
                e@,
                self.node_handle as int,
                self.index,
                lane,
            ) == Ok::<i64, i32>(#[trigger] v[lane]),
            r matches Err(err) ==> err.message@ == spec_message_for(err.code) && exists|lane: int|
                0 <= lane < 6 && (#[trigger] read_lane_spec(
                    e@,
                    self.node_handle as int,
                    self.index,
                    lane,
                )) == Err::<i64, i32>(err.code),
    {
        let v0 = match crate::lift_code(
            e.node_read_float_array_property(self.node_handle, self.index, 0),
        ) {
            Ok(v) => v,
            Err(err) => {
                return Err(err);
            },
        };
        let v1 = match crate::lift_code(
            e.node_read_float_array_property(self.node_handle, self.index, 1),
        ) {
            Ok(v) => v,
            Err(err) => {
                return Err(err);
            },
        };
        let v2 = match crate::lift_code(
            e.node_read_float_array_property(self.node_handle, self.index, 2),
        ) {
            Ok(v) => v,
            Err(err) => {
                return Err(err);
            },
        };
        let v3 = match crate::lift_code(
            e.node_read_float_array_property(self.node_handle, self.index, 3),
        ) {
            Ok(v) => v,
            Err(err) => {
                return Err(err);
            },
        };
        let v4 = match crate::lift_code(
            e.node_read_float_array_property(self.node_handle, self.index, 4),
        ) {
            Ok(v) => v,
            Err(err) => {
                return Err(err);
            },
        };
        let v5 = match crate::lift_code(
            e.node_read_float_array_property(self.node_handle, self.index, 5),
        ) {
            Ok(v) => v,
            Err(err) => {
                return Err(err);
            },
        };
        Ok([v0, v1, v2, v3, v4, v5])
    }

    /// Writes the six lanes, in thousandths.
    pub fn set(
        &self,
        e: &mut Engine,
        v1: i64,
        v2: i64,
        v3: i64,
        v4: i64,
        v5: i64,
        v6: i64,
    ) -> (r: Result<(), Error>)
        requires
            old(e)@.wf(),
        ensures
            final(e)@ == set_float6_spec(
                old(e)@,
                self.node_handle as int,
                self.index,
                v1,
                v2,
                v3,
                v4,
                v5,
                v6,
            ).1,
            set_float6_spec(
                old(e)@,
                self.node_handle as int,
                self.index,
                v1,
                v2,
                v3,
                v4,
                v5,
                v6,
            ).0 == 0 <==> r is Ok,
            r matches Err(err) ==> err.code == set_float6_spec(
                old(e)@,
                self.node_handle as int,
                self.index,
                v1,
                v2,
                v3,
                v4,
                v5,
                v6,
            ).0 && err.message@ == spec_message_for(err.code),
            final(e)@.wf(),
    {
        check(e.node_set_float6_property(self.node_handle, self.index, v1, v2, v3, v4, v5, v6))
    }
}

} // verus!
