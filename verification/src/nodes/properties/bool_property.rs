//! Proxy to a boolean property, implemented over the integer primitive.

use vstd::prelude::*;

verus! {

use crate::engine::Engine;
use crate::engine::PropKind;
use crate::engine::ERROR_UNKNOWN;
use crate::props::get_scalar_spec;
use crate::props::set_scalar_spec;
use crate::check;
use crate::spec_message_for;
use crate::Error;

/// Proxy to a boolean property. Booleans travel through the engine's
/// integer primitive as 0 and 1; any other raw value read back is a hard
/// error, never a coercion — this guards against version skew between the
/// engine and this binding.
pub struct BoolProperty {
    /// The index the engine uses to identify this property on its node.
    pub index: i32,
    /// The handle of the owning node.
    pub node_handle: i32,
}

impl BoolProperty {
    /// Reads the current value, rejecting any raw integer outside {0, 1}.
    pub fn get(&self, e: &Engine) -> (r: Result<bool, Error>)
        requires
            e@.wf(),
        ensures
            get_scalar_spec(e@, self.node_handle as int, self.index, PropKind::PInt) == Ok::<
                i64,
                i32,
            >(0) ==> r == Ok::<bool, Error>(false),
            get_scalar_spec(e@, self.node_handle as int, self.index, PropKind::PInt) == Ok::<
                i64,
                i32,
            >(1) ==> r == Ok::<bool, Error>(true),
            (get_scalar_spec(e@, self.node_handle as int, self.index, PropKind::PInt) matches Ok(v)
                && v != 0 && v != 1) ==> (r matches Err(err) && err.code == ERROR_UNKNOWN
                && err.message@ == "Bool property out of range."@),
            get_scalar_spec(e@, self.node_handle as int, self.index, PropKind::PInt) matches Err(c)
                ==> (r matches Err(err) && err.code == c && err.message@ == spec_message_for(c)),
    {
        let raw = match crate::lift_code(e.node_get_int_property(self.node_handle, self.index)) {
            Ok(v) => v,
            Err(err) => {
                return Err(err);
            },
        };
        if raw == 0 {
            Ok(false)
        } else if raw == 1 {
            Ok(true)
        } else {
            Err(
                Error {
                    code: ERROR_UNKNOWN,
                    message: String::from_str("Bool property out of range."),
                },
            )
        }
    }

    /// Writes the raw integer behind the boolean.
    fn set_int(&self, e: &mut Engine, value: i32) -> (r: Result<(), Error>)
        requires
            old(e)@.wf(),
        ensures
            final(e)@ == set_scalar_spec(
                old(e)@,
                self.node_handle as int,
                self.index,
                PropKind::PInt,
                value as i64,
            ).1,
            set_scalar_spec(
                old(e)@,
                self.node_handle as int,
                self.index,
                PropKind::PInt,
                value as i64,
            ).0 == 0 <==> r is Ok,
            r matches Err(err) ==> err.code == set_scalar_spec(
                old(e)@,
                self.node_handle as int,
                self.index,
                PropKind::PInt,
                value as i64,
            ).0 && err.message@ == spec_message_for(err.code),
            final(e)@.wf(),
    {
        check(e.node_set_int_property(self.node_handle, self.index, value))
    }

    /// Writes the value: true as 1, false as 0.
    pub fn set(&self, e: &mut Engine, value: bool) -> (r: Result<(), Error>)
        requires
            old(e)@.wf(),
        ensures
            final(e)@ == set_scalar_spec(
                old(e)@,
                self.node_handle as int,
                self.index,
                PropKind::PInt,
                if value {
                    1
                } else {
                    0
                },
            ).1,
            set_scalar_spec(
                old(e)@,
                self.node_handle as int,
                self.index,
                PropKind::PInt,
                if value {
                    1
                } else {
                    0
                },
            ).0 == 0 <==> r is Ok,
            final(e)@.wf(),
    {
        match value {
            true => self.set_int(e, 1),
            false => self.set_int(e, 0),
        }
    }
}

} // verus!
