//! Proxy to a distance-model property.

use vstd::prelude::*;

verus! {

use crate::engine::Engine;
use crate::engine::PropKind;
use crate::engine::ERROR_UNKNOWN;
use crate::props::get_scalar_spec;
use crate::props::set_scalar_spec;
use crate::check;
use crate::spec_message_for;
use crate::Error;

/// How sound becomes quieter as a source moves away from the listener.
#[derive(Clone, Copy, PartialEq, Eq, Structural, Debug)]
pub enum DistanceModel {
    /// Gain falls off with the inverse of the distance, emphasizing
    /// changes near the listener.
    Inverse,
    /// Gain falls off with the inverse square of the distance, the closest
    /// to wide-open physical spaces.
    InverseSquare,
    /// Gain falls off linearly until the maximum distance.
    Linear,
}

/// The integer tag the engine stores for each distance model.
pub open spec fn spec_distance_model_to_int(m: DistanceModel) -> i32 {
    match m {
        DistanceModel::Inverse => 0,
        DistanceModel::InverseSquare => 1,
        DistanceModel::Linear => 2,
    }
}

/// The distance model an engine integer names, if it names one — the tag
/// set is closed, so an unrecognized value is nothing rather than a
/// default.
pub open spec fn spec_distance_model_from_int(v: i32) -> Option<DistanceModel> {
    if v == 0 {
        Some(DistanceModel::Inverse)
    } else if v == 1 {
        Some(DistanceModel::InverseSquare)
    } else if v == 2 {
        Some(DistanceModel::Linear)
    } else {
        None
    }
}

/// The integer tag the engine stores for each distance model.
pub fn distance_model_to_int(m: DistanceModel) -> (r: i32)
    ensures
        r == spec_distance_model_to_int(m),
{
    match m {
        DistanceModel::Inverse => 0,
        DistanceModel::InverseSquare => 1,
        DistanceModel::Linear => 2,
    }
}

/// Proxy to a distance-model property: a typed view over the integer
/// primitive whose value set is the closed tag set of [`DistanceModel`].
pub struct DistanceModelProperty {
    /// The index the engine uses to identify this property on its node.
    pub index: i32,
    /// The handle of the owning node.
    pub node_handle: i32,
}

impl DistanceModelProperty {
    /// Reads the current model; a raw value outside the closed tag set is
    /// an error, never a default.
    pub fn get(&self, e: &Engine) -> (r: Result<DistanceModel, Error>)
        requires
            e@.wf(),
        ensures
            get_scalar_spec(e@, self.node_handle as int, self.index, PropKind::PInt) matches Ok(v)
                ==> (spec_distance_model_from_int(v as i32) matches Some(m) ==> r == Ok::<
                DistanceModel,
                Error,
            >(m)),
            (get_scalar_spec(e@, self.node_handle as int, self.index, PropKind::PInt) matches Ok(v)
                && spec_distance_model_from_int(v as i32) is None) ==> (r matches Err(err)
                && err.code == ERROR_UNKNOWN && err.message@ == "Invalid distance model"@),
            get_scalar_spec(e@, self.node_handle as int, self.index, PropKind::PInt) matches Err(c)
                ==> (r matches Err(err) && err.code == c && err.message@ == spec_message_for(c)),
    {
        let raw = match crate::lift_code(e.node_get_int_property(self.node_handle, self.index)) {
            Ok(v) => v,
            Err(err) => {
                return Err(err);
            },
        };
        if raw == 0 {
            Ok(DistanceModel::Inverse)
        } else if raw == 1 {
            Ok(DistanceModel::InverseSquare)
        } else if raw == 2 {
            Ok(DistanceModel::Linear)
        } else {
            Err(Error { code: ERROR_UNKNOWN, message: String::from_str("Invalid distance model") })
        }
    }

    /// Writes the raw integer behind the model.
    fn set_int(&self, e: &mut Engine, value: i32) -> (r: Result<(), Error>)
        requires
            old(e)@.wf(),
        ensures
            final(e)@ == set_scalar_spec(
                old(e)@,
                self.node_handle as int,
                self.index,
                PropKind::PInt,
                value as i64,
            ).1,
            set_scalar_spec(
                old(e)@,
                self.node_handle as int,
                self.index,
                PropKind::PInt,
                value as i64,
            ).0 == 0 <==> r is Ok,
            r matches Err(err) ==> err.code == set_scalar_spec(
                old(e)@,
                self.node_handle as int,
                self.index,
                PropKind::PInt,
                value as i64,
            ).0 && err.message@ == spec_message_for(err.code),
            final(e)@.wf(),
    {
        check(e.node_set_int_property(self.node_handle, self.index, value))
    }

    /// Writes a model; only values of the closed tag set can ever be
    /// stored through this typed path.
    pub fn set(&self, e: &mut Engine, distance_model: DistanceModel) -> (r: Result<(), Error>)
        requires
            old(e)@.wf(),
        ensures
            final(e)@ == set_scalar_spec(
                old(e)@,
                self.node_handle as int,
                self.index,
                PropKind::PInt,
                spec_distance_model_to_int(distance_model) as i64,
            ).1,
            set_scalar_spec(
                old(e)@,
                self.node_handle as int,
                self.index,
                PropKind::PInt,
                spec_distance_model_to_int(distance_model) as i64,
            ).0 == 0 <==> r is Ok,
            final(e)@.wf(),
    {
        self.set_int(e, distance_model_to_int(distance_model))
    }
}

} // verus!
