//! Proxy to a panning-strategy property.

use vstd::prelude::*;

verus! {

use crate::engine::Engine;
use crate::engine::PropKind;
use crate::engine::ERROR_UNKNOWN;
use crate::props::get_scalar_spec;
use crate::props::set_scalar_spec;
use crate::check;
use crate::spec_message_for;
use crate::Error;

/// A strategy for panning audio, mostly for multipanners and the
/// spatialized components of this library.
#[derive(Clone, Copy, PartialEq, Eq, Structural, Debug)]
pub enum PanningStrategy {
    /// HRTF panning.
    Hrtf,
    /// Stereo panning.
    Stereo,
    /// Quadraphonic (4.0 surround) panning.
    Surround40,
    /// 5.1 surround panning.
    Surround51,
    /// 7.1 surround panning.
    Surround71,
}

/// The integer tag the engine stores for each panning strategy.
pub open spec fn spec_panning_strategy_to_int(m: PanningStrategy) -> i32 {
    match m {
        PanningStrategy::Hrtf => 0,
        PanningStrategy::Stereo => 1,
        PanningStrategy::Surround40 => 2,
        PanningStrategy::Surround51 => 3,
        PanningStrategy::Surround71 => 4,
    }
}

/// The panning strategy an engine integer names, if it names one — the
/// tag set is closed, so an unrecognized value is nothing rather than a
/// default.
pub open spec fn spec_panning_strategy_from_int(v: i32) -> Option<PanningStrategy> {
    if v == 0 {
        Some(PanningStrategy::Hrtf)
    } else if v == 1 {
        Some(PanningStrategy::Stereo)
    } else if v == 2 {
        Some(PanningStrategy::Surround40)
    } else if v == 3 {
        Some(PanningStrategy::Surround51)
    } else if v == 4 {
        Some(PanningStrategy::Surround71)
    } else {
        None
    }
}

/// The integer tag the engine stores for each panning strategy.
pub fn panning_strategy_to_int(m: PanningStrategy) -> (r: i32)
    ensures
        r == spec_panning_strategy_to_int(m),
{
    match m {
        PanningStrategy::Hrtf => 0,
        PanningStrategy::Stereo => 1,
        PanningStrategy::Surround40 => 2,
        PanningStrategy::Surround51 => 3,
        PanningStrategy::Surround71 => 4,
    }
}

/// Proxy to a panning-strategy property: a typed view over the integer
/// primitive whose value set is the closed tag set of
/// [`PanningStrategy`].
pub struct PanningStrategyProperty {
    /// The index the engine uses to identify this property on its node.
    pub index: i32,
    /// The handle of the owning node.
    pub node_handle: i32,
}

impl PanningStrategyProperty {
    /// Reads the current strategy; a raw value outside the closed tag set
    /// is an error, never a default.
    pub fn get(&self, e: &Engine) -> (r: Result<PanningStrategy, Error>)
        requires
            e@.wf(),
        ensures
            get_scalar_spec(e@, self.node_handle as int, self.index, PropKind::PInt) matches Ok(v)
                ==> (spec_panning_strategy_from_int(v as i32) matches Some(m) ==> r == Ok::<
                PanningStrategy,
                Error,
            >(m)),
            (get_scalar_spec(e@, self.node_handle as int, self.index, PropKind::PInt) matches Ok(v)
                && spec_panning_strategy_from_int(v as i32) is None) ==> (r matches Err(err)
                && err.code == ERROR_UNKNOWN && err.message@ == "Invalid panning strategy"@),
            get_scalar_spec(e@, self.node_handle as int, self.index, PropKind::PInt) matches Err(c)
                ==> (r matches Err(err) && err.code == c && err.message@ == spec_message_for(c)),
    {
        let raw = match crate::lift_code(e.node_get_int_property(self.node_handle, self.index)) {
            Ok(v) => v,
            Err(err) => {
                return Err(err);
            },
        };
        if raw == 0 {
            Ok(PanningStrategy::Hrtf)
        } else if raw == 1 {
            Ok(PanningStrategy::Stereo)
        } else if raw == 2 {
            Ok(PanningStrategy::Surround40)
        } else if raw == 3 {
            Ok(PanningStrategy::Surround51)
        } else if raw == 4 {
            Ok(PanningStrategy::Surround71)
        } else {
            Err(
                Error {
                    code: ERROR_UNKNOWN,
                    message: String::from_str("Invalid panning strategy"),
                },
            )
        }
    }

    /// Writes the raw integer behind the model.
    fn set_int(&self, e: &mut Engine, value: i32) -> (r: Result<(), Error>)
        requires
            old(e)@.wf(),
        ensures
            final(e)@ == set_scalar_spec(
                old(e)@,
                self.node_handle as int,
                self.index,
                PropKind::PInt,
                value as i64,
            ).1,
            set_scalar_spec(
                old(e)@,
                self.node_handle as int,
                self.index,
                PropKind::PInt,
                value as i64,
            ).0 == 0 <==> r is Ok,
            r matches Err(err) ==> err.code == set_scalar_spec(
                old(e)@,
                self.node_handle as int,
                self.index,
                PropKind::PInt,
                value as i64,
            ).0 && err.message@ == spec_message_for(err.code),
            final(e)@.wf(),
    {
        check(e.node_set_int_property(self.node_handle, self.index, value))
    }

    /// Writes a strategy; only values of the closed tag set can ever be
    /// stored through this typed path.
    pub fn set(&self, e: &mut Engine, strategy: PanningStrategy) -> (r: Result<(), Error>)
        requires
            old(e)@.wf(),
        ensures
            final(e)@ == set_scalar_spec(
                old(e)@,
                self.node_handle as int,
                self.index,
                PropKind::PInt,
                spec_panning_strategy_to_int(strategy) as i64,
            ).1,
            set_scalar_spec(
                old(e)@,
                self.node_handle as int,
                self.index,
                PropKind::PInt,
                spec_panning_strategy_to_int(strategy) as i64,
            ).0 == 0 <==> r is Ok,
            final(e)@.wf(),
    {
        self.set_int(e, panning_strategy_to_int(strategy))
    }
}

} // verus!
