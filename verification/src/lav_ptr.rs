//! A reference-counted wrapper around an opaque handle: each `LavPtr`
//! value owns exactly one external-reference unit toward the engine's
//! count for that handle.

use vstd::prelude::*;

verus! {

use crate::engine::Engine;
use crate::engine::ERROR_NONE;
use crate::graph::first_access_spec;
use crate::graph::inc_ref_spec;
use crate::graph::dec_ref_spec;
use crate::check;
use crate::lift_code;
use crate::spec_message_for;
use crate::Error;

/// Manages the engine's external reference count for one handle. Each
/// value stands for one reference unit; releasing the last unit of an
/// unconnected object lets the engine destroy it.
#[derive(Debug)]
pub struct LavPtr {
    /// The underlying raw handle.
    pub handle: i32,
}

/// What wrapping a handle does to the engine: a freshly created handle
/// already carries its creation reference, which the wrapper adopts after
/// the one-shot first-access query; a handle wrapped before gets one more
/// reference. Either way the first-access flag ends cleared and exactly
/// one reference unit is owned by the new wrapper.
pub open spec fn lav_ptr_new_spec(e: crate::engine::EngineV, handle: int) -> (
    Result<(), i32>,
    crate::engine::EngineV,
) {
    match first_access_spec(e, handle) {
        (Err(c), e1) => (Err(c), e1),
        (Ok(first), e1) => {
            if first {
                (Ok(()), e1)
            } else {
                let (c2, e2) = inc_ref_spec(e1, handle);
                if c2 == ERROR_NONE {
                    (Ok(()), e2)
                } else {
                    (Err(c2), e2)
                }
            }
        },
    }
}

impl LavPtr {
    /// Wraps a handle, adopting the creation reference of a fresh handle
    /// and taking a new reference otherwise. A naive unconditional
    /// increment would leak the object above its true reference count;
    /// the first-access query is what tells the two cases apart.
    pub fn new(e: &mut Engine, handle: i32) -> (r: Result<LavPtr, Error>)
        requires
            old(e)@.wf(),
        ensures
            final(e)@ == lav_ptr_new_spec(old(e)@, handle as int).1,
            lav_ptr_new_spec(old(e)@, handle as int).0 matches Ok(u) ==> (r matches Ok(p)
                && p.handle == handle),
            lav_ptr_new_spec(old(e)@, handle as int).0 matches Err(c) ==> (r matches Err(err)
                && err.code == c && err.message@ == spec_message_for(c)),
            final(e)@.wf(),
    {
        let is_first = match lift_code(e.handle_get_and_clear_first_access(handle)) {
            Ok(b) => b,
            Err(err) => {
                return Err(err);
            },
        };
        if !is_first {
            match check(e.handle_inc_ref(handle)) {
                Ok(u) => u,
                Err(err) => {
                    return Err(err);
                },
            }
        }
        Ok(LavPtr { handle })
    }

    /// Takes one more reference on the same handle, yielding a second
    /// wrapper that owns its own unit.
    pub fn try_clone(&self, e: &mut Engine) -> (r: Result<LavPtr, Error>)
        requires
            old(e)@.wf(),
        ensures
            final(e)@ == lav_ptr_new_spec(old(e)@, self.handle as int).1,
            lav_ptr_new_spec(old(e)@, self.handle as int).0 matches Ok(u) ==> (r matches Ok(p)
                && p.handle == self.handle),
            lav_ptr_new_spec(old(e)@, self.handle as int).0 matches Err(c) ==> (r matches Err(err)
                && err.code == c && err.message@ == spec_message_for(c)),
            final(e)@.wf(),
    {
        LavPtr::new(e, self.handle)
    }

    /// Gives the owned reference unit back. When the last unit of an
    /// object no connection chain retains goes, the engine destroys the
    /// object.
    pub fn release(self, e: &mut Engine) -> (r: Result<(), Error>)
        requires
            old(e)@.wf(),
        ensures
            final(e)@ == dec_ref_spec(old(e)@, self.handle as int).1,
            dec_ref_spec(old(e)@, self.handle as int).0 == ERROR_NONE <==> r is Ok,
            r matches Err(err) ==> err.code == dec_ref_spec(old(e)@, self.handle as int).0
                && err.message@ == spec_message_for(err.code),
            final(e)@.wf(),
    {
        check(e.handle_dec_ref(self.handle))
    }
}

} // verus!
