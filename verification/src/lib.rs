//! A safety layer over a realtime audio-synthesis engine whose object model
//! is a set of opaque integer handles: reference-counted handle lifetime
//! management, typed property addressing over an untyped (handle, index)
//! address space, the node-graph connection protocol, and a token-based
//! callback registry. The engine state itself is carried as an explicit
//! [`engine::Engine`] value whose every transition is specified and verified.

use vstd::prelude::*;

pub mod engine;
pub mod props;
pub mod graph;
pub mod connect;
pub mod create;
pub mod bufferops;
pub mod process;
pub mod lav_ptr;
pub mod server;
pub mod buffer;
pub mod nodes;
pub mod laws;

verus! {

pub use crate::buffer::Buffer;
pub use crate::server::Server;

use crate::engine::Engine;
use crate::engine::ERROR_NONE;
use crate::engine::ERROR_UNKNOWN;
use crate::engine::ERROR_NOT_INITIALIZED;
use crate::engine::ERROR_INVALID_HANDLE;
use crate::engine::ERROR_INVALID_PROPERTY;
use crate::engine::ERROR_RANGE;
use crate::engine::ERROR_CAUSES_CYCLE;
use crate::engine::ERROR_DEVICE_UNAVAILABLE;

/// A structured failure: the engine's numeric status code together with the
/// message text that describes it.
#[derive(Debug)]
pub struct Error {
    pub code: i32,
    pub message: String,
}

/// The message text belonging to each status code of the engine's error
/// taxonomy, as a spec-level sequence of characters.
pub open spec fn spec_message_for(code: i32) -> Seq<char> {
    if code == ERROR_NOT_INITIALIZED {
        "engine is not initialized"@
    } else if code == ERROR_INVALID_HANDLE {
        "invalid or destroyed handle"@
    } else if code == ERROR_INVALID_PROPERTY {
        "invalid property index or property type mismatch"@
    } else if code == ERROR_RANGE {
        "value out of range"@
    } else if code == ERROR_CAUSES_CYCLE {
        "connection would cause a cycle"@
    } else if code == ERROR_DEVICE_UNAVAILABLE {
        "audio device unavailable"@
    } else {
        "unknown engine error"@
    }
}

/// The message text belonging to each status code of the engine's error
/// taxonomy.
pub fn message_for(code: i32) -> (r: &'static str)
    ensures
        r@ == spec_message_for(code),
{
    if code == ERROR_NOT_INITIALIZED {
        "engine is not initialized"
    } else if code == ERROR_INVALID_HANDLE {
        "invalid or destroyed handle"
    } else if code == ERROR_INVALID_PROPERTY {
        "invalid property index or property type mismatch"
    } else if code == ERROR_RANGE {
        "value out of range"
    } else if code == ERROR_CAUSES_CYCLE {
        "connection would cause a cycle"
    } else if code == ERROR_DEVICE_UNAVAILABLE {
        "audio device unavailable"
    } else {
        "unknown engine error"
    }
}

/// Translates an engine status code into a structured result: the zero code
/// means success, any other code carries its message text.
pub fn check(code: i32) -> (r: Result<(), Error>)
    ensures
        code == ERROR_NONE <==> r is Ok,
        r matches Err(e) ==> e.code == code && e.message@ == spec_message_for(code),
{
    if code == ERROR_NONE {
        Ok(())
    } else {
        Err(Error { code, message: String::from_str(message_for(code)) })
    }
}

/// Lifts an engine result into a structured one: a nonzero status code
/// becomes an [`Error`] carrying the code and its message text.
pub fn lift_code<T>(r: Result<T, i32>) -> (out: Result<T, Error>)
    ensures
        r matches Ok(v) ==> (out matches Ok(v2) && v2 == v),
        r matches Err(c) ==> (out matches Err(e) && e.code == c && e.message@ == spec_message_for(
            c,
        )),
{
    match r {
        Ok(v) => Ok(v),
        Err(c) => Err(Error { code: c, message: String::from_str(message_for(c)) }),
    }
}

/// Brings the engine up, counting the call; every initialization must later
/// be balanced by one `shutdown`.
pub fn initialize(e: &mut Engine) -> (r: Result<(), Error>)
    ensures
        old(e)@.init_count < u64::MAX ==> r is Ok
            && final(e)@ == old(e)@.with_init_count(old(e)@.init_count + 1),
        old(e)@.init_count == u64::MAX ==> (r matches Err(err) && err.code == ERROR_UNKNOWN)
            && final(e)@ == old(e)@,
{
    check(e.lifecycle_initialize())
}

/// Reports whether the engine is currently initialized.
pub fn is_initialized(e: &Engine) -> (r: Result<bool, Error>)
    ensures
        r matches Ok(b) && (b <==> e@.init_count > 0),
{
    Ok(e.lifecycle_is_initialized())
}

/// Tears one initialization down. The call that balances the first
/// `initialize` destroys every object the engine still holds.
pub fn shutdown(e: &mut Engine) -> (r: Result<(), Error>)
    ensures
        old(e)@.init_count > 1 ==> r is Ok
            && final(e)@ == old(e)@.with_init_count(old(e)@.init_count - 1),
        old(e)@.init_count == 1 ==> r is Ok && final(e)@ == crate::engine::EngineV::empty(),
        old(e)@.init_count == 0 ==> (r matches Err(err) && err.code == ERROR_NOT_INITIALIZED)
            && final(e)@ == old(e)@,
{
    check(e.lifecycle_shutdown())
}

} // verus!
