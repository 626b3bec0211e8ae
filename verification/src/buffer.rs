//! Storage for audio data. Buffers hold decoded, resampled audio inside
//! the engine; apart from the handle they are stateless on the wrapper's
//! side, so the binding tracks only what the engine reports — the extent
//! in frames at the server's rate.

use vstd::prelude::*;

verus! {

use crate::engine::Engine;
use crate::server::Server;
use crate::create::create_buffer_spec;
use crate::bufferops::buffer_load_spec;
use crate::bufferops::buffer_length_spec;
use crate::bufferops::buffer_normalize_spec;
use crate::check;
use crate::lift_code;
use crate::spec_message_for;
use crate::Error;

/// A buffer of decoded audio owned by the engine. Buffers may be used by
/// any number of buffer-playing nodes at once; mutating one while it is
/// referenced is rejected by the engine.
#[derive(Debug)]
pub struct Buffer {
    pub handle: i32,
}

impl Buffer {
    /// Creates an empty audio buffer against a server.
    pub fn new(e: &mut Engine, server: &Server) -> (r: Result<Buffer, Error>)
        requires
            old(e)@.wf(),
        ensures
            final(e)@ == create_buffer_spec(old(e)@, server.handle as int).1,
            create_buffer_spec(old(e)@, server.handle as int).0 matches Ok(h) ==> (r matches Ok(b)
                && b.handle as int == h),
            create_buffer_spec(old(e)@, server.handle as int).0 matches Err(c) ==> (r matches Err(
                err,
            ) && err.code == c && err.message@ == spec_message_for(c)),
            final(e)@.wf(),
    {
        match lift_code(e.create_buffer(server.handle)) {
            Ok(h) => Ok(Buffer { handle: h }),
            Err(err) => Err(err),
        }
    }

    /// Loads interleaved samples (fixed-point thousandths) into the
    /// buffer; the engine resamples the data once to the server's rate.
    pub fn load_from_array(
        &self,
        e: &mut Engine,
        sampling_rate: i32,
        channels: i32,
        frames: i32,
        data: &[i64],
    ) -> (r: Result<(), Error>)
        requires
            old(e)@.wf(),
        ensures
            final(e)@ == buffer_load_spec(
                old(e)@,
                self.handle as int,
                sampling_rate,
                channels,
                frames,
                data@.len() as int,
            ).1,
            buffer_load_spec(
                old(e)@,
                self.handle as int,
                sampling_rate,
                channels,
                frames,
                data@.len() as int,
            ).0 == 0 <==> r is Ok,
            r matches Err(err) ==> err.code == buffer_load_spec(
                old(e)@,
                self.handle as int,
                sampling_rate,
                channels,
                frames,
                data@.len() as int,
            ).0 && err.message@ == spec_message_for(err.code),
            final(e)@.wf(),
    {
        check(e.buffer_load_from_array(self.handle, sampling_rate, channels, frames, data.len()))
    }

    /// The buffer's duration in thousandths of a second, at the server's
    /// sampling rate.
    pub fn get_duration(&self, e: &Engine) -> (r: Result<i64, Error>)
        requires
            e@.wf(),
        ensures
            crate::bufferops::buffer_duration_spec(e@, self.handle as int) matches Ok(v) ==> (
            r matches Ok(v2) && v2 == v),
            crate::bufferops::buffer_duration_spec(e@, self.handle as int) matches Err(c) ==> (
            r matches Err(err) && err.code == c && err.message@ == spec_message_for(c)),
    {
        lift_code(e.buffer_get_duration(self.handle))
    }

    /// The buffer's extent in frames at the server's sampling rate; useful
    /// mostly for estimating memory use in caching structures.
    pub fn get_length_in_samples(&self, e: &Engine) -> (r: Result<i32, Error>)
        requires
            e@.wf(),
        ensures
            buffer_length_spec(e@, self.handle as int) matches Ok(v) ==> (r matches Ok(v2) && v2
                == v),
            buffer_length_spec(e@, self.handle as int) matches Err(c) ==> (r matches Err(err)
                && err.code == c && err.message@ == spec_message_for(c)),
    {
        proof {
            if e@.is_alive(self.handle as int) {
                assert(e@.obj(self.handle as int).wf(e@));
            }
        }
        match lift_code(e.buffer_get_length_in_samples(self.handle)) {
            Ok(v) => Ok(v as i32),
            Err(err) => Err(err),
        }
    }

    /// Rescales the buffer's samples inside the engine so their peak sits
    /// at full scale; nothing the wrapper can observe changes.
    pub fn normalize(&self, e: &mut Engine) -> (r: Result<(), Error>)
        requires
            old(e)@.wf(),
        ensures
            final(e)@ == buffer_normalize_spec(old(e)@, self.handle as int).1,
            buffer_normalize_spec(old(e)@, self.handle as int).0 == 0 <==> r is Ok,
            r matches Err(err) ==> err.code == buffer_normalize_spec(
                old(e)@,
                self.handle as int,
            ).0 && err.message@ == spec_message_for(err.code),
            final(e)@.wf(),
    {
        check(e.buffer_normalize(self.handle))
    }
}

} // verus!
