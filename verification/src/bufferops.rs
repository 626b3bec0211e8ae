//! Buffer data operations and the server's output-device binding. Buffers
//! are stateless from the wrapper's side apart from their handle; the
//! engine owns the sample memory, so the model tracks a buffer's measured
//! extent and leaves the samples themselves behind the mixer.

use vstd::prelude::*;

verus! {

use crate::engine::Engine;
use crate::engine::EngineV;
use crate::engine::ObjectV;
use crate::engine::ObjectKind;
use crate::engine::PropKind;
use crate::engine::FRAMES_MAX;
use crate::engine::ERROR_NONE;
use crate::engine::ERROR_UNKNOWN;
use crate::engine::ERROR_INVALID_HANDLE;
use crate::engine::ERROR_RANGE;
use crate::engine::ERROR_DEVICE_UNAVAILABLE;
use crate::props::object_kind_eq;

/// Whether some live object's buffer-reference slot points at `bh`; the
/// engine rejects mutation of a buffer that is in use.
pub open spec fn buffer_in_use(e: EngineV, bh: int) -> bool {
    exists|i: int, k: int|
        0 <= i < e.objects.len() && 0 <= k < e.objects[i].props.len()
            && (#[trigger] e.objects[i].props[k]).kind == PropKind::PBuffer && e.objects[i].alive
            && e.objects[i].props[k].ival == bh
}

/// What loading interleaved audio into a buffer does: the engine resamples
/// the data once, so the stored extent is the frame count scaled by the
/// ratio of the server's rate to the data's rate.
pub open spec fn buffer_load_spec(
    e: EngineV,
    bh: int,
    sampling_rate: i32,
    channels: i32,
    frames: i32,
    data_len: int,
) -> (i32, EngineV) {
    if !(e.is_alive(bh) && e.obj(bh).kind == ObjectKind::Buffer) {
        (ERROR_INVALID_HANDLE, e)
    } else if buffer_in_use(e, bh) {
        (ERROR_UNKNOWN, e)
    } else if sampling_rate < 1 || channels < 1 || frames < 0 || data_len != frames * channels {
        (ERROR_RANGE, e)
    } else {
        let server = e.obj(bh).server as int;
        let sr: int = if e.valid_handle(server) && e.obj(server).sample_rate >= 1 {
            e.obj(server).sample_rate as int
        } else {
            sampling_rate as int
        };
        let extent = frames * sr / (sampling_rate as int);
        if extent > FRAMES_MAX {
            (ERROR_RANGE, e)
        } else {
            (
                ERROR_NONE,
                e.with_obj(
                    bh,
                    ObjectV { frames: extent as u64, channels: channels as u32, ..e.obj(bh) },
                ),
            )
        }
    }
}

/// What querying a buffer's extent does: its length in frames at the
/// server's sampling rate.
pub open spec fn buffer_length_spec(e: EngineV, bh: int) -> Result<i64, i32> {
    if !(e.is_alive(bh) && e.obj(bh).kind == ObjectKind::Buffer) {
        Err(ERROR_INVALID_HANDLE)
    } else {
        Ok(e.obj(bh).frames as i64)
    }
}

/// What querying a buffer's duration does: its extent over the server's
/// sampling rate, in thousandths of a second.
pub open spec fn buffer_duration_spec(e: EngineV, bh: int) -> Result<i64, i32> {
    if !(e.is_alive(bh) && e.obj(bh).kind == ObjectKind::Buffer) {
        Err(ERROR_INVALID_HANDLE)
    } else {
        let server = e.obj(bh).server as int;
        if e.valid_handle(server) && e.obj(server).sample_rate >= 1 {
            Ok(
                ((e.obj(bh).frames as int * (crate::engine::SCALE as int)) / (
                e.obj(server).sample_rate as int)) as i64,
            )
        } else {
            Err(ERROR_INVALID_HANDLE)
        }
    }
}

/// What normalizing a buffer does: the samples are rescaled inside the
/// engine; the extent, and everything the wrapper can see, is unchanged.
/// A buffer in use is protected like any other mutation.
pub open spec fn buffer_normalize_spec(e: EngineV, bh: int) -> (i32, EngineV) {
    if !(e.is_alive(bh) && e.obj(bh).kind == ObjectKind::Buffer) {
        (ERROR_INVALID_HANDLE, e)
    } else if buffer_in_use(e, bh) {
        (ERROR_UNKNOWN, e)
    } else {
        (ERROR_NONE, e)
    }
}

/// What binding the server's output device does: the channel count must be
/// between one and sixteen and the mixahead nonnegative; an empty device
/// identifier names no device.
pub open spec fn set_output_device_spec(
    e: EngineV,
    sh: int,
    identifier: Seq<char>,
    channels: i32,
    mixahead: i32,
) -> (i32, EngineV) {
    if !(e.is_alive(sh) && e.obj(sh).kind == ObjectKind::Server) {
        (ERROR_INVALID_HANDLE, e)
    } else if identifier.len() == 0 {
        (ERROR_DEVICE_UNAVAILABLE, e)
    } else if channels < 1 || channels > 16 || mixahead < 0 {
        (ERROR_RANGE, e)
    } else {
        (ERROR_NONE, e.with_obj(sh, ObjectV { has_output_device: true, ..e.obj(sh) }))
    }
}

impl Engine {
    /// Whether a live object references the buffer through a
    /// buffer-reference slot.
    fn buffer_in_use_exec(&self, bh: i32) -> (r: bool)
        ensures
            r == buffer_in_use(self@, bh as int),
    {
        let n = self.objects.len();
        let mut i: usize = 0;
        while i < n
            invariant
                n == self.objects.len(),
                0 <= i <= n,
                forall|a: int, k: int|
                    0 <= a < i && 0 <= k < self@.objects[a].props.len() ==> !((
                    #[trigger] self@.objects[a].props[k]).kind == PropKind::PBuffer
                        && self@.objects[a].alive && self@.objects[a].props[k].ival == bh as i64),
            decreases n - i,
        {
            if self.objects[i].alive {
                let m = self.objects[i].props.len();
                let mut k: usize = 0;
                while k < m
                    invariant
                        n == self.objects.len(),
                        0 <= i < n,
                        self@.objects[i as int].alive,
                        m == self@.objects[i as int].props.len(),
                        0 <= k <= m,
                        forall|q: int| 0 <= q < k ==> !((
                        #[trigger] self@.objects[i as int].props[q]).kind == PropKind::PBuffer
                            && self@.objects[i as int].props[q].ival == bh as i64),
                    decreases m - k,
                {
                    let s = self.objects[i].props[k];
                    if crate::props::prop_kind_eq(s.kind, PropKind::PBuffer) && s.ival
                        == bh as i64 {
                        return true;
                    }
                    k = k + 1;
                }
            }
            i = i + 1;
        }
        false
    }

    /// Loads interleaved audio data into a buffer, resampling it once to
    /// the server's rate; rejected while the buffer is referenced by a
    /// node.
    pub fn buffer_load_from_array(
        &mut self,
        bh: i32,
        sampling_rate: i32,
        channels: i32,
        frames: i32,
        data_len: usize,
    ) -> (code: i32)
        requires
            old(self)@.wf(),
        ensures
            (code, final(self)@) == buffer_load_spec(
                old(self)@,
                bh as int,
                sampling_rate,
                channels,
                frames,
                data_len as int,
            ),
            final(self)@.wf(),
    {
        if bh < 1 || bh as usize > self.objects.len() {
            return ERROR_INVALID_HANDLE;
        }
        let bi = (bh - 1) as usize;
        if !self.objects[bi].alive || !object_kind_eq(self.objects[bi].kind, ObjectKind::Buffer) {
            return ERROR_INVALID_HANDLE;
        }
        if self.buffer_in_use_exec(bh) {
            return ERROR_UNKNOWN;
        }
        if sampling_rate < 1 || channels < 1 || frames < 0 {
            return ERROR_RANGE;
        }
        proof {
            assert((frames as u64) * (channels as u64) < 0x4000_0000_0000_0000u64)
                by (nonlinear_arith)
                requires
                    0 <= frames <= i32::MAX,
                    0 < channels <= i32::MAX,
            ;
        }
        if (frames as u64) * (channels as u64) != data_len as u64 {
            return ERROR_RANGE;
        }
        let sv = self.objects[bi].server;
        let sr: u64 = if sv >= 1 && (sv as usize) <= self.objects.len() && self.objects[(sv
            - 1) as usize].sample_rate >= 1 {
            self.objects[(sv - 1) as usize].sample_rate as u64
        } else {
            sampling_rate as u64
        };
        proof {
            assert((frames as u64) * sr <= 9223372030412324865u64) by (nonlinear_arith)
                requires
                    0 <= frames <= i32::MAX,
                    0 <= sr <= u32::MAX,
            ;
        }
        let extent: u64 = (frames as u64) * sr / (sampling_rate as u64);
        if extent > FRAMES_MAX {
            return ERROR_RANGE;
        }
        let o = &mut self.objects[bi];
        o.frames = extent;
        o.channels = channels as u32;
        proof {
            assert(self@.objects =~= buffer_load_spec(
                old(self)@,
                bh as int,
                sampling_rate,
                channels,
                frames,
                data_len as int,
            ).1.objects);
            assert forall|j: int| 0 <= j < self@.objects.len() implies (
            #[trigger] self@.objects[j]).wf(self@) by {
                assert(old(self)@.objects[j].wf(old(self)@));
            }
        }
        ERROR_NONE
    }

    /// A buffer's length in frames at the server's sampling rate.
    pub fn buffer_get_length_in_samples(&self, bh: i32) -> (r: Result<i64, i32>)
        ensures
            r == buffer_length_spec(self@, bh as int),
    {
        if bh < 1 || bh as usize > self.objects.len() {
            return Err(ERROR_INVALID_HANDLE);
        }
        let bi = (bh - 1) as usize;
        if !self.objects[bi].alive || !object_kind_eq(self.objects[bi].kind, ObjectKind::Buffer) {
            return Err(ERROR_INVALID_HANDLE);
        }
        Ok(self.objects[bi].frames as i64)
    }

    /// A buffer's duration in thousandths of a second, at the server's
    /// sampling rate.
    pub fn buffer_get_duration(&self, bh: i32) -> (r: Result<i64, i32>)
        requires
            self@.wf(),
        ensures
            r == buffer_duration_spec(self@, bh as int),
    {
        if bh < 1 || bh as usize > self.objects.len() {
            return Err(ERROR_INVALID_HANDLE);
        }
        let bi = (bh - 1) as usize;
        if !self.objects[bi].alive || !object_kind_eq(self.objects[bi].kind, ObjectKind::Buffer) {
            return Err(ERROR_INVALID_HANDLE);
        }
        let sv = self.objects[bi].server;
        if sv < 1 || sv as usize > self.objects.len() || self.objects[(sv
            - 1) as usize].sample_rate < 1 {
            return Err(ERROR_INVALID_HANDLE);
        }
        proof {
            assert(self@.objects[bi as int].wf(self@));
        }
        let frames = self.objects[bi].frames;
        let rate = self.objects[(sv - 1) as usize].sample_rate;
        Ok(((frames * (crate::engine::SCALE as u64)) / (rate as u64)) as i64)
    }

    /// Rescales a buffer's samples inside the engine; nothing the wrapper
    /// can observe changes.
    pub fn buffer_normalize(&mut self, bh: i32) -> (code: i32)
        requires
            old(self)@.wf(),
        ensures
            (code, final(self)@) == buffer_normalize_spec(old(self)@, bh as int),
            final(self)@.wf(),
    {
        if bh < 1 || bh as usize > self.objects.len() {
            return ERROR_INVALID_HANDLE;
        }
        let bi = (bh - 1) as usize;
        if !self.objects[bi].alive || !object_kind_eq(self.objects[bi].kind, ObjectKind::Buffer) {
            return ERROR_INVALID_HANDLE;
        }
        if self.buffer_in_use_exec(bh) {
            return ERROR_UNKNOWN;
        }
        ERROR_NONE
    }

    /// Binds the server to an output device; after this, mixed audio goes
    /// to the device rather than to manual block pulls.
    pub fn server_set_output_device(
        &mut self,
        sh: i32,
        identifier: &str,
        channels: i32,
        mixahead: i32,
    ) -> (code: i32)
        requires
            old(self)@.wf(),
        ensures
            (code, final(self)@) == set_output_device_spec(
                old(self)@,
                sh as int,
                identifier@,
                channels,
                mixahead,
            ),
            final(self)@.wf(),
    {
        if sh < 1 || sh as usize > self.objects.len() {
            return ERROR_INVALID_HANDLE;
        }
        let si = (sh - 1) as usize;
        if !self.objects[si].alive || !object_kind_eq(self.objects[si].kind, ObjectKind::Server) {
            return ERROR_INVALID_HANDLE;
        }
        if identifier.unicode_len() == 0 {
            return ERROR_DEVICE_UNAVAILABLE;
        }
        if channels < 1 || channels > 16 || mixahead < 0 {
            return ERROR_RANGE;
        }
        let o = &mut self.objects[si];
        o.has_output_device = true;
        proof {
            assert(self@.objects =~= set_output_device_spec(
                old(self)@,
                sh as int,
                identifier@,
                channels,
                mixahead,
            ).1.objects);
            assert forall|j: int| 0 <= j < self@.objects.len() implies (
            #[trigger] self@.objects[j]).wf(self@) by {
                assert(old(self)@.objects[j].wf(old(self)@));
            }
        }
        ERROR_NONE
    }
}

} // verus!
