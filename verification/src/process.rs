//! One processing block of the engine's mixer, made explicit: playing
//! buffer nodes advance their positions and count the ends they reach,
//! push nodes drain their queues and raise low-audio and underrun events,
//! pull nodes ask for more audio. Callbacks are carried as opaque tokens —
//! the engine never sees a closure, only the token it must hand back, so
//! closure ownership stays wholly outside the engine (and replacement
//! returns the old token for its owner to retire safely).

use vstd::prelude::*;

verus! {

use crate::engine::Engine;
use crate::engine::EngineV;
use crate::engine::ObjectV;
use crate::engine::ObjectKind;
use crate::engine::Slot;
use crate::engine::Edge;
use crate::engine::SCALE;
use crate::engine::SCALAR_MAX;
use crate::engine::FRAMES_MAX;
use crate::engine::RATE_MAX;
use crate::engine::THRESHOLD_MAX;
use crate::engine::ERROR_NONE;
use crate::engine::ERROR_UNKNOWN;
use crate::engine::ERROR_NOT_INITIALIZED;
use crate::engine::ERROR_INVALID_HANDLE;
use crate::engine::ERROR_RANGE;
use crate::engine::PROP_NODE_STATE;
use crate::engine::PROP_BUFFER_BUFFER;
use crate::engine::PROP_BUFFER_POSITION;
use crate::engine::PROP_BUFFER_RATE;
use crate::engine::PROP_BUFFER_LOOPING;
use crate::engine::PROP_BUFFER_ENDED_COUNT;
use crate::engine::PROP_PUSH_THRESHOLD;
use crate::props::find_slot;
use crate::props::lemma_find_slot_sound;
use crate::props::object_kind_eq;
use crate::graph::spec_reaches;
use crate::create::new_object;
use crate::create::auto_source_props;
use crate::create::slot_val_or;
use crate::create::create_spec;
use crate::create::lemma_wf_after_push_object;
use crate::connect::lemma_wf_after_edge_push;

/// One callback demand raised while processing a block; the application
/// dispatches each event to the closure its token names.
#[derive(Clone, Copy, PartialEq, Eq, Structural, Debug)]
pub enum EngineEvent {
    /// A pull node wants `frames * channels` interleaved samples from the
    /// callback registered under `token`.
    Pull { token: u64, frames: u32, channels: u32 },
    /// A push node's queued audio fell under its threshold.
    Low { token: u64 },
    /// A push node's queue ran out completely.
    Underrun { token: u64 },
}

/// What registering a pull node's audio callback does: the token replaces
/// any prior registration, whose token comes back so its closure can be
/// retired once no invocation can be in flight.
pub open spec fn set_pull_callback_spec(e: EngineV, h: int, token: u64) -> (
    Result<Option<u64>, i32>,
    EngineV,
) {
    if !(e.is_alive(h) && e.obj(h).kind == ObjectKind::PullNode) {
        (Err(ERROR_INVALID_HANDLE), e)
    } else {
        (Ok(e.obj(h).pull_cb), e.with_obj(h, ObjectV { pull_cb: Some(token), ..e.obj(h) }))
    }
}

/// What registering a push node's low-audio callback does.
pub open spec fn set_low_callback_spec(e: EngineV, h: int, token: u64) -> (
    Result<Option<u64>, i32>,
    EngineV,
) {
    if !(e.is_alive(h) && e.obj(h).kind == ObjectKind::PushNode) {
        (Err(ERROR_INVALID_HANDLE), e)
    } else {
        (Ok(e.obj(h).low_cb), e.with_obj(h, ObjectV { low_cb: Some(token), ..e.obj(h) }))
    }
}

/// What registering a push node's underrun callback does.
pub open spec fn set_underrun_callback_spec(e: EngineV, h: int, token: u64) -> (
    Result<Option<u64>, i32>,
    EngineV,
) {
    if !(e.is_alive(h) && e.obj(h).kind == ObjectKind::PushNode) {
        (Err(ERROR_INVALID_HANDLE), e)
    } else {
        (Ok(e.obj(h).underrun_cb), e.with_obj(h, ObjectV { underrun_cb: Some(token), ..e.obj(h) }))
    }
}

/// What feeding samples into a push node's queue does: the sample count
/// must fill whole frames and the queue must not outgrow its extent bound.
pub open spec fn push_feed_spec(e: EngineV, h: int, length: u32) -> (i32, EngineV) {
    if !(e.is_alive(h) && e.obj(h).kind == ObjectKind::PushNode) {
        (ERROR_INVALID_HANDLE, e)
    } else if e.obj(h).channels < 1 {
        (ERROR_UNKNOWN, e)
    } else if length % e.obj(h).channels != 0 {
        (ERROR_RANGE, e)
    } else if e.obj(h).frames + length / e.obj(h).channels > FRAMES_MAX {
        (ERROR_RANGE, e)
    } else {
        (
            ERROR_NONE,
            e.with_obj(
                h,
                ObjectV {
                    frames: (e.obj(h).frames + length / e.obj(h).channels) as u64,
                    ..e.obj(h)
                },
            ),
        )
    }
}

/// What a fire-and-forget playback does: the engine spawns a hidden
/// buffer-playing object, connected to the environment and retained only
/// through it, and disposes of it when the buffer ends.
pub open spec fn play_async_spec(
    e: EngineV,
    env_h: int,
    buf_h: int,
    x: i64,
    y: i64,
    z: i64,
    is_dry: bool,
) -> (i32, EngineV) {
    let entry_code: i32 = if !(e.is_alive(env_h) && e.obj(env_h).kind == ObjectKind::EnvironmentNode) {
        ERROR_INVALID_HANDLE
    } else if !(e.is_alive(buf_h) && e.obj(buf_h).kind == ObjectKind::Buffer) {
        ERROR_INVALID_HANDLE
    } else {
        ERROR_NONE
    };
    let o = play_async_obj(e, env_h, buf_h, x, y, z, is_dry);
    match create_spec(e, entry_code, o) {
        (Err(c), e1) => (c, e1),
        (Ok(h), e1) => (
            ERROR_NONE,
            e1.with_obj(
                h,
                ObjectV {
                    edges: seq![
                        Edge { output: 0, dest: env_h as i32, input: 0, to_input: true },
                    ],
                    ..e1.obj(h)
                },
            ),
        ),
    }
}

/// Clamped into the given closed interval.
pub open spec fn clamp64(v: i64, lo: i64, hi: i64) -> i64 {
    if v < lo {
        lo
    } else if v > hi {
        hi
    } else {
        v
    }
}

/// Clamped into the given closed interval.
fn clamp64_exec(v: i64, lo: i64, hi: i64) -> (r: i64)
    ensures
        r == clamp64(v, lo, hi),
{
    if v < lo {
        lo
    } else if v > hi {
        hi
    } else {
        v
    }
}

/// The slot table with the named slot's value replaced, clamped into the
/// slot's own declared range; a missing slot leaves the table unchanged.
pub open spec fn set_slot_clamped(props: Seq<Slot>, index: i32, v: i64) -> Seq<Slot> {
    match find_slot(props, index) {
        Option::None => props,
        Option::Some(i) => {
            let s = props[i];
            props.update(i, Slot { ival: clamp64(v, s.min, s.max), ..s })
        },
    }
}

/// Where one block of playback takes a position, and how many ends it
/// passes: positions advance by `block * rate` (rate in thousandths); a
/// looping playback wraps, a one-shot playback pins at the end, counting
/// it exactly once.
pub open spec fn advance_values(pos: int, rate: int, len: int, block: int, looping: bool) -> (
    int,
    int,
) {
    let step = block * rate / (SCALE as int);
    let raw = pos + step;
    if raw < len {
        (raw, 0)
    } else if looping {
        (raw % len, raw / len)
    } else if pos < len {
        (len, 1)
    } else {
        (pos, 0)
    }
}

/// Where one block of playback takes a position, and how many ends it
/// passes.
fn advance_values_exec(pos: i64, rate: i64, len: i64, block: i64, looping: bool) -> (p: (i64, i64))
    requires
        0 <= pos <= SCALAR_MAX,
        0 <= rate <= RATE_MAX,
        1 <= len <= FRAMES_MAX,
        0 <= block <= u32::MAX,
    ensures
        (p.0 as int, p.1 as int) == advance_values(pos as int, rate as int, len as int, block as int, looping),
        0 <= p.0 <= SCALAR_MAX,
        0 <= p.1 < 0x40_0000_0000_0000,
{
    proof {
        assert((block as int) * (rate as int) <= 0x1_0000_0000_0000_0000 && (block as int) * (
        rate as int) >= 0) by (nonlinear_arith)
            requires
                0 <= rate <= RATE_MAX,
                0 <= block <= u32::MAX,
        ;
    }
    let step: i64 = ((block as i128 * rate as i128) / (SCALE as i128)) as i64;
    proof {
        assert(step == block * rate / (SCALE as int) && step >= 0 && step <= 0x10_0000_0000_0000i64)
            by (nonlinear_arith)
            requires
                step == (block as int) * (rate as int) / (SCALE as int),
                0 <= rate <= RATE_MAX,
                0 <= block <= u32::MAX,
        ;
    }
    let raw: i64 = pos + step;
    if raw < len {
        (raw, 0)
    } else if looping {
        let q = ((raw as u64) / (len as u64)) as i64;
        let m = ((raw as u64) % (len as u64)) as i64;
        proof {
            assert((m as int) == (raw as int) % (len as int) && (q as int) == (raw as int) / (
            len as int) && 0 <= m < len && 0 <= q <= raw) by (nonlinear_arith)
                requires
                    0 <= raw,
                    1 <= len <= FRAMES_MAX,
                    (m as int) == (raw as u64) as int % (len as u64) as int,
                    (q as int) == (raw as u64) as int / (len as u64) as int,
            ;
        }
        (m, q)
    } else if pos < len {
        (len, 1)
    } else {
        (pos, 0)
    }
}

/// The raw value of a node's state slot (playing when absent).
pub open spec fn state_of(o: ObjectV) -> i64 {
    slot_val_or(o.props, PROP_NODE_STATE, 1)
}

/// Whether a node takes part in this block: an always-playing node always
/// does, a playing node only while some connection chain leads to the
/// server being processed, a paused node never.
pub open spec fn is_active(e: EngineV, h: int, sh: int) -> bool {
    let s = state_of(e.obj(h));
    s == 0 || (s == 1 && spec_reaches(e, h, sh, e.objects.len() as nat))
}

/// The extent of the buffer a playback references, in frames; zero when no
/// live buffer is referenced.
pub open spec fn playback_len(e: EngineV, o: ObjectV) -> int {
    let b = slot_val_or(o.props, PROP_BUFFER_BUFFER, 0);
    if 1 <= b <= e.objects.len() && e.obj(b as int).alive && e.obj(b as int).kind
        == ObjectKind::Buffer {
        e.obj(b as int).frames as int
    } else {
        0
    }
}

/// One block of playback advance for a buffer-playing object: the position
/// moves as [`advance_values`] says and the ended count grows by the ends
/// passed, both clamped into their slots' declared ranges.
pub open spec fn advance_playback(e: EngineV, h: int, sh: int) -> ObjectV {
    let o = e.obj(h);
    let len = playback_len(e, o);
    if len < 1 {
        o
    } else {
        let pos = clamp64(slot_val_or(o.props, PROP_BUFFER_POSITION, 0), 0, SCALAR_MAX);
        let rate = clamp64(slot_val_or(o.props, PROP_BUFFER_RATE, SCALE), 0, RATE_MAX);
        let looping = slot_val_or(o.props, PROP_BUFFER_LOOPING, 0) != 0;
        let ended = clamp64(slot_val_or(o.props, PROP_BUFFER_ENDED_COUNT, 0), 0, SCALAR_MAX);
        let pair = advance_values(
            pos as int,
            rate as int,
            len,
            e.obj(sh).block_size as int,
            looping,
        );
        let props2 = set_slot_clamped(o.props, PROP_BUFFER_POSITION, pair.0 as i64);
        let props3 = set_slot_clamped(props2, PROP_BUFFER_ENDED_COUNT, (ended + pair.1) as i64);
        ObjectV { props: props3, ..o }
    }
}

/// One block of queue drain for a push node, and the events it raises: a
/// low event while the remaining duration is under the threshold, an
/// underrun event when the queue empties completely.
pub open spec fn push_step(e: EngineV, h: int, sh: int) -> (ObjectV, Seq<EngineEvent>) {
    let o = e.obj(h);
    let block = e.obj(sh).block_size as int;
    let q = o.frames as int;
    let q2: int = if q >= block {
        q - block
    } else {
        0
    };
    let thr = clamp64(slot_val_or(o.props, PROP_PUSH_THRESHOLD, 30), 0, THRESHOLD_MAX) as int;
    let srate: int = if o.sample_rate >= 1 {
        o.sample_rate as int
    } else {
        1
    };
    let low_ev: Seq<EngineEvent> = match o.low_cb {
        Option::Some(t) => {
            if q2 * (SCALE as int) < thr * srate {
                seq![EngineEvent::Low { token: t }]
            } else {
                Seq::empty()
            }
        },
        Option::None => Seq::empty(),
    };
    let under_ev: Seq<EngineEvent> = match o.underrun_cb {
        Option::Some(t) => {
            if q > 0 && q2 == 0 {
                seq![EngineEvent::Underrun { token: t }]
            } else {
                Seq::empty()
            }
        },
        Option::None => Seq::empty(),
    };
    (ObjectV { frames: q2 as u64, ..o }, low_ev + under_ev)
}

/// What one processing block does to the object at handle `h`, and the
/// events it raises. Objects of other servers, paused nodes, and playing
/// nodes no chain connects to the server are untouched; a spawned playback
/// whose buffer has ended is disposed of.
pub open spec fn step_obj_full(e: EngineV, h: int, sh: int) -> (ObjectV, Seq<EngineEvent>) {
    let o = e.obj(h);
    if !(o.alive && o.server as int == sh && is_active(e, h, sh)) {
        (o, Seq::empty())
    } else if o.kind == ObjectKind::BufferNode {
        (advance_playback(e, h, sh), Seq::empty())
    } else if o.kind == ObjectKind::AutoSource {
        let o2 = advance_playback(e, h, sh);
        let len = playback_len(e, o);
        if len >= 1 && advance_playback_pos(e, h, sh) >= len {
            (o2.destroyed(), Seq::empty())
        } else {
            (o2, Seq::empty())
        }
    } else if o.kind == ObjectKind::PushNode {
        push_step(e, h, sh)
    } else if o.kind == ObjectKind::PullNode {
        match o.pull_cb {
            Option::Some(t) => (
                o,
                seq![
                    EngineEvent::Pull {
                        token: t,
                        frames: e.obj(sh).block_size,
                        channels: o.channels,
                    },
                ],
            ),
            Option::None => (o, Seq::empty()),
        }
    } else {
        (o, Seq::empty())
    }
}

/// The engine state after one processing block of the given server.
pub open spec fn process_spec(e: EngineV, sh: int) -> EngineV {
    EngineV { objects: Seq::new(e.objects.len(), |i: int| step_obj_full(e, i + 1, sh).0), ..e }
}

/// The events the first `n` objects raise during one processing block, in
/// handle order.
pub open spec fn events_upto(e: EngineV, sh: int, n: int) -> Seq<EngineEvent>
    decreases n,
{
    if n <= 0 {
        Seq::empty()
    } else {
        events_upto(e, sh, n - 1) + step_obj_full(e, n, sh).1
    }
}

/// What one processing block does: every object of the server steps as
/// [`step_obj_full`] says, against the state the block started from, and
/// the raised events come back in handle order.
pub open spec fn process_block_spec(e: EngineV, sh: int) -> (
    Result<Seq<EngineEvent>, i32>,
    EngineV,
) {
    if e.init_count == 0 {
        (Err(ERROR_NOT_INITIALIZED), e)
    } else if !(e.is_alive(sh) && e.obj(sh).kind == ObjectKind::Server) {
        (Err(ERROR_INVALID_HANDLE), e)
    } else {
        (Ok(events_upto(e, sh, e.objects.len() as int)), process_spec(e, sh))
    }
}

impl Engine {
    /// Registers (or replaces) the audio callback of a pull node; the
    /// previous token comes back so its closure can be retired safely.
    pub fn pull_node_set_audio_callback(&mut self, h: i32, token: u64) -> (r: Result<
        Option<u64>,
        i32,
    >)
        requires
            old(self)@.wf(),
        ensures
            (r, final(self)@) == set_pull_callback_spec(old(self)@, h as int, token),
            final(self)@.wf(),
    {
        if h < 1 || h as usize > self.objects.len() {
            return Err(ERROR_INVALID_HANDLE);
        }
        let oi = (h - 1) as usize;
        if !self.objects[oi].alive || !object_kind_eq(self.objects[oi].kind, ObjectKind::PullNode) {
            return Err(ERROR_INVALID_HANDLE);
        }
        let was = self.objects[oi].pull_cb;
        let o = &mut self.objects[oi];
        o.pull_cb = Some(token);
        proof {
            assert(self@.objects =~= set_pull_callback_spec(old(self)@, h as int, token).1.objects);
            assert forall|j: int| 0 <= j < self@.objects.len() implies (
            #[trigger] self@.objects[j]).wf(self@) by {
                assert(old(self)@.objects[j].wf(old(self)@));
            }
        }
        Ok(was)
    }

    /// Registers (or replaces) the low-audio callback of a push node.
    pub fn push_node_set_low_callback(&mut self, h: i32, token: u64) -> (r: Result<
        Option<u64>,
        i32,
    >)
        requires
            old(self)@.wf(),
        ensures
            (r, final(self)@) == set_low_callback_spec(old(self)@, h as int, token),
            final(self)@.wf(),
    {
        if h < 1 || h as usize > self.objects.len() {
            return Err(ERROR_INVALID_HANDLE);
        }
        let oi = (h - 1) as usize;
        if !self.objects[oi].alive || !object_kind_eq(self.objects[oi].kind, ObjectKind::PushNode) {
            return Err(ERROR_INVALID_HANDLE);
        }
        let was = self.objects[oi].low_cb;
        let o = &mut self.objects[oi];
        o.low_cb = Some(token);
        proof {
            assert(self@.objects =~= set_low_callback_spec(old(self)@, h as int, token).1.objects);
            assert forall|j: int| 0 <= j < self@.objects.len() implies (
            #[trigger] self@.objects[j]).wf(self@) by {
                assert(old(self)@.objects[j].wf(old(self)@));
            }
        }
        Ok(was)
    }

    /// Registers (or replaces) the underrun callback of a push node.
    pub fn push_node_set_underrun_callback(&mut self, h: i32, token: u64) -> (r: Result<
        Option<u64>,
        i32,
    >)
        requires
            old(self)@.wf(),
        ensures
            (r, final(self)@) == set_underrun_callback_spec(old(self)@, h as int, token),
            final(self)@.wf(),
    {
        if h < 1 || h as usize > self.objects.len() {
            return Err(ERROR_INVALID_HANDLE);
        }
        let oi = (h - 1) as usize;
        if !self.objects[oi].alive || !object_kind_eq(self.objects[oi].kind, ObjectKind::PushNode) {
            return Err(ERROR_INVALID_HANDLE);
        }
        let was = self.objects[oi].underrun_cb;
        let o = &mut self.objects[oi];
        o.underrun_cb = Some(token);
        proof {
            assert(self@.objects =~= set_underrun_callback_spec(
                old(self)@,
                h as int,
                token,
            ).1.objects);
            assert forall|j: int| 0 <= j < self@.objects.len() implies (
            #[trigger] self@.objects[j]).wf(self@) by {
                assert(old(self)@.objects[j].wf(old(self)@));
            }
        }
        Ok(was)
    }

    /// Queues interleaved samples on a push node.
    pub fn push_node_feed(&mut self, h: i32, length: u32) -> (code: i32)
        requires
            old(self)@.wf(),
        ensures
            (code, final(self)@) == push_feed_spec(old(self)@, h as int, length),
            final(self)@.wf(),
    {
        if h < 1 || h as usize > self.objects.len() {
            return ERROR_INVALID_HANDLE;
        }
        let oi = (h - 1) as usize;
        if !self.objects[oi].alive || !object_kind_eq(self.objects[oi].kind, ObjectKind::PushNode) {
            return ERROR_INVALID_HANDLE;
        }
        let ch = self.objects[oi].channels;
        if ch < 1 {
            return ERROR_UNKNOWN;
        }
        if length % ch != 0 {
            return ERROR_RANGE;
        }
        if (length / ch) as u64 > FRAMES_MAX || self.objects[oi].frames > FRAMES_MAX - (length
            / ch) as u64 {
            return ERROR_RANGE;
        }
        let o = &mut self.objects[oi];
        o.frames = o.frames + (length / ch) as u64;
        proof {
            assert(self@.objects =~= push_feed_spec(old(self)@, h as int, length).1.objects);
            assert forall|j: int| 0 <= j < self@.objects.len() implies (
            #[trigger] self@.objects[j]).wf(self@) by {
                assert(old(self)@.objects[j].wf(old(self)@));
            }
        }
        ERROR_NONE
    }

    /// Spawns a fire-and-forget playback of a buffer at a position in the
    /// environment's world, owned and later disposed of by the engine.
    pub fn environment_play_async(
        &mut self,
        env_h: i32,
        buf_h: i32,
        x: i64,
        y: i64,
        z: i64,
        is_dry: bool,
    ) -> (code: i32)
        requires
            old(self)@.wf(),
        ensures
            (code, final(self)@) == play_async_spec(
                old(self)@,
                env_h as int,
                buf_h as int,
                x,
                y,
                z,
                is_dry,
            ),
            final(self)@.wf(),
    {
        if self.init_count == 0 {
            return ERROR_NOT_INITIALIZED;
        }
        if env_h < 1 || env_h as usize > self.objects.len() {
            return ERROR_INVALID_HANDLE;
        }
        let ei = (env_h - 1) as usize;
        if !self.objects[ei].alive || !object_kind_eq(
            self.objects[ei].kind,
            ObjectKind::EnvironmentNode,
        ) {
            return ERROR_INVALID_HANDLE;
        }
        if buf_h < 1 || buf_h as usize > self.objects.len() {
            return ERROR_INVALID_HANDLE;
        }
        let bi = (buf_h - 1) as usize;
        if !self.objects[bi].alive || !object_kind_eq(self.objects[bi].kind, ObjectKind::Buffer) {
            return ERROR_INVALID_HANDLE;
        }
        if self.objects.len() >= i32::MAX as usize {
            return ERROR_UNKNOWN;
        }
        let extent = self.objects[bi].frames as i64;
        let mut props: Vec<Slot> = Vec::new();
        props.push(
            Slot {
                index: PROP_BUFFER_BUFFER,
                kind: crate::engine::PropKind::PBuffer,
                ival: buf_h as i64,
                v0: 0,
                v1: 0,
                v2: 0,
                v3: 0,
                v4: 0,
                v5: 0,
                min: 0,
                max: i32::MAX as i64,
            },
        );
        props.push(
            Slot {
                index: PROP_BUFFER_POSITION,
                kind: crate::engine::PropKind::PDouble,
                ival: 0,
                v0: 0,
                v1: 0,
                v2: 0,
                v3: 0,
                v4: 0,
                v5: 0,
                min: 0,
                max: extent,
            },
        );
        props.push(
            Slot {
                index: PROP_BUFFER_RATE,
                kind: crate::engine::PropKind::PDouble,
                ival: SCALE,
                v0: 0,
                v1: 0,
                v2: 0,
                v3: 0,
                v4: 0,
                v5: 0,
                min: 0,
                max: RATE_MAX,
            },
        );
        props.push(
            Slot {
                index: crate::create::PROP_AUTO_SPATIAL_POSITION,
                kind: crate::engine::PropKind::PFloat3,
                ival: 0,
                v0: x,
                v1: y,
                v2: z,
                v3: 0,
                v4: 0,
                v5: 0,
                min: 0,
                max: 0,
            },
        );
        proof {
            assert(props@ =~= auto_source_props(buf_h as i64, extent, x, y, z));
        }
        let sv = self.objects[ei].server;
        let o = crate::engine::EngineObject {
            kind: ObjectKind::AutoSource,
            alive: true,
            ext_refs: 0,
            first_access: true,
            server: sv,
            props,
            edges: Vec::new(),
            sample_rate: 0,
            block_size: 0,
            has_output_device: false,
            frames: 0,
            channels: 0,
            dry: is_dry,
            pull_cb: None,
            low_cb: None,
            underrun_cb: None,
        };
        proof {
            lemma_wf_after_push_object(self@, o@);
        }
        let h = (self.objects.len() + 1) as i32;
        self.objects.push(o);
        let ghost e1 = self@;
        proof {
            assert(e1.objects =~= create_spec(
                old(self)@,
                ERROR_NONE,
                play_async_obj(old(self)@, env_h as int, buf_h as int, x, y, z, is_dry),
            ).1.objects);
            lemma_wf_after_edge_push(
                e1,
                h as int,
                Edge { output: 0, dest: env_h, input: 0, to_input: true },
            );
        }
        let ho = &mut self.objects[(h - 1) as usize];
        ho.edges.push(Edge { output: 0, dest: env_h, input: 0, to_input: true });
        proof {
            assert(self@.objects[h - 1].edges =~= seq![
                Edge { output: 0, dest: env_h, input: 0, to_input: true },
            ]);
            assert(self@.objects =~= play_async_spec(
                old(self)@,
                env_h as int,
                buf_h as int,
                x,
                y,
                z,
                is_dry,
            ).1.objects);
        }
        ERROR_NONE
    }
}

/// A clamped slot write changes nothing but the one value, which lands
/// inside its slot's declared range.
pub proof fn lemma_set_slot_clamped_props(props: Seq<Slot>, index: i32, v: i64)
    ensures
        set_slot_clamped(props, index, v).len() == props.len(),
        forall|k: int| 0 <= k < props.len() ==> {
            let r = #[trigger] set_slot_clamped(props, index, v)[k];
            r.index == props[k].index && r.kind == props[k].kind && r.min == props[k].min && r.max
                == props[k].max && (props[k].wf() ==> r.wf())
        },
{
    if find_slot(props, index) is Some {
        lemma_find_slot_sound(props, index, 0);
    }
}

/// One processing block keeps the engine well formed.
pub proof fn lemma_process_preserves_wf(e: EngineV, sh: int)
    requires
        e.wf(),
    ensures
        process_spec(e, sh).wf(),
{
    let e2 = process_spec(e, sh);
    assert forall|i: int| 0 <= i < e2.objects.len() implies (#[trigger] e2.objects[i]).wf(e2) by {
        let o = e.objects[i];
        let o2 = e2.objects[i];
        assert(o.wf(e));
        assert(o2 == step_obj_full(e, i + 1, sh).0);
        if o.alive && o.server as int == sh && is_active(e, i + 1, sh) && (o.kind
            == ObjectKind::BufferNode || o.kind == ObjectKind::AutoSource) {
            let len = playback_len(e, o);
            if len >= 1 {
                lemma_set_slot_clamped_props(
                    o.props,
                    PROP_BUFFER_POSITION,
                    advance_playback_pos(e, i + 1, sh),
                );
                let props2 = set_slot_clamped(
                    o.props,
                    PROP_BUFFER_POSITION,
                    advance_playback_pos(e, i + 1, sh),
                );
                lemma_set_slot_clamped_props(
                    props2,
                    PROP_BUFFER_ENDED_COUNT,
                    advance_playback_ended(e, i + 1, sh),
                );
            }
        }
        assert(o2.slots_wf());
        assert(o2.rate_slots_wf());
        assert(o2.threshold_slots_wf());
        assert(o2.kind == o.kind);
        assert(o2.edges.len() <= o.edges.len());
        assert forall|k: int| 0 <= k < o2.edges.len() implies e2.is_alive(
            (#[trigger] o2.edges[k]).dest as int,
        ) && e2.obj(o2.edges[k].dest as int).kind != ObjectKind::AutoSource by {
            assert(o2.edges[k] == o.edges[k]);
            let d = o.edges[k].dest as int;
            assert(e.is_alive(d));
            assert(e.obj(d).kind != ObjectKind::AutoSource);
            assert(e2.objects[d - 1] == step_obj_full(e, d, sh).0);
            assert(e2.objects[d - 1].kind == e.objects[d - 1].kind);
            assert(e2.objects[d - 1].alive);
        }
    }
}

/// The position value one block of playback writes (before its clamp into
/// the slot's range).
pub open spec fn advance_playback_pos(e: EngineV, h: int, sh: int) -> i64 {
    let o = e.obj(h);
    let pos = clamp64(slot_val_or(o.props, PROP_BUFFER_POSITION, 0), 0, SCALAR_MAX);
    let rate = clamp64(slot_val_or(o.props, PROP_BUFFER_RATE, SCALE), 0, RATE_MAX);
    let looping = slot_val_or(o.props, PROP_BUFFER_LOOPING, 0) != 0;
    advance_values(
        pos as int,
        rate as int,
        playback_len(e, o),
        e.obj(sh).block_size as int,
        looping,
    ).0 as i64
}

/// The ended-count value one block of playback writes (before its clamp
/// into the slot's range).
pub open spec fn advance_playback_ended(e: EngineV, h: int, sh: int) -> i64 {
    let o = e.obj(h);
    let pos = clamp64(slot_val_or(o.props, PROP_BUFFER_POSITION, 0), 0, SCALAR_MAX);
    let rate = clamp64(slot_val_or(o.props, PROP_BUFFER_RATE, SCALE), 0, RATE_MAX);
    let looping = slot_val_or(o.props, PROP_BUFFER_LOOPING, 0) != 0;
    let ended = clamp64(slot_val_or(o.props, PROP_BUFFER_ENDED_COUNT, 0), 0, SCALAR_MAX);
    (ended + advance_values(
        pos as int,
        rate as int,
        playback_len(e, o),
        e.obj(sh).block_size as int,
        looping,
    ).1) as i64
}

/// The slot table with the named slot's value replaced, clamped into the
/// slot's own declared range.
fn set_slot_clamped_exec(props: &mut Vec<Slot>, index: i32, v: i64)
    ensures
        final(props)@ == set_slot_clamped(old(props)@, index, v),
{
    match Engine::find_slot_exec(props, index) {
        Option::None => {},
        Option::Some(i) => {
            proof {
                lemma_find_slot_sound(props@, index, 0);
            }
            let s = props[i];
            let p = &mut props[i];
            *p = Slot { ival: clamp64_exec(v, s.min, s.max), ..s };
            proof {
                assert(props@ =~= set_slot_clamped(old(props)@, index, v));
            }
        },
    }
}

impl Engine {
    /// The extent of the buffer the object at `oi` references, in frames.
    fn playback_len_exec(&self, oi: usize) -> (r: i64)
        requires
            self@.wf(),
            oi < self.objects.len(),
        ensures
            r as int == playback_len(self@, self@.objects[oi as int]),
            0 <= r <= FRAMES_MAX,
    {
        let b = crate::create::slot_val_or_exec(&self.objects[oi].props, PROP_BUFFER_BUFFER, 0);
        if b >= 1 && b <= self.objects.len() as i64 {
            let bi = (b as usize) - 1;
            if self.objects[bi].alive && object_kind_eq(self.objects[bi].kind, ObjectKind::Buffer) {
                proof {
                    assert(self@.objects[bi as int].wf(self@));
                }
                return self.objects[bi].frames as i64;
            }
        }
        0
    }

    /// Runs one processing block of the given server: every playing object
    /// of that server advances by one block, and the callback demands this
    /// raised come back in handle order for the application to dispatch.
    pub fn process_block(&mut self, sh: i32) -> (r: Result<Vec<EngineEvent>, i32>)
        requires
            old(self)@.wf(),
        ensures
            process_block_spec(old(self)@, sh as int).0 matches Err(c) ==> (r matches Err(c2)
                && c2 == c) && final(self)@ == old(self)@,
            process_block_spec(old(self)@, sh as int).0 matches Ok(evs) ==> (r matches Ok(v)
                && v@ == evs) && final(self)@ == process_block_spec(old(self)@, sh as int).1,
            final(self)@.wf(),
    {
        if self.init_count == 0 {
            return Err(ERROR_NOT_INITIALIZED);
        }
        if sh < 1 || sh as usize > self.objects.len() {
            return Err(ERROR_INVALID_HANDLE);
        }
        let si = (sh - 1) as usize;
        if !self.objects[si].alive || !object_kind_eq(self.objects[si].kind, ObjectKind::Server) {
            return Err(ERROR_INVALID_HANDLE);
        }
        let ghost e0 = self@;
        proof {
            lemma_process_preserves_wf(e0, sh as int);
        }
        let n = self.objects.len();
        let block_u32 = self.objects[si].block_size;
        let mut act: Vec<bool> = Vec::new();
        let mut lens: Vec<i64> = Vec::new();
        let mut i: usize = 0;
        while i < n
            invariant
                self@ == e0,
                e0.wf(),
                n == self.objects.len(),
                n <= i32::MAX,
                1 <= sh,
                act@.len() == i,
                lens@.len() == i,
                0 <= i <= n,
                forall|j: int| 0 <= j < i ==> act@[j] == (e0.objects[j].alive
                    && e0.objects[j].server as int == sh as int && is_active(e0, j + 1, sh as int)),
                forall|j: int| 0 <= j < i ==> (#[trigger] lens@[j]) as int == playback_len(
                    e0,
                    e0.objects[j],
                ) && 0 <= lens@[j] <= FRAMES_MAX,
            decreases n - i,
        {
            let alive = self.objects[i].alive;
            let srv_ok = self.objects[i].server == sh;
            let mut a = false;
            if alive && srv_ok {
                let s = crate::create::slot_val_or_exec(
                    &self.objects[i].props,
                    PROP_NODE_STATE,
                    1,
                );
                if s == 0 {
                    a = true;
                } else if s == 1 {
                    a = self.reaches_exec((i + 1) as i32, sh, n as u32);
                }
            }
            act.push(a);
            lens.push(self.playback_len_exec(i));
            i = i + 1;
        }
        let mut ev: Vec<EngineEvent> = Vec::new();
        let mut i: usize = 0;
        while i < n
            invariant
                e0.wf(),
                process_spec(e0, sh as int).wf(),
                n == e0.objects.len(),
                n == self.objects.len(),
                n <= i32::MAX,
                1 <= sh,
                si == sh - 1,
                (si as int) < n,
                e0.is_alive(sh as int),
                e0.obj(sh as int).kind == ObjectKind::Server,
                block_u32 == e0.obj(sh as int).block_size,
                self@.init_count == e0.init_count,
                act@.len() == n,
                lens@.len() == n,
                forall|j: int| 0 <= j < n ==> act@[j] == (e0.objects[j].alive
                    && e0.objects[j].server as int == sh as int && is_active(e0, j + 1, sh as int)),
                forall|j: int| 0 <= j < n ==> (#[trigger] lens@[j]) as int == playback_len(
                    e0,
                    e0.objects[j],
                ) && 0 <= lens@[j] <= FRAMES_MAX,
                0 <= i <= n,
                forall|j: int| 0 <= j < i ==> self@.objects[j] == step_obj_full(
                    e0,
                    j + 1,
                    sh as int,
                ).0,
                forall|j: int| i <= j < n ==> self@.objects[j] == e0.objects[j],
                ev@ == events_upto(e0, sh as int, i as int),
            decreases n - i,
        {
            let ghost stepped = step_obj_full(e0, i + 1, sh as int);
            let ghost pre = self@;
            if act[i] {
                let kind = self.objects[i].kind;
                if object_kind_eq(kind, ObjectKind::BufferNode) || object_kind_eq(
                    kind,
                    ObjectKind::AutoSource,
                ) {
                    let len = lens[i];
                    if len >= 1 {
                        proof {
                            assert(self@.objects[i as int].wf(self@)) by {
                                assert(e0.objects[i as int].wf(e0));
                            }
                        }
                        let pos = clamp64_exec(
                            crate::create::slot_val_or_exec(
                                &self.objects[i].props,
                                PROP_BUFFER_POSITION,
                                0,
                            ),
                            0,
                            SCALAR_MAX,
                        );
                        let rate = clamp64_exec(
                            crate::create::slot_val_or_exec(
                                &self.objects[i].props,
                                PROP_BUFFER_RATE,
                                SCALE,
                            ),
                            0,
                            RATE_MAX,
                        );
                        let looping = crate::create::slot_val_or_exec(
                            &self.objects[i].props,
                            PROP_BUFFER_LOOPING,
                            0,
                        ) != 0;
                        let ended = clamp64_exec(
                            crate::create::slot_val_or_exec(
                                &self.objects[i].props,
                                PROP_BUFFER_ENDED_COUNT,
                                0,
                            ),
                            0,
                            SCALAR_MAX,
                        );
                        let p = advance_values_exec(pos, rate, len, block_u32 as i64, looping);
                        let o = &mut self.objects[i];
                        set_slot_clamped_exec(&mut o.props, PROP_BUFFER_POSITION, p.0);
                        set_slot_clamped_exec(&mut o.props, PROP_BUFFER_ENDED_COUNT, ended + p.1);
                        if object_kind_eq(kind, ObjectKind::AutoSource) && p.0 >= len {
                            o.alive = false;
                            o.ext_refs = 0;
                            o.edges = Vec::new();
                            proof {
                                assert(self@.objects[i as int].edges =~= Seq::<Edge>::empty());
                            }
                        }
                        proof {
                            assert(self@.objects[i as int] == stepped.0);
                        }
                    } else {
                        proof {
                            assert(self@.objects[i as int] == stepped.0);
                        }
                    }
                } else if object_kind_eq(kind, ObjectKind::PushNode) {
                    proof {
                        assert(self@.objects[i as int].wf(self@)) by {
                            assert(e0.objects[i as int].wf(e0));
                        }
                    }
                    let q = self.objects[i].frames;
                    let block64 = block_u32 as u64;
                    let q2: u64 = if q >= block64 {
                        q - block64
                    } else {
                        0
                    };
                    let thr = clamp64_exec(
                        crate::create::slot_val_or_exec(
                            &self.objects[i].props,
                            PROP_PUSH_THRESHOLD,
                            30,
                        ),
                        0,
                        THRESHOLD_MAX,
                    );
                    let srate: i64 = if self.objects[i].sample_rate >= 1 {
                        self.objects[i].sample_rate as i64
                    } else {
                        1
                    };
                    proof {
                        assert(thr * srate <= THRESHOLD_MAX * (u32::MAX as int)) by (
                        nonlinear_arith)
                            requires
                                0 <= thr <= THRESHOLD_MAX,
                                1 <= srate <= u32::MAX,
                        ;
                    }
                    match self.objects[i].low_cb {
                        Option::Some(t) => {
                            if (q2 as i64) * SCALE < thr * srate {
                                ev.push(EngineEvent::Low { token: t });
                            }
                        },
                        Option::None => {},
                    }
                    match self.objects[i].underrun_cb {
                        Option::Some(t) => {
                            if q > 0 && q2 == 0 {
                                ev.push(EngineEvent::Underrun { token: t });
                            }
                        },
                        Option::None => {},
                    }
                    let o = &mut self.objects[i];
                    o.frames = q2;
                    proof {
                        assert(self@.objects[i as int] == stepped.0);
                        assert(ev@ =~= events_upto(e0, sh as int, i as int) + stepped.1);
                    }
                } else if object_kind_eq(kind, ObjectKind::PullNode) {
                    match self.objects[i].pull_cb {
                        Option::Some(t) => {
                            ev.push(
                                EngineEvent::Pull {
                                    token: t,
                                    frames: block_u32,
                                    channels: self.objects[i].channels,
                                },
                            );
                        },
                        Option::None => {},
                    }
                    proof {
                        assert(self@.objects[i as int] == stepped.0);
                        assert(ev@ =~= events_upto(e0, sh as int, i as int) + stepped.1);
                    }
                } else {
                    proof {
                        assert(self@.objects[i as int] == stepped.0);
                    }
                }
            } else {
                proof {
                    assert(self@.objects[i as int] == stepped.0);
                }
            }
            proof {
                assert(ev@ =~= events_upto(e0, sh as int, i + 1));
                assert(self@.objects =~= pre.objects.update(i as int, self@.objects[i as int]));
                assert(self@.objects[i as int] == step_obj_full(e0, i as int + 1, sh as int).0);
                assert(forall|j: int| 0 <= j < i ==> self@.objects[j] == step_obj_full(
                    e0,
                    j + 1,
                    sh as int,
                ).0);
                assert(forall|j: int| i + 1 <= j < n ==> self@.objects[j] == e0.objects[j]);
            }
            i = i + 1;
        }
        proof {
            assert(self@.objects =~= process_spec(e0, sh as int).objects);
        }
        Ok(ev)
    }
}

/// The hidden object a fire-and-forget playback installs.
pub open spec fn play_async_obj(
    e: EngineV,
    env_h: int,
    buf_h: int,
    x: i64,
    y: i64,
    z: i64,
    is_dry: bool,
) -> ObjectV {
    ObjectV {
        ext_refs: 0,
        dry: is_dry,
        ..new_object(
            ObjectKind::AutoSource,
            if e.valid_handle(env_h) {
                e.obj(env_h).server
            } else {
                0
            },
            auto_source_props(
                buf_h as i64,
                if e.valid_handle(buf_h) {
                    e.obj(buf_h).frames as i64
                } else {
                    0
                },
                x,
                y,
                z,
            ),
        )
    }
}

} // verus!
