//! Creation of engine objects: the server, buffers, and every node kind,
//! each with its closed table of default property slots. A freshly created
//! object carries one reference (the creation reference) and an uncleared
//! first-access flag, so the wrapper can adopt that reference instead of
//! taking another.

use vstd::prelude::*;

verus! {

use crate::engine::Engine;
use crate::engine::EngineObject;
use crate::engine::EngineV;
use crate::engine::ObjectV;
use crate::engine::ObjectKind;
use crate::engine::PropKind;
use crate::engine::Slot;
use crate::engine::SCALE;
use crate::engine::SCALAR_MAX;
use crate::engine::FRAMES_MAX;
use crate::engine::RATE_MAX;
use crate::engine::THRESHOLD_MAX;
use crate::engine::ERROR_NONE;
use crate::engine::ERROR_UNKNOWN;
use crate::engine::ERROR_NOT_INITIALIZED;
use crate::engine::ERROR_INVALID_HANDLE;
use crate::engine::ERROR_RANGE;
use crate::engine::PROP_NODE_STATE;
use crate::engine::PROP_NODE_ADD;
use crate::engine::PROP_NODE_MUL;
use crate::engine::PROP_BUFFER_BUFFER;
use crate::engine::PROP_BUFFER_POSITION;
use crate::engine::PROP_BUFFER_RATE;
use crate::engine::PROP_BUFFER_LOOPING;
use crate::engine::PROP_BUFFER_ENDED_COUNT;
use crate::engine::PROP_FILE_STREAMER_ENDED;
use crate::engine::PROP_FILE_STREAMER_LOOPING;
use crate::engine::PROP_FILE_STREAMER_POSITION;
use crate::engine::PROP_PANNER_AZIMUTH;
use crate::engine::PROP_PANNER_ELEVATION;
use crate::engine::PROP_PANNER_SHOULD_CROSSFADE;
use crate::engine::PROP_ENVIRONMENT_REVERB_DISTANCE;
use crate::engine::PROP_ENVIRONMENT_DEFAULT_SIZE;
use crate::engine::PROP_ENVIRONMENT_DISTANCE_MODEL;
use crate::engine::PROP_ENVIRONMENT_MAX_DISTANCE;
use crate::engine::PROP_ENVIRONMENT_MAX_REVERB_LEVEL;
use crate::engine::PROP_ENVIRONMENT_MIN_REVERB_LEVEL;
use crate::engine::PROP_ENVIRONMENT_ORIENTATION;
use crate::engine::PROP_ENVIRONMENT_OUTPUT_CHANNELS;
use crate::engine::PROP_ENVIRONMENT_PANNING_STRATEGY;
use crate::engine::PROP_ENVIRONMENT_POSITION;
use crate::engine::PROP_SOURCE_CONTROL_DISTANCE_MODEL;
use crate::engine::PROP_SOURCE_CONTROL_PANNING;
use crate::engine::PROP_SOURCE_CONTROL_REVERB;
use crate::engine::PROP_SOURCE_DISTANCE_MODEL;
use crate::engine::PROP_SOURCE_HEAD_RELATIVE;
use crate::engine::PROP_SOURCE_MAX_DISTANCE;
use crate::engine::PROP_SOURCE_MAX_REVERB_LEVEL;
use crate::engine::PROP_SOURCE_MIN_REVERB_LEVEL;
use crate::engine::PROP_SOURCE_OCCLUSION;
use crate::engine::PROP_SOURCE_PANNING_STRATEGY;
use crate::engine::PROP_SOURCE_POSITION;
use crate::engine::PROP_SOURCE_REVERB_DISTANCE;
use crate::engine::PROP_SOURCE_SIZE;
use crate::engine::PROP_PUSH_THRESHOLD;
use crate::props::find_slot;
use crate::props::lemma_find_slot_sound;

/// The vector-lane slot index a spawned playback stores its world position
/// under.
pub const PROP_AUTO_SPATIAL_POSITION: i32 = 6;

/// A scalar slot with cleared vector lanes.
pub open spec fn scalar_slot(index: i32, kind: PropKind, ival: i64, min: i64, max: i64) -> Slot {
    Slot { index, kind, ival, v0: 0, v1: 0, v2: 0, v3: 0, v4: 0, v5: 0, min, max }
}

/// A three-vector slot.
pub open spec fn vec3_slot(index: i32, a: i64, b: i64, c: i64) -> Slot {
    Slot {
        index,
        kind: PropKind::PFloat3,
        ival: 0,
        v0: a,
        v1: b,
        v2: c,
        v3: 0,
        v4: 0,
        v5: 0,
        min: 0,
        max: 0,
    }
}

/// A six-vector slot.
pub open spec fn vec6_slot(index: i32, a: i64, b: i64, c: i64, d: i64, f: i64, g: i64) -> Slot {
    Slot {
        index,
        kind: PropKind::PFloat6,
        ival: 0,
        v0: a,
        v1: b,
        v2: c,
        v3: d,
        v4: f,
        v5: g,
        min: 0,
        max: 0,
    }
}

/// A buffer-reference slot, initially holding no buffer.
pub open spec fn buffer_slot(index: i32) -> Slot {
    scalar_slot(index, PropKind::PBuffer, 0, 0, i32::MAX as i64)
}

/// An integer slot spanning the whole 32-bit primitive; booleans and
/// enumerations live in such slots, validated by their typed views rather
/// than by the engine.
pub open spec fn wide_int_slot(index: i32, ival: i64) -> Slot {
    scalar_slot(index, PropKind::PInt, ival, i32::MIN as i64, i32::MAX as i64)
}

/// The value of the slot with the given index, or a fallback where the
/// object has no such slot.
pub open spec fn slot_val_or(props: Seq<Slot>, index: i32, dflt: i64) -> i64 {
    match find_slot(props, index) {
        Option::None => dflt,
        Option::Some(i) => props[i].ival,
    }
}

/// The three standard slots every node starts with: state (playing), add
/// (zero), and mul (one).
pub open spec fn std_node_props() -> Seq<Slot> {
    seq![
        wide_int_slot(PROP_NODE_STATE, 1),
        scalar_slot(PROP_NODE_ADD, PropKind::PFloat, 0, (-SCALAR_MAX) as i64, SCALAR_MAX),
        scalar_slot(PROP_NODE_MUL, PropKind::PFloat, SCALE, (-SCALAR_MAX) as i64, SCALAR_MAX),
    ]
}

/// The slot table of a buffer-playing node.
pub open spec fn buffer_node_props() -> Seq<Slot> {
    std_node_props() + seq![
        buffer_slot(PROP_BUFFER_BUFFER),
        scalar_slot(PROP_BUFFER_POSITION, PropKind::PDouble, 0, 0, 0),
        scalar_slot(PROP_BUFFER_RATE, PropKind::PDouble, SCALE, 0, RATE_MAX),
        wide_int_slot(PROP_BUFFER_LOOPING, 0),
        scalar_slot(PROP_BUFFER_ENDED_COUNT, PropKind::PInt, 0, 0, i32::MAX as i64),
    ]
}

/// The slot table of a file-streaming node.
pub open spec fn file_streamer_props() -> Seq<Slot> {
    std_node_props() + seq![
        wide_int_slot(PROP_FILE_STREAMER_ENDED, 0),
        wide_int_slot(PROP_FILE_STREAMER_LOOPING, 0),
        scalar_slot(PROP_FILE_STREAMER_POSITION, PropKind::PDouble, 0, 0, 0),
    ]
}

/// The slot table of an HRTF panner node.
pub open spec fn hrtf_props() -> Seq<Slot> {
    std_node_props() + seq![
        scalar_slot(PROP_PANNER_AZIMUTH, PropKind::PFloat, 0, (-SCALAR_MAX) as i64, SCALAR_MAX),
        scalar_slot(PROP_PANNER_ELEVATION, PropKind::PFloat, 0, (-90 * SCALE) as i64, (90 * SCALE) as i64),
        wide_int_slot(PROP_PANNER_SHOULD_CROSSFADE, 1),
    ]
}

/// The slot table of an environment node. The enumerated defaults are the
/// linear distance model and stereo panning.
pub open spec fn environment_props() -> Seq<Slot> {
    std_node_props() + seq![
        scalar_slot(PROP_ENVIRONMENT_REVERB_DISTANCE, PropKind::PFloat, (75 * SCALE) as i64, 0, SCALAR_MAX),
        scalar_slot(PROP_ENVIRONMENT_DEFAULT_SIZE, PropKind::PFloat, 0, 0, SCALAR_MAX),
        wide_int_slot(PROP_ENVIRONMENT_DISTANCE_MODEL, 2),
        scalar_slot(PROP_ENVIRONMENT_MAX_DISTANCE, PropKind::PFloat, (150 * SCALE) as i64, 0, SCALAR_MAX),
        scalar_slot(
            PROP_ENVIRONMENT_MAX_REVERB_LEVEL,
            PropKind::PFloat,
            600,
            0,
            SCALE,
        ),
        scalar_slot(PROP_ENVIRONMENT_MIN_REVERB_LEVEL, PropKind::PFloat, 150, 0, SCALE),
        vec6_slot(PROP_ENVIRONMENT_ORIENTATION, 0, 0, (-SCALE) as i64, 0, SCALE, 0),
        scalar_slot(PROP_ENVIRONMENT_OUTPUT_CHANNELS, PropKind::PInt, 2, 0, 8),
        wide_int_slot(PROP_ENVIRONMENT_PANNING_STRATEGY, 1),
        vec3_slot(PROP_ENVIRONMENT_POSITION, 0, 0, 0),
    ]
}

/// The slot table of a source node: its spatial defaults are copied from
/// the environment it is created against.
pub open spec fn source_props(env: ObjectV) -> Seq<Slot> {
    std_node_props() + seq![
        wide_int_slot(PROP_SOURCE_CONTROL_DISTANCE_MODEL, 0),
        wide_int_slot(PROP_SOURCE_CONTROL_PANNING, 0),
        wide_int_slot(PROP_SOURCE_CONTROL_REVERB, 0),
        wide_int_slot(
            PROP_SOURCE_DISTANCE_MODEL,
            clamp_i32(slot_val_or(env.props, PROP_ENVIRONMENT_DISTANCE_MODEL, 2)),
        ),
        wide_int_slot(PROP_SOURCE_HEAD_RELATIVE, 0),
        scalar_slot(
            PROP_SOURCE_MAX_DISTANCE,
            PropKind::PFloat,
            clamp_nonneg(slot_val_or(env.props, PROP_ENVIRONMENT_MAX_DISTANCE, (150 * SCALE) as i64)),
            0,
            SCALAR_MAX,
        ),
        scalar_slot(
            PROP_SOURCE_MAX_REVERB_LEVEL,
            PropKind::PFloat,
            clamp_unit(slot_val_or(env.props, PROP_ENVIRONMENT_MAX_REVERB_LEVEL, 600)),
            0,
            SCALE,
        ),
        scalar_slot(
            PROP_SOURCE_MIN_REVERB_LEVEL,
            PropKind::PFloat,
            clamp_unit(slot_val_or(env.props, PROP_ENVIRONMENT_MIN_REVERB_LEVEL, 150)),
            0,
            SCALE,
        ),
        scalar_slot(PROP_SOURCE_OCCLUSION, PropKind::PFloat, 0, 0, SCALE),
        wide_int_slot(
            PROP_SOURCE_PANNING_STRATEGY,
            clamp_i32(slot_val_or(env.props, PROP_ENVIRONMENT_PANNING_STRATEGY, 1)),
        ),
        vec3_slot(PROP_SOURCE_POSITION, 0, 0, 0),
        scalar_slot(
            PROP_SOURCE_REVERB_DISTANCE,
            PropKind::PFloat,
            clamp_nonneg(slot_val_or(env.props, PROP_ENVIRONMENT_REVERB_DISTANCE, (75 * SCALE) as i64)),
            0,
            SCALAR_MAX,
        ),
        scalar_slot(
            PROP_SOURCE_SIZE,
            PropKind::PFloat,
            clamp_nonneg(slot_val_or(env.props, PROP_ENVIRONMENT_DEFAULT_SIZE, 0)),
            0,
            SCALAR_MAX,
        ),
    ]
}

/// The slot table of a push node.
pub open spec fn push_props() -> Seq<Slot> {
    std_node_props() + seq![
        scalar_slot(PROP_PUSH_THRESHOLD, PropKind::PFloat, 30, 0, THRESHOLD_MAX),
    ]
}

/// The slot table of a spawned fire-and-forget playback.
pub open spec fn auto_source_props(bh: i64, extent: i64, x: i64, y: i64, z: i64) -> Seq<Slot> {
    seq![
        (Slot { ival: bh, ..buffer_slot(PROP_BUFFER_BUFFER) }),
        scalar_slot(PROP_BUFFER_POSITION, PropKind::PDouble, 0, 0, extent),
        scalar_slot(PROP_BUFFER_RATE, PropKind::PDouble, SCALE, 0, RATE_MAX),
        vec3_slot(PROP_AUTO_SPATIAL_POSITION, x, y, z),
    ]
}

/// Clamped into the 32-bit primitive.
pub open spec fn clamp_i32(v: i64) -> i64 {
    if v < i32::MIN as i64 {
        i32::MIN as i64
    } else if v > i32::MAX as i64 {
        i32::MAX as i64
    } else {
        v
    }
}

/// Clamped into the nonnegative scalar range.
pub open spec fn clamp_nonneg(v: i64) -> i64 {
    if v < 0 {
        0
    } else if v > SCALAR_MAX {
        SCALAR_MAX
    } else {
        v
    }
}

/// Clamped into the unit interval (thousandths).
pub open spec fn clamp_unit(v: i64) -> i64 {
    if v < 0 {
        0
    } else if v > SCALE {
        SCALE
    } else {
        v
    }
}

/// A just-created object: alive, carrying its creation reference and an
/// uncleared first-access flag, owning no connections.
pub open spec fn new_object(kind: ObjectKind, server: i32, props: Seq<Slot>) -> ObjectV {
    ObjectV {
        kind,
        alive: true,
        ext_refs: 1,
        first_access: true,
        server,
        props,
        edges: Seq::empty(),
        sample_rate: 0,
        block_size: 0,
        has_output_device: false,
        frames: 0,
        channels: 0,
        dry: false,
        pull_cb: None,
        low_cb: None,
        underrun_cb: None,
    }
}

/// Appending a well-formed object keeps the engine well formed and leaves
/// every prior entry untouched.
pub proof fn lemma_wf_after_push_object(e: EngineV, o: ObjectV)
    requires
        e.wf(),
        e.objects.len() < i32::MAX,
        o.slots_wf(),
        o.edges.len() == 0,
        o.rate_slots_wf(),
        o.threshold_slots_wf(),
        o.frames <= FRAMES_MAX,
        o.kind == ObjectKind::Server ==> o.sample_rate >= 1 && o.block_size >= 4 && o.block_size
            % 4 == 0,
        o.alive,
    ensures
        (EngineV { objects: e.objects.push(o), ..e }).wf(),
{
    let e2 = EngineV { objects: e.objects.push(o), ..e };
    assert forall|i: int| 0 <= i < e2.objects.len() implies (#[trigger] e2.objects[i]).wf(e2) by {
        if i < e.objects.len() {
            assert(e.objects[i].wf(e));
            assert(e2.objects[i] == e.objects[i]);
            assert forall|k: int| 0 <= k < e2.objects[i].edges.len() implies e2.is_alive(
                (#[trigger] e2.objects[i].edges[k]).dest as int,
            ) && e2.obj(e2.objects[i].edges[k].dest as int).kind != ObjectKind::AutoSource by {
                assert(e.is_alive(e.objects[i].edges[k].dest as int));
                assert(e.obj(e.objects[i].edges[k].dest as int).kind != ObjectKind::AutoSource);
            }
        } else {
            assert(e2.objects[i] == o);
        }
    }
}

/// What creating any object does, given its entry error (0 for none) and
/// the object to install: the table grows by one and the new handle comes
/// back.
pub open spec fn create_spec(e: EngineV, entry_code: i32, o: ObjectV) -> (Result<int, i32>, EngineV) {
    if e.init_count == 0 {
        (Err(ERROR_NOT_INITIALIZED), e)
    } else if entry_code != ERROR_NONE {
        (Err(entry_code), e)
    } else if e.objects.len() >= i32::MAX {
        (Err(ERROR_UNKNOWN), e)
    } else {
        (Ok(e.objects.len() as int + 1), EngineV { objects: e.objects.push(o), ..e })
    }
}

/// The server object a construction call installs.
pub open spec fn server_object(sr: u32, block: u32) -> ObjectV {
    ObjectV {
        sample_rate: sr,
        block_size: block,
        ..new_object(ObjectKind::Server, 0, Seq::empty())
    }
}

/// What constructing a server does: the sampling rate must be positive and
/// the block size a positive multiple of four.
pub open spec fn create_server_spec(e: EngineV, sr: u32, block: u32) -> (Result<int, i32>, EngineV) {
    create_spec(
        e,
        if sr < 1 || block < 4 || block % 4 != 0 {
            ERROR_RANGE
        } else {
            ERROR_NONE
        },
        server_object(sr, block),
    )
}

/// The entry test shared by every creation that runs against a server:
/// the handle must name a live server.
pub open spec fn server_check_spec(e: EngineV, server_h: int) -> i32 {
    if e.is_alive(server_h) && e.obj(server_h).kind == ObjectKind::Server {
        ERROR_NONE
    } else {
        ERROR_INVALID_HANDLE
    }
}

/// What creating a buffer does.
pub open spec fn create_buffer_spec(e: EngineV, server_h: int) -> (Result<int, i32>, EngineV) {
    create_spec(
        e,
        server_check_spec(e, server_h),
        new_object(ObjectKind::Buffer, server_h as i32, Seq::empty()),
    )
}

/// What creating a buffer-playing node does.
pub open spec fn create_buffer_node_spec(e: EngineV, server_h: int) -> (Result<int, i32>, EngineV) {
    create_spec(
        e,
        server_check_spec(e, server_h),
        new_object(ObjectKind::BufferNode, server_h as i32, buffer_node_props()),
    )
}

/// What creating a gain node does; the channel count must be between one
/// and two hundred fifty-six.
pub open spec fn create_gain_node_spec(e: EngineV, server_h: int, channels: i32) -> (
    Result<int, i32>,
    EngineV,
) {
    create_spec(
        e,
        if server_check_spec(e, server_h) != ERROR_NONE {
            server_check_spec(e, server_h)
        } else if channels < 1 || channels > 256 {
            ERROR_RANGE
        } else {
            ERROR_NONE
        },
        ObjectV {
            channels: channels as u32,
            ..new_object(ObjectKind::GainNode, server_h as i32, std_node_props())
        },
    )
}

/// What creating an environment node does.
pub open spec fn create_environment_node_spec(e: EngineV, server_h: int) -> (
    Result<int, i32>,
    EngineV,
) {
    create_spec(
        e,
        server_check_spec(e, server_h),
        new_object(ObjectKind::EnvironmentNode, server_h as i32, environment_props()),
    )
}

/// What creating a source node against an environment does: the source's
/// spatial defaults are copied from the environment.
pub open spec fn create_source_node_spec(e: EngineV, server_h: int, env_h: int) -> (
    Result<int, i32>,
    EngineV,
) {
    create_spec(
        e,
        if server_check_spec(e, server_h) != ERROR_NONE {
            server_check_spec(e, server_h)
        } else if e.is_alive(env_h) && e.obj(env_h).kind == ObjectKind::EnvironmentNode {
            ERROR_NONE
        } else {
            ERROR_INVALID_HANDLE
        },
        new_object(
            ObjectKind::SourceNode,
            server_h as i32,
            if e.valid_handle(env_h) {
                source_props(e.obj(env_h))
            } else {
                source_props(e.obj(1))
            },
        ),
    )
}

/// What creating a file-streaming node does. The stream's extent is the
/// engine decoder's business and stays out of the model, so the position
/// range starts empty.
pub open spec fn create_file_streamer_node_spec(e: EngineV, server_h: int) -> (
    Result<int, i32>,
    EngineV,
) {
    create_spec(
        e,
        server_check_spec(e, server_h),
        new_object(ObjectKind::FileStreamerNode, server_h as i32, file_streamer_props()),
    )
}

/// What creating an HRTF panner node does.
pub open spec fn create_hrtf_node_spec(e: EngineV, server_h: int) -> (Result<int, i32>, EngineV) {
    create_spec(
        e,
        server_check_spec(e, server_h),
        new_object(ObjectKind::HrtfNode, server_h as i32, hrtf_props()),
    )
}

/// What creating a pull node does; the callback sampling rate must be
/// positive and the channel count between one and sixteen.
pub open spec fn create_pull_node_spec(e: EngineV, server_h: int, sr: u32, channels: u32) -> (
    Result<int, i32>,
    EngineV,
) {
    create_spec(
        e,
        if server_check_spec(e, server_h) != ERROR_NONE {
            server_check_spec(e, server_h)
        } else if sr < 1 || channels < 1 || channels > 16 {
            ERROR_RANGE
        } else {
            ERROR_NONE
        },
        ObjectV {
            sample_rate: sr,
            channels: channels,
            ..new_object(ObjectKind::PullNode, server_h as i32, std_node_props())
        },
    )
}

/// What creating a push node does; the feed sampling rate must be positive
/// and the channel count between one and sixteen.
pub open spec fn create_push_node_spec(e: EngineV, server_h: int, sr: u32, channels: u32) -> (
    Result<int, i32>,
    EngineV,
) {
    create_spec(
        e,
        if server_check_spec(e, server_h) != ERROR_NONE {
            server_check_spec(e, server_h)
        } else if sr < 1 || channels < 1 || channels > 16 {
            ERROR_RANGE
        } else {
            ERROR_NONE
        },
        ObjectV {
            sample_rate: sr,
            channels: channels,
            ..new_object(ObjectKind::PushNode, server_h as i32, push_props())
        },
    )
}

impl Engine {
    /// Installs a new object, handing back its handle.
    fn add_object(&mut self, o: EngineObject) -> (h: i32)
        requires
            old(self)@.wf(),
            old(self)@.objects.len() < i32::MAX,
            o@.slots_wf(),
            o@.edges.len() == 0,
            o@.rate_slots_wf(),
            o@.threshold_slots_wf(),
            o@.frames <= FRAMES_MAX,
            o@.kind == ObjectKind::Server ==> o@.sample_rate >= 1 && o@.block_size >= 4
                && o@.block_size % 4 == 0,
            o@.alive,
        ensures
            h == old(self)@.objects.len() + 1,
            final(self)@ == (EngineV {
                objects: old(self)@.objects.push(o@),
                ..old(self)@
            }),
            final(self)@.wf(),
    {
        proof {
            lemma_wf_after_push_object(self@, o@);
        }
        let h = (self.objects.len() + 1) as i32;
        self.objects.push(o);
        proof {
            assert(self@.objects =~= old(self)@.objects.push(o@));
        }
        h
    }

    /// The entry tests every creation call performs first.
    fn creation_checks(&self, server_h: i32) -> (r: i32)
        ensures
            self@.init_count == 0 ==> r == ERROR_NOT_INITIALIZED,
            self@.init_count > 0 ==> r == server_check_spec(self@, server_h as int),
    {
        if self.init_count == 0 {
            return ERROR_NOT_INITIALIZED;
        }
        if server_h < 1 || server_h as usize > self.objects.len() {
            return ERROR_INVALID_HANDLE;
        }
        let so = &self.objects[(server_h - 1) as usize];
        if !so.alive || !crate::props::object_kind_eq(so.kind, ObjectKind::Server) {
            return ERROR_INVALID_HANDLE;
        }
        ERROR_NONE
    }
}

/// A scalar slot with cleared vector lanes.
fn mk_scalar(index: i32, kind: PropKind, ival: i64, min: i64, max: i64) -> (s: Slot)
    ensures
        s == scalar_slot(index, kind, ival, min, max),
{
    Slot { index, kind, ival, v0: 0, v1: 0, v2: 0, v3: 0, v4: 0, v5: 0, min, max }
}

/// A three-vector slot.
fn mk_vec3(index: i32, a: i64, b: i64, c: i64) -> (s: Slot)
    ensures
        s == vec3_slot(index, a, b, c),
{
    Slot {
        index,
        kind: PropKind::PFloat3,
        ival: 0,
        v0: a,
        v1: b,
        v2: c,
        v3: 0,
        v4: 0,
        v5: 0,
        min: 0,
        max: 0,
    }
}

/// A six-vector slot.
fn mk_vec6(index: i32, a: i64, b: i64, c: i64, d: i64, f: i64, g: i64) -> (s: Slot)
    ensures
        s == vec6_slot(index, a, b, c, d, f, g),
{
    Slot {
        index,
        kind: PropKind::PFloat6,
        ival: 0,
        v0: a,
        v1: b,
        v2: c,
        v3: d,
        v4: f,
        v5: g,
        min: 0,
        max: 0,
    }
}

/// An integer slot spanning the whole 32-bit primitive.
fn mk_wide_int(index: i32, ival: i64) -> (s: Slot)
    ensures
        s == wide_int_slot(index, ival),
{
    mk_scalar(index, PropKind::PInt, ival, i32::MIN as i64, i32::MAX as i64)
}

/// The three standard slots every node starts with.
fn build_std_node_props() -> (v: Vec<Slot>)
    ensures
        v@ == std_node_props(),
{
    let mut v: Vec<Slot> = Vec::new();
    v.push(mk_wide_int(PROP_NODE_STATE, 1));
    v.push(mk_scalar(PROP_NODE_ADD, PropKind::PFloat, 0, -SCALAR_MAX, SCALAR_MAX));
    v.push(mk_scalar(PROP_NODE_MUL, PropKind::PFloat, SCALE, -SCALAR_MAX, SCALAR_MAX));
    proof {
        assert(v@ =~= std_node_props());
    }
    v
}

/// A just-created object with the defaults of its kind.
fn blank_object(kind: ObjectKind, server: i32, props: Vec<Slot>) -> (o: EngineObject)
    ensures
        o@ == new_object(kind, server, props@),
{
    EngineObject {
        kind,
        alive: true,
        ext_refs: 1,
        first_access: true,
        server,
        props,
        edges: Vec::new(),
        sample_rate: 0,
        block_size: 0,
        has_output_device: false,
        frames: 0,
        channels: 0,
        dry: false,
        pull_cb: None,
        low_cb: None,
        underrun_cb: None,
    }
}

/// The value of the slot with the given index, or a fallback.
pub(crate) fn slot_val_or_exec(props: &Vec<Slot>, index: i32, dflt: i64) -> (r: i64)
    ensures
        r == slot_val_or(props@, index, dflt),
{
    match Engine::find_slot_exec(props, index) {
        Option::None => dflt,
        Option::Some(i) => {
            proof {
                lemma_find_slot_sound(props@, index, 0);
            }
            props[i].ival
        },
    }
}

/// Clamped into the 32-bit primitive.
fn clamp_i32_exec(v: i64) -> (r: i64)
    ensures
        r == clamp_i32(v),
{
    if v < i32::MIN as i64 {
        i32::MIN as i64
    } else if v > i32::MAX as i64 {
        i32::MAX as i64
    } else {
        v
    }
}

/// Clamped into the nonnegative scalar range.
fn clamp_nonneg_exec(v: i64) -> (r: i64)
    ensures
        r == clamp_nonneg(v),
{
    if v < 0 {
        0
    } else if v > SCALAR_MAX {
        SCALAR_MAX
    } else {
        v
    }
}

/// Clamped into the unit interval (thousandths).
fn clamp_unit_exec(v: i64) -> (r: i64)
    ensures
        r == clamp_unit(v),
{
    if v < 0 {
        0
    } else if v > SCALE {
        SCALE
    } else {
        v
    }
}

impl Engine {
    /// Constructs a server — the top-level object every other object is
    /// created against. The block size must be a positive multiple of four.
    pub fn create_server(&mut self, sampling_rate: u32, block_size: u32) -> (r: Result<i32, i32>)
        requires
            old(self)@.wf(),
        ensures
            result_view(r) == create_server_spec(old(self)@, sampling_rate, block_size).0,
            final(self)@ == create_server_spec(old(self)@, sampling_rate, block_size).1,
            final(self)@.wf(),
    {
        if self.init_count == 0 {
            return Err(ERROR_NOT_INITIALIZED);
        }
        if sampling_rate < 1 || block_size < 4 || block_size % 4 != 0 {
            return Err(ERROR_RANGE);
        }
        if self.objects.len() >= i32::MAX as usize {
            return Err(ERROR_UNKNOWN);
        }
        let mut o = blank_object(ObjectKind::Server, 0, Vec::new());
        o.sample_rate = sampling_rate;
        o.block_size = block_size;
        proof {
            assert(o@ == server_object(sampling_rate, block_size));
            assert(o@.slots_wf());
        }
        let h = self.add_object(o);
        Ok(h)
    }

    /// Creates a buffer against a server.
    pub fn create_buffer(&mut self, server_h: i32) -> (r: Result<i32, i32>)
        requires
            old(self)@.wf(),
        ensures
            result_view(r) == create_buffer_spec(old(self)@, server_h as int).0,
            final(self)@ == create_buffer_spec(old(self)@, server_h as int).1,
            final(self)@.wf(),
    {
        let entry_code = self.creation_checks(server_h);
        if entry_code != ERROR_NONE {
            return Err(entry_code);
        }
        if self.objects.len() >= i32::MAX as usize {
            return Err(ERROR_UNKNOWN);
        }
        let o = blank_object(ObjectKind::Buffer, server_h, Vec::new());
        proof {
            assert(o@.slots_wf());
        }
        let h = self.add_object(o);
        Ok(h)
    }

    /// Creates a buffer-playing node.
    pub fn create_buffer_node(&mut self, server_h: i32) -> (r: Result<i32, i32>)
        requires
            old(self)@.wf(),
        ensures
            result_view(r) == create_buffer_node_spec(old(self)@, server_h as int).0,
            final(self)@ == create_buffer_node_spec(old(self)@, server_h as int).1,
            final(self)@.wf(),
    {
        let entry_code = self.creation_checks(server_h);
        if entry_code != ERROR_NONE {
            return Err(entry_code);
        }
        if self.objects.len() >= i32::MAX as usize {
            return Err(ERROR_UNKNOWN);
        }
        let mut props = build_std_node_props();
        props.push(mk_scalar(PROP_BUFFER_BUFFER, PropKind::PBuffer, 0, 0, i32::MAX as i64));
        props.push(mk_scalar(PROP_BUFFER_POSITION, PropKind::PDouble, 0, 0, 0));
        props.push(mk_scalar(PROP_BUFFER_RATE, PropKind::PDouble, SCALE, 0, RATE_MAX));
        props.push(mk_wide_int(PROP_BUFFER_LOOPING, 0));
        props.push(mk_scalar(PROP_BUFFER_ENDED_COUNT, PropKind::PInt, 0, 0, i32::MAX as i64));
        proof {
            assert(props@ =~= buffer_node_props());
        }
        let o = blank_object(ObjectKind::BufferNode, server_h, props);
        proof {
            assert(o@.slots_wf());
            assert(o@.rate_slots_wf());
        }
        let h = self.add_object(o);
        Ok(h)
    }

    /// Creates a gain node with the given channel count.
    pub fn create_gain_node(&mut self, server_h: i32, channels: i32) -> (r: Result<i32, i32>)
        requires
            old(self)@.wf(),
        ensures
            result_view(r) == create_gain_node_spec(old(self)@, server_h as int, channels).0,
            final(self)@ == create_gain_node_spec(old(self)@, server_h as int, channels).1,
            final(self)@.wf(),
    {
        let entry_code = self.creation_checks(server_h);
        if entry_code != ERROR_NONE {
            return Err(entry_code);
        }
        if channels < 1 || channels > 256 {
            return Err(ERROR_RANGE);
        }
        if self.objects.len() >= i32::MAX as usize {
            return Err(ERROR_UNKNOWN);
        }
        let mut o = blank_object(ObjectKind::GainNode, server_h, build_std_node_props());
        o.channels = channels as u32;
        proof {
            assert(o@.slots_wf());
        }
        let h = self.add_object(o);
        Ok(h)
    }

    /// Creates an environment node — the entry point to spatialized
    /// sound; the HRTF data set named by the path lives behind the
    /// engine.
    pub fn create_environment_node(&mut self, server_h: i32, _hrtf_path: &str) -> (r: Result<
        i32,
        i32,
    >)
        requires
            old(self)@.wf(),
        ensures
            result_view(r) == create_environment_node_spec(old(self)@, server_h as int).0,
            final(self)@ == create_environment_node_spec(old(self)@, server_h as int).1,
            final(self)@.wf(),
    {
        let entry_code = self.creation_checks(server_h);
        if entry_code != ERROR_NONE {
            return Err(entry_code);
        }
        if self.objects.len() >= i32::MAX as usize {
            return Err(ERROR_UNKNOWN);
        }
        let mut props = build_std_node_props();
        props.push(
            mk_scalar(PROP_ENVIRONMENT_REVERB_DISTANCE, PropKind::PFloat, 75 * SCALE, 0, SCALAR_MAX),
        );
        props.push(mk_scalar(PROP_ENVIRONMENT_DEFAULT_SIZE, PropKind::PFloat, 0, 0, SCALAR_MAX));
        props.push(mk_wide_int(PROP_ENVIRONMENT_DISTANCE_MODEL, 2));
        props.push(
            mk_scalar(PROP_ENVIRONMENT_MAX_DISTANCE, PropKind::PFloat, 150 * SCALE, 0, SCALAR_MAX),
        );
        props.push(mk_scalar(PROP_ENVIRONMENT_MAX_REVERB_LEVEL, PropKind::PFloat, 600, 0, SCALE));
        props.push(mk_scalar(PROP_ENVIRONMENT_MIN_REVERB_LEVEL, PropKind::PFloat, 150, 0, SCALE));
        props.push(mk_vec6(PROP_ENVIRONMENT_ORIENTATION, 0, 0, -SCALE, 0, SCALE, 0));
        props.push(mk_scalar(PROP_ENVIRONMENT_OUTPUT_CHANNELS, PropKind::PInt, 2, 0, 8));
        props.push(mk_wide_int(PROP_ENVIRONMENT_PANNING_STRATEGY, 1));
        props.push(mk_vec3(PROP_ENVIRONMENT_POSITION, 0, 0, 0));
        proof {
            assert(props@ =~= environment_props());
        }
        let o = blank_object(ObjectKind::EnvironmentNode, server_h, props);
        proof {
            assert(o@.slots_wf());
        }
        let h = self.add_object(o);
        Ok(h)
    }

    /// Creates a source node against an environment, copying the
    /// environment's spatial defaults.
    pub fn create_source_node(&mut self, server_h: i32, env_h: i32) -> (r: Result<i32, i32>)
        requires
            old(self)@.wf(),
        ensures
            result_view(r) == create_source_node_spec(old(self)@, server_h as int, env_h as int).0,
            final(self)@ == create_source_node_spec(old(self)@, server_h as int, env_h as int).1,
            final(self)@.wf(),
    {
        let entry_code = self.creation_checks(server_h);
        if entry_code != ERROR_NONE {
            return Err(entry_code);
        }
        if env_h < 1 || env_h as usize > self.objects.len() {
            return Err(ERROR_INVALID_HANDLE);
        }
        let ei = (env_h - 1) as usize;
        if !self.objects[ei].alive || !crate::props::object_kind_eq(
            self.objects[ei].kind,
            ObjectKind::EnvironmentNode,
        ) {
            return Err(ERROR_INVALID_HANDLE);
        }
        if self.objects.len() >= i32::MAX as usize {
            return Err(ERROR_UNKNOWN);
        }
        let mut props = build_std_node_props();
        props.push(mk_wide_int(PROP_SOURCE_CONTROL_DISTANCE_MODEL, 0));
        props.push(mk_wide_int(PROP_SOURCE_CONTROL_PANNING, 0));
        props.push(mk_wide_int(PROP_SOURCE_CONTROL_REVERB, 0));
        props.push(
            mk_wide_int(
                PROP_SOURCE_DISTANCE_MODEL,
                clamp_i32_exec(
                    slot_val_or_exec(&self.objects[ei].props, PROP_ENVIRONMENT_DISTANCE_MODEL, 2),
                ),
            ),
        );
        props.push(mk_wide_int(PROP_SOURCE_HEAD_RELATIVE, 0));
        props.push(
            mk_scalar(
                PROP_SOURCE_MAX_DISTANCE,
                PropKind::PFloat,
                clamp_nonneg_exec(
                    slot_val_or_exec(
                        &self.objects[ei].props,
                        PROP_ENVIRONMENT_MAX_DISTANCE,
                        150 * SCALE,
                    ),
                ),
                0,
                SCALAR_MAX,
            ),
        );
        props.push(
            mk_scalar(
                PROP_SOURCE_MAX_REVERB_LEVEL,
                PropKind::PFloat,
                clamp_unit_exec(
                    slot_val_or_exec(
                        &self.objects[ei].props,
                        PROP_ENVIRONMENT_MAX_REVERB_LEVEL,
                        600,
                    ),
                ),
                0,
                SCALE,
            ),
        );
        props.push(
            mk_scalar(
                PROP_SOURCE_MIN_REVERB_LEVEL,
                PropKind::PFloat,
                clamp_unit_exec(
                    slot_val_or_exec(
                        &self.objects[ei].props,
                        PROP_ENVIRONMENT_MIN_REVERB_LEVEL,
                        150,
                    ),
                ),
                0,
                SCALE,
            ),
        );
        props.push(mk_scalar(PROP_SOURCE_OCCLUSION, PropKind::PFloat, 0, 0, SCALE));
        props.push(
            mk_wide_int(
                PROP_SOURCE_PANNING_STRATEGY,
                clamp_i32_exec(
                    slot_val_or_exec(&self.objects[ei].props, PROP_ENVIRONMENT_PANNING_STRATEGY, 1),
                ),
            ),
        );
        props.push(mk_vec3(PROP_SOURCE_POSITION, 0, 0, 0));
        props.push(
            mk_scalar(
                PROP_SOURCE_REVERB_DISTANCE,
                PropKind::PFloat,
                clamp_nonneg_exec(
                    slot_val_or_exec(
                        &self.objects[ei].props,
                        PROP_ENVIRONMENT_REVERB_DISTANCE,
                        75 * SCALE,
                    ),
                ),
                0,
                SCALAR_MAX,
            ),
        );
        props.push(
            mk_scalar(
                PROP_SOURCE_SIZE,
                PropKind::PFloat,
                clamp_nonneg_exec(
                    slot_val_or_exec(&self.objects[ei].props, PROP_ENVIRONMENT_DEFAULT_SIZE, 0),
                ),
                0,
                SCALAR_MAX,
            ),
        );
        proof {
            assert(props@ =~= source_props(old(self)@.obj(env_h as int)));
        }
        let o = blank_object(ObjectKind::SourceNode, server_h, props);
        proof {
            assert(o@.slots_wf());
        }
        let h = self.add_object(o);
        Ok(h)
    }

    /// Creates a file-streaming node. Decoding is the engine's business,
    /// so the modeled stream has no measured extent.
    pub fn create_file_streamer_node(&mut self, server_h: i32, _path: &str) -> (r: Result<i32, i32>)
        requires
            old(self)@.wf(),
        ensures
            result_view(r) == create_file_streamer_node_spec(old(self)@, server_h as int).0,
            final(self)@ == create_file_streamer_node_spec(old(self)@, server_h as int).1,
            final(self)@.wf(),
    {
        let entry_code = self.creation_checks(server_h);
        if entry_code != ERROR_NONE {
            return Err(entry_code);
        }
        if self.objects.len() >= i32::MAX as usize {
            return Err(ERROR_UNKNOWN);
        }
        let mut props = build_std_node_props();
        props.push(mk_wide_int(PROP_FILE_STREAMER_ENDED, 0));
        props.push(mk_wide_int(PROP_FILE_STREAMER_LOOPING, 0));
        props.push(mk_scalar(PROP_FILE_STREAMER_POSITION, PropKind::PDouble, 0, 0, 0));
        proof {
            assert(props@ =~= file_streamer_props());
        }
        let o = blank_object(ObjectKind::FileStreamerNode, server_h, props);
        proof {
            assert(o@.slots_wf());
        }
        let h = self.add_object(o);
        Ok(h)
    }

    /// Creates an HRTF panner node; the HRTF data set itself lives behind
    /// the engine.
    pub fn create_hrtf_node(&mut self, server_h: i32, _hrtf_path: &str) -> (r: Result<i32, i32>)
        requires
            old(self)@.wf(),
        ensures
            result_view(r) == create_hrtf_node_spec(old(self)@, server_h as int).0,
            final(self)@ == create_hrtf_node_spec(old(self)@, server_h as int).1,
            final(self)@.wf(),
    {
        let entry_code = self.creation_checks(server_h);
        if entry_code != ERROR_NONE {
            return Err(entry_code);
        }
        if self.objects.len() >= i32::MAX as usize {
            return Err(ERROR_UNKNOWN);
        }
        let mut props = build_std_node_props();
        props.push(mk_scalar(PROP_PANNER_AZIMUTH, PropKind::PFloat, 0, -SCALAR_MAX, SCALAR_MAX));
        props.push(
            mk_scalar(PROP_PANNER_ELEVATION, PropKind::PFloat, 0, -(90 * SCALE), 90 * SCALE),
        );
        props.push(mk_wide_int(PROP_PANNER_SHOULD_CROSSFADE, 1));
        proof {
            assert(props@ =~= hrtf_props());
        }
        let o = blank_object(ObjectKind::HrtfNode, server_h, props);
        proof {
            assert(o@.slots_wf());
        }
        let h = self.add_object(o);
        Ok(h)
    }

    /// Creates a pull node, whose audio is produced on demand by a
    /// registered callback.
    pub fn create_pull_node(&mut self, server_h: i32, sr: u32, channels: u32) -> (r: Result<
        i32,
        i32,
    >)
        requires
            old(self)@.wf(),
        ensures
            result_view(r) == create_pull_node_spec(old(self)@, server_h as int, sr, channels).0,
            final(self)@ == create_pull_node_spec(old(self)@, server_h as int, sr, channels).1,
            final(self)@.wf(),
    {
        let entry_code = self.creation_checks(server_h);
        if entry_code != ERROR_NONE {
            return Err(entry_code);
        }
        if sr < 1 || channels < 1 || channels > 16 {
            return Err(ERROR_RANGE);
        }
        if self.objects.len() >= i32::MAX as usize {
            return Err(ERROR_UNKNOWN);
        }
        let mut o = blank_object(ObjectKind::PullNode, server_h, build_std_node_props());
        o.sample_rate = sr;
        o.channels = channels;
        proof {
            assert(o@.slots_wf());
        }
        let h = self.add_object(o);
        Ok(h)
    }

    /// Creates a push node, which queues whatever is fed to it and plays
    /// it out as fast as it can.
    pub fn create_push_node(&mut self, server_h: i32, sr: u32, channels: u32) -> (r: Result<
        i32,
        i32,
    >)
        requires
            old(self)@.wf(),
        ensures
            result_view(r) == create_push_node_spec(old(self)@, server_h as int, sr, channels).0,
            final(self)@ == create_push_node_spec(old(self)@, server_h as int, sr, channels).1,
            final(self)@.wf(),
    {
        let entry_code = self.creation_checks(server_h);
        if entry_code != ERROR_NONE {
            return Err(entry_code);
        }
        if sr < 1 || channels < 1 || channels > 16 {
            return Err(ERROR_RANGE);
        }
        if self.objects.len() >= i32::MAX as usize {
            return Err(ERROR_UNKNOWN);
        }
        let mut props = build_std_node_props();
        props.push(mk_scalar(PROP_PUSH_THRESHOLD, PropKind::PFloat, 30, 0, THRESHOLD_MAX));
        proof {
            assert(props@ =~= push_props());
        }
        let mut o = blank_object(ObjectKind::PushNode, server_h, props);
        o.sample_rate = sr;
        o.channels = channels;
        proof {
            assert(o@.slots_wf());
            assert(o@.threshold_slots_wf());
        }
        let h = self.add_object(o);
        Ok(h)
    }
}

/// The spec-level image of a handle result.
pub open spec fn result_view(r: Result<i32, i32>) -> Result<int, i32> {
    match r {
        Ok(h) => Ok(h as int),
        Err(c) => Err(c),
    }
}

} // verus!
