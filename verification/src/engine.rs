//! An explicit model of the audio engine's process-wide state. Every object
//! the engine owns — servers, buffers, nodes — is an entry in one table,
//! addressed by an opaque integer handle; operations are methods that return
//! the engine's integer status codes (zero for success).
//!
//! The engine carries real-valued quantities as fixed-point integers in
//! thousandths (see [`SCALE`]); playback positions and buffer extents are in
//! whole frames at the server's sampling rate.

use vstd::prelude::*;

verus! {

/// Success.
pub const ERROR_NONE: i32 = 0;
/// An engine-internal failure with no more specific classification.
pub const ERROR_UNKNOWN: i32 = 1;
/// An operation that needs the engine was attempted before `initialize`.
pub const ERROR_NOT_INITIALIZED: i32 = 2;
/// The handle does not name a live engine object.
pub const ERROR_INVALID_HANDLE: i32 = 3;
/// The property index does not exist on the object, or its type differs.
pub const ERROR_INVALID_PROPERTY: i32 = 4;
/// A value lies outside the property's declared range.
pub const ERROR_RANGE: i32 = 5;
/// The requested connection would make the node graph cyclic.
pub const ERROR_CAUSES_CYCLE: i32 = 6;
/// The named audio output device cannot be opened.
pub const ERROR_DEVICE_UNAVAILABLE: i32 = 7;

/// One whole unit of a real-valued property: values are fixed-point
/// thousandths, so a stored `1500` reads as one and a half.
pub const SCALE: i64 = 1000;
/// The widest magnitude any scalar property value, bound, or buffer extent
/// may take.
pub const SCALAR_MAX: i64 = 0x2000_0000_0000;
/// The largest buffer or queue extent, in frames.
pub const FRAMES_MAX: u64 = 0x7FFF_FFFF;
/// The fastest playback rate a buffer-playing node accepts (a multiplier in
/// thousandths, so one thousand times normal speed).
pub const RATE_MAX: i64 = 1_000_000;
/// The longest low-audio threshold a push node accepts, in thousandths of a
/// second (one hour).
pub const THRESHOLD_MAX: i64 = 3_600_000;

/// The kind of an engine object, fixed at creation.
#[derive(Clone, Copy, PartialEq, Eq, Structural, Debug)]
pub enum ObjectKind {
    Server,
    Buffer,
    BufferNode,
    GainNode,
    EnvironmentNode,
    SourceNode,
    FileStreamerNode,
    HrtfNode,
    MultipannerNode,
    PullNode,
    PushNode,
    /// A fire-and-forget buffer playback spawned by an environment; the
    /// engine disposes of it when its buffer ends.
    AutoSource,
}

/// The value category of a property slot. Booleans and enumerations live in
/// `PInt` slots; the typed views over them are the binding's business.
#[derive(Clone, Copy, PartialEq, Eq, Structural, Debug)]
pub enum PropKind {
    PInt,
    PFloat,
    PDouble,
    PFloat3,
    PFloat6,
    PBuffer,
}

/// One property slot of an object: an index, a value category, a scalar
/// value (or a buffer handle), up to six vector lanes, and the declared
/// range for scalar slots.
#[derive(Clone, Copy, PartialEq, Eq, Structural, Debug)]
pub struct Slot {
    pub index: i32,
    pub kind: PropKind,
    /// The scalar value; for `PBuffer` slots the referenced buffer handle
    /// (0 when none is set).
    pub ival: i64,
    pub v0: i64,
    pub v1: i64,
    pub v2: i64,
    pub v3: i64,
    pub v4: i64,
    pub v5: i64,
    pub min: i64,
    pub max: i64,
}

/// One outgoing connection of a node.
#[derive(Clone, Copy, PartialEq, Eq, Structural, Debug)]
pub struct Edge {
    /// The output port on the source node.
    pub output: i32,
    /// The handle of the destination object (a node or a server).
    pub dest: i32,
    /// The input port on the destination, or the destination property slot
    /// index when `to_input` is false.
    pub input: i32,
    /// True for a connection into an input port, false for a connection
    /// into an automatable property.
    pub to_input: bool,
}

/// One engine object. A single record carries the fields of every kind;
/// fields that a kind does not use keep their creation defaults.
pub struct EngineObject {
    pub kind: ObjectKind,
    /// False once the engine has destroyed the object; a destroyed entry is
    /// never reused, so stale handles are always rejected.
    pub alive: bool,
    /// The count of external references held through the handle. An object
    /// stays alive while this count is positive or while one of its outgoing
    /// connections keeps it reachable from an externally referenced object.
    pub ext_refs: u64,
    /// True until the one-shot first-access query clears it.
    pub first_access: bool,
    /// The handle of the server the object was created against (0 for a
    /// server itself).
    pub server: i32,
    pub props: Vec<Slot>,
    pub edges: Vec<Edge>,
    /// Servers: frames per second.
    pub sample_rate: u32,
    /// Servers: frames mixed per processing block (a multiple of 4).
    pub block_size: u32,
    /// Servers: whether an output device has been bound.
    pub has_output_device: bool,
    /// Buffers: decoded extent in frames; push nodes: queued frames.
    pub frames: u64,
    /// Buffers, pull and push nodes: channel count.
    pub channels: u32,
    /// Auto-spawned playbacks: whether effect sends are skipped.
    pub dry: bool,
    /// Pull nodes: the registered audio-callback token.
    pub pull_cb: Option<u64>,
    /// Push nodes: the registered low-audio callback token.
    pub low_cb: Option<u64>,
    /// Push nodes: the registered underrun callback token.
    pub underrun_cb: Option<u64>,
}

/// Spec-level image of an [`EngineObject`].
pub struct ObjectV {
    pub kind: ObjectKind,
    pub alive: bool,
    pub ext_refs: u64,
    pub first_access: bool,
    pub server: i32,
    pub props: Seq<Slot>,
    pub edges: Seq<Edge>,
    pub sample_rate: u32,
    pub block_size: u32,
    pub has_output_device: bool,
    pub frames: u64,
    pub channels: u32,
    pub dry: bool,
    pub pull_cb: Option<u64>,
    pub low_cb: Option<u64>,
    pub underrun_cb: Option<u64>,
}

impl View for EngineObject {
    type V = ObjectV;

    open spec fn view(&self) -> ObjectV {
        ObjectV {
            kind: self.kind,
            alive: self.alive,
            ext_refs: self.ext_refs,
            first_access: self.first_access,
            server: self.server,
            props: self.props@,
            edges: self.edges@,
            sample_rate: self.sample_rate,
            block_size: self.block_size,
            has_output_device: self.has_output_device,
            frames: self.frames,
            channels: self.channels,
            dry: self.dry,
            pull_cb: self.pull_cb,
            low_cb: self.low_cb,
            underrun_cb: self.underrun_cb,
        }
    }
}

impl ObjectV {
    /// A destroyed object: the entry stays in the table so the handle is
    /// recognizably stale, but it holds no references and no connections.
    pub open spec fn destroyed(self) -> ObjectV {
        ObjectV { alive: false, ext_refs: 0, edges: Seq::empty(), ..self }
    }

    /// Whether the object participates in the node graph as a source or
    /// named destination (servers take connections only through the
    /// dedicated final-mix call; buffers and engine-spawned playbacks take
    /// none).
    pub open spec fn is_node(self) -> bool {
        self.kind != ObjectKind::Server && self.kind != ObjectKind::Buffer && self.kind
            != ObjectKind::AutoSource
    }

    /// Every slot respects its own declared range and the global magnitude
    /// bounds; integer slots fit the 32-bit property primitive.
    pub open spec fn slots_wf(self) -> bool {
        forall|i: int| 0 <= i < self.props.len() ==> (#[trigger] self.props[i]).wf()
    }
}

impl Slot {
    /// The slot's value sits inside its declared range, the range inside the
    /// global magnitude bound, and integer slots inside the 32-bit primitive.
    pub open spec fn wf(self) -> bool {
        &&& self.min <= self.ival <= self.max
        &&& -SCALAR_MAX <= self.min
        &&& self.max <= SCALAR_MAX
        &&& self.kind == PropKind::PInt ==> self.min >= i32::MIN && self.max <= i32::MAX
        &&& self.kind == PropKind::PBuffer ==> self.min == 0 && self.max == i32::MAX
            && self.ival >= 0
    }
}

/// Spec-level image of the whole engine state.
pub struct EngineV {
    /// How many `initialize` calls are waiting to be balanced by `shutdown`.
    pub init_count: u64,
    /// The object table; handle `h` names entry `h - 1`, handles start at 1.
    pub objects: Seq<ObjectV>,
}

impl EngineV {
    /// The state of a freshly started process: uninitialized, no objects.
    pub open spec fn empty() -> EngineV {
        EngineV { init_count: 0, objects: Seq::empty() }
    }

    /// The same state with another lifecycle count.
    pub open spec fn with_init_count(self, n: int) -> EngineV {
        EngineV { init_count: n as u64, ..self }
    }

    /// The same state with the entry of handle `h` replaced.
    pub open spec fn with_obj(self, h: int, o: ObjectV) -> EngineV {
        EngineV { objects: self.objects.update(h - 1, o), ..self }
    }

    /// Whether `h` names an entry of the object table (live or destroyed).
    pub open spec fn valid_handle(self, h: int) -> bool {
        1 <= h <= self.objects.len()
    }

    /// The object entry named by a valid handle.
    pub open spec fn obj(self, h: int) -> ObjectV {
        self.objects[h - 1]
    }

    /// Whether `h` names a live engine object.
    pub open spec fn is_alive(self, h: int) -> bool {
        self.valid_handle(h) && self.obj(h).alive
    }

    /// Whether `h` names a live node (a graph participant).
    pub open spec fn is_live_node(self, h: int) -> bool {
        self.is_alive(h) && self.obj(h).is_node()
    }

    /// The engine's structural invariant: handles fit the 32-bit handle
    /// type, every slot is well formed, connections run between live
    /// objects, destroyed objects hold nothing, and the per-kind bounds that
    /// keep block processing inside 64-bit arithmetic hold.
    pub open spec fn wf(self) -> bool {
        &&& self.objects.len() <= i32::MAX
        &&& forall|i: int| 0 <= i < self.objects.len() ==> (#[trigger] self.objects[i]).wf(self)
    }
}

impl ObjectV {
    /// The per-object part of [`EngineV::wf`].
    pub open spec fn wf(self, e: EngineV) -> bool {
        &&& self.slots_wf()
        &&& self.edges.len() <= u32::MAX
        &&& !self.alive ==> self.ext_refs == 0 && self.edges.len() == 0
        &&& forall|k: int| 0 <= k < self.edges.len() ==> e.is_alive(
                (#[trigger] self.edges[k]).dest as int,
            ) && e.obj(self.edges[k].dest as int).kind != ObjectKind::AutoSource
        &&& self.kind == ObjectKind::Server
                ==> self.sample_rate >= 1 && self.block_size >= 4 && self.block_size % 4 == 0
        &&& self.frames <= FRAMES_MAX
        &&& self.rate_slots_wf()
        &&& self.threshold_slots_wf()
    }

    /// Playback-rate slots stay below [`RATE_MAX`] so one block's advance
    /// fits 64-bit arithmetic.
    pub open spec fn rate_slots_wf(self) -> bool {
        (self.kind == ObjectKind::BufferNode || self.kind == ObjectKind::AutoSource)
            ==> (forall|i: int| 0 <= i < self.props.len()
                    && (#[trigger] self.props[i]).index == PROP_BUFFER_RATE
                    ==> self.props[i].min >= 0 && self.props[i].max <= RATE_MAX)
    }

    /// Threshold slots stay below [`THRESHOLD_MAX`] so the low-audio test
    /// fits 64-bit arithmetic.
    pub open spec fn threshold_slots_wf(self) -> bool {
        self.kind == ObjectKind::PushNode
            ==> (forall|i: int| 0 <= i < self.props.len()
                    && (#[trigger] self.props[i]).index == PROP_PUSH_THRESHOLD
                    ==> self.props[i].min >= 0 && self.props[i].max <= THRESHOLD_MAX)
    }
}

/// The engine's process-wide state as one explicit value.
pub struct Engine {
    pub init_count: u64,
    pub objects: Vec<EngineObject>,
}

impl View for Engine {
    type V = EngineV;

    open spec fn view(&self) -> EngineV {
        EngineV {
            init_count: self.init_count,
            objects: self.objects@.map_values(|o: EngineObject| o@),
        }
    }
}

// The standard properties every node carries.
/// The node state (always playing, playing, or paused).
pub const PROP_NODE_STATE: i32 = -100;
/// The additive offset applied after `mul`.
pub const PROP_NODE_ADD: i32 = -101;
/// The multiplier applied to the node's output.
pub const PROP_NODE_MUL: i32 = -102;

// Buffer-playing nodes.
/// The buffer being played (a buffer handle).
pub const PROP_BUFFER_BUFFER: i32 = 1;
/// The playback position, in frames.
pub const PROP_BUFFER_POSITION: i32 = 2;
/// The playback-rate multiplier, in thousandths.
pub const PROP_BUFFER_RATE: i32 = 3;
/// Whether playback restarts from the beginning at the end.
pub const PROP_BUFFER_LOOPING: i32 = 4;
/// How many times playback has reached the buffer's end.
pub const PROP_BUFFER_ENDED_COUNT: i32 = 5;

// File-streaming nodes.
/// Whether the stream has ended completely.
pub const PROP_FILE_STREAMER_ENDED: i32 = 1;
/// Whether the stream restarts from the beginning at the end.
pub const PROP_FILE_STREAMER_LOOPING: i32 = 2;
/// The stream position, in frames.
pub const PROP_FILE_STREAMER_POSITION: i32 = 3;

// Panner nodes (HRTF and multipanner).
/// The horizontal angle, in thousandths of a degree.
pub const PROP_PANNER_AZIMUTH: i32 = 1;
/// The vertical angle, in thousandths of a degree.
pub const PROP_PANNER_ELEVATION: i32 = 2;
/// Whether the panner crossfades on movement.
pub const PROP_PANNER_SHOULD_CROSSFADE: i32 = 3;
/// The panning strategy in use.
pub const PROP_PANNER_STRATEGY: i32 = 4;

// Environment nodes.
/// The distance at which sources are heard only in the reverb.
pub const PROP_ENVIRONMENT_REVERB_DISTANCE: i32 = 1;
/// The default size given to new sources.
pub const PROP_ENVIRONMENT_DEFAULT_SIZE: i32 = 2;
/// The distance model sources delegate to.
pub const PROP_ENVIRONMENT_DISTANCE_MODEL: i32 = 3;
/// The furthest distance at which a source is audible.
pub const PROP_ENVIRONMENT_MAX_DISTANCE: i32 = 4;
/// The most audio diverted to reverb sends, in thousandths.
pub const PROP_ENVIRONMENT_MAX_REVERB_LEVEL: i32 = 5;
/// The least audio diverted to reverb sends, in thousandths.
pub const PROP_ENVIRONMENT_MIN_REVERB_LEVEL: i32 = 6;
/// The listener's orientation: two packed unit vectors.
pub const PROP_ENVIRONMENT_ORIENTATION: i32 = 7;
/// How many channels the environment's output carries.
pub const PROP_ENVIRONMENT_OUTPUT_CHANNELS: i32 = 8;
/// The panning strategy sources delegate to.
pub const PROP_ENVIRONMENT_PANNING_STRATEGY: i32 = 9;
/// The listener's position in world coordinates.
pub const PROP_ENVIRONMENT_POSITION: i32 = 10;

// Source nodes.
/// Whether the source controls its own distance-model properties.
pub const PROP_SOURCE_CONTROL_DISTANCE_MODEL: i32 = 1;
/// Whether the source controls its own panning properties.
pub const PROP_SOURCE_CONTROL_PANNING: i32 = 2;
/// Whether the source controls its own reverb properties.
pub const PROP_SOURCE_CONTROL_REVERB: i32 = 3;
/// The source's own distance model.
pub const PROP_SOURCE_DISTANCE_MODEL: i32 = 4;
/// Whether the position is interpreted relative to the listener's head.
pub const PROP_SOURCE_HEAD_RELATIVE: i32 = 5;
/// The furthest distance at which the source is audible.
pub const PROP_SOURCE_MAX_DISTANCE: i32 = 6;
/// The most audio diverted to reverb sends, in thousandths.
pub const PROP_SOURCE_MAX_REVERB_LEVEL: i32 = 7;
/// The least audio diverted to reverb sends, in thousandths.
pub const PROP_SOURCE_MIN_REVERB_LEVEL: i32 = 8;
/// How occluded the source is, in thousandths.
pub const PROP_SOURCE_OCCLUSION: i32 = 9;
/// The source's own panning strategy.
pub const PROP_SOURCE_PANNING_STRATEGY: i32 = 10;
/// The source's position in world coordinates.
pub const PROP_SOURCE_POSITION: i32 = 11;
/// The distance at which the source is heard only through reverb sends.
pub const PROP_SOURCE_REVERB_DISTANCE: i32 = 12;
/// The source's radius.
pub const PROP_SOURCE_SIZE: i32 = 13;

// Push nodes.
/// The queued-audio duration below which the low callback fires, in
/// thousandths of a second.
pub const PROP_PUSH_THRESHOLD: i32 = 1;

impl Engine {
    /// A freshly started engine: uninitialized, owning no objects.
    pub fn new() -> (e: Engine)
        ensures
            e@ == EngineV::empty(),
            e@.wf(),
    {
        let e = Engine { init_count: 0, objects: Vec::new() };
        proof {
            assert(e@.objects =~= Seq::<ObjectV>::empty());
        }
        e
    }

    /// Counts one initialization up; repeated calls only deepen the count.
    pub fn lifecycle_initialize(&mut self) -> (code: i32)
        ensures
            old(self)@.init_count < u64::MAX ==> code == ERROR_NONE
                && final(self)@ == old(self)@.with_init_count(old(self)@.init_count + 1),
            old(self)@.init_count == u64::MAX ==> code == ERROR_UNKNOWN
                && final(self)@ == old(self)@,
            old(self)@.wf() ==> final(self)@.wf(),
    {
        if self.init_count == u64::MAX {
            return ERROR_UNKNOWN;
        }
        self.init_count = self.init_count + 1;
        ERROR_NONE
    }

    /// Whether any initialization is outstanding.
    pub fn lifecycle_is_initialized(&self) -> (r: bool)
        ensures
            r <==> self@.init_count > 0,
    {
        self.init_count > 0
    }

    /// Counts one initialization down; the call that balances the first
    /// `initialize` tears the engine down, destroying every object.
    pub fn lifecycle_shutdown(&mut self) -> (code: i32)
        ensures
            old(self)@.init_count > 1 ==> code == ERROR_NONE
                && final(self)@ == old(self)@.with_init_count(old(self)@.init_count - 1),
            old(self)@.init_count == 1 ==> code == ERROR_NONE && final(self)@ == EngineV::empty(),
            old(self)@.init_count == 0 ==> code == ERROR_NOT_INITIALIZED && final(self)@ == old(self)@,
            old(self)@.wf() ==> final(self)@.wf(),
    {
        if self.init_count == 0 {
            ERROR_NOT_INITIALIZED
        } else if self.init_count == 1 {
            self.init_count = 0;
            self.objects = Vec::new();
            proof {
                assert(self@.objects =~= Seq::<ObjectV>::empty());
                assert(self@ =~= EngineV::empty());
            }
            ERROR_NONE
        } else {
            self.init_count = self.init_count - 1;
            ERROR_NONE
        }
    }
}

} // verus!
