//! The engine's property primitive: typed slots addressed by
//! (handle, index). Booleans and enumerations share the integer primitive;
//! scalar slots carry a declared range that every write is held to.

use vstd::prelude::*;

verus! {

use crate::engine::Engine;
use crate::engine::EngineV;
use crate::engine::ObjectV;
use crate::engine::ObjectKind;
use crate::engine::PropKind;
use crate::engine::Slot;
use crate::engine::ERROR_NONE;
use crate::engine::ERROR_INVALID_HANDLE;
use crate::engine::ERROR_INVALID_PROPERTY;
use crate::engine::ERROR_RANGE;
use crate::engine::PROP_BUFFER_RATE;
use crate::engine::PROP_BUFFER_POSITION;
use crate::engine::PROP_PUSH_THRESHOLD;
use crate::engine::RATE_MAX;
use crate::engine::THRESHOLD_MAX;

/// The position of the first slot with the given index, searching from `i`.
pub open spec fn find_slot_from(props: Seq<Slot>, index: i32, i: int) -> Option<int>
    decreases props.len() - i,
{
    if i < 0 || i >= props.len() {
        None
    } else if props[i].index == index {
        Some(i)
    } else {
        find_slot_from(props, index, i + 1)
    }
}

/// The position of the first slot with the given index, if any.
pub open spec fn find_slot(props: Seq<Slot>, index: i32) -> Option<int> {
    find_slot_from(props, index, 0)
}

/// The found position always carries the searched index and stays inside
/// the slot table.
pub proof fn lemma_find_slot_sound(props: Seq<Slot>, index: i32, i: int)
    requires
        find_slot_from(props, index, i) is Some,
    ensures
        0 <= find_slot_from(props, index, i)->Some_0 < props.len(),
        props[find_slot_from(props, index, i)->Some_0].index == index,
    decreases props.len() - i,
{
    if !(i < 0 || i >= props.len()) && props[i].index != index {
        lemma_find_slot_sound(props, index, i + 1);
    }
}

impl Engine {
    /// The position of the first slot with the given index in an object's
    /// slot table.
    pub(crate) fn find_slot_exec(props: &Vec<Slot>, index: i32) -> (r: Option<usize>)
        ensures
            r matches Some(i) ==> find_slot(props@, index) == Some(i as int),
            r is None ==> find_slot(props@, index) is None,
    {
        let n = props.len();
        let mut i: usize = 0;
        while i < n
            invariant
                0 <= i <= n,
                n == props@.len(),
                find_slot_from(props@, index, 0) == find_slot_from(props@, index, i as int),
            decreases n - i,
        {
            if props[i].index == index {
                return Some(i);
            }
            i = i + 1;
        }
        None
    }
}

/// What reading the scalar of kind `kind` at (handle, index) yields: the
/// stored value, or the error that names the failed validation.
pub open spec fn get_scalar_spec(e: EngineV, h: int, index: i32, kind: PropKind) -> Result<
    i64,
    i32,
> {
    if !e.is_alive(h) {
        Err(ERROR_INVALID_HANDLE)
    } else {
        match find_slot(e.obj(h).props, index) {
            Option::None => Err(ERROR_INVALID_PROPERTY),
            Option::Some(i) => {
                if e.obj(h).props[i].kind != kind {
                    Err(ERROR_INVALID_PROPERTY)
                } else {
                    Ok(e.obj(h).props[i].ival)
                }
            },
        }
    }
}

/// What writing the scalar of kind `kind` at (handle, index) does: the new
/// engine state on success, the unchanged state and the validation error
/// otherwise. Writes outside the slot's declared range are rejected, never
/// clamped.
pub open spec fn set_scalar_spec(e: EngineV, h: int, index: i32, kind: PropKind, v: i64) -> (
    i32,
    EngineV,
) {
    if !e.is_alive(h) {
        (ERROR_INVALID_HANDLE, e)
    } else {
        match find_slot(e.obj(h).props, index) {
            Option::None => (ERROR_INVALID_PROPERTY, e),
            Option::Some(i) => {
                let s = e.obj(h).props[i];
                if s.kind != kind {
                    (ERROR_INVALID_PROPERTY, e)
                } else if v < s.min || v > s.max {
                    (ERROR_RANGE, e)
                } else {
                    (
                        ERROR_NONE,
                        e.with_obj(
                            h,
                            ObjectV {
                                props: e.obj(h).props.update(i, Slot { ival: v, ..s }),
                                ..e.obj(h)
                            },
                        ),
                    )
                }
            },
        }
    }
}

/// What querying the declared range at (handle, index) yields.
pub open spec fn get_range_spec(e: EngineV, h: int, index: i32, kind: PropKind) -> Result<
    (i64, i64),
    i32,
> {
    if !e.is_alive(h) {
        Err(ERROR_INVALID_HANDLE)
    } else {
        match find_slot(e.obj(h).props, index) {
            Option::None => Err(ERROR_INVALID_PROPERTY),
            Option::Some(i) => {
                if e.obj(h).props[i].kind != kind {
                    Err(ERROR_INVALID_PROPERTY)
                } else {
                    Ok((e.obj(h).props[i].min, e.obj(h).props[i].max))
                }
            },
        }
    }
}

/// Writing a well-formed slot into a well-formed engine keeps the engine
/// well formed.
pub proof fn lemma_wf_after_slot_update(e: EngineV, h: int, i: int, s: Slot)
    requires
        e.wf(),
        e.is_alive(h),
        0 <= i < e.obj(h).props.len(),
        s.wf(),
        s.index == e.obj(h).props[i].index,
        s.kind == e.obj(h).props[i].kind,
        (e.obj(h).kind == ObjectKind::BufferNode || e.obj(h).kind == ObjectKind::AutoSource)
            && s.index == PROP_BUFFER_RATE ==> s.min >= 0 && s.max <= RATE_MAX,
        e.obj(h).kind == ObjectKind::PushNode && s.index == PROP_PUSH_THRESHOLD ==> s.min >= 0
            && s.max <= THRESHOLD_MAX,
    ensures
        e.with_obj(h, ObjectV { props: e.obj(h).props.update(i, s), ..e.obj(h) }).wf(),
{
    let e2 = e.with_obj(h, ObjectV { props: e.obj(h).props.update(i, s), ..e.obj(h) });
    assert forall|j: int| 0 <= j < e2.objects.len() implies (#[trigger] e2.objects[j]).wf(e2) by {
        assert(e.objects[j].wf(e));
        if j == h - 1 {
            let o = e.objects[j];
            let o2 = e2.objects[j];
            assert forall|k: int| 0 <= k < o2.props.len() implies (#[trigger] o2.props[k]).wf() by {
                if k != i {
                    assert(o.props[k].wf());
                }
            }
            assert(o2.props[i] == s);
            assert(o2.rate_slots_wf()) by {
                if o2.kind == ObjectKind::BufferNode || o2.kind == ObjectKind::AutoSource {
                    assert forall|k: int|
                        0 <= k < o2.props.len() && (#[trigger] o2.props[k]).index
                            == PROP_BUFFER_RATE implies o2.props[k].min >= 0 && o2.props[k].max
                        <= RATE_MAX by {
                        if k != i {
                            assert(o.props[k].index == o2.props[k].index && o.props[k].min
                                == o2.props[k].min && o.props[k].max == o2.props[k].max);
                        }
                    }
                }
            }
            assert(o2.threshold_slots_wf()) by {
                if o2.kind == ObjectKind::PushNode {
                    assert forall|k: int|
                        0 <= k < o2.props.len() && (#[trigger] o2.props[k]).index
                            == PROP_PUSH_THRESHOLD implies o2.props[k].min >= 0 && o2.props[k].max
                        <= THRESHOLD_MAX by {
                        if k != i {
                            assert(o.props[k].index == o2.props[k].index && o.props[k].min
                                == o2.props[k].min && o.props[k].max == o2.props[k].max);
                        }
                    }
                }
            }
        } else {
            assert(e2.objects[j] == e.objects[j]);
            assert forall|k: int| 0 <= k < e2.objects[j].edges.len() implies e2.is_alive(
                (#[trigger] e2.objects[j].edges[k]).dest as int,
            ) && e2.obj(e2.objects[j].edges[k].dest as int).kind != ObjectKind::AutoSource by {
                assert(e.is_alive(e.objects[j].edges[k].dest as int));
                assert(e.obj(e.objects[j].edges[k].dest as int).kind != ObjectKind::AutoSource);
            }
        }
    }
}

impl Engine {
    /// Reads a scalar slot of the given kind; the workhorse behind the
    /// typed property reads.
    fn get_scalar_property(&self, h: i32, index: i32, kind: PropKind) -> (r: Result<i64, i32>)
        ensures
            r == get_scalar_spec(self@, h as int, index, kind),
    {
        if h < 1 || h as usize > self.objects.len() {
            return Err(ERROR_INVALID_HANDLE);
        }
        let oi = (h - 1) as usize;
        if !self.objects[oi].alive {
            return Err(ERROR_INVALID_HANDLE);
        }
        match Self::find_slot_exec(&self.objects[oi].props, index) {
            Option::None => Err(ERROR_INVALID_PROPERTY),
            Option::Some(i) => {
                proof {
                    lemma_find_slot_sound(self@.obj(h as int).props, index, 0);
                }
                let s = self.objects[oi].props[i];
                if !prop_kind_eq(s.kind, kind) {
                    Err(ERROR_INVALID_PROPERTY)
                } else {
                    Ok(s.ival)
                }
            },
        }
    }

    /// Writes a scalar slot of the given kind, holding the value to the
    /// slot's declared range; the workhorse behind the typed property
    /// writes.
    fn set_scalar_property(&mut self, h: i32, index: i32, kind: PropKind, v: i64) -> (code: i32)
        requires
            old(self)@.wf(),
        ensures
            (code, final(self)@) == set_scalar_spec(old(self)@, h as int, index, kind, v),
            final(self)@.wf(),
    {
        if h < 1 || h as usize > self.objects.len() {
            return ERROR_INVALID_HANDLE;
        }
        let oi = (h - 1) as usize;
        if !self.objects[oi].alive {
            return ERROR_INVALID_HANDLE;
        }
        match Self::find_slot_exec(&self.objects[oi].props, index) {
            Option::None => ERROR_INVALID_PROPERTY,
            Option::Some(i) => {
                proof {
                    lemma_find_slot_sound(self@.obj(h as int).props, index, 0);
                }
                let s = self.objects[oi].props[i];
                if !prop_kind_eq(s.kind, kind) {
                    ERROR_INVALID_PROPERTY
                } else if v < s.min || v > s.max {
                    ERROR_RANGE
                } else {
                    proof {
                        assert(self@.obj(h as int).wf(self@));
                        assert(self@.obj(h as int).props[i as int].wf());
                        lemma_wf_after_slot_update(self@, h as int, i as int, Slot { ival: v, ..s });
                    }
                    let o = &mut self.objects[oi];
                    let p = &mut o.props[i];
                    *p = Slot { ival: v, ..s };
                    proof {
                        assert(final(self)@.objects =~= set_scalar_spec(
                            old(self)@,
                            h as int,
                            index,
                            kind,
                            v,
                        ).1.objects);
                    }
                    ERROR_NONE
                }
            },
        }
    }

    /// Queries the declared range of a scalar slot of the given kind.
    fn get_range_property(&self, h: i32, index: i32, kind: PropKind) -> (r: Result<(i64, i64), i32>)
        ensures
            r == get_range_spec(self@, h as int, index, kind),
    {
        if h < 1 || h as usize > self.objects.len() {
            return Err(ERROR_INVALID_HANDLE);
        }
        let oi = (h - 1) as usize;
        if !self.objects[oi].alive {
            return Err(ERROR_INVALID_HANDLE);
        }
        match Self::find_slot_exec(&self.objects[oi].props, index) {
            Option::None => Err(ERROR_INVALID_PROPERTY),
            Option::Some(i) => {
                proof {
                    lemma_find_slot_sound(self@.obj(h as int).props, index, 0);
                }
                let s = self.objects[oi].props[i];
                if !prop_kind_eq(s.kind, kind) {
                    Err(ERROR_INVALID_PROPERTY)
                } else {
                    Ok((s.min, s.max))
                }
            },
        }
    }

    /// Reads the engine's 32-bit integer property primitive, which booleans
    /// and enumerations also travel through.
    pub fn node_get_int_property(&self, h: i32, index: i32) -> (r: Result<i32, i32>)
        requires
            self@.wf(),
        ensures
            r matches Ok(v) ==> get_scalar_spec(self@, h as int, index, PropKind::PInt) == Ok::<i64, i32>(
                v as i64,
            ),
            r matches Err(c) ==> get_scalar_spec(self@, h as int, index, PropKind::PInt) == Err::<
                i64,
                i32,
            >(c),
    {
        proof {
            if self@.is_alive(h as int) && find_slot(self@.obj(h as int).props, index) is Some {
                lemma_find_slot_sound(self@.obj(h as int).props, index, 0);
                assert(self@.obj(h as int).wf(self@));
                let i = find_slot(self@.obj(h as int).props, index)->Some_0;
                assert(self@.obj(h as int).props[i].wf());
            }
        }
        match self.get_scalar_property(h, index, PropKind::PInt) {
            Ok(v) => Ok(v as i32),
            Err(c) => Err(c),
        }
    }

    /// Writes the engine's 32-bit integer property primitive.
    pub fn node_set_int_property(&mut self, h: i32, index: i32, v: i32) -> (code: i32)
        requires
            old(self)@.wf(),
        ensures
            (code, final(self)@) == set_scalar_spec(
                old(self)@,
                h as int,
                index,
                PropKind::PInt,
                v as i64,
            ),
            final(self)@.wf(),
    {
        self.set_scalar_property(h, index, PropKind::PInt, v as i64)
    }

    /// Queries the declared range of a 32-bit integer property.
    pub fn node_get_int_property_range(&self, h: i32, index: i32) -> (r: Result<(i32, i32), i32>)
        requires
            self@.wf(),
        ensures
            r matches Ok(p) ==> get_range_spec(self@, h as int, index, PropKind::PInt) == Ok::<(i64, i64), i32>(
                (p.0 as i64, p.1 as i64),
            ),
            r matches Err(c) ==> get_range_spec(self@, h as int, index, PropKind::PInt) == Err::<
                (i64, i64),
                i32,
            >(c),
    {
        proof {
            if self@.is_alive(h as int) && find_slot(self@.obj(h as int).props, index) is Some {
                lemma_find_slot_sound(self@.obj(h as int).props, index, 0);
                assert(self@.obj(h as int).wf(self@));
                let i = find_slot(self@.obj(h as int).props, index)->Some_0;
                assert(self@.obj(h as int).props[i].wf());
            }
        }
        match self.get_range_property(h, index, PropKind::PInt) {
            Ok((lo, hi)) => Ok((lo as i32, hi as i32)),
            Err(c) => Err(c),
        }
    }

    /// Reads a single-precision scalar property (fixed-point thousandths).
    pub fn node_get_float_property(&self, h: i32, index: i32) -> (r: Result<i64, i32>)
        ensures
            r == get_scalar_spec(self@, h as int, index, PropKind::PFloat),
    {
        self.get_scalar_property(h, index, PropKind::PFloat)
    }

    /// Writes a single-precision scalar property (fixed-point thousandths).
    pub fn node_set_float_property(&mut self, h: i32, index: i32, v: i64) -> (code: i32)
        requires
            old(self)@.wf(),
        ensures
            (code, final(self)@) == set_scalar_spec(
                old(self)@,
                h as int,
                index,
                PropKind::PFloat,
                v,
            ),
            final(self)@.wf(),
    {
        self.set_scalar_property(h, index, PropKind::PFloat, v)
    }

    /// Queries the declared range of a single-precision scalar property.
    pub fn node_get_float_property_range(&self, h: i32, index: i32) -> (r: Result<(i64, i64), i32>)
        ensures
            r == get_range_spec(self@, h as int, index, PropKind::PFloat),
    {
        self.get_range_property(h, index, PropKind::PFloat)
    }

    /// Reads a double-precision scalar property (whole frames for playback
    /// positions, fixed-point thousandths otherwise).
    pub fn node_get_double_property(&self, h: i32, index: i32) -> (r: Result<i64, i32>)
        ensures
            r == get_scalar_spec(self@, h as int, index, PropKind::PDouble),
    {
        self.get_scalar_property(h, index, PropKind::PDouble)
    }

    /// Writes a double-precision scalar property.
    pub fn node_set_double_property(&mut self, h: i32, index: i32, v: i64) -> (code: i32)
        requires
            old(self)@.wf(),
        ensures
            (code, final(self)@) == set_scalar_spec(
                old(self)@,
                h as int,
                index,
                PropKind::PDouble,
                v,
            ),
            final(self)@.wf(),
    {
        self.set_scalar_property(h, index, PropKind::PDouble, v)
    }

    /// Queries the declared range of a double-precision scalar property.
    pub fn node_get_double_property_range(&self, h: i32, index: i32) -> (r: Result<(i64, i64), i32>)
        ensures
            r == get_range_spec(self@, h as int, index, PropKind::PDouble),
    {
        self.get_range_property(h, index, PropKind::PDouble)
    }
}

/// The number of lanes a vector slot carries (0 for scalar slots).
pub open spec fn lane_count(kind: PropKind) -> int {
    match kind {
        PropKind::PFloat3 => 3,
        PropKind::PFloat6 => 6,
        _ => 0,
    }
}

/// The value of one lane of a vector slot.
pub open spec fn lane_val(s: Slot, lane: int) -> i64 {
    if lane == 0 {
        s.v0
    } else if lane == 1 {
        s.v1
    } else if lane == 2 {
        s.v2
    } else if lane == 3 {
        s.v3
    } else if lane == 4 {
        s.v4
    } else {
        s.v5
    }
}

/// What reading one lane of a vector property yields.
pub open spec fn read_lane_spec(e: EngineV, h: int, index: i32, lane: int) -> Result<i64, i32> {
    if !e.is_alive(h) {
        Err(ERROR_INVALID_HANDLE)
    } else {
        match find_slot(e.obj(h).props, index) {
            Option::None => Err(ERROR_INVALID_PROPERTY),
            Option::Some(i) => {
                let s = e.obj(h).props[i];
                if lane_count(s.kind) == 0 {
                    Err(ERROR_INVALID_PROPERTY)
                } else if lane < 0 || lane >= lane_count(s.kind) {
                    Err(ERROR_RANGE)
                } else {
                    Ok(lane_val(s, lane))
                }
            },
        }
    }
}

/// What writing all three lanes of a three-vector property does.
pub open spec fn set_float3_spec(e: EngineV, h: int, index: i32, a: i64, b: i64, c: i64) -> (
    i32,
    EngineV,
) {
    if !e.is_alive(h) {
        (ERROR_INVALID_HANDLE, e)
    } else {
        match find_slot(e.obj(h).props, index) {
            Option::None => (ERROR_INVALID_PROPERTY, e),
            Option::Some(i) => {
                let s = e.obj(h).props[i];
                if s.kind != PropKind::PFloat3 {
                    (ERROR_INVALID_PROPERTY, e)
                } else {
                    (
                        ERROR_NONE,
                        e.with_obj(
                            h,
                            ObjectV {
                                props: e.obj(h).props.update(
                                    i,
                                    Slot { v0: a, v1: b, v2: c, ..s },
                                ),
                                ..e.obj(h)
                            },
                        ),
                    )
                }
            },
        }
    }
}

/// What writing all six lanes of a six-vector property does.
pub open spec fn set_float6_spec(
    e: EngineV,
    h: int,
    index: i32,
    a: i64,
    b: i64,
    c: i64,
    d: i64,
    f: i64,
    g: i64,
) -> (i32, EngineV) {
    if !e.is_alive(h) {
        (ERROR_INVALID_HANDLE, e)
    } else {
        match find_slot(e.obj(h).props, index) {
            Option::None => (ERROR_INVALID_PROPERTY, e),
            Option::Some(i) => {
                let s = e.obj(h).props[i];
                if s.kind != PropKind::PFloat6 {
                    (ERROR_INVALID_PROPERTY, e)
                } else {
                    (
                        ERROR_NONE,
                        e.with_obj(
                            h,
                            ObjectV {
                                props: e.obj(h).props.update(
                                    i,
                                    Slot { v0: a, v1: b, v2: c, v3: d, v4: f, v5: g, ..s },
                                ),
                                ..e.obj(h)
                            },
                        ),
                    )
                }
            },
        }
    }
}

/// What binding a buffer to a buffer-reference property does. On a
/// buffer-playing node the write also rewinds the playback position and
/// re-derives its dynamic range from the new buffer's extent.
pub open spec fn set_buffer_spec(e: EngineV, h: int, index: i32, bh: int) -> (i32, EngineV) {
    if !e.is_alive(h) {
        (ERROR_INVALID_HANDLE, e)
    } else if bh != 0 && !(e.is_alive(bh) && e.obj(bh).kind == ObjectKind::Buffer) {
        (ERROR_INVALID_HANDLE, e)
    } else {
        match find_slot(e.obj(h).props, index) {
            Option::None => (ERROR_INVALID_PROPERTY, e),
            Option::Some(i) => {
                let s = e.obj(h).props[i];
                if s.kind != PropKind::PBuffer {
                    (ERROR_INVALID_PROPERTY, e)
                } else {
                    let props1 = e.obj(h).props.update(i, Slot { ival: bh as i64, ..s });
                    let extent: i64 = if bh == 0 {
                        0
                    } else {
                        e.obj(bh).frames as i64
                    };
                    let props2 = match find_slot(props1, PROP_BUFFER_POSITION) {
                        Option::None => props1,
                        Option::Some(p) => {
                            if props1[p].kind == PropKind::PDouble {
                                props1.update(
                                    p,
                                    Slot { ival: 0, min: 0, max: extent, ..props1[p] },
                                )
                            } else {
                                props1
                            }
                        },
                    };
                    (ERROR_NONE, e.with_obj(h, ObjectV { props: props2, ..e.obj(h) }))
                }
            },
        }
    }
}

impl Engine {
    /// Reads one lane of a fixed-size vector property; vector properties
    /// are read back lane by lane.
    pub fn node_read_float_array_property(&self, h: i32, index: i32, lane: u32) -> (r: Result<
        i64,
        i32,
    >)
        ensures
            r == read_lane_spec(self@, h as int, index, lane as int),
    {
        if h < 1 || h as usize > self.objects.len() {
            return Err(ERROR_INVALID_HANDLE);
        }
        let oi = (h - 1) as usize;
        if !self.objects[oi].alive {
            return Err(ERROR_INVALID_HANDLE);
        }
        match Self::find_slot_exec(&self.objects[oi].props, index) {
            Option::None => Err(ERROR_INVALID_PROPERTY),
            Option::Some(i) => {
                proof {
                    lemma_find_slot_sound(self@.obj(h as int).props, index, 0);
                }
                let s = self.objects[oi].props[i];
                let lanes: u32 = match s.kind {
                    PropKind::PFloat3 => 3,
                    PropKind::PFloat6 => 6,
                    _ => 0,
                };
                if lanes == 0 {
                    Err(ERROR_INVALID_PROPERTY)
                } else if lane >= lanes {
                    Err(ERROR_RANGE)
                } else if lane == 0 {
                    Ok(s.v0)
                } else if lane == 1 {
                    Ok(s.v1)
                } else if lane == 2 {
                    Ok(s.v2)
                } else if lane == 3 {
                    Ok(s.v3)
                } else if lane == 4 {
                    Ok(s.v4)
                } else {
                    Ok(s.v5)
                }
            },
        }
    }

    /// Writes a three-vector property in one call; the lanes carry no
    /// declared range.
    pub fn node_set_float3_property(&mut self, h: i32, index: i32, a: i64, b: i64, c: i64) -> (code:
        i32)
        requires
            old(self)@.wf(),
        ensures
            (code, final(self)@) == set_float3_spec(old(self)@, h as int, index, a, b, c),
            final(self)@.wf(),
    {
        if h < 1 || h as usize > self.objects.len() {
            return ERROR_INVALID_HANDLE;
        }
        let oi = (h - 1) as usize;
        if !self.objects[oi].alive {
            return ERROR_INVALID_HANDLE;
        }
        match Self::find_slot_exec(&self.objects[oi].props, index) {
            Option::None => ERROR_INVALID_PROPERTY,
            Option::Some(i) => {
                proof {
                    lemma_find_slot_sound(self@.obj(h as int).props, index, 0);
                }
                let s = self.objects[oi].props[i];
                if !prop_kind_eq(s.kind, PropKind::PFloat3) {
                    ERROR_INVALID_PROPERTY
                } else {
                    proof {
                        assert(self@.obj(h as int).wf(self@));
                        assert(self@.obj(h as int).props[i as int].wf());
                        lemma_wf_after_slot_update(
                            self@,
                            h as int,
                            i as int,
                            Slot { v0: a, v1: b, v2: c, ..s },
                        );
                    }
                    let o = &mut self.objects[oi];
                    let p = &mut o.props[i];
                    *p = Slot { v0: a, v1: b, v2: c, ..s };
                    proof {
                        assert(final(self)@.objects =~= set_float3_spec(
                            old(self)@,
                            h as int,
                            index,
                            a,
                            b,
                            c,
                        ).1.objects);
                    }
                    ERROR_NONE
                }
            },
        }
    }

    /// Writes a six-vector property in one call; the lanes carry no
    /// declared range.
    pub fn node_set_float6_property(
        &mut self,
        h: i32,
        index: i32,
        a: i64,
        b: i64,
        c: i64,
        d: i64,
        f: i64,
        g: i64,
    ) -> (code: i32)
        requires
            old(self)@.wf(),
        ensures
            (code, final(self)@) == set_float6_spec(old(self)@, h as int, index, a, b, c, d, f, g),
            final(self)@.wf(),
    {
        if h < 1 || h as usize > self.objects.len() {
            return ERROR_INVALID_HANDLE;
        }
        let oi = (h - 1) as usize;
        if !self.objects[oi].alive {
            return ERROR_INVALID_HANDLE;
        }
        match Self::find_slot_exec(&self.objects[oi].props, index) {
            Option::None => ERROR_INVALID_PROPERTY,
            Option::Some(i) => {
                proof {
                    lemma_find_slot_sound(self@.obj(h as int).props, index, 0);
                }
                let s = self.objects[oi].props[i];
                if !prop_kind_eq(s.kind, PropKind::PFloat6) {
                    ERROR_INVALID_PROPERTY
                } else {
                    proof {
                        assert(self@.obj(h as int).wf(self@));
                        assert(self@.obj(h as int).props[i as int].wf());
                        lemma_wf_after_slot_update(
                            self@,
                            h as int,
                            i as int,
                            Slot { v0: a, v1: b, v2: c, v3: d, v4: f, v5: g, ..s },
                        );
                    }
                    let o = &mut self.objects[oi];
                    let p = &mut o.props[i];
                    *p = Slot { v0: a, v1: b, v2: c, v3: d, v4: f, v5: g, ..s };
                    proof {
                        assert(final(self)@.objects =~= set_float6_spec(
                            old(self)@,
                            h as int,
                            index,
                            a,
                            b,
                            c,
                            d,
                            f,
                            g,
                        ).1.objects);
                    }
                    ERROR_NONE
                }
            },
        }
    }

    /// Binds a buffer (or nothing, for handle 0) to a buffer-reference
    /// property, rewinding the owner's playback position.
    pub fn node_set_buffer_property(&mut self, h: i32, index: i32, bh: i32) -> (code: i32)
        requires
            old(self)@.wf(),
        ensures
            (code, final(self)@) == set_buffer_spec(old(self)@, h as int, index, bh as int),
            final(self)@.wf(),
    {
        if h < 1 || h as usize > self.objects.len() {
            return ERROR_INVALID_HANDLE;
        }
        let oi = (h - 1) as usize;
        if !self.objects[oi].alive {
            return ERROR_INVALID_HANDLE;
        }
        if bh != 0 {
            if bh < 1 || bh as usize > self.objects.len() {
                return ERROR_INVALID_HANDLE;
            }
            let bi = (bh - 1) as usize;
            if !self.objects[bi].alive || !object_kind_eq(self.objects[bi].kind, ObjectKind::Buffer)
            {
                return ERROR_INVALID_HANDLE;
            }
        }
        match Self::find_slot_exec(&self.objects[oi].props, index) {
            Option::None => ERROR_INVALID_PROPERTY,
            Option::Some(i) => {
                proof {
                    lemma_find_slot_sound(self@.obj(h as int).props, index, 0);
                }
                let s = self.objects[oi].props[i];
                if !prop_kind_eq(s.kind, PropKind::PBuffer) {
                    ERROR_INVALID_PROPERTY
                } else {
                    let extent: i64 = if bh == 0 {
                        0
                    } else {
                        proof {
                            assert(self@.obj(bh as int).wf(self@));
                        }
                        self.objects[(bh - 1) as usize].frames as i64
                    };
                    proof {
                        assert(self@.obj(h as int).wf(self@));
                        assert(self@.obj(h as int).props[i as int].wf());
                        lemma_wf_after_slot_update(
                            self@,
                            h as int,
                            i as int,
                            Slot { ival: bh as i64, ..s },
                        );
                    }
                    let o = &mut self.objects[oi];
                    let p = &mut o.props[i];
                    *p = Slot { ival: bh as i64, ..s };
                    let ghost e1 = self@;
                    proof {
                        assert(e1.objects =~= old(self)@.with_obj(
                            h as int,
                            ObjectV {
                                props: old(self)@.obj(h as int).props.update(
                                    i as int,
                                    Slot { ival: bh as i64, ..s },
                                ),
                                ..old(self)@.obj(h as int)
                            },
                        ).objects);
                    }
                    match Self::find_slot_exec(&self.objects[oi].props, PROP_BUFFER_POSITION) {
                        Option::None => {
                            proof {
                                assert(final(self)@.objects =~= set_buffer_spec(
                                    old(self)@,
                                    h as int,
                                    index,
                                    bh as int,
                                ).1.objects);
                            }
                            ERROR_NONE
                        },
                        Option::Some(pp) => {
                            proof {
                                lemma_find_slot_sound(
                                    self@.obj(h as int).props,
                                    PROP_BUFFER_POSITION,
                                    0,
                                );
                            }
                            let ps = self.objects[oi].props[pp];
                            if prop_kind_eq(ps.kind, PropKind::PDouble) {
                                proof {
                                    assert(e1.obj(h as int).wf(e1));
                                    lemma_wf_after_slot_update(
                                        e1,
                                        h as int,
                                        pp as int,
                                        Slot { ival: 0, min: 0, max: extent, ..ps },
                                    );
                                }
                                let o2 = &mut self.objects[oi];
                                let p2 = &mut o2.props[pp];
                                *p2 = Slot { ival: 0, min: 0, max: extent, ..ps };
                            }
                            proof {
                                assert(final(self)@.objects =~= set_buffer_spec(
                                    old(self)@,
                                    h as int,
                                    index,
                                    bh as int,
                                ).1.objects);
                            }
                            ERROR_NONE
                        },
                    }
                }
            },
        }
    }
}

/// Decides equality of two object kinds.
pub fn object_kind_eq(a: ObjectKind, b: ObjectKind) -> (r: bool)
    ensures
        r <==> a == b,
{
    match (a, b) {
        (ObjectKind::Server, ObjectKind::Server) => true,
        (ObjectKind::Buffer, ObjectKind::Buffer) => true,
        (ObjectKind::BufferNode, ObjectKind::BufferNode) => true,
        (ObjectKind::GainNode, ObjectKind::GainNode) => true,
        (ObjectKind::EnvironmentNode, ObjectKind::EnvironmentNode) => true,
        (ObjectKind::SourceNode, ObjectKind::SourceNode) => true,
        (ObjectKind::FileStreamerNode, ObjectKind::FileStreamerNode) => true,
        (ObjectKind::HrtfNode, ObjectKind::HrtfNode) => true,
        (ObjectKind::MultipannerNode, ObjectKind::MultipannerNode) => true,
        (ObjectKind::PullNode, ObjectKind::PullNode) => true,
        (ObjectKind::PushNode, ObjectKind::PushNode) => true,
        (ObjectKind::AutoSource, ObjectKind::AutoSource) => true,
        _ => false,
    }
}

/// Decides equality of two property-value categories.
pub fn prop_kind_eq(a: PropKind, b: PropKind) -> (r: bool)
    ensures
        r <==> a == b,
{
    match (a, b) {
        (PropKind::PInt, PropKind::PInt) => true,
        (PropKind::PFloat, PropKind::PFloat) => true,
        (PropKind::PDouble, PropKind::PDouble) => true,
        (PropKind::PFloat3, PropKind::PFloat3) => true,
        (PropKind::PFloat6, PropKind::PFloat6) => true,
        (PropKind::PBuffer, PropKind::PBuffer) => true,
        _ => false,
    }
}

} // verus!
