//! The laws this library stands on, each proved over the engine's
//! specification-level transitions: property writes read back exactly,
//! out-of-range writes change nothing, the reference-count lifetime rule,
//! isolation's completeness, and the whole-or-nothing rejection of cyclic
//! connections.

use vstd::prelude::*;

verus! {

use crate::engine::EngineV;
use crate::engine::ObjectV;
use crate::engine::ObjectKind;
use crate::engine::PropKind;
use crate::engine::Slot;
use crate::engine::Edge;
use crate::engine::ERROR_NONE;
use crate::engine::ERROR_RANGE;
use crate::engine::ERROR_INVALID_HANDLE;
use crate::engine::ERROR_CAUSES_CYCLE;
use crate::engine::PROP_BUFFER_POSITION;
use crate::props::find_slot;
use crate::props::find_slot_from;
use crate::props::lemma_find_slot_sound;
use crate::props::get_scalar_spec;
use crate::props::set_scalar_spec;
use crate::props::read_lane_spec;
use crate::props::set_float3_spec;
use crate::props::set_float6_spec;
use crate::props::set_buffer_spec;
use crate::graph::spec_reaches;
use crate::graph::spec_live_path;
use crate::graph::retained;
use crate::graph::keep_retained_edges;
use crate::graph::sweep_spec;
use crate::graph::sweep_obj;
use crate::graph::inc_ref_spec;
use crate::graph::dec_ref_spec;
use crate::graph::lemma_sweep_preserves_wf;
use crate::connect::node_connect_spec;
use crate::connect::node_isolate_spec;
use crate::connect::lemma_wf_after_edges_replaced;
use crate::create::slot_val_or;
use crate::process::step_obj_full;
use crate::process::state_of;
use crate::nodes::properties::distance_model_property::DistanceModel;
use crate::nodes::properties::distance_model_property::spec_distance_model_to_int;
use crate::nodes::properties::distance_model_property::spec_distance_model_from_int;
use crate::nodes::properties::node_state_property::NodeState;
use crate::nodes::properties::node_state_property::spec_node_state_to_int;
use crate::nodes::properties::node_state_property::spec_node_state_from_int;
use crate::nodes::properties::panning_strategy_property::PanningStrategy;
use crate::nodes::properties::panning_strategy_property::spec_panning_strategy_to_int;
use crate::nodes::properties::panning_strategy_property::spec_panning_strategy_from_int;

/// Replacing a slot with one of the same index leaves every slot search
/// unchanged.
pub proof fn lemma_find_slot_update_same_index(
    props: Seq<Slot>,
    i: int,
    s: Slot,
    index: i32,
    j: int,
)
    requires
        0 <= i < props.len(),
        s.index == props[i].index,
    ensures
        find_slot_from(props.update(i, s), index, j) == find_slot_from(props, index, j),
    decreases props.len() - j,
{
    if !(j < 0 || j >= props.len()) {
        lemma_find_slot_update_same_index(props, i, s, index, j + 1);
    }
}

/// Round trip of every scalar property category: a write that the engine
/// accepted is exactly what a following read returns — for any value
/// inside the property's declared range, on every property of every kind
/// (integer, single, and double scalars; the boolean and enumerated views
/// travel through the integer category).
pub proof fn lemma_scalar_set_then_get(e: EngineV, h: int, index: i32, kind: PropKind, v: i64)
    requires
        e.wf(),
        set_scalar_spec(e, h, index, kind, v).0 == ERROR_NONE,
    ensures
        get_scalar_spec(set_scalar_spec(e, h, index, kind, v).1, h, index, kind) == Ok::<i64, i32>(
            v,
        ),
{
    lemma_find_slot_sound(e.obj(h).props, index, 0);
    let i = find_slot(e.obj(h).props, index)->Some_0;
    let s = e.obj(h).props[i];
    lemma_find_slot_update_same_index(e.obj(h).props, i, Slot { ival: v, ..s }, index, 0);
}

/// A write outside the declared range is rejected with the range error
/// and leaves the engine — the addressed property included — exactly as
/// it was: rejection, never silent clamping.
pub proof fn lemma_scalar_set_out_of_range_rejected(
    e: EngineV,
    h: int,
    index: i32,
    kind: PropKind,
    v: i64,
)
    requires
        e.wf(),
        e.is_alive(h),
        find_slot(e.obj(h).props, index) is Some,
        e.obj(h).props[find_slot(e.obj(h).props, index)->Some_0].kind == kind,
        v < e.obj(h).props[find_slot(e.obj(h).props, index)->Some_0].min || v > e.obj(
            h,
        ).props[find_slot(e.obj(h).props, index)->Some_0].max,
    ensures
        set_scalar_spec(e, h, index, kind, v).0 == ERROR_RANGE,
        set_scalar_spec(e, h, index, kind, v).1 == e,
{
    lemma_find_slot_sound(e.obj(h).props, index, 0);
}

/// Round trip of a three-vector property: the three lanes a successful
/// write stored are exactly what the three lane reads return.
pub proof fn lemma_float3_set_then_get(e: EngineV, h: int, index: i32, a: i64, b: i64, c: i64)
    requires
        e.wf(),
        set_float3_spec(e, h, index, a, b, c).0 == ERROR_NONE,
    ensures
        read_lane_spec(set_float3_spec(e, h, index, a, b, c).1, h, index, 0) == Ok::<i64, i32>(a),
        read_lane_spec(set_float3_spec(e, h, index, a, b, c).1, h, index, 1) == Ok::<i64, i32>(b),
        read_lane_spec(set_float3_spec(e, h, index, a, b, c).1, h, index, 2) == Ok::<i64, i32>(c),
{
    lemma_find_slot_sound(e.obj(h).props, index, 0);
    let i = find_slot(e.obj(h).props, index)->Some_0;
    let s = e.obj(h).props[i];
    lemma_find_slot_update_same_index(
        e.obj(h).props,
        i,
        Slot { v0: a, v1: b, v2: c, ..s },
        index,
        0,
    );
}

/// Round trip of a six-vector property: the six lanes a successful write
/// stored are exactly what the six lane reads return.
pub proof fn lemma_float6_set_then_get(
    e: EngineV,
    h: int,
    index: i32,
    a: i64,
    b: i64,
    c: i64,
    d: i64,
    f: i64,
    g: i64,
)
    requires
        e.wf(),
        set_float6_spec(e, h, index, a, b, c, d, f, g).0 == ERROR_NONE,
    ensures
        read_lane_spec(set_float6_spec(e, h, index, a, b, c, d, f, g).1, h, index, 0) == Ok::<
            i64,
            i32,
        >(a),
        read_lane_spec(set_float6_spec(e, h, index, a, b, c, d, f, g).1, h, index, 1) == Ok::<
            i64,
            i32,
        >(b),
        read_lane_spec(set_float6_spec(e, h, index, a, b, c, d, f, g).1, h, index, 2) == Ok::<
            i64,
            i32,
        >(c),
        read_lane_spec(set_float6_spec(e, h, index, a, b, c, d, f, g).1, h, index, 3) == Ok::<
            i64,
            i32,
        >(d),
        read_lane_spec(set_float6_spec(e, h, index, a, b, c, d, f, g).1, h, index, 4) == Ok::<
            i64,
            i32,
        >(f),
        read_lane_spec(set_float6_spec(e, h, index, a, b, c, d, f, g).1, h, index, 5) == Ok::<
            i64,
            i32,
        >(g),
{
    lemma_find_slot_sound(e.obj(h).props, index, 0);
    let i = find_slot(e.obj(h).props, index)->Some_0;
    let s = e.obj(h).props[i];
    lemma_find_slot_update_same_index(
        e.obj(h).props,
        i,
        Slot { v0: a, v1: b, v2: c, v3: d, v4: f, v5: g, ..s },
        index,
        0,
    );
}

/// Round trip of a buffer-reference property: a successful bind stores
/// the buffer's handle, and (on a slot other than the playback position
/// itself) rewinds the playback position to zero.
pub proof fn lemma_buffer_set_then_get(e: EngineV, h: int, index: i32, bh: int)
    requires
        e.wf(),
        index != PROP_BUFFER_POSITION,
        set_buffer_spec(e, h, index, bh).0 == ERROR_NONE,
    ensures
        slot_val_or(set_buffer_spec(e, h, index, bh).1.obj(h).props, index, 0) == bh as i64,
        find_slot(e.obj(h).props, PROP_BUFFER_POSITION) is Some && e.obj(h).props[find_slot(
            e.obj(h).props,
            PROP_BUFFER_POSITION,
        )->Some_0].kind == PropKind::PDouble ==> slot_val_or(
            set_buffer_spec(e, h, index, bh).1.obj(h).props,
            PROP_BUFFER_POSITION,
            0,
        ) == 0,
{
    lemma_find_slot_sound(e.obj(h).props, index, 0);
    let i = find_slot(e.obj(h).props, index)->Some_0;
    let s = e.obj(h).props[i];
    let props1 = e.obj(h).props.update(i, Slot { ival: bh as i64, ..s });
    lemma_find_slot_update_same_index(e.obj(h).props, i, Slot { ival: bh as i64, ..s }, index, 0);
    lemma_find_slot_update_same_index(
        e.obj(h).props,
        i,
        Slot { ival: bh as i64, ..s },
        PROP_BUFFER_POSITION,
        0,
    );
    match find_slot(props1, PROP_BUFFER_POSITION) {
        Option::None => {},
        Option::Some(p) => {
            lemma_find_slot_sound(props1, PROP_BUFFER_POSITION, 0);
            if props1[p].kind == PropKind::PDouble {
                let extent: i64 = if bh == 0 {
                    0
                } else {
                    e.obj(bh).frames as i64
                };
                let s2 = Slot { ival: 0, min: 0, max: extent, ..props1[p] };
                lemma_find_slot_update_same_index(props1, p, s2, PROP_BUFFER_POSITION, 0);
                lemma_find_slot_update_same_index(props1, p, s2, index, 0);
                assert(p != i);
            }
        },
    }
}

/// Writing an enumerated property through its typed view can never
/// produce a state the typed read rejects: each tag's integer reads back
/// and decodes to the same tag.
pub proof fn lemma_distance_model_round_trip(e: EngineV, h: int, index: i32, m: DistanceModel)
    requires
        e.wf(),
        set_scalar_spec(
            e,
            h,
            index,
            PropKind::PInt,
            spec_distance_model_to_int(m) as i64,
        ).0 == ERROR_NONE,
    ensures
        get_scalar_spec(
            set_scalar_spec(e, h, index, PropKind::PInt, spec_distance_model_to_int(m) as i64).1,
            h,
            index,
            PropKind::PInt,
        ) == Ok::<i64, i32>(spec_distance_model_to_int(m) as i64),
        spec_distance_model_from_int(spec_distance_model_to_int(m)) == Some(m),
{
    lemma_scalar_set_then_get(e, h, index, PropKind::PInt, spec_distance_model_to_int(m) as i64);
}

/// An integer outside the closed distance-model tag set decodes to
/// nothing — the typed read refuses it rather than defaulting.
pub proof fn lemma_unrecognized_distance_model_rejected(v: i32)
    requires
        v != 0 && v != 1 && v != 2,
    ensures
        spec_distance_model_from_int(v) is None,
{
}

/// Writing a node state through its typed view reads back and decodes to
/// the same state.
pub proof fn lemma_node_state_round_trip(e: EngineV, h: int, index: i32, m: NodeState)
    requires
        e.wf(),
        set_scalar_spec(e, h, index, PropKind::PInt, spec_node_state_to_int(m) as i64).0
            == ERROR_NONE,
    ensures
        get_scalar_spec(
            set_scalar_spec(e, h, index, PropKind::PInt, spec_node_state_to_int(m) as i64).1,
            h,
            index,
            PropKind::PInt,
        ) == Ok::<i64, i32>(spec_node_state_to_int(m) as i64),
        spec_node_state_from_int(spec_node_state_to_int(m)) == Some(m),
{
    lemma_scalar_set_then_get(e, h, index, PropKind::PInt, spec_node_state_to_int(m) as i64);
}

/// Writing a panning strategy through its typed view reads back and
/// decodes to the same strategy.
pub proof fn lemma_panning_strategy_round_trip(e: EngineV, h: int, index: i32, m: PanningStrategy)
    requires
        e.wf(),
        set_scalar_spec(e, h, index, PropKind::PInt, spec_panning_strategy_to_int(m) as i64).0
            == ERROR_NONE,
    ensures
        get_scalar_spec(
            set_scalar_spec(e, h, index, PropKind::PInt, spec_panning_strategy_to_int(m) as i64).1,
            h,
            index,
            PropKind::PInt,
        ) == Ok::<i64, i32>(spec_panning_strategy_to_int(m) as i64),
        spec_panning_strategy_from_int(spec_panning_strategy_to_int(m)) == Some(m),
{
    lemma_scalar_set_then_get(e, h, index, PropKind::PInt, spec_panning_strategy_to_int(m) as i64);
}

/// A live path within some hop budget stays one within any larger budget.
pub proof fn lemma_live_path_monotone(e: EngineV, h: int, k: nat, m: nat)
    requires
        spec_live_path(e, h, k),
        k <= m,
    ensures
        spec_live_path(e, h, m),
    decreases k,
{
    if !(e.obj(h).ext_refs > 0) {
        let j = choose|j: int|
            0 <= j < e.obj(h).edges.len() && spec_live_path(
                e,
                (#[trigger] e.obj(h).edges[j]).dest as int,
                (k - 1) as nat,
            );
        lemma_live_path_monotone(e, e.obj(h).edges[j].dest as int, (k - 1) as nat, (m - 1) as nat);
        assert(spec_live_path(e, e.obj(h).edges[j].dest as int, (m - 1) as nat));
    }
}

/// A live path survives the sweep: every object on it is retained, so
/// every connection on it is kept.
pub proof fn lemma_live_path_after_sweep(e: EngineV, h: int, fuel: nat)
    requires
        e.wf(),
        fuel <= e.objects.len(),
        spec_live_path(e, h, fuel),
    ensures
        spec_live_path(sweep_spec(e), h, fuel),
    decreases fuel,
{
    let e2 = sweep_spec(e);
    lemma_live_path_monotone(e, h, fuel, e.objects.len() as nat);
    assert(retained(e, h));
    assert(e2.obj(h) == sweep_obj(e, h - 1));
    assert(e2.obj(h).alive);
    if e.obj(h).ext_refs > 0 {
        assert(e2.obj(h).ext_refs > 0);
    } else {
        let j = choose|j: int|
            0 <= j < e.obj(h).edges.len() && spec_live_path(
                e,
                (#[trigger] e.obj(h).edges[j]).dest as int,
                (fuel - 1) as nat,
            );
        let d = e.obj(h).edges[j].dest as int;
        lemma_live_path_monotone(e, d, (fuel - 1) as nat, e.objects.len() as nat);
        crate::graph::lemma_keep_retained_edges_complete(e, e.obj(h).edges, j);
        assert(e2.obj(h).edges == keep_retained_edges(e, e.obj(h).edges));
        let w = choose|w: int|
            0 <= w < e2.obj(h).edges.len() && e2.obj(h).edges[w] == e.obj(h).edges[j];
        lemma_live_path_after_sweep(e, d, (fuel - 1) as nat);
        assert(spec_live_path(e2, (e2.obj(h).edges[w]).dest as int, (fuel - 1) as nat));
    }
}

/// The sweep is exact and stable: it destroys precisely the objects the
/// engine no longer retains, and everything that survives is still
/// retained afterwards — one sweep never makes another necessary.
pub proof fn lemma_sweep_is_exact_and_stable(e: EngineV)
    requires
        e.wf(),
    ensures
        forall|h: int| #[trigger] sweep_spec(e).is_alive(h) <==> e.is_alive(h) && retained(e, h),
        forall|h: int| #[trigger] sweep_spec(e).is_alive(h) ==> retained(sweep_spec(e), h),
{
    let e2 = sweep_spec(e);
    assert forall|h: int| #[trigger] e2.is_alive(h) implies e.is_alive(h) && retained(e, h) by {
        assert(e2.obj(h) == sweep_obj(e, h - 1));
    }
    assert forall|h: int| e.is_alive(h) && retained(e, h) implies #[trigger] e2.is_alive(h) by {
        assert(e2.obj(h) == sweep_obj(e, h - 1));
    }
    assert forall|h: int| #[trigger] e2.is_alive(h) implies retained(e2, h) by {
        assert(e2.obj(h) == sweep_obj(e, h - 1));
        assert(retained(e, h));
        lemma_live_path_after_sweep(e, h, e.objects.len() as nat);
    }
}

/// The sweep leaves an externally referenced, connectionless object
/// exactly as it is.
pub proof fn lemma_sweep_keeps_lone_object(e: EngineV, h: int)
    requires
        e.wf(),
        e.is_alive(h),
        e.obj(h).ext_refs > 0,
        e.obj(h).edges.len() == 0,
    ensures
        sweep_spec(e).is_alive(h),
        sweep_spec(e).obj(h) == e.obj(h),
{
    assert(spec_live_path(e, h, e.objects.len() as nat));
    assert(sweep_spec(e).obj(h) == sweep_obj(e, h - 1));
    assert(e.obj(h).edges =~= Seq::<Edge>::empty());
    assert(keep_retained_edges(e, e.obj(h).edges) =~= e.obj(h).edges);
    assert(sweep_obj(e, h - 1) == ObjectV {
        edges: keep_retained_edges(e, e.obj(h).edges),
        ..e.obj(h)
    });
}

/// How many times external references on `h` have been taken, applied as
/// iterated engine transitions.
pub open spec fn inc_n(e: EngineV, h: int, k: nat) -> EngineV
    decreases k,
{
    if k == 0 {
        e
    } else {
        inc_ref_spec(inc_n(e, h, (k - 1) as nat), h).1
    }
}

/// How many times external references on `h` have been released, applied
/// as iterated engine transitions.
pub open spec fn dec_n(e: EngineV, h: int, k: nat) -> EngineV
    decreases k,
{
    if k == 0 {
        e
    } else {
        dec_ref_spec(dec_n(e, h, (k - 1) as nat), h).1
    }
}

/// Taking `k` references on a live, connectionless object raises its
/// count by `k` and changes nothing else.
pub proof fn lemma_inc_n_state(e: EngineV, h: int, k: nat)
    requires
        e.wf(),
        e.is_alive(h),
        e.obj(h).ext_refs + k <= u64::MAX,
    ensures
        inc_n(e, h, k) == e.with_obj(
            h,
            ObjectV { ext_refs: (e.obj(h).ext_refs + k) as u64, ..e.obj(h) },
        ),
        inc_n(e, h, k).wf(),
    decreases k,
{
    if k == 0 {
        assert(inc_n(e, h, 0) == e);
        assert(e.objects =~= e.objects.update(h - 1, e.obj(h)));
        assert(e.with_obj(h, ObjectV { ext_refs: e.obj(h).ext_refs, ..e.obj(h) }) == e);
    } else {
        lemma_inc_n_state(e, h, (k - 1) as nat);
        let ek = inc_n(e, h, (k - 1) as nat);
        assert(ek.is_alive(h));
        let e2 = inc_ref_spec(ek, h).1;
        assert(e2.objects =~= e.objects.update(
            h - 1,
            ObjectV { ext_refs: (e.obj(h).ext_refs + k) as u64, ..e.obj(h) },
        ));
        assert forall|j: int| 0 <= j < e2.objects.len() implies (#[trigger] e2.objects[j]).wf(
            e2,
        ) by {
            assert(e.objects[j].wf(e));
        }
    }
}

/// Releasing up to all-but-one of the references on a live,
/// connectionless object keeps it alive with the expected count.
pub proof fn lemma_dec_n_alive(e: EngineV, h: int, k: nat)
    requires
        e.wf(),
        e.is_alive(h),
        e.obj(h).edges.len() == 0,
        k < e.obj(h).ext_refs,
    ensures
        dec_n(e, h, k).wf(),
        dec_n(e, h, k).is_alive(h),
        dec_n(e, h, k).obj(h).ext_refs == e.obj(h).ext_refs - k,
        dec_n(e, h, k).obj(h).edges.len() == 0,
        dec_n(e, h, k).objects.len() == e.objects.len(),
    decreases k,
{
    if k > 0 {
        lemma_dec_n_alive(e, h, (k - 1) as nat);
        let ek = dec_n(e, h, (k - 1) as nat);
        let e1 = ek.with_obj(h, ObjectV { ext_refs: (ek.obj(h).ext_refs - 1) as u64, ..ek.obj(h) });
        assert forall|j: int| 0 <= j < e1.objects.len() implies (#[trigger] e1.objects[j]).wf(
            e1,
        ) by {
            assert(ek.objects[j].wf(ek));
        }
        assert(e1.obj(h).ext_refs == e.obj(h).ext_refs - k);
        assert(e1.obj(h).ext_refs > 0);
        lemma_sweep_keeps_lone_object(e1, h);
        lemma_sweep_preserves_wf(e1);
        assert(dec_n(e, h, k) == sweep_spec(e1));
    }
}

/// The reference-count lifetime law: after `n` clones of a wrapper on a
/// live, connectionless object holding one reference, the object survives
/// any `n` releases; the release after that destroys it — exactly once,
/// since every further release is rejected as a stale handle.
pub proof fn lemma_handle_refcount_law(e: EngineV, h: int, n: nat)
    requires
        e.wf(),
        e.is_alive(h),
        e.obj(h).edges.len() == 0,
        e.obj(h).ext_refs == 1,
        n + 1 <= u64::MAX,
    ensures
        forall|k: nat| k <= n ==> (#[trigger] dec_n(inc_n(e, h, n), h, k)).is_alive(h),
        !dec_n(inc_n(e, h, n), h, n + 1).is_alive(h),
        dec_ref_spec(dec_n(inc_n(e, h, n), h, n + 1), h).0 == ERROR_INVALID_HANDLE,
{
    lemma_inc_n_state(e, h, n);
    let s = inc_n(e, h, n);
    assert(s.is_alive(h) && s.obj(h).ext_refs == n + 1 && s.obj(h).edges.len() == 0);
    assert(s.obj(h).edges =~= Seq::<Edge>::empty());
    assert forall|k: nat| k <= n implies (#[trigger] dec_n(s, h, k)).is_alive(h) by {
        lemma_dec_n_alive(s, h, k);
    }
    lemma_dec_n_alive(s, h, n);
    let en = dec_n(s, h, n);
    assert(en.obj(h).ext_refs == 1);
    let e1 = en.with_obj(h, ObjectV { ext_refs: 0u64, ..en.obj(h) });
    assert forall|j: int| 0 <= j < e1.objects.len() implies (#[trigger] e1.objects[j]).wf(e1) by {
        assert(en.objects[j].wf(en));
    }
    assert(dec_n(s, h, n + 1) == sweep_spec(e1));
    assert(!spec_live_path(e1, h, e1.objects.len() as nat));
    assert(sweep_spec(e1).obj(h) == sweep_obj(e1, h - 1));
    assert(!sweep_spec(e1).obj(h).alive);
}

/// Isolation is complete: a single isolate call on a node the caller
/// still references severs every output connection, so its output
/// connection count reads zero and no destination is connected to it any
/// longer — while the node itself stays alive with its properties.
pub proof fn lemma_isolate_clears_outputs(e: EngineV, h: int)
    requires
        e.wf(),
        e.is_live_node(h),
        e.obj(h).ext_refs >= 1,
    ensures
        node_isolate_spec(e, h).0 == ERROR_NONE,
        node_isolate_spec(e, h).1.is_alive(h),
        node_isolate_spec(e, h).1.obj(h).edges.len() == 0,
        node_isolate_spec(e, h).1.obj(h).props == e.obj(h).props,
{
    let e1 = e.with_obj(h, ObjectV { edges: Seq::empty(), ..e.obj(h) });
    lemma_wf_after_edges_replaced(e, h, Seq::empty());
    lemma_sweep_keeps_lone_object(e1, h);
}

/// An isolated node no longer contributes samples anywhere: once its
/// outputs are severed, a playing buffer node is skipped whole by block
/// processing — its position and ended count stay put.
pub proof fn lemma_isolated_node_is_still(e: EngineV, h: int, sh: int)
    requires
        e.wf(),
        e.is_live_node(h),
        e.obj(h).ext_refs >= 1,
        e.obj(h).kind == ObjectKind::BufferNode,
        state_of(e.obj(h)) == 1,
        e.valid_handle(sh),
        e.obj(sh).kind == ObjectKind::Server,
    ensures
        step_obj_full(node_isolate_spec(e, h).1, h, sh).0 == node_isolate_spec(e, h).1.obj(h),
{
    lemma_isolate_clears_outputs(e, h);
    let e2 = node_isolate_spec(e, h).1;
    assert(e2.obj(h).kind == ObjectKind::BufferNode && e2.obj(sh).kind == ObjectKind::Server);
    assert(h != sh);
    assert(!spec_reaches(e2, h, sh, e2.objects.len() as nat));
    assert(state_of(e2.obj(h)) == 1);
}

/// A cyclic connection is rejected whole: after connecting `a` to `b`,
/// the reverse connection `b` to `a` fails with the cycle error and
/// installs nothing — no partial edge is left behind.
pub proof fn lemma_direct_cycle_rejected(
    e: EngineV,
    a: int,
    o1: i32,
    b: int,
    i1: i32,
    o2: i32,
    i2: i32,
)
    requires
        e.wf(),
        node_connect_spec(e, a, o1, b, i1).0 == ERROR_NONE,
        e.obj(b).edges.len() < u32::MAX,
    ensures
        node_connect_spec(node_connect_spec(e, a, o1, b, i1).1, b, o2, a, i2).0
            == ERROR_CAUSES_CYCLE,
        node_connect_spec(node_connect_spec(e, a, o1, b, i1).1, b, o2, a, i2).1
            == node_connect_spec(e, a, o1, b, i1).1,
{
    let e1 = node_connect_spec(e, a, o1, b, i1).1;
    assert(a != b) by {
        if a == b {
            assert(spec_reaches(e, b, a, e.objects.len() as nat));
        }
    }
    let n = e1.objects.len() as nat;
    assert(n >= 1);
    let k = e.obj(a).edges.len();
    assert(e1.obj(a).edges[k as int] == Edge { output: o1, dest: b as i32, input: i1, to_input: true });
    assert(spec_reaches(e1, b, b, (n - 1) as nat));
    assert(spec_reaches(e1, a, b, n));
}

} // verus!

