//! The node-graph connection protocol: edges between nodes, edges into the
//! server's final mix, edges into automatable properties, disconnection and
//! isolation, and the fan-in/fan-out queries. A connection that would make
//! the processing graph cyclic is rejected whole — no partial edge is ever
//! left installed.

use vstd::prelude::*;

verus! {

use crate::engine::Engine;
use crate::engine::EngineV;
use crate::engine::ObjectV;
use crate::engine::ObjectKind;
use crate::engine::PropKind;
use crate::engine::Edge;
use crate::engine::ERROR_NONE;
use crate::engine::ERROR_UNKNOWN;
use crate::engine::ERROR_INVALID_HANDLE;
use crate::engine::ERROR_INVALID_PROPERTY;
use crate::engine::ERROR_RANGE;
use crate::engine::ERROR_CAUSES_CYCLE;
use crate::graph::spec_reaches;
use crate::graph::sweep_spec;
use crate::props::find_slot;
use crate::props::lemma_find_slot_sound;
use crate::props::object_kind_eq;
use crate::props::prop_kind_eq;

/// Adding one edge from a live node to a live destination keeps the engine
/// well formed.
pub proof fn lemma_wf_after_edge_push(e: EngineV, src: int, ed: Edge)
    requires
        e.wf(),
        e.is_alive(src),
        e.is_alive(ed.dest as int),
        e.obj(ed.dest as int).kind != ObjectKind::AutoSource,
        e.obj(src).edges.len() < u32::MAX,
    ensures
        e.with_obj(src, ObjectV { edges: e.obj(src).edges.push(ed), ..e.obj(src) }).wf(),
{
    let e2 = e.with_obj(src, ObjectV { edges: e.obj(src).edges.push(ed), ..e.obj(src) });
    assert forall|j: int| 0 <= j < e2.objects.len() implies (#[trigger] e2.objects[j]).wf(e2) by {
        assert(e.objects[j].wf(e));
        if j == src - 1 {
            let o2 = e2.objects[j];
            assert forall|k: int| 0 <= k < o2.edges.len() implies e2.is_alive(
                (#[trigger] o2.edges[k]).dest as int,
            ) && e2.obj(o2.edges[k].dest as int).kind != ObjectKind::AutoSource by {
                if k < e.obj(src).edges.len() {
                    assert(e.is_alive(e.obj(src).edges[k].dest as int));
                    assert(e.obj(e.obj(src).edges[k].dest as int).kind != ObjectKind::AutoSource);
                } else {
                    assert(o2.edges[k] == ed);
                }
            }
        } else {
            assert forall|k: int| 0 <= k < e2.objects[j].edges.len() implies e2.is_alive(
                (#[trigger] e2.objects[j].edges[k]).dest as int,
            ) && e2.obj(e2.objects[j].edges[k].dest as int).kind != ObjectKind::AutoSource by {
                assert(e.is_alive(e.objects[j].edges[k].dest as int));
                assert(e.obj(e.objects[j].edges[k].dest as int).kind != ObjectKind::AutoSource);
            }
        }
    }
}

/// Removing edges from one object keeps the engine well formed.
pub proof fn lemma_wf_after_edges_replaced(e: EngineV, src: int, edges: Seq<Edge>)
    requires
        e.wf(),
        e.is_alive(src),
        edges.len() <= u32::MAX,
        forall|k: int| 0 <= k < edges.len() ==> e.is_alive((#[trigger] edges[k]).dest as int)
            && e.obj(edges[k].dest as int).kind != ObjectKind::AutoSource,
    ensures
        e.with_obj(src, ObjectV { edges: edges, ..e.obj(src) }).wf(),
{
    let e2 = e.with_obj(src, ObjectV { edges: edges, ..e.obj(src) });
    assert forall|j: int| 0 <= j < e2.objects.len() implies (#[trigger] e2.objects[j]).wf(e2) by {
        assert(e.objects[j].wf(e));
        if j != src - 1 {
            assert forall|k: int| 0 <= k < e2.objects[j].edges.len() implies e2.is_alive(
                (#[trigger] e2.objects[j].edges[k]).dest as int,
            ) && e2.obj(e2.objects[j].edges[k].dest as int).kind != ObjectKind::AutoSource by {
                assert(e.is_alive(e.objects[j].edges[k].dest as int));
                assert(e.obj(e.objects[j].edges[k].dest as int).kind != ObjectKind::AutoSource);
            }
        }
    }
}

/// What connecting an output of `src` to an input of `dst` does: the edge
/// is installed unless a handle is stale, or the destination could already
/// reach the source — the cycle case, which installs nothing.
pub open spec fn node_connect_spec(e: EngineV, src: int, output: i32, dst: int, input: i32) -> (
    i32,
    EngineV,
) {
    if !e.is_live_node(src) {
        (ERROR_INVALID_HANDLE, e)
    } else if !e.is_live_node(dst) {
        (ERROR_INVALID_HANDLE, e)
    } else if e.obj(src).edges.len() >= u32::MAX {
        (ERROR_UNKNOWN, e)
    } else if spec_reaches(e, dst, src, e.objects.len() as nat) {
        (ERROR_CAUSES_CYCLE, e)
    } else {
        (
            ERROR_NONE,
            e.with_obj(
                src,
                ObjectV {
                    edges: e.obj(src).edges.push(
                        Edge { output, dest: dst as i32, input, to_input: true },
                    ),
                    ..e.obj(src)
                },
            ),
        )
    }
}

/// What connecting an output of `src` to an automatable scalar property of
/// `dst` does.
pub open spec fn node_connect_property_spec(
    e: EngineV,
    src: int,
    output: i32,
    dst: int,
    slot: i32,
) -> (i32, EngineV) {
    if !e.is_live_node(src) {
        (ERROR_INVALID_HANDLE, e)
    } else if !e.is_live_node(dst) {
        (ERROR_INVALID_HANDLE, e)
    } else if !(match find_slot(e.obj(dst).props, slot) {
        Option::None => false,
        Option::Some(i) => e.obj(dst).props[i].kind == PropKind::PFloat || e.obj(dst).props[i].kind
            == PropKind::PDouble,
    }) {
        (ERROR_INVALID_PROPERTY, e)
    } else if e.obj(src).edges.len() >= u32::MAX {
        (ERROR_UNKNOWN, e)
    } else if spec_reaches(e, dst, src, e.objects.len() as nat) {
        (ERROR_CAUSES_CYCLE, e)
    } else {
        (
            ERROR_NONE,
            e.with_obj(
                src,
                ObjectV {
                    edges: e.obj(src).edges.push(
                        Edge { output, dest: dst as i32, input: slot, to_input: false },
                    ),
                    ..e.obj(src)
                },
            ),
        )
    }
}

/// What connecting an output of `src` to the final mix of its server does.
pub open spec fn node_connect_server_spec(e: EngineV, src: int, output: i32) -> (i32, EngineV) {
    if !e.is_live_node(src) {
        (ERROR_INVALID_HANDLE, e)
    } else if !(e.is_alive(e.obj(src).server as int) && e.obj(e.obj(src).server as int).kind
        == ObjectKind::Server) {
        (ERROR_INVALID_HANDLE, e)
    } else if e.obj(src).edges.len() >= u32::MAX {
        (ERROR_UNKNOWN, e)
    } else if spec_reaches(e, e.obj(src).server as int, src, e.objects.len() as nat) {
        (ERROR_CAUSES_CYCLE, e)
    } else {
        (
            ERROR_NONE,
            e.with_obj(
                src,
                ObjectV {
                    edges: e.obj(src).edges.push(
                        Edge { output, dest: e.obj(src).server, input: 0, to_input: true },
                    ),
                    ..e.obj(src)
                },
            ),
        )
    }
}

/// Whether an edge is the input connection named by (output, dst, input).
pub open spec fn edge_matches(ed: Edge, output: i32, dst: int, input: i32) -> bool {
    ed.to_input && ed.output == output && ed.dest == dst && ed.input == input
}

/// The edges of `edges` that are not the input connection named by
/// (output, dst, input).
pub open spec fn edges_without(edges: Seq<Edge>, output: i32, dst: int, input: i32) -> Seq<Edge>
    decreases edges.len(),
{
    if edges.len() == 0 {
        Seq::empty()
    } else {
        let rest = edges_without(edges.drop_last(), output, dst, input);
        if edge_matches(edges.last(), output, dst, input) {
            rest
        } else {
            rest.push(edges.last())
        }
    }
}

/// What remains after removal is a sub-multiset of what was there: nothing
/// grows and every survivor was present.
pub proof fn lemma_edges_without_sound(edges: Seq<Edge>, output: i32, dst: int, input: i32)
    ensures
        edges_without(edges, output, dst, input).len() <= edges.len(),
        forall|k: int| 0 <= k < edges_without(edges, output, dst, input).len() ==> edges.contains(
            #[trigger] edges_without(edges, output, dst, input)[k],
        ),
    decreases edges.len(),
{
    if edges.len() > 0 {
        lemma_edges_without_sound(edges.drop_last(), output, dst, input);
        let rest = edges_without(edges.drop_last(), output, dst, input);
        assert forall|k: int| 0 <= k < rest.len() implies edges.contains(rest[k]) by {
            assert(edges.drop_last().contains(rest[k]));
            let j = choose|j: int|
                0 <= j < edges.drop_last().len() && edges.drop_last()[j] == rest[k];
            assert(edges[j] == rest[k]);
        }
        if !edge_matches(edges.last(), output, dst, input) {
            assert(edges.contains(edges.last()));
        }
    }
}

/// What disconnecting the input connection named by (output, dst, input)
/// does: every matching edge is removed, and whatever the removal leaves
/// unretained is destroyed; naming no existing connection is an error.
pub open spec fn node_disconnect_spec(e: EngineV, src: int, output: i32, dst: int, input: i32) -> (
    i32,
    EngineV,
) {
    if !e.is_live_node(src) {
        (ERROR_INVALID_HANDLE, e)
    } else if edges_without(e.obj(src).edges, output, dst, input).len() == e.obj(
        src,
    ).edges.len() {
        (ERROR_RANGE, e)
    } else {
        (
            ERROR_NONE,
            sweep_spec(
                e.with_obj(
                    src,
                    ObjectV {
                        edges: edges_without(e.obj(src).edges, output, dst, input),
                        ..e.obj(src)
                    },
                ),
            ),
        )
    }
}

/// What isolating a node does: every outgoing connection is severed in one
/// step, and whatever that leaves unretained is destroyed.
pub open spec fn node_isolate_spec(e: EngineV, h: int) -> (i32, EngineV) {
    if !e.is_live_node(h) {
        (ERROR_INVALID_HANDLE, e)
    } else {
        (
            ERROR_NONE,
            sweep_spec(e.with_obj(h, ObjectV { edges: Seq::empty(), ..e.obj(h) })),
        )
    }
}

/// What resetting a node does: internal processing state is restored
/// without touching any property — a push node forgets its queued audio,
/// other kinds hold no modeled processing state.
pub open spec fn node_reset_spec(e: EngineV, h: int) -> (i32, EngineV) {
    if !e.is_alive(h) {
        (ERROR_INVALID_HANDLE, e)
    } else if e.obj(h).kind == ObjectKind::PushNode {
        (ERROR_NONE, e.with_obj(h, ObjectV { frames: 0, ..e.obj(h) }))
    } else {
        (ERROR_NONE, e)
    }
}

/// The number of input connections arriving at `h` from the first `n`
/// objects of the table.
pub open spec fn count_inputs_upto(e: EngineV, h: int, n: int) -> int
    decreases n,
{
    if n <= 0 {
        0
    } else {
        count_inputs_upto(e, h, n - 1) + count_edges_to(e.objects[n - 1].edges, h)
    }
}

/// The number of input connections to `h` among `edges`.
pub open spec fn count_edges_to(edges: Seq<Edge>, h: int) -> int
    decreases edges.len(),
{
    if edges.len() == 0 {
        0
    } else {
        count_edges_to(edges.drop_last(), h) + (if edges.last().to_input && edges.last().dest == h {
            1int
        } else {
            0int
        })
    }
}

/// A per-object edge count never exceeds the edge-list length.
pub proof fn lemma_count_edges_to_bound(edges: Seq<Edge>, h: int)
    ensures
        0 <= count_edges_to(edges, h) <= edges.len(),
    decreases edges.len(),
{
    if edges.len() > 0 {
        lemma_count_edges_to_bound(edges.drop_last(), h);
    }
}

impl Engine {
    /// Connects an output of `src` to an input of `dst`; rejected whole if
    /// the edge would make the graph cyclic.
    pub fn node_connect(&mut self, src: i32, output: i32, dst: i32, input: i32) -> (code: i32)
        requires
            old(self)@.wf(),
        ensures
            (code, final(self)@) == node_connect_spec(
                old(self)@,
                src as int,
                output,
                dst as int,
                input,
            ),
            final(self)@.wf(),
    {
        if !self.live_node_check(src) {
            return ERROR_INVALID_HANDLE;
        }
        if !self.live_node_check(dst) {
            return ERROR_INVALID_HANDLE;
        }
        let oi = (src - 1) as usize;
        if self.objects[oi].edges.len() >= u32::MAX as usize {
            return ERROR_UNKNOWN;
        }
        let fuel = self.objects.len() as u32;
        if self.reaches_exec(dst, src, fuel) {
            return ERROR_CAUSES_CYCLE;
        }
        let ed = Edge { output, dest: dst, input, to_input: true };
        proof {
            lemma_wf_after_edge_push(self@, src as int, ed);
        }
        let o = &mut self.objects[oi];
        o.edges.push(ed);
        proof {
            assert(self@.objects =~= node_connect_spec(
                old(self)@,
                src as int,
                output,
                dst as int,
                input,
            ).1.objects);
        }
        ERROR_NONE
    }

    /// Connects an output of `src` to the automatable scalar property
    /// `slot` of `dst`.
    pub fn node_connect_property(&mut self, src: i32, output: i32, dst: i32, slot: i32) -> (code:
        i32)
        requires
            old(self)@.wf(),
        ensures
            (code, final(self)@) == node_connect_property_spec(
                old(self)@,
                src as int,
                output,
                dst as int,
                slot,
            ),
            final(self)@.wf(),
    {
        if !self.live_node_check(src) {
            return ERROR_INVALID_HANDLE;
        }
        if !self.live_node_check(dst) {
            return ERROR_INVALID_HANDLE;
        }
        let automatable = match Self::find_slot_exec(&self.objects[(dst - 1) as usize].props, slot) {
            Option::None => false,
            Option::Some(i) => {
                proof {
                    lemma_find_slot_sound(self@.obj(dst as int).props, slot, 0);
                }
                let k = self.objects[(dst - 1) as usize].props[i].kind;
                prop_kind_eq(k, PropKind::PFloat) || prop_kind_eq(k, PropKind::PDouble)
            },
        };
        if !automatable {
            return ERROR_INVALID_PROPERTY;
        }
        let oi = (src - 1) as usize;
        if self.objects[oi].edges.len() >= u32::MAX as usize {
            return ERROR_UNKNOWN;
        }
        let fuel = self.objects.len() as u32;
        if self.reaches_exec(dst, src, fuel) {
            return ERROR_CAUSES_CYCLE;
        }
        let ed = Edge { output, dest: dst, input: slot, to_input: false };
        proof {
            lemma_wf_after_edge_push(self@, src as int, ed);
        }
        let o = &mut self.objects[oi];
        o.edges.push(ed);
        proof {
            assert(self@.objects =~= node_connect_property_spec(
                old(self)@,
                src as int,
                output,
                dst as int,
                slot,
            ).1.objects);
        }
        ERROR_NONE
    }

    /// Connects an output of `src` to its server's final mix — the one way
    /// a node's audio reaches the output device, and the anchor that keeps
    /// connected nodes alive without external references.
    pub fn node_connect_server(&mut self, src: i32, output: i32) -> (code: i32)
        requires
            old(self)@.wf(),
        ensures
            (code, final(self)@) == node_connect_server_spec(old(self)@, src as int, output),
            final(self)@.wf(),
    {
        if !self.live_node_check(src) {
            return ERROR_INVALID_HANDLE;
        }
        let oi = (src - 1) as usize;
        let sv = self.objects[oi].server;
        if sv < 1 || sv as usize > self.objects.len() {
            return ERROR_INVALID_HANDLE;
        }
        if !self.objects[(sv - 1) as usize].alive || !object_kind_eq(
            self.objects[(sv - 1) as usize].kind,
            ObjectKind::Server,
        ) {
            return ERROR_INVALID_HANDLE;
        }
        if self.objects[oi].edges.len() >= u32::MAX as usize {
            return ERROR_UNKNOWN;
        }
        let fuel = self.objects.len() as u32;
        if self.reaches_exec(sv, src, fuel) {
            return ERROR_CAUSES_CYCLE;
        }
        let ed = Edge { output, dest: sv, input: 0, to_input: true };
        proof {
            lemma_wf_after_edge_push(self@, src as int, ed);
        }
        let o = &mut self.objects[oi];
        o.edges.push(ed);
        proof {
            assert(self@.objects =~= node_connect_server_spec(
                old(self)@,
                src as int,
                output,
            ).1.objects);
        }
        ERROR_NONE
    }

    /// Severs the input connection named by (output, dst, input); whatever
    /// the removal leaves unretained is destroyed.
    pub fn node_disconnect(&mut self, src: i32, output: i32, dst: i32, input: i32) -> (code: i32)
        requires
            old(self)@.wf(),
        ensures
            (code, final(self)@) == node_disconnect_spec(
                old(self)@,
                src as int,
                output,
                dst as int,
                input,
            ),
            final(self)@.wf(),
    {
        if !self.live_node_check(src) {
            return ERROR_INVALID_HANDLE;
        }
        let oi = (src - 1) as usize;
        let m = self.objects[oi].edges.len();
        let mut kept: Vec<Edge> = Vec::new();
        let mut k: usize = 0;
        while k < m
            invariant
                self@.wf(),
                0 <= k <= m,
                1 <= src,
                oi == src - 1,
                oi < self.objects.len(),
                m == self@.obj(src as int).edges.len(),
                kept@ == edges_without(
                    self@.obj(src as int).edges.take(k as int),
                    output,
                    dst as int,
                    input,
                ),
            decreases m - k,
        {
            let ed = self.objects[oi].edges[k];
            proof {
                assert(self@.obj(src as int).edges.take(k + 1).drop_last() =~= self@.obj(
                    src as int,
                ).edges.take(k as int));
            }
            if !(ed.to_input && ed.output == output && ed.dest == dst && ed.input == input) {
                kept.push(ed);
            }
            k = k + 1;
        }
        proof {
            assert(self@.obj(src as int).edges.take(m as int) =~= self@.obj(src as int).edges);
        }
        if kept.len() == m {
            return ERROR_RANGE;
        }
        proof {
            lemma_edges_without_sound(self@.obj(src as int).edges, output, dst as int, input);
            assert forall|j: int| 0 <= j < kept@.len() implies self@.is_alive(
                (#[trigger] kept@[j]).dest as int,
            ) && self@.obj(kept@[j].dest as int).kind != ObjectKind::AutoSource by {
                assert(self@.obj(src as int).edges.contains(kept@[j]));
                let w = choose|w: int|
                    0 <= w < self@.obj(src as int).edges.len() && self@.obj(src as int).edges[w]
                        == kept@[j];
                assert(self@.obj(src as int).wf(self@));
                assert(self@.is_alive(self@.obj(src as int).edges[w].dest as int));
            }
            lemma_wf_after_edges_replaced(self@, src as int, kept@);
        }
        let o = &mut self.objects[oi];
        o.edges = kept;
        proof {
            assert(self@.objects =~= old(self)@.with_obj(
                src as int,
                ObjectV {
                    edges: edges_without(
                        old(self)@.obj(src as int).edges,
                        output,
                        dst as int,
                        input,
                    ),
                    ..old(self)@.obj(src as int)
                },
            ).objects);
        }
        self.sweep();
        ERROR_NONE
    }

    /// Severs every outgoing connection of a node in one step; the node
    /// keeps its state and properties but no longer influences the mix.
    pub fn node_isolate(&mut self, h: i32) -> (code: i32)
        requires
            old(self)@.wf(),
        ensures
            (code, final(self)@) == node_isolate_spec(old(self)@, h as int),
            final(self)@.wf(),
    {
        if !self.live_node_check(h) {
            return ERROR_INVALID_HANDLE;
        }
        let oi = (h - 1) as usize;
        proof {
            lemma_wf_after_edges_replaced(self@, h as int, Seq::empty());
        }
        let o = &mut self.objects[oi];
        o.edges = Vec::new();
        proof {
            assert(self@.objects[h - 1].edges =~= Seq::<Edge>::empty());
            assert(self@.objects =~= old(self)@.with_obj(
                h as int,
                ObjectV { edges: Seq::empty(), ..old(self)@.obj(h as int) },
            ).objects);
        }
        self.sweep();
        ERROR_NONE
    }

    /// Restores a node's internal processing state without touching its
    /// properties.
    pub fn node_reset(&mut self, h: i32) -> (code: i32)
        requires
            old(self)@.wf(),
        ensures
            (code, final(self)@) == node_reset_spec(old(self)@, h as int),
            final(self)@.wf(),
    {
        if h < 1 || h as usize > self.objects.len() {
            return ERROR_INVALID_HANDLE;
        }
        let oi = (h - 1) as usize;
        if !self.objects[oi].alive {
            return ERROR_INVALID_HANDLE;
        }
        if object_kind_eq(self.objects[oi].kind, ObjectKind::PushNode) {
            let o = &mut self.objects[oi];
            o.frames = 0;
            proof {
                assert(self@.objects =~= node_reset_spec(old(self)@, h as int).1.objects);
                assert forall|j: int| 0 <= j < self@.objects.len() implies (
                #[trigger] self@.objects[j]).wf(self@) by {
                    assert(old(self)@.objects[j].wf(old(self)@));
                }
            }
        }
        ERROR_NONE
    }

    /// How many connections arrive at this object's inputs.
    pub fn node_get_input_connection_count(&self, h: i32) -> (r: Result<u32, i32>)
        requires
            self@.wf(),
        ensures
            !self@.is_alive(h as int) ==> r == Err::<u32, i32>(ERROR_INVALID_HANDLE),
            self@.is_alive(h as int) && count_inputs_upto(
                self@,
                h as int,
                self@.objects.len() as int,
            ) <= u32::MAX ==> (r matches Ok(c) && c == count_inputs_upto(
                self@,
                h as int,
                self@.objects.len() as int,
            )),
            self@.is_alive(h as int) && count_inputs_upto(
                self@,
                h as int,
                self@.objects.len() as int,
            ) > u32::MAX ==> r == Err::<u32, i32>(ERROR_UNKNOWN),
    {
        if h < 1 || h as usize > self.objects.len() {
            return Err(ERROR_INVALID_HANDLE);
        }
        if !self.objects[(h - 1) as usize].alive {
            return Err(ERROR_INVALID_HANDLE);
        }
        let n = self.objects.len();
        let mut total: u64 = 0;
        let mut i: usize = 0;
        while i < n
            invariant
                self@.wf(),
                n == self.objects.len(),
                n <= i32::MAX,
                0 <= i <= n,
                total == count_inputs_upto(self@, h as int, i as int),
                total <= (i as u64) * (u32::MAX as u64),
            decreases n - i,
        {
            let edges = &self.objects[i].edges;
            let m = edges.len();
            let mut sub: u64 = 0;
            let mut k: usize = 0;
            while k < m
                invariant
                    self@.wf(),
                    0 <= i < n,
                    n == self.objects.len(),
                    m == self@.objects[i as int].edges.len(),
                    m == edges@.len(),
                    edges@ == self@.objects[i as int].edges,
                    0 <= k <= m,
                    sub == count_edges_to(edges@.take(k as int), h as int),
                    sub <= k,
                decreases m - k,
            {
                proof {
                    assert(edges@.take(k + 1).drop_last() =~= edges@.take(k as int));
                    lemma_count_edges_to_bound(edges@.take(k as int), h as int);
                }
                let ed = edges[k];
                if ed.to_input && ed.dest == h {
                    sub = sub + 1;
                }
                k = k + 1;
            }
            proof {
                assert(edges@.take(m as int) =~= edges@);
                assert(self@.objects[i as int].wf(self@));
                assert(m <= u32::MAX);
            }
            total = total + sub;
            i = i + 1;
        }
        if total > u32::MAX as u64 {
            Err(ERROR_UNKNOWN)
        } else {
            Ok(total as u32)
        }
    }

    /// How many connections leave this object's outputs.
    pub fn node_get_output_connection_count(&self, h: i32) -> (r: Result<u32, i32>)
        requires
            self@.wf(),
        ensures
            !self@.is_alive(h as int) ==> r == Err::<u32, i32>(ERROR_INVALID_HANDLE),
            self@.is_alive(h as int) ==> (r matches Ok(c) && c == self@.obj(h as int).edges.len()),
    {
        if h < 1 || h as usize > self.objects.len() {
            return Err(ERROR_INVALID_HANDLE);
        }
        let oi = (h - 1) as usize;
        if !self.objects[oi].alive {
            return Err(ERROR_INVALID_HANDLE);
        }
        proof {
            assert(self@.objects[h - 1].wf(self@));
        }
        Ok(self.objects[oi].edges.len() as u32)
    }

    /// Whether `h` names a live node — an object that participates in the
    /// graph as a connection source.
    fn live_node_check(&self, h: i32) -> (r: bool)
        ensures
            r == self@.is_live_node(h as int),
    {
        if h < 1 || h as usize > self.objects.len() {
            return false;
        }
        let o = &self.objects[(h - 1) as usize];
        o.alive && !object_kind_eq(o.kind, ObjectKind::Server) && !object_kind_eq(
            o.kind,
            ObjectKind::Buffer,
        ) && !object_kind_eq(o.kind, ObjectKind::AutoSource)
    }
}

} // verus!
