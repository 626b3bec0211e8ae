//! Reachability over the node graph, and the lifetime rule built on it: an
//! object stays alive while it is externally referenced or while one of its
//! connection chains leads to an externally referenced object (the server
//! being the usual anchor). Operations that can sever such chains end with
//! a sweep that destroys everything no longer retained.

use vstd::prelude::*;

verus! {

use crate::engine::Engine;
use crate::engine::EngineV;
use crate::engine::ObjectV;
use crate::engine::ObjectKind;
use crate::engine::Edge;
use crate::engine::ERROR_NONE;
use crate::engine::ERROR_UNKNOWN;
use crate::engine::ERROR_INVALID_HANDLE;

/// Whether `to` can be reached from `from` by following outgoing
/// connections, in at most `fuel` hops. With fuel the size of the object
/// table this is plain reachability on the (acyclic) graph.
pub open spec fn spec_reaches(e: EngineV, from: int, to: int, fuel: nat) -> bool
    decreases fuel,
{
    e.is_alive(from) && (from == to || (fuel > 0 && exists|k: int|
        0 <= k < e.obj(from).edges.len() && spec_reaches(
            e,
            (#[trigger] e.obj(from).edges[k]).dest as int,
            to,
            (fuel - 1) as nat,
        )))
}

/// Whether, within `fuel` hops, `from` leads to some object holding an
/// external reference (itself included).
pub open spec fn spec_live_path(e: EngineV, from: int, fuel: nat) -> bool
    decreases fuel,
{
    e.is_alive(from) && (e.obj(from).ext_refs > 0 || (fuel > 0 && exists|k: int|
        0 <= k < e.obj(from).edges.len() && spec_live_path(
            e,
            (#[trigger] e.obj(from).edges[k]).dest as int,
            (fuel - 1) as nat,
        )))
}

/// Whether the engine keeps `h` alive: some connection chain from `h`
/// (possibly empty) ends at an object holding an external reference.
pub open spec fn retained(e: EngineV, h: int) -> bool {
    spec_live_path(e, h, e.objects.len() as nat)
}

impl Engine {
    /// Decides [`spec_reaches`]: whether `to` is reachable from `from`
    /// within `fuel` hops.
    pub fn reaches_exec(&self, from: i32, to: i32, fuel: u32) -> (r: bool)
        requires
            self@.wf(),
        ensures
            r == spec_reaches(self@, from as int, to as int, fuel as nat),
        decreases fuel,
    {
        if from < 1 || from as usize > self.objects.len() {
            return false;
        }
        let oi = (from - 1) as usize;
        if !self.objects[oi].alive {
            return false;
        }
        if from == to {
            return true;
        }
        if fuel == 0 {
            return false;
        }
        let n = self.objects[oi].edges.len();
        let mut k: usize = 0;
        while k < n
            invariant
                self@.wf(),
                self@.is_alive(from as int),
                from != to,
                fuel >= 1,
                1 <= from,
                oi == from - 1,
                oi < self.objects.len(),
                n == self@.obj(from as int).edges.len(),
                0 <= k <= n,
                forall|j: int| 0 <= j < k ==> !spec_reaches(
                    self@,
                    (#[trigger] self@.obj(from as int).edges[j]).dest as int,
                    to as int,
                    (fuel - 1) as nat,
                ),
            decreases n - k,
        {
            let dest = self.objects[oi].edges[k].dest;
            if self.reaches_exec(dest, to, fuel - 1) {
                return true;
            }
            k = k + 1;
        }
        false
    }

    /// Decides [`spec_live_path`]: whether `from` leads to an externally
    /// referenced object within `fuel` hops.
    pub fn live_path_exec(&self, from: i32, fuel: u32) -> (r: bool)
        requires
            self@.wf(),
        ensures
            r == spec_live_path(self@, from as int, fuel as nat),
        decreases fuel,
    {
        if from < 1 || from as usize > self.objects.len() {
            return false;
        }
        let oi = (from - 1) as usize;
        if !self.objects[oi].alive {
            return false;
        }
        if self.objects[oi].ext_refs > 0 {
            return true;
        }
        if fuel == 0 {
            return false;
        }
        let n = self.objects[oi].edges.len();
        let mut k: usize = 0;
        while k < n
            invariant
                self@.wf(),
                self@.is_alive(from as int),
                self@.obj(from as int).ext_refs == 0,
                fuel >= 1,
                1 <= from,
                oi == from - 1,
                oi < self.objects.len(),
                n == self@.obj(from as int).edges.len(),
                0 <= k <= n,
                forall|j: int| 0 <= j < k ==> !spec_live_path(
                    self@,
                    (#[trigger] self@.obj(from as int).edges[j]).dest as int,
                    (fuel - 1) as nat,
                ),
            decreases n - k,
        {
            let dest = self.objects[oi].edges[k].dest;
            if self.live_path_exec(dest, fuel - 1) {
                return true;
            }
            k = k + 1;
        }
        false
    }
}

/// The connections among `edges` whose destination is still retained; the
/// others die with their destination.
pub open spec fn keep_retained_edges(e: EngineV, edges: Seq<Edge>) -> Seq<Edge>
    decreases edges.len(),
{
    if edges.len() == 0 {
        Seq::empty()
    } else {
        let rest = keep_retained_edges(e, edges.drop_last());
        if retained(e, edges.last().dest as int) {
            rest.push(edges.last())
        } else {
            rest
        }
    }
}

/// Every kept connection appeared among the originals and has a retained
/// destination; nothing grows.
pub proof fn lemma_keep_retained_edges_sound(e: EngineV, edges: Seq<Edge>)
    ensures
        keep_retained_edges(e, edges).len() <= edges.len(),
        forall|k: int| 0 <= k < keep_retained_edges(e, edges).len() ==> retained(
            e,
            (#[trigger] keep_retained_edges(e, edges)[k]).dest as int,
        ) && edges.contains(keep_retained_edges(e, edges)[k]),
    decreases edges.len(),
{
    if edges.len() > 0 {
        lemma_keep_retained_edges_sound(e, edges.drop_last());
        let rest = keep_retained_edges(e, edges.drop_last());
        assert forall|k: int| 0 <= k < rest.len() implies edges.contains(rest[k]) by {
            assert(edges.drop_last().contains(rest[k]));
            let j = choose|j: int| 0 <= j < edges.drop_last().len() && edges.drop_last()[j]
                == rest[k];
            assert(edges[j] == rest[k]);
        }
        if retained(e, edges.last().dest as int) {
            assert(edges.contains(edges.last()));
        }
    }
}

/// Every connection whose destination is retained survives the filter.
pub proof fn lemma_keep_retained_edges_complete(e: EngineV, edges: Seq<Edge>, j: int)
    requires
        0 <= j < edges.len(),
        retained(e, edges[j].dest as int),
    ensures
        keep_retained_edges(e, edges).contains(edges[j]),
    decreases edges.len(),
{
    if j == edges.len() - 1 {
        assert(edges.last() == edges[j]);
        let kept = keep_retained_edges(e, edges);
        assert(kept.last() == edges[j]);
        assert(kept.contains(edges[j]));
    } else {
        lemma_keep_retained_edges_complete(e, edges.drop_last(), j);
        let rest = keep_retained_edges(e, edges.drop_last());
        let w = choose|w: int| 0 <= w < rest.len() && rest[w] == edges.drop_last()[j];
        assert(edges.drop_last()[j] == edges[j]);
        if retained(e, edges.last().dest as int) {
            assert(keep_retained_edges(e, edges)[w] == edges[j]);
        } else {
            assert(keep_retained_edges(e, edges)[w] == edges[j]);
        }
        assert(keep_retained_edges(e, edges).contains(edges[j]));
    }
}

/// The one object entry the sweep leaves at position `i`: survivors keep
/// everything but connections into destroyed objects; the unretained are
/// destroyed.
pub open spec fn sweep_obj(e: EngineV, i: int) -> ObjectV {
    let o = e.objects[i];
    if o.alive && retained(e, i + 1) {
        ObjectV { edges: keep_retained_edges(e, o.edges), ..o }
    } else if o.alive {
        o.destroyed()
    } else {
        o
    }
}

/// The state after the sweep: every object still retained survives
/// unchanged (minus connections into the destroyed), everything else is
/// destroyed.
pub open spec fn sweep_spec(e: EngineV) -> EngineV {
    EngineV { objects: Seq::new(e.objects.len(), |i: int| sweep_obj(e, i)), ..e }
}

/// The sweep keeps the engine well formed.
pub proof fn lemma_sweep_preserves_wf(e: EngineV)
    requires
        e.wf(),
    ensures
        sweep_spec(e).wf(),
{
    let e2 = sweep_spec(e);
    assert forall|i: int| 0 <= i < e2.objects.len() implies (#[trigger] e2.objects[i]).wf(e2) by {
        let o = e.objects[i];
        let o2 = e2.objects[i];
        assert(o.wf(e));
        if o.alive && retained(e, i + 1) {
            lemma_keep_retained_edges_sound(e, o.edges);
            assert forall|k: int| 0 <= k < o2.edges.len() implies e2.is_alive(
                (#[trigger] o2.edges[k]).dest as int,
            ) && e2.obj(o2.edges[k].dest as int).kind != ObjectKind::AutoSource by {
                let d = o2.edges[k].dest as int;
                assert(retained(e, d));
                assert(e.is_alive(d));
                assert(o.edges.contains(o2.edges[k]));
                assert(e.obj(d).kind != ObjectKind::AutoSource);
                assert(e2.objects[d - 1] == sweep_obj(e, d - 1));
                assert(e2.objects[d - 1].alive);
                assert(e2.objects[d - 1].kind == e.objects[d - 1].kind);
            }
        }
    }
}

/// What releasing one external reference does: the count drops, and the
/// sweep then destroys whatever that release left unretained.
pub open spec fn dec_ref_spec(e: EngineV, h: int) -> (i32, EngineV) {
    if !e.is_alive(h) {
        (ERROR_INVALID_HANDLE, e)
    } else if e.obj(h).ext_refs == 0 {
        (ERROR_UNKNOWN, e)
    } else {
        (
            ERROR_NONE,
            sweep_spec(
                e.with_obj(h, ObjectV { ext_refs: (e.obj(h).ext_refs - 1) as u64, ..e.obj(h) }),
            ),
        )
    }
}

/// What taking one more external reference does.
pub open spec fn inc_ref_spec(e: EngineV, h: int) -> (i32, EngineV) {
    if !e.is_alive(h) {
        (ERROR_INVALID_HANDLE, e)
    } else if e.obj(h).ext_refs == u64::MAX {
        (ERROR_UNKNOWN, e)
    } else {
        (
            ERROR_NONE,
            e.with_obj(h, ObjectV { ext_refs: (e.obj(h).ext_refs + 1) as u64, ..e.obj(h) }),
        )
    }
}

/// What the one-shot first-access query does: reports whether the handle
/// was never queried before, clearing the flag.
pub open spec fn first_access_spec(e: EngineV, h: int) -> (Result<bool, i32>, EngineV) {
    if !e.is_alive(h) {
        (Err(ERROR_INVALID_HANDLE), e)
    } else {
        (
            Ok(e.obj(h).first_access),
            e.with_obj(h, ObjectV { first_access: false, ..e.obj(h) }),
        )
    }
}

impl Engine {
    /// Destroys every object that is no longer retained, and drops the
    /// connections that pointed at the destroyed.
    pub(crate) fn sweep(&mut self)
        requires
            old(self)@.wf(),
        ensures
            final(self)@ == sweep_spec(old(self)@),
            final(self)@.wf(),
    {
        let ghost e0 = self@;
        let n = self.objects.len();
        let fuel = n as u32;
        let mut keep: Vec<bool> = Vec::new();
        let mut idx: usize = 0;
        while idx < n
            invariant
                self@ == e0,
                e0.wf(),
                n == self.objects.len(),
                n <= i32::MAX,
                fuel == n,
                keep@.len() == idx,
                0 <= idx <= n,
                forall|j: int| 0 <= j < idx ==> keep@[j] == retained(e0, j + 1),
            decreases n - idx,
        {
            let h = (idx + 1) as i32;
            keep.push(self.live_path_exec(h, fuel));
            idx = idx + 1;
        }
        proof {
            lemma_sweep_preserves_wf(e0);
        }
        let mut i: usize = 0;
        while i < n
            invariant
                e0.wf(),
                sweep_spec(e0).wf(),
                n == self.objects.len(),
                n == e0.objects.len(),
                self@.init_count == e0.init_count,
                keep@.len() == n,
                0 <= i <= n,
                forall|j: int| 0 <= j < n ==> keep@[j] == retained(e0, j + 1),
                forall|j: int| 0 <= j < i ==> self@.objects[j] == sweep_obj(e0, j),
                forall|j: int| i <= j < n ==> self@.objects[j] == e0.objects[j],
            decreases n - i,
        {
            if keep[i] {
                if self.objects[i].alive {
                    let m = self.objects[i].edges.len();
                    let mut kept: Vec<Edge> = Vec::new();
                    let mut k: usize = 0;
                    while k < m
                        invariant
                            n == self.objects.len(),
                            n == e0.objects.len(),
                            keep@.len() == n,
                            forall|j: int| 0 <= j < n ==> keep@[j] == retained(e0, j + 1),
                            0 <= i < n,
                            self@.objects[i as int] == e0.objects[i as int],
                            e0.objects[i as int].wf(e0),
                            m == e0.objects[i as int].edges.len(),
                            0 <= k <= m,
                            kept@ == keep_retained_edges(
                                e0,
                                e0.objects[i as int].edges.take(k as int),
                            ),
                        decreases m - k,
                    {
                        let ed = self.objects[i].edges[k];
                        proof {
                            assert(e0.objects[i as int].wf(e0));
                            assert(e0.is_alive(e0.objects[i as int].edges[k as int].dest as int));
                            assert(e0.objects[i as int].edges.take(k + 1).drop_last()
                                =~= e0.objects[i as int].edges.take(k as int));
                        }
                        if keep[(ed.dest - 1) as usize] {
                            kept.push(ed);
                        }
                        k = k + 1;
                    }
                    proof {
                        assert(e0.objects[i as int].edges.take(m as int) =~= e0.objects[
                            i as int
                        ].edges);
                    }
                    let o = &mut self.objects[i];
                    o.edges = kept;
                    proof {
                        assert(self@.objects[i as int] == sweep_obj(e0, i as int));
                    }
                } else {
                    proof {
                        assert(!retained(e0, i + 1));
                    }
                }
            } else {
                if self.objects[i].alive {
                    let o = &mut self.objects[i];
                    o.alive = false;
                    o.ext_refs = 0;
                    o.edges = Vec::new();
                    proof {
                        assert(self@.objects[i as int].edges =~= Seq::<Edge>::empty());
                        assert(self@.objects[i as int] == sweep_obj(e0, i as int));
                    }
                }
            }
            i = i + 1;
        }
        proof {
            assert(self@.objects =~= sweep_spec(e0).objects);
        }
    }

    /// Takes one more external reference on a handle.
    pub fn handle_inc_ref(&mut self, h: i32) -> (code: i32)
        requires
            old(self)@.wf(),
        ensures
            (code, final(self)@) == inc_ref_spec(old(self)@, h as int),
            final(self)@.wf(),
    {
        if h < 1 || h as usize > self.objects.len() {
            return ERROR_INVALID_HANDLE;
        }
        let oi = (h - 1) as usize;
        if !self.objects[oi].alive {
            return ERROR_INVALID_HANDLE;
        }
        if self.objects[oi].ext_refs == u64::MAX {
            return ERROR_UNKNOWN;
        }
        let o = &mut self.objects[oi];
        o.ext_refs = o.ext_refs + 1;
        proof {
            assert(self@.objects =~= inc_ref_spec(old(self)@, h as int).1.objects);
            assert forall|j: int| 0 <= j < self@.objects.len() implies (
            #[trigger] self@.objects[j]).wf(self@) by {
                assert(old(self)@.objects[j].wf(old(self)@));
            }
        }
        ERROR_NONE
    }

    /// Releases one external reference; whatever that release leaves
    /// unretained is destroyed.
    pub fn handle_dec_ref(&mut self, h: i32) -> (code: i32)
        requires
            old(self)@.wf(),
        ensures
            (code, final(self)@) == dec_ref_spec(old(self)@, h as int),
            final(self)@.wf(),
    {
        if h < 1 || h as usize > self.objects.len() {
            return ERROR_INVALID_HANDLE;
        }
        let oi = (h - 1) as usize;
        if !self.objects[oi].alive {
            return ERROR_INVALID_HANDLE;
        }
        if self.objects[oi].ext_refs == 0 {
            return ERROR_UNKNOWN;
        }
        let o = &mut self.objects[oi];
        o.ext_refs = o.ext_refs - 1;
        proof {
            let e1 = old(self)@.with_obj(
                h as int,
                ObjectV {
                    ext_refs: (old(self)@.obj(h as int).ext_refs - 1) as u64,
                    ..old(self)@.obj(h as int)
                },
            );
            assert(self@.objects =~= e1.objects);
            assert forall|j: int| 0 <= j < e1.objects.len() implies (#[trigger] e1.objects[j]).wf(
                e1,
            ) by {
                assert(old(self)@.objects[j].wf(old(self)@));
            }
        }
        self.sweep();
        ERROR_NONE
    }

    /// The one-shot query that tells a fresh handle (whose creation
    /// reference the caller adopts) from one that was wrapped before.
    pub fn handle_get_and_clear_first_access(&mut self, h: i32) -> (r: Result<bool, i32>)
        requires
            old(self)@.wf(),
        ensures
            (r, final(self)@) == first_access_spec(old(self)@, h as int),
            final(self)@.wf(),
    {
        if h < 1 || h as usize > self.objects.len() {
            return Err(ERROR_INVALID_HANDLE);
        }
        let oi = (h - 1) as usize;
        if !self.objects[oi].alive {
            return Err(ERROR_INVALID_HANDLE);
        }
        let was = self.objects[oi].first_access;
        let o = &mut self.objects[oi];
        o.first_access = false;
        proof {
            assert(self@.objects =~= first_access_spec(old(self)@, h as int).1.objects);
            assert forall|j: int| 0 <= j < self@.objects.len() implies (
            #[trigger] self@.objects[j]).wf(self@) by {
                assert(old(self)@.objects[j].wf(old(self)@));
            }
        }
        Ok(was)
    }
}

} // verus!
