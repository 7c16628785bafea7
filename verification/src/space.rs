//! The window/output space: the ordered stack of mapped windows (stack
//! order is paint order, the last entry is topmost) and the registry of
//! mapped outputs. Answers hit-tests and enumerates the windows an
//! output must composite.
//!
//! Invariants: the stack holds each window at most once (by identity),
//! and each output name is registered at most once.

use vstd::prelude::*;

use crate::geometry::{Point, Rect};

verus! {

/// A mapped client window: its identity, its geometry in global logical
/// coordinates, whether it carries a top-level role, and whether its
/// backing client surface is still alive (dead windows are pruned by
/// `refresh`).
#[derive(Clone, Copy, PartialEq, Eq, Structural, Debug)]
pub struct Window {
    pub id: u64,
    pub geometry: Rect,
    pub toplevel: bool,
    pub alive: bool,
}

/// A mapped output: its name, its geometry in the global compositing
/// space (location plus current mode size), and its scale factor in
/// thousandths.
#[derive(Clone, Debug)]
pub struct OutputState {
    pub name: String,
    pub geometry: Rect,
    pub scale_milli: u32,
}

/// The window a pointer event resolves to, with the pointer position in
/// that window's local coordinate space.
#[derive(Clone, Copy, PartialEq, Eq, Structural, Debug)]
pub struct PointerTarget {
    pub id: u64,
    pub local: Point,
}

/// The registry of outputs and the stacking order of windows.
pub struct Space {
    pub windows: Vec<Window>,
    pub outputs: Vec<OutputState>,
}

/// Each window appears at most once in the stack.
pub open spec fn distinct_ids(s: Seq<Window>) -> bool {
    forall|i: int, j: int| 0 <= i < j < s.len() ==> s[i].id != s[j].id
}

/// Each output name is registered at most once.
pub open spec fn distinct_names(s: Seq<OutputState>) -> bool {
    forall|i: int, j: int| 0 <= i < j < s.len() ==> s[i].name@ != s[j].name@
}

/// Whether some window in `s` has identity `id`.
pub open spec fn contains_id(s: Seq<Window>, id: u64) -> bool {
    exists|i: int| 0 <= i < s.len() && s[i].id == id
}

/// The predicate selecting the windows whose identity is not `id`.
pub open spec fn not_id(id: u64) -> spec_fn(Window) -> bool {
    |x: Window| x.id != id
}

/// The predicate selecting the windows whose client surface is alive.
pub open spec fn alive_pred() -> spec_fn(Window) -> bool {
    |x: Window| x.alive
}

/// The predicate selecting the windows whose geometry overlaps `area`.
pub open spec fn overlaps_pred(area: Rect) -> spec_fn(Window) -> bool {
    |x: Window| x.geometry.spec_overlaps(area)
}

/// The predicate selecting the windows whose identity is `id`.
pub open spec fn has_id(id: u64) -> spec_fn(Window) -> bool {
    |x: Window| x.id == id
}

/// The geometry that `outputs` records for `name`: the geometry of the
/// first entry whose name matches, if any.
pub open spec fn spec_output_geometry(outputs: Seq<OutputState>, name: Seq<char>) -> Option<Rect>
    decreases outputs.len(),
{
    if outputs.len() == 0 {
        None
    } else if outputs[0].name@ == name {
        Some(outputs[0].geometry)
    } else {
        spec_output_geometry(outputs.drop_first(), name)
    }
}

/// The topmost index in `s` whose window geometry contains `p`, walking
/// the stack from the top (the last entry) down.
pub open spec fn top_hit(s: Seq<Window>, p: Point) -> Option<int>
    decreases s.len(),
{
    if s.len() == 0 {
        None
    } else if s.last().geometry.spec_contains(p) {
        Some(s.len() - 1)
    } else {
        top_hit(s.drop_last(), p)
    }
}

/// The window a hit-test resolves `p` to: the topmost window containing
/// `p`, with `p` translated into that window's local coordinates.
pub open spec fn spec_hit(s: Seq<Window>, p: Point) -> Option<PointerTarget> {
    match top_hit(s, p) {
        None => None,
        Some(i) => Some(
            PointerTarget {
                id: s[i].id,
                local: Point {
                    x: (p.x - s[i].geometry.loc.x) as i32,
                    y: (p.y - s[i].geometry.loc.y) as i32,
                },
            },
        ),
    }
}

/// Filtering a stack with distinct identities keeps the identities
/// distinct, and every kept window was in the original stack.
proof fn lemma_filter_distinct(s: Seq<Window>, p: spec_fn(Window) -> bool)
    requires
        distinct_ids(s),
    ensures
        distinct_ids(s.filter(p)),
        forall|k: int| 0 <= k < s.filter(p).len() ==> exists|m: int|
            0 <= m < s.len() && s[m] == #[trigger] s.filter(p)[k],
    decreases s.len(),
{
    reveal(Seq::filter);
    if s.len() > 0 {
        let d = s.drop_last();
        assert(distinct_ids(d));
        lemma_filter_distinct(d, p);
        let fd = d.filter(p);
        let f = s.filter(p);
        assert forall|k: int| 0 <= k < f.len() implies exists|m: int|
            0 <= m < s.len() && s[m] == #[trigger] f[k] by {
            if p(s.last()) && k == f.len() - 1 {
                assert(s[s.len() - 1] == f[k]);
            } else {
                assert(f[k] == fd[k]);
                let m = choose|m: int| 0 <= m < d.len() && d[m] == fd[k];
                assert(s[m] == f[k]);
            }
        }
        if p(s.last()) {
            assert forall|a: int, b: int| 0 <= a < b < f.len() implies f[a].id != f[b].id by {
                if b == f.len() - 1 {
                    let m = choose|m: int| 0 <= m < d.len() && d[m] == fd[a];
                    assert(s[m].id != s.last().id);
                } else {
                    assert(f[a] == fd[a] && f[b] == fd[b]);
                }
            }
        }
    }
}

/// Law: a well-formed stack holds each mapped-and-not-unmapped window
/// exactly once — a mapped identity occurs once, an unmapped identity
/// not at all. Every `Space` operation preserves well-formedness, so
/// this holds after any sequence of `map_window`, `unmap_window` and
/// `raise` calls starting from `Space::new`.
pub proof fn lemma_stack_exactly_once(s: Seq<Window>, id: u64)
    requires
        distinct_ids(s),
    ensures
        contains_id(s, id) ==> s.filter(has_id(id)).len() == 1,
        !contains_id(s, id) ==> s.filter(has_id(id)).len() == 0,
    decreases s.len(),
{
    reveal(Seq::filter);
    if s.len() > 0 {
        let d = s.drop_last();
        assert(distinct_ids(d));
        lemma_stack_exactly_once(d, id);
        if s.last().id == id {
            assert(!contains_id(d, id)) by {
                if contains_id(d, id) {
                    let k = choose|k: int| 0 <= k < d.len() && d[k].id == id;
                    assert(s[k].id != s[s.len() - 1].id);
                }
            }
            assert(contains_id(s, id)) by {
                assert(s[s.len() - 1].id == id);
            }
        } else {
            if contains_id(s, id) {
                let k = choose|k: int| 0 <= k < s.len() && s[k].id == id;
                assert(d[k] == s[k]);
                assert(contains_id(d, id));
            }
            if contains_id(d, id) {
                let k = choose|k: int| 0 <= k < d.len() && d[k].id == id;
                assert(s[k].id == id);
            }
        }
    }
}

/// Removing one mapped window from a well-formed stack shortens it by
/// exactly one entry; removing an unmapped identity changes nothing.
pub proof fn lemma_remove_id_len(s: Seq<Window>, id: u64)
    requires
        distinct_ids(s),
    ensures
        contains_id(s, id) ==> s.filter(not_id(id)).len() == s.len() - 1,
        !contains_id(s, id) ==> s.filter(not_id(id)) == s,
    decreases s.len(),
{
    reveal(Seq::filter);
    if s.len() > 0 {
        let d = s.drop_last();
        assert(distinct_ids(d));
        lemma_remove_id_len(d, id);
        if s.last().id == id {
            assert(!contains_id(d, id)) by {
                if contains_id(d, id) {
                    let k = choose|k: int| 0 <= k < d.len() && d[k].id == id;
                    assert(s[k].id != s[s.len() - 1].id);
                }
            }
            assert(s[s.len() - 1].id == id);
        } else {
            if contains_id(s, id) {
                let k = choose|k: int| 0 <= k < s.len() && s[k].id == id;
                assert(d[k] == s[k]);
                assert(contains_id(d, id));
            } else {
                assert(!contains_id(d, id)) by {
                    if contains_id(d, id) {
                        let k = choose|k: int| 0 <= k < d.len() && d[k].id == id;
                        assert(s[k].id == id);
                    }
                }
                assert(s.filter(not_id(id)) =~= s);
            }
        }
    }
}

/// Law: raising the window at position `j` of a well-formed stack
/// yields a stack of the same windows where that window is strictly
/// after every other one in paint order, and the others keep their
/// relative order (they form the filtered subsequence unchanged).
pub proof fn lemma_raise_places_on_top(s: Seq<Window>, j: int)
    requires
        distinct_ids(s),
        0 <= j < s.len(),
    ensures
        ({
            let t = s.filter(not_id(s[j].id)).push(s[j]);
            &&& t.len() == s.len()
            &&& t.last() == s[j]
            &&& forall|k: int| 0 <= k < t.len() - 1 ==> t[k].id != s[j].id
            &&& t.drop_last() == s.filter(not_id(s[j].id))
            &&& forall|id: u64| contains_id(t, id) <==> contains_id(s, id)
        }),
{
    broadcast use vstd::seq_lib::group_filter_ensures;

    let id = s[j].id;
    let f = s.filter(not_id(id));
    let t = f.push(s[j]);
    lemma_remove_id_len(s, id);
    assert(contains_id(s, id));
    lemma_filter_distinct(s, not_id(id));
    assert(t.drop_last() =~= f);
    assert forall|w: u64| contains_id(t, w) implies contains_id(s, w) by {
        let k = choose|k: int| 0 <= k < t.len() && t[k].id == w;
        if k == t.len() - 1 {
            assert(s[j].id == w);
        } else {
            assert(t[k] == f[k]);
            let m = choose|m: int| 0 <= m < s.len() && s[m] == f[k];
        }
    }
    assert forall|w: u64| contains_id(s, w) implies contains_id(t, w) by {
        let k = choose|k: int| 0 <= k < s.len() && s[k].id == w;
        if w == id {
            assert(t[t.len() - 1].id == w);
        } else {
            assert(not_id(id)(s[k]));
            assert(f.contains(s[k]));
            let m = choose|m: int| 0 <= m < f.len() && f[m] == s[k];
            assert(t[m].id == w);
        }
    }
}

/// Law: the hit-test index is sound and complete — it is the topmost
/// stack position whose geometry contains the point, and it is `None`
/// exactly when no window's geometry contains the point.
pub proof fn lemma_top_hit_topmost(s: Seq<Window>, p: Point)
    ensures
        top_hit(s, p) is None <==> forall|i: int|
            0 <= i < s.len() ==> !s[i].geometry.spec_contains(p),
        top_hit(s, p) matches Some(i) ==> 0 <= i < s.len() && s[i].geometry.spec_contains(p)
            && forall|k: int| i < k < s.len() ==> !s[k].geometry.spec_contains(p),
    decreases s.len(),
{
    if s.len() > 0 {
        let d = s.drop_last();
        lemma_top_hit_topmost(d, p);
        if !s.last().geometry.spec_contains(p) {
            assert(forall|i: int| 0 <= i < d.len() ==> d[i] == s[i]);
        }
    }
}

/// One step of the stack scan: extending the scanned prefix by one
/// element extends its filtered image by that element exactly when the
/// predicate holds of it.
proof fn lemma_filter_take_step(s: Seq<Window>, p: spec_fn(Window) -> bool, i: int)
    requires
        0 <= i < s.len(),
    ensures
        s.take(i + 1).filter(p) == if p(s[i]) {
            s.take(i).filter(p).push(s[i])
        } else {
            s.take(i).filter(p)
        },
{
    reveal(Seq::filter);
    assert(s.take(i + 1).drop_last() =~= s.take(i));
    assert(s.take(i + 1).last() == s[i]);
}

/// Builds the stack with every window of identity `id` removed,
/// preserving the order of the rest.
fn remove_id(windows: &Vec<Window>, id: u64) -> (out: Vec<Window>)
    ensures
        out@ == windows@.filter(not_id(id)),
{
    let mut out: Vec<Window> = Vec::new();
    let mut i: usize = 0;
    proof {
        reveal(Seq::filter);
        assert(windows@.take(0) =~= Seq::<Window>::empty());
    }
    while i < windows.len()
        invariant
            0 <= i <= windows@.len(),
            out@ == windows@.take(i as int).filter(not_id(id)),
        decreases windows@.len() - i,
    {
        proof {
            lemma_filter_take_step(windows@, not_id(id), i as int);
        }
        if windows[i].id != id {
            out.push(windows[i]);
        }
        i = i + 1;
    }
    proof {
        assert(windows@.take(i as int) =~= windows@);
    }
    out
}

impl Space {
    /// Both registries hold each identity at most once.
    pub open spec fn wf(&self) -> bool {
        distinct_ids(self.windows@) && distinct_names(self.outputs@)
    }

    /// An empty space: no windows, no outputs.
    pub fn new() -> (r: Space)
        ensures
            r.windows@.len() == 0,
            r.outputs@.len() == 0,
            r.wf(),
    {
        Space { windows: Vec::new(), outputs: Vec::new() }
    }

    /// Adds `w` to the top of the stack. A window already mapped under
    /// the same identity is unmapped first, so the stack never holds a
    /// window twice.
    pub fn map_window(&mut self, w: Window)
        requires
            old(self).wf(),
        ensures
            final(self).wf(),
            final(self).windows@ == old(self).windows@.filter(not_id(w.id)).push(w),
            final(self).outputs@ == old(self).outputs@,
            contains_id(final(self).windows@, w.id),
    {
        let mut out = remove_id(&self.windows, w.id);
        out.push(w);
        proof {
            lemma_filter_distinct(self.windows@, not_id(w.id));
            broadcast use vstd::seq_lib::group_filter_ensures;

            let f = self.windows@.filter(not_id(w.id)).push(w);
            assert(f[f.len() - 1].id == w.id);
        }
        self.windows = out;
    }

    /// Removes the window of identity `id` from the stack; a no-op if
    /// no such window is mapped.
    pub fn unmap_window(&mut self, id: u64)
        requires
            old(self).wf(),
        ensures
            final(self).wf(),
            final(self).windows@ == old(self).windows@.filter(not_id(id)),
            final(self).outputs@ == old(self).outputs@,
            !contains_id(final(self).windows@, id),
    {
        let out = remove_id(&self.windows, id);
        proof {
            lemma_filter_distinct(self.windows@, not_id(id));
            broadcast use vstd::seq_lib::group_filter_ensures;

        }
        self.windows = out;
    }

    /// Moves the window of identity `id` to the top of the stack,
    /// leaving every other window's relative order unchanged; a no-op
    /// if no such window is mapped (raising does not map).
    pub fn raise(&mut self, id: u64)
        requires
            old(self).wf(),
        ensures
            final(self).wf(),
            final(self).outputs@ == old(self).outputs@,
            !contains_id(old(self).windows@, id) ==> final(self).windows@ == old(self).windows@,
            forall|j: int|
                0 <= j < old(self).windows@.len() && old(self).windows@[j].id == id
                    ==> final(self).windows@ == old(self).windows@.filter(not_id(id)).push(
                    old(self).windows@[j]),
    {
        let mut idx: usize = 0;
        let mut found = false;
        while !found && idx < self.windows.len()
            invariant
                0 <= idx <= self.windows@.len(),
                self == old(self),
                !found ==> forall|j: int| 0 <= j < idx ==> self.windows@[j].id != id,
                found ==> idx < self.windows@.len() && self.windows@[idx as int].id == id,
            decreases self.windows@.len() - idx + (if found {
                0int
            } else {
                1int
            }),
        {
            if self.windows[idx].id == id {
                found = true;
            } else {
                idx = idx + 1;
            }
        }
        if found {
            let w = self.windows[idx];
            let mut out = remove_id(&self.windows, id);
            out.push(w);
            proof {
                lemma_filter_distinct(self.windows@, not_id(id));
                broadcast use vstd::seq_lib::group_filter_ensures;

                let f = self.windows@.filter(not_id(id)).push(w);
                assert(f[f.len() - 1].id == id);
                assert forall|j: int|
                    0 <= j < self.windows@.len() && self.windows@[j].id == id implies self.windows@[j]
                    == w by {
                    if j != idx as int {
                        assert(self.windows@[j].id != self.windows@[idx as int].id);
                    }
                }
            }
            self.windows = out;
        }
    }

    /// Whether a window of identity `id` is currently mapped.
    pub fn contains_window(&self, id: u64) -> (r: bool)
        ensures
            r == contains_id(self.windows@, id),
    {
        let mut i: usize = 0;
        while i < self.windows.len()
            invariant
                0 <= i <= self.windows@.len(),
                forall|j: int| 0 <= j < i ==> self.windows@[j].id != id,
            decreases self.windows@.len() - i,
        {
            if self.windows[i].id == id {
                return true;
            }
            i = i + 1;
        }
        false
    }

    /// Resolves a point in global coordinates to the topmost window
    /// whose geometry contains it, together with the point translated
    /// into that window's local coordinate space; `None` exactly when
    /// no mapped window covers the point.
    pub fn hit_test(&self, p: Point) -> (r: Option<PointerTarget>)
        ensures
            r == spec_hit(self.windows@, p),
    {
        let mut i: usize = self.windows.len();
        proof {
            assert(self.windows@.take(i as int) =~= self.windows@);
        }
        while i > 0
            invariant
                0 <= i <= self.windows@.len(),
                top_hit(self.windows@, p) == top_hit(self.windows@.take(i as int), p),
            decreases i,
        {
            let w = self.windows[i - 1];
            proof {
                assert(self.windows@.take(i as int).last() == self.windows@[i - 1]);
                assert(self.windows@.take(i as int).drop_last() =~= self.windows@.take(i - 1));
            }
            if w.geometry.contains(p) {
                let local = Point { x: p.x - w.geometry.loc.x, y: p.y - w.geometry.loc.y };
                return Some(PointerTarget { id: w.id, local });
            }
            i = i - 1;
        }
        proof {
            assert(self.windows@.take(0) =~= Seq::<Window>::empty());
        }
        None
    }

    /// Registers or relocates the output named `entry.name`; mapping is
    /// idempotent by output identity, so an already-registered name is
    /// updated in place and a new name is appended.
    pub fn map_output(&mut self, entry: OutputState)
        requires
            old(self).wf(),
        ensures
            final(self).wf(),
            final(self).windows@ == old(self).windows@,
            forall|j: int|
                0 <= j < old(self).outputs@.len() && old(self).outputs@[j].name@ == entry.name@
                    ==> final(self).outputs@ == old(self).outputs@.update(j, entry),
            (forall|j: int|
                0 <= j < old(self).outputs@.len() ==> old(self).outputs@[j].name@ != entry.name@)
                ==> final(self).outputs@ == old(self).outputs@.push(entry),
    {
        let mut i: usize = 0;
        while i < self.outputs.len()
            invariant
                0 <= i <= self.outputs@.len(),
                forall|j: int| 0 <= j < i ==> self.outputs@[j].name@ != entry.name@,
                old(self) == self,
                self.wf(),
            decreases self.outputs@.len() - i,
        {
            if self.outputs[i].name == entry.name {
                proof {
                    assert forall|j: int|
                        0 <= j < self.outputs@.len() && self.outputs@[j].name@
                        == entry.name@ implies j == i as int by {
                        if j < i as int {
                        } else if j > i as int {
                            assert(self.outputs@[i as int].name@ != self.outputs@[j].name@);
                        }
                    }
                }
                self.outputs[i] = entry;
                return ;
            }
            i = i + 1;
        }
        self.outputs.push(entry);
    }

    /// The registered geometry of the output named `name`, if any.
    pub fn output_geometry(&self, name: &String) -> (r: Option<Rect>)
        ensures
            r == spec_output_geometry(self.outputs@, name@),
    {
        let mut i: usize = 0;
        proof {
            assert(self.outputs@.skip(0) =~= self.outputs@);
        }
        while i < self.outputs.len()
            invariant
                0 <= i <= self.outputs@.len(),
                spec_output_geometry(self.outputs@, name@) == spec_output_geometry(
                    self.outputs@.skip(i as int),
                    name@,
                ),
            decreases self.outputs@.len() - i,
        {
            proof {
                assert(self.outputs@.skip(i as int)[0] == self.outputs@[i as int]);
                assert(self.outputs@.skip(i as int).drop_first() =~= self.outputs@.skip(i + 1));
            }
            if self.outputs[i].name == *name {
                return Some(self.outputs[i].geometry);
            }
            i = i + 1;
        }
        proof {
            assert(self.outputs@.skip(i as int) =~= Seq::<OutputState>::empty());
        }
        None
    }

    /// The windows the output named `name` must composite, in
    /// bottom-to-top paint order: exactly the mapped windows whose
    /// geometry overlaps the output's, in stack order. `None` when no
    /// such output is registered.
    pub fn render_elements_for(&self, name: &String) -> (r: Option<Vec<Window>>)
        ensures
            r is None <==> spec_output_geometry(self.outputs@, name@) is None,
            r matches Some(v) ==> spec_output_geometry(self.outputs@, name@) matches Some(geo)
                && v@ == self.windows@.filter(overlaps_pred(geo)),
    {
        let geo = match self.output_geometry(name) {
            Some(g) => g,
            None => {
                return None;
            },
        };
        let mut out: Vec<Window> = Vec::new();
        let mut i: usize = 0;
        proof {
            reveal(Seq::filter);
            assert(self.windows@.take(0) =~= Seq::<Window>::empty());
        }
        while i < self.windows.len()
            invariant
                0 <= i <= self.windows@.len(),
                out@ == self.windows@.take(i as int).filter(overlaps_pred(geo)),
            decreases self.windows@.len() - i,
        {
            proof {
                lemma_filter_take_step(self.windows@, overlaps_pred(geo), i as int);
            }
            if self.windows[i].geometry.overlaps(&geo) {
                out.push(self.windows[i]);
            }
            i = i + 1;
        }
        proof {
            assert(self.windows@.take(i as int) =~= self.windows@);
        }
        Some(out)
    }

    /// Records a new geometry for the window of identity `id` (a client
    /// committed new contents or the window moved), without touching
    /// its stacking position. A no-op if no such window is mapped.
    pub fn set_geometry(&mut self, id: u64, geometry: Rect)
        requires
            old(self).wf(),
        ensures
            final(self).wf(),
            final(self).outputs@ == old(self).outputs@,
            !contains_id(old(self).windows@, id) ==> final(self).windows@ == old(self).windows@,
            forall|j: int|
                0 <= j < old(self).windows@.len() && old(self).windows@[j].id == id
                    ==> final(self).windows@ == old(self).windows@.update(
                    j,
                    Window { geometry, ..old(self).windows@[j] },
                ),
    {
        let mut i: usize = 0;
        while i < self.windows.len()
            invariant
                0 <= i <= self.windows@.len(),
                forall|j: int| 0 <= j < i ==> self.windows@[j].id != id,
                old(self) == self,
                self.wf(),
            decreases self.windows@.len() - i,
        {
            if self.windows[i].id == id {
                let w = self.windows[i];
                proof {
                    assert forall|j: int|
                        0 <= j < self.windows@.len() && self.windows@[j].id == id implies j
                        == i as int by {
                        if j > i as int {
                            assert(self.windows@[i as int].id != self.windows@[j].id);
                        }
                    }
                }
                self.windows[i] = Window { geometry, ..w };
                return ;
            }
            i = i + 1;
        }
    }

    /// Marks the window of identity `id` as having lost its backing
    /// client surface; the window stays in the stack until the next
    /// `refresh`. A no-op if no such window is mapped.
    pub fn surface_destroyed(&mut self, id: u64)
        requires
            old(self).wf(),
        ensures
            final(self).wf(),
            final(self).outputs@ == old(self).outputs@,
            !contains_id(old(self).windows@, id) ==> final(self).windows@ == old(self).windows@,
            forall|j: int|
                0 <= j < old(self).windows@.len() && old(self).windows@[j].id == id
                    ==> final(self).windows@ == old(self).windows@.update(
                    j,
                    Window { alive: false, ..old(self).windows@[j] },
                ),
    {
        let mut i: usize = 0;
        while i < self.windows.len()
            invariant
                0 <= i <= self.windows@.len(),
                forall|j: int| 0 <= j < i ==> self.windows@[j].id != id,
                old(self) == self,
                self.wf(),
            decreases self.windows@.len() - i,
        {
            if self.windows[i].id == id {
                let w = self.windows[i];
                proof {
                    assert forall|j: int|
                        0 <= j < self.windows@.len() && self.windows@[j].id == id implies j
                        == i as int by {
                        if j > i as int {
                            assert(self.windows@[i as int].id != self.windows@[j].id);
                        }
                    }
                }
                self.windows[i] = Window { alive: false, ..w };
                return ;
            }
            i = i + 1;
        }
    }

    /// Prunes every window whose backing client surface has been
    /// destroyed, keeping the paint order of the survivors.
    pub fn refresh(&mut self)
        requires
            old(self).wf(),
        ensures
            final(self).wf(),
            final(self).outputs@ == old(self).outputs@,
            final(self).windows@ == old(self).windows@.filter(alive_pred()),
    {
        let mut out: Vec<Window> = Vec::new();
        let mut i: usize = 0;
        proof {
            reveal(Seq::filter);
            assert(self.windows@.take(0) =~= Seq::<Window>::empty());
        }
        while i < self.windows.len()
            invariant
                0 <= i <= self.windows@.len(),
                out@ == self.windows@.take(i as int).filter(alive_pred()),
                old(self) == self,
            decreases self.windows@.len() - i,
        {
            proof {
                lemma_filter_take_step(self.windows@, alive_pred(), i as int);
            }
            if self.windows[i].alive {
                out.push(self.windows[i]);
            }
            i = i + 1;
        }
        proof {
            assert(self.windows@.take(i as int) =~= self.windows@);
            lemma_filter_distinct(self.windows@, alive_pred());
        }
        self.windows = out;
    }
}

} // verus!
