//! The editor's scene data, modelled as plain values.
//!
//! A [`SceneContext`] is the mutable aggregate every command operates on: the
//! node graph, the current selection, the clipboard, and the navmesh pools.
//! Commands borrow it mutably for one execute/revert call and never retain a
//! reference across calls.

use vstd::prelude::*;

use crate::pool::{valid_slot, Handle, Pool, Slot};

verus! {

/// An integer 3-vector: the position of a navmesh vertex.
#[derive(Clone, Copy, PartialEq, Eq, Structural, Debug)]
pub struct Vector3 {
    pub x: i64,
    pub y: i64,
    pub z: i64,
}

/// The kind of node a graph slot holds. The editor spawns a pivot as the
/// root of its own nodes; rectangles are the 2D sprite nodes whose
/// properties the inspector edits.
#[derive(Clone, Copy, PartialEq, Eq, Structural, Debug)]
pub enum NodeKind {
    Pivot,
    Rectangle,
}

/// The editable scalar state of one graph node: the texture and color of a
/// rectangle, and the tag every base node carries. Values are resource ids
/// and packed color words, held as plain integers.
#[derive(Clone, Copy, PartialEq, Eq, Structural, Debug)]
pub struct NodeState {
    pub kind: NodeKind,
    pub texture: i64,
    pub color: i64,
    pub tag: i64,
}

impl NodeState {
    pub fn is_rectangle(&self) -> (b: bool)
        ensures
            b == (self.kind is Rectangle),
    {
        match self.kind {
            NodeKind::Rectangle => true,
            NodeKind::Pivot => false,
        }
    }
}

impl View for NodeState {
    type V = NodeState;

    open spec fn view(&self) -> NodeState {
        *self
    }
}

/// A vertex of an editor navmesh.
#[derive(Clone, Copy, PartialEq, Eq, Structural, Debug)]
pub struct NavmeshVertex {
    pub position: Vector3,
}

impl View for NavmeshVertex {
    type V = NavmeshVertex;

    open spec fn view(&self) -> NavmeshVertex {
        *self
    }
}

/// A triangle of an editor navmesh; its corners are handles into the
/// navmesh's vertex pool.
#[derive(Clone, Copy, PartialEq, Eq, Structural, Debug)]
pub struct NavmeshTriangle {
    pub a: Handle,
    pub b: Handle,
    pub c: Handle,
}

impl View for NavmeshTriangle {
    type V = NavmeshTriangle;

    open spec fn view(&self) -> NavmeshTriangle {
        *self
    }
}

/// An editor navmesh: a pool of vertices addressed by handle, and an ordered
/// list of triangles over those vertices. The triangle list is the ordered
/// collection the add/remove command pair edits.
pub struct Navmesh {
    pub vertices: Pool<NavmeshVertex>,
    pub triangles: Vec<NavmeshTriangle>,
}

/// Mathematical value of a [`Navmesh`].
#[verifier::ext_equal]
pub struct NavmeshV {
    pub vertices: Seq<Slot<NavmeshVertex>>,
    pub triangles: Seq<NavmeshTriangle>,
}

impl View for Navmesh {
    type V = NavmeshV;

    open spec fn view(&self) -> NavmeshV {
        NavmeshV { vertices: self.vertices.view(), triangles: self.triangles.view() }
    }
}

/// A selection of graph nodes.
#[derive(Debug)]
pub struct GraphSelection {
    pub nodes: Vec<Handle>,
}

impl GraphSelection {
    pub fn is_empty(&self) -> (b: bool)
        ensures
            b == (self.nodes.view().len() == 0),
    {
        self.nodes.len() == 0
    }

    pub fn len(&self) -> (n: usize)
        ensures
            n == self.nodes.view().len(),
    {
        self.nodes.len()
    }
}

/// A selection of entities (vertices or triangle corners) of one navmesh.
#[derive(Debug)]
pub struct NavmeshSelection {
    pub navmesh: Handle,
    pub entities: Vec<Handle>,
}

impl NavmeshSelection {
    pub fn is_empty(&self) -> (b: bool)
        ensures
            b == (self.entities.view().len() == 0),
    {
        self.entities.len() == 0
    }

    pub fn len(&self) -> (n: usize)
        ensures
            n == self.entities.view().len(),
    {
        self.entities.len()
    }
}

/// A selection of audio effects.
#[derive(Debug)]
pub struct EffectSelection {
    pub effects: Vec<Handle>,
}

impl EffectSelection {
    pub fn is_empty(&self) -> (b: bool)
        ensures
            b == (self.effects.view().len() == 0),
    {
        self.effects.len() == 0
    }

    pub fn len(&self) -> (n: usize)
        ensures
            n == self.effects.view().len(),
    {
        self.effects.len()
    }
}

/// What the editor currently has selected.
#[derive(Debug)]
pub enum Selection {
    Nothing,
    SoundContext,
    Graph(GraphSelection),
    Navmesh(NavmeshSelection),
    Effect(EffectSelection),
}

/// Mathematical value of a [`Selection`].
#[verifier::ext_equal]
pub enum SelectionV {
    Nothing,
    SoundContext,
    Graph(Seq<Handle>),
    Navmesh(Handle, Seq<Handle>),
    Effect(Seq<Handle>),
}

impl SelectionV {
    /// How many entities the selection holds: the sound context counts as a
    /// single selected entity.
    pub open spec fn spec_len(self) -> nat {
        match self {
            SelectionV::Nothing => 0,
            SelectionV::SoundContext => 1,
            SelectionV::Graph(nodes) => nodes.len(),
            SelectionV::Navmesh(_, entities) => entities.len(),
            SelectionV::Effect(effects) => effects.len(),
        }
    }
}

impl View for Selection {
    type V = SelectionV;

    open spec fn view(&self) -> SelectionV {
        match self {
            Selection::Nothing => SelectionV::Nothing,
            Selection::SoundContext => SelectionV::SoundContext,
            Selection::Graph(g) => SelectionV::Graph(g.nodes.view()),
            Selection::Navmesh(n) => SelectionV::Navmesh(n.navmesh, n.entities.view()),
            Selection::Effect(e) => SelectionV::Effect(e.effects.view()),
        }
    }
}

impl Default for Selection {
    fn default() -> (s: Selection)
        ensures
            s.view() == SelectionV::Nothing,
    {
        Selection::Nothing
    }
}

impl Selection {
    pub fn is_empty(&self) -> (b: bool)
        ensures
            b == (self.view().spec_len() == 0),
    {
        match self {
            Selection::Nothing => true,
            Selection::Graph(graph) => graph.is_empty(),
            Selection::Navmesh(navmesh) => navmesh.is_empty(),
            Selection::SoundContext => false,
            Selection::Effect(effect) => effect.is_empty(),
        }
    }

    pub fn len(&self) -> (n: usize)
        ensures
            n == self.view().spec_len(),
    {
        match self {
            Selection::Nothing => 0,
            Selection::Graph(graph) => graph.len(),
            Selection::Navmesh(navmesh) => navmesh.len(),
            Selection::SoundContext => 1,
            Selection::Effect(effect) => effect.len(),
        }
    }

    pub fn is_single_selection(&self) -> (b: bool)
        ensures
            b == (self.view().spec_len() == 1),
    {
        self.len() == 1
    }
}

/// Nodes copied out of the scene, waiting to be pasted.
#[derive(Debug)]
pub struct Clipboard {
    pub nodes: Vec<NodeState>,
}

impl Clipboard {
    pub fn new() -> (c: Clipboard)
        ensures
            c.nodes.view() == Seq::<NodeState>::empty(),
    {
        Clipboard { nodes: Vec::new() }
    }
}

/// The mutable aggregate a command operates on: the node graph, the current
/// selection, the clipboard, and the editor-only navmesh pool.
pub struct SceneContext {
    pub graph: Pool<NodeState>,
    pub selection: Selection,
    pub clipboard: Clipboard,
    pub navmeshes: Pool<Navmesh>,
}

/// Mathematical value of a [`SceneContext`]: what "observationally equal"
/// means for the round-trip law.
#[verifier::ext_equal]
pub struct SceneContextV {
    pub graph: Seq<Slot<NodeState>>,
    pub selection: SelectionV,
    pub clipboard: Seq<NodeState>,
    pub navmeshes: Seq<Slot<NavmeshV>>,
}

impl View for SceneContext {
    type V = SceneContextV;

    open spec fn view(&self) -> SceneContextV {
        SceneContextV {
            graph: self.graph.view(),
            selection: self.selection.view(),
            clipboard: self.clipboard.nodes.view(),
            navmeshes: self.navmeshes.view(),
        }
    }
}

impl SceneContext {
    /// A context with an empty graph, nothing selected, an empty clipboard
    /// and no navmeshes.
    pub fn new() -> (ctx: SceneContext)
        ensures
            ctx.view() == (SceneContextV {
                graph: Seq::<Slot<NodeState>>::empty(),
                selection: SelectionV::Nothing,
                clipboard: Seq::<NodeState>::empty(),
                navmeshes: Seq::<Slot<NavmeshV>>::empty(),
            }),
    {
        let ctx = SceneContext {
            graph: Pool::new(),
            selection: Selection::Nothing,
            clipboard: Clipboard::new(),
            navmeshes: Pool::new(),
        };
        proof {
            assert(ctx.view() =~= SceneContextV {
                graph: Seq::<Slot<NodeState>>::empty(),
                selection: SelectionV::Nothing,
                clipboard: Seq::<NodeState>::empty(),
                navmeshes: Seq::<Slot<NavmeshV>>::empty(),
            });
        }
        ctx
    }
}

/// `h` addresses a live node of the graph.
pub open spec fn valid_node(s: SceneContextV, h: Handle) -> bool {
    valid_slot(s.graph, h)
}

/// `h` addresses a live navmesh.
pub open spec fn valid_navmesh(s: SceneContextV, h: Handle) -> bool {
    valid_slot(s.navmeshes, h)
}

/// The node a valid handle addresses.
pub open spec fn node_at(s: SceneContextV, h: Handle) -> NodeState {
    s.graph[h.index as int].payload->0
}

/// The navmesh a valid handle addresses.
pub open spec fn navmesh_at(s: SceneContextV, h: Handle) -> NavmeshV {
    s.navmeshes[h.index as int].payload->0
}

/// `s` with the node at `h` replaced by `n`, everything else untouched.
pub open spec fn with_node(s: SceneContextV, h: Handle, n: NodeState) -> SceneContextV {
    SceneContextV {
        graph: s.graph.update(
            h.index as int,
            Slot { generation: h.generation, payload: Some(n) },
        ),
        ..s
    }
}

/// `s` with the navmesh at `h` replaced by `nm`, everything else untouched.
pub open spec fn with_navmesh(s: SceneContextV, h: Handle, nm: NavmeshV) -> SceneContextV {
    SceneContextV {
        navmeshes: s.navmeshes.update(
            h.index as int,
            Slot { generation: h.generation, payload: Some(nm) },
        ),
        ..s
    }
}

impl SceneContext {
    /// Reads the node a valid handle addresses.
    pub fn node(&self, h: Handle) -> (n: NodeState)
        requires
            valid_node(self.view(), h),
        ensures
            n == node_at(self.view(), h),
    {
        *self.graph.get(h)
    }

    /// Overwrites the node a valid handle addresses.
    pub fn set_node(&mut self, h: Handle, n: NodeState)
        requires
            valid_node(old(self).view(), h),
        ensures
            final(self).view() == with_node(old(self).view(), h, n),
    {
        let _replaced = self.graph.take(h);
        self.graph.put(h, n);
        proof {
            assert(self.view() =~= with_node(old(self).view(), h, n));
        }
    }

    /// Appends a triangle to the navmesh `h` addresses.
    pub fn push_triangle(&mut self, h: Handle, value: NavmeshTriangle)
        requires
            valid_navmesh(old(self).view(), h),
        ensures
            final(self).view() == with_navmesh(
                old(self).view(),
                h,
                NavmeshV {
                    vertices: navmesh_at(old(self).view(), h).vertices,
                    triangles: navmesh_at(old(self).view(), h).triangles.push(value),
                },
            ),
    {
        let mut nm = self.navmeshes.take(h);
        nm.triangles.push(value);
        self.navmeshes.put(h, nm);
        proof {
            assert(self.view() =~= with_navmesh(
                old(self).view(),
                h,
                NavmeshV {
                    vertices: navmesh_at(old(self).view(), h).vertices,
                    triangles: navmesh_at(old(self).view(), h).triangles.push(value),
                },
            ));
        }
    }

    /// Removes and returns the last triangle of the navmesh `h` addresses.
    pub fn pop_triangle(&mut self, h: Handle) -> (t: NavmeshTriangle)
        requires
            valid_navmesh(old(self).view(), h),
            navmesh_at(old(self).view(), h).triangles.len() > 0,
        ensures
            t == navmesh_at(old(self).view(), h).triangles.last(),
            final(self).view() == with_navmesh(
                old(self).view(),
                h,
                NavmeshV {
                    vertices: navmesh_at(old(self).view(), h).vertices,
                    triangles: navmesh_at(old(self).view(), h).triangles.drop_last(),
                },
            ),
    {
        let mut nm = self.navmeshes.take(h);
        let t = nm.triangles.pop().unwrap();
        self.navmeshes.put(h, nm);
        proof {
            assert(self.view() =~= with_navmesh(
                old(self).view(),
                h,
                NavmeshV {
                    vertices: navmesh_at(old(self).view(), h).vertices,
                    triangles: navmesh_at(old(self).view(), h).triangles.drop_last(),
                },
            ));
        }
        t
    }

    /// Removes and returns the triangle at `index` of the navmesh `h`
    /// addresses; the triangles after it shift one place down.
    pub fn remove_triangle(&mut self, h: Handle, index: usize) -> (t: NavmeshTriangle)
        requires
            valid_navmesh(old(self).view(), h),
            index < navmesh_at(old(self).view(), h).triangles.len(),
        ensures
            t == navmesh_at(old(self).view(), h).triangles[index as int],
            final(self).view() == with_navmesh(
                old(self).view(),
                h,
                NavmeshV {
                    vertices: navmesh_at(old(self).view(), h).vertices,
                    triangles: navmesh_at(old(self).view(), h).triangles.remove(index as int),
                },
            ),
    {
        let mut nm = self.navmeshes.take(h);
        let t = nm.triangles.remove(index);
        self.navmeshes.put(h, nm);
        proof {
            assert(self.view() =~= with_navmesh(
                old(self).view(),
                h,
                NavmeshV {
                    vertices: navmesh_at(old(self).view(), h).vertices,
                    triangles: navmesh_at(old(self).view(), h).triangles.remove(index as int),
                },
            ));
        }
        t
    }

    /// Inserts a triangle at `index` of the navmesh `h` addresses; the
    /// triangles from `index` on shift one place up.
    pub fn insert_triangle(&mut self, h: Handle, index: usize, value: NavmeshTriangle)
        requires
            valid_navmesh(old(self).view(), h),
            index <= navmesh_at(old(self).view(), h).triangles.len(),
        ensures
            final(self).view() == with_navmesh(
                old(self).view(),
                h,
                NavmeshV {
                    vertices: navmesh_at(old(self).view(), h).vertices,
                    triangles: navmesh_at(old(self).view(), h).triangles.insert(
                        index as int,
                        value,
                    ),
                },
            ),
    {
        let mut nm = self.navmeshes.take(h);
        nm.triangles.insert(index, value);
        self.navmeshes.put(h, nm);
        proof {
            assert(self.view() =~= with_navmesh(
                old(self).view(),
                h,
                NavmeshV {
                    vertices: navmesh_at(old(self).view(), h).vertices,
                    triangles: navmesh_at(old(self).view(), h).triangles.insert(
                        index as int,
                        value,
                    ),
                },
            ));
        }
    }
}

/// A triangle of an engine navmesh: three dense vertex indices.
#[derive(Clone, Copy, PartialEq, Eq, Structural, Debug)]
pub struct TriangleDefinition {
    pub a: u32,
    pub b: u32,
    pub c: u32,
}

/// A navmesh in the dense shape the engine hands over and takes back:
/// vertex positions in order, and triangles as index triples into them.
#[derive(Debug)]
pub struct RawNavmesh {
    pub vertices: Vec<Vector3>,
    pub triangles: Vec<TriangleDefinition>,
}

/// Mathematical value of a [`RawNavmesh`].
#[verifier::ext_equal]
pub struct RawNavmeshV {
    pub vertices: Seq<Vector3>,
    pub triangles: Seq<TriangleDefinition>,
}

impl View for RawNavmesh {
    type V = RawNavmeshV;

    open spec fn view(&self) -> RawNavmeshV {
        RawNavmeshV { vertices: self.vertices.view(), triangles: self.triangles.view() }
    }
}

/// The editor navmesh an engine navmesh becomes: each vertex occupies a
/// generation-one slot of its own, and each index triple becomes a triangle
/// of generation-one handles.
pub open spec fn navmesh_of_raw(r: RawNavmeshV) -> NavmeshV {
    NavmeshV {
        vertices: Seq::new(
            r.vertices.len(),
            |i: int|
                Slot {
                    generation: 1u32,
                    payload: Some(NavmeshVertex { position: r.vertices[i] }),
                },
        ),
        triangles: r.triangles.map(
            |i: int, t: TriangleDefinition|
                NavmeshTriangle {
                    a: Handle { index: t.a, generation: 1u32 },
                    b: Handle { index: t.b, generation: 1u32 },
                    c: Handle { index: t.c, generation: 1u32 },
                },
        ),
    }
}

/// The pool slot a fresh engine navmesh occupies.
pub open spec fn raw_slot(r: RawNavmesh) -> Slot<NavmeshV> {
    Slot { generation: 1u32, payload: Some(navmesh_of_raw(r.view())) }
}

/// The engine data is small enough to address with generation-one handles.
pub open spec fn raw_navmeshes_bounded(rs: Seq<RawNavmesh>) -> bool {
    &&& rs.len() < u32::MAX
    &&& forall|i: int|
        0 <= i < rs.len() ==> (#[trigger] rs[i]).view().vertices.len() < u32::MAX
}

/// How many live slots lie strictly before index `i`: the dense index the
/// engine sees for the vertex at slot `i`.
pub open spec fn live_before(vs: Seq<Slot<NavmeshVertex>>, i: int) -> int
    decreases i,
{
    if i <= 0 {
        0
    } else {
        live_before(vs, i - 1) + if vs[i - 1].payload is Some {
            1int
        } else {
            0int
        }
    }
}

pub proof fn lemma_live_before_bound(vs: Seq<Slot<NavmeshVertex>>, i: int)
    requires
        i >= 0,
    ensures
        0 <= live_before(vs, i) <= i,
    decreases i,
{
    if i > 0 {
        lemma_live_before_bound(vs, i - 1);
    }
}

/// The positions of the live vertices, in slot order: what the engine gets.
pub open spec fn dense_vertices(vs: Seq<Slot<NavmeshVertex>>) -> Seq<Vector3>
    decreases vs.len(),
{
    if vs.len() == 0 {
        Seq::empty()
    } else {
        let front = dense_vertices(vs.drop_last());
        if vs.last().payload is Some {
            front.push(vs.last().payload->0.position)
        } else {
            front
        }
    }
}

/// A triangle with each corner handle replaced by the dense index of the
/// vertex it addresses.
pub open spec fn dense_triangle(vs: Seq<Slot<NavmeshVertex>>, t: NavmeshTriangle)
    -> TriangleDefinition {
    TriangleDefinition {
        a: live_before(vs, t.a.index as int) as u32,
        b: live_before(vs, t.b.index as int) as u32,
        c: live_before(vs, t.c.index as int) as u32,
    }
}

/// The dense form of one editor navmesh.
pub open spec fn dense_of_navmesh(nm: NavmeshV) -> RawNavmeshV {
    RawNavmeshV {
        vertices: dense_vertices(nm.vertices),
        triangles: nm.triangles.map(|i: int, t: NavmeshTriangle| dense_triangle(nm.vertices, t)),
    }
}

/// The dense forms of the live navmeshes of the pool, in slot order.
pub open spec fn dense_scene(nms: Seq<Slot<NavmeshV>>) -> Seq<RawNavmeshV>
    decreases nms.len(),
{
    if nms.len() == 0 {
        Seq::empty()
    } else {
        let front = dense_scene(nms.drop_last());
        if nms.last().payload is Some {
            front.push(dense_of_navmesh(nms.last().payload->0))
        } else {
            front
        }
    }
}

/// Every triangle corner addresses a live vertex — a stale corner handle
/// would be a contract breach, never mapped silently — and the vertex pool
/// is small enough for dense `u32` indices.
pub open spec fn navmesh_saveable(nm: NavmeshV) -> bool {
    &&& nm.vertices.len() <= u32::MAX
    &&& forall|k: int|
        0 <= k < nm.triangles.len() ==> {
            &&& valid_slot(nm.vertices, (#[trigger] nm.triangles[k]).a)
            &&& valid_slot(nm.vertices, nm.triangles[k].b)
            &&& valid_slot(nm.vertices, nm.triangles[k].c)
        }
}

/// Every live navmesh of the pool can be handed back to the engine.
pub open spec fn scene_saveable(nms: Seq<Slot<NavmeshV>>) -> bool {
    forall|i: int|
        0 <= i < nms.len() && (#[trigger] nms[i]).payload is Some ==> navmesh_saveable(
            nms[i].payload->0,
        )
}

/// The views of a list of raw navmeshes.
pub open spec fn raw_views(rs: Seq<RawNavmesh>) -> Seq<RawNavmeshV> {
    rs.map(|i: int, r: RawNavmesh| r.view())
}

/// Converts one editor navmesh to the dense form the engine takes back:
/// live vertices in slot order, and each triangle corner replaced by the
/// dense index of its vertex (the sparse-to-dense handle mapping).
pub fn dense_navmesh(nm: &Navmesh) -> (out: RawNavmesh)
    requires
        navmesh_saveable(nm.view()),
    ensures
        out.view() == dense_of_navmesh(nm.view()),
{
    let vs_len = nm.vertices.len();
    let mut dense_of: Vec<u32> = Vec::new();
    let mut vertices: Vec<Vector3> = Vec::new();
    let mut j: usize = 0;
    while j < vs_len
        invariant
            j <= vs_len,
            vs_len == nm.vertices.view().len(),
            navmesh_saveable(nm.view()),
            vertices.view() == dense_vertices(nm.vertices.view().take(j as int)),
            vertices.view().len() == live_before(nm.vertices.view(), j as int),
            dense_of.view().len() == j,
            forall|m: int|
                0 <= m < j ==> dense_of.view()[m] == live_before(nm.vertices.view(), m),
        decreases vs_len - j,
    {
        proof {
            lemma_live_before_bound(nm.vertices.view(), j as int);
        }
        dense_of.push(vertices.len() as u32);
        match nm.vertices.payload_at(j) {
            Some(v) => {
                vertices.push(v.position);
            },
            None => {
            },
        }
        proof {
            assert(nm.vertices.view().take(j as int + 1).drop_last() =~= nm.vertices.view().take(
                j as int,
            ));
            assert(nm.vertices.view().take(j as int + 1).last() == nm.vertices.view()[j as int]);
        }
        j = j + 1;
    }
    proof {
        assert(nm.vertices.view().take(vs_len as int) =~= nm.vertices.view());
    }
    let tn = nm.triangles.len();
    let mut triangles: Vec<TriangleDefinition> = Vec::new();
    let mut k: usize = 0;
    while k < tn
        invariant
            k <= tn,
            tn == nm.triangles.view().len(),
            vs_len == nm.vertices.view().len(),
            navmesh_saveable(nm.view()),
            dense_of.view().len() == vs_len,
            forall|m: int|
                0 <= m < vs_len ==> dense_of.view()[m] == live_before(nm.vertices.view(), m),
            triangles.view().len() == k,
            forall|m: int|
                0 <= m < k ==> triangles.view()[m] == dense_triangle(
                    nm.vertices.view(),
                    nm.triangles.view()[m],
                ),
        decreases tn - k,
    {
        let t = nm.triangles[k];
        proof {
            assert(nm.view().triangles =~= nm.triangles.view());
            assert(nm.view().vertices =~= nm.vertices.view());
            assert(valid_slot(nm.view().vertices, (nm.view().triangles[k as int]).a));
            assert(valid_slot(nm.view().vertices, nm.view().triangles[k as int].b));
            assert(valid_slot(nm.view().vertices, nm.view().triangles[k as int].c));
            lemma_live_before_bound(nm.vertices.view(), t.a.index as int);
            lemma_live_before_bound(nm.vertices.view(), t.b.index as int);
            lemma_live_before_bound(nm.vertices.view(), t.c.index as int);
        }
        let ta = dense_of[t.a.index as usize];
        let tb = dense_of[t.b.index as usize];
        let tc = dense_of[t.c.index as usize];
        triangles.push(TriangleDefinition { a: ta, b: tb, c: tc });
        k = k + 1;
    }
    proof {
        assert(triangles.view() =~= nm.triangles.view().map(
            |i: int, t: NavmeshTriangle| dense_triangle(nm.vertices.view(), t),
        ));
    }
    RawNavmesh { vertices, triangles }
}

/// The editor's own scene state: where it saves to, the root it spawned for
/// its own helper nodes, and the context commands operate on. The engine's
/// live scene, its renderer and the camera controller stay outside; the
/// editor consumes and produces only the plain data modelled here.
pub struct EditorScene {
    pub path: Option<String>,
    pub root: Handle,
    pub context: SceneContext,
}

/// Mathematical value of an [`EditorScene`].
#[verifier::ext_equal]
pub struct EditorSceneV {
    pub path: Option<Seq<char>>,
    pub root: Handle,
    pub context: SceneContextV,
}

impl View for EditorScene {
    type V = EditorSceneV;

    open spec fn view(&self) -> EditorSceneV {
        EditorSceneV {
            path: match self.path {
                Some(ref p) => Some(p.view()),
                None => None,
            },
            root: self.root,
            context: self.context.view(),
        }
    }
}

impl EditorScene {
    /// Builds the editor's scene state from what the engine handed over:
    /// spawns the root pivot for editor-only nodes as the first graph node,
    /// and copies every engine navmesh into an editor pool, each vertex in a
    /// generation-one slot of its own and each index triple turned into a
    /// triangle of generation-one handles.
    pub fn from_native_scene(navmeshes: &Vec<RawNavmesh>, path: Option<String>) -> (s: EditorScene)
        requires
            raw_navmeshes_bounded(navmeshes.view()),
        ensures
            s.view().path == (match path {
                Some(p) => Some(p.view()),
                None => None::<Seq<char>>,
            }),
            s.root == (Handle { index: 0u32, generation: 1u32 }),
            s.view().context.graph == seq![
                Slot {
                    generation: 1u32,
                    payload: Some(
                        NodeState { kind: NodeKind::Pivot, texture: 0i64, color: 0i64, tag: 0i64 },
                    ),
                },
            ],
            s.view().context.selection == SelectionV::Nothing,
            s.view().context.clipboard == Seq::<NodeState>::empty(),
            s.view().context.navmeshes == navmeshes.view().map(
                |i: int, r: RawNavmesh| raw_slot(r),
            ),
    {
        let mut context = SceneContext::new();
        let root = context.graph.spawn(
            NodeState { kind: NodeKind::Pivot, texture: 0, color: 0, tag: 0 },
        );
        let n = navmeshes.len();
        let mut i: usize = 0;
        while i < n
            invariant
                i <= n,
                n == navmeshes.view().len(),
                raw_navmeshes_bounded(navmeshes.view()),
                context.view().graph == seq![
                    Slot {
                        generation: 1u32,
                        payload: Some(
                            NodeState {
                                kind: NodeKind::Pivot,
                                texture: 0i64,
                                color: 0i64,
                                tag: 0i64,
                            },
                        ),
                    },
                ],
                context.view().selection == SelectionV::Nothing,
                context.view().clipboard == Seq::<NodeState>::empty(),
                context.view().navmeshes == navmeshes.view().take(i as int).map(
                    |k: int, r: RawNavmesh| raw_slot(r),
                ),
            decreases n - i,
        {
            let raw = &navmeshes[i];
            let vn = raw.vertices.len();
            let mut vertices: Pool<NavmeshVertex> = Pool::new();
            let mut j: usize = 0;
            while j < vn
                invariant
                    j <= vn,
                    vn == raw.vertices.view().len(),
                    vn < u32::MAX,
                    vertices.view() == Seq::new(
                        j as nat,
                        |m: int|
                            Slot {
                                generation: 1u32,
                                payload: Some(
                                    NavmeshVertex { position: raw.vertices.view()[m] },
                                ),
                            },
                    ),
                decreases vn - j,
            {
                let _h = vertices.spawn(NavmeshVertex { position: raw.vertices[j] });
                proof {
                    assert(vertices.view() =~= Seq::new(
                        j as nat + 1,
                        |m: int|
                            Slot {
                                generation: 1u32,
                                payload: Some(
                                    NavmeshVertex { position: raw.vertices.view()[m] },
                                ),
                            },
                    ));
                }
                j = j + 1;
            }
            let tn = raw.triangles.len();
            let mut triangles: Vec<NavmeshTriangle> = Vec::new();
            let mut k: usize = 0;
            while k < tn
                invariant
                    k <= tn,
                    tn == raw.triangles.view().len(),
                    triangles.view().len() == k,
                    forall|m: int|
                        0 <= m < k ==> triangles.view()[m] == (NavmeshTriangle {
                            a: Handle {
                                index: raw.triangles.view()[m].a,
                                generation: 1u32,
                            },
                            b: Handle {
                                index: raw.triangles.view()[m].b,
                                generation: 1u32,
                            },
                            c: Handle {
                                index: raw.triangles.view()[m].c,
                                generation: 1u32,
                            },
                        }),
                decreases tn - k,
            {
                let t = raw.triangles[k];
                triangles.push(
                    NavmeshTriangle {
                        a: Handle::new(t.a, 1),
                        b: Handle::new(t.b, 1),
                        c: Handle::new(t.c, 1),
                    },
                );
                k = k + 1;
            }
            let nm = Navmesh { vertices, triangles };
            proof {
                assert(nm.view() =~~= navmesh_of_raw(raw.view()));
            }
            let _h = context.navmeshes.spawn(nm);
            proof {
                assert(context.view().navmeshes =~= navmeshes.view().take(i as int + 1).map(
                    |k: int, r: RawNavmesh| raw_slot(r),
                ));
            }
            i = i + 1;
        }
        proof {
            assert(navmeshes.view().take(n as int) =~= navmeshes.view());
        }
        EditorScene { path, root, context }
    }

    /// Remembers `path` as where the scene lives and hands back every live
    /// navmesh in the dense form the engine's scene takes: the compute half
    /// of saving. Writing the binary file — and anything that can fail in it
    /// — stays with the engine edge that calls this.
    pub fn save(&mut self, path: String) -> (out: Vec<RawNavmesh>)
        requires
            scene_saveable(old(self).view().context.navmeshes),
        ensures
            final(self).view() == (EditorSceneV { path: Some(path.view()), ..old(self).view() }),
            raw_views(out.view()) == dense_scene(old(self).view().context.navmeshes),
    {
        self.path = Some(path);
        let n = self.context.navmeshes.len();
        let mut out: Vec<RawNavmesh> = Vec::new();
        let mut i: usize = 0;
        while i < n
            invariant
                i <= n,
                n == self.context.navmeshes.view().len(),
                scene_saveable(self.context.navmeshes.view()),
                raw_views(out.view()) == dense_scene(self.context.navmeshes.view().take(i as int)),
            decreases n - i,
        {
            match self.context.navmeshes.payload_at(i) {
                Some(nm) => {
                    proof {
                        assert(self.context.navmeshes.view()[i as int].payload is Some);
                    }
                    let dense = dense_navmesh(nm);
                    out.push(dense);
                },
                None => {
                },
            }
            proof {
                assert(self.context.navmeshes.view().take(i as int + 1).drop_last()
                    =~= self.context.navmeshes.view().take(i as int));
                assert(self.context.navmeshes.view().take(i as int + 1).last()
                    == self.context.navmeshes.view()[i as int]);
                assert(raw_views(out.view()) =~= dense_scene(
                    self.context.navmeshes.view().take(i as int + 1),
                ));
            }
            i = i + 1;
        }
        proof {
            assert(self.context.navmeshes.view().take(n as int) =~= self.context.navmeshes.view());
            assert(self.view() =~~= EditorSceneV { path: Some(path.view()), ..old(self).view() });
        }
        out
    }
}

} // verus!
