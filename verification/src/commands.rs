//! Reversible commands.
//!
//! A command is the atomic unit of reversible mutation: `execute` applies it
//! to the scene context, `revert` undoes it exactly, and `name` labels it for
//! the history display. A composite command is an ordered batch of commands
//! executed first to last and reverted last to first, as one indivisible
//! history entry.
//!
//! The meaning of every command is a pure transition on the context's
//! mathematical value ([`atomic_execute_spec`], [`atomic_revert_spec`]); the
//! executable functions are proved to follow it, and the round-trip law —
//! execute then revert restores the context exactly — is proved for every
//! command, composites included ([`lemma_command_round_trip`]).

use vstd::prelude::*;

use crate::pool::Handle;
use crate::scene::{
    navmesh_at, node_at, valid_navmesh, valid_node, with_navmesh, with_node, NavmeshTriangle,
    NavmeshV, NodeState, SceneContext, SceneContextV,
};

verus! {

/// One reversible mutation of a single field or collection of the scene.
///
/// The scalar-set commands capture the prior value lazily: `old_value` is
/// `None` until the command executes, holds the overwritten value while the
/// command is executed, and is taken again on revert. The remove command
/// stores the removed element the same way.
#[derive(Clone, Copy, Debug)]
pub enum AtomicCommand {
    /// Sets the texture of a rectangle node.
    SetRectangleTexture { handle: Handle, old_value: Option<i64>, new_value: i64 },
    /// Sets the color of a rectangle node.
    SetRectangleColor { handle: Handle, old_value: Option<i64>, new_value: i64 },
    /// Sets the tag of any node.
    SetTag { handle: Handle, old_value: Option<i64>, new_value: i64 },
    /// Appends a triangle to a navmesh; revert pops it again.
    AddTriangle { navmesh: Handle, value: NavmeshTriangle },
    /// Removes the triangle at `index` from a navmesh and keeps it in
    /// `value`; revert inserts it back at the same index.
    RemoveTriangle { navmesh: Handle, index: usize, value: Option<NavmeshTriangle> },
}

/// A command as the stack stores it: a single atomic command, or an ordered
/// batch of them treated as one history entry.
#[derive(Debug)]
pub enum SceneCommand {
    Atomic(AtomicCommand),
    Composite(Vec<AtomicCommand>),
}

/// Mathematical value of a [`SceneCommand`].
#[verifier::ext_equal]
pub enum CommandV {
    Atomic(AtomicCommand),
    Composite(Seq<AtomicCommand>),
}

impl View for SceneCommand {
    type V = CommandV;

    open spec fn view(&self) -> CommandV {
        match self {
            SceneCommand::Atomic(a) => CommandV::Atomic(*a),
            SceneCommand::Composite(cs) => CommandV::Composite(cs.view()),
        }
    }
}

/// `c` may execute on `s`: its target is live, a scalar-set command has not
/// captured a prior value yet (execute twice in a row is never permitted),
/// and a remove command's index is in range with its slot empty.
pub open spec fn atomic_can_execute(c: AtomicCommand, s: SceneContextV) -> bool {
    match c {
        AtomicCommand::SetRectangleTexture { handle, old_value, .. } => valid_node(s, handle)
            && old_value is None,
        AtomicCommand::SetRectangleColor { handle, old_value, .. } => valid_node(s, handle)
            && old_value is None,
        AtomicCommand::SetTag { handle, old_value, .. } => valid_node(s, handle)
            && old_value is None,
        AtomicCommand::AddTriangle { navmesh, .. } => valid_navmesh(s, navmesh),
        AtomicCommand::RemoveTriangle { navmesh, index, value } => valid_navmesh(s, navmesh)
            && value is None && index < navmesh_at(s, navmesh).triangles.len(),
    }
}

/// What executing `c` on `s` yields: the command with its captured state and
/// the mutated context. Exactly the targeted field or collection changes.
pub open spec fn atomic_execute_spec(c: AtomicCommand, s: SceneContextV) -> (
    AtomicCommand,
    SceneContextV,
) {
    match c {
        AtomicCommand::SetRectangleTexture { handle, old_value, new_value } => {
            let n = node_at(s, handle);
            (
                AtomicCommand::SetRectangleTexture {
                    handle,
                    old_value: Some(n.texture),
                    new_value,
                },
                with_node(s, handle, NodeState { texture: new_value, ..n }),
            )
        },
        AtomicCommand::SetRectangleColor { handle, old_value, new_value } => {
            let n = node_at(s, handle);
            (
                AtomicCommand::SetRectangleColor { handle, old_value: Some(n.color), new_value },
                with_node(s, handle, NodeState { color: new_value, ..n }),
            )
        },
        AtomicCommand::SetTag { handle, old_value, new_value } => {
            let n = node_at(s, handle);
            (
                AtomicCommand::SetTag { handle, old_value: Some(n.tag), new_value },
                with_node(s, handle, NodeState { tag: new_value, ..n }),
            )
        },
        AtomicCommand::AddTriangle { navmesh, value } => {
            let nm = navmesh_at(s, navmesh);
            (
                c,
                with_navmesh(
                    s,
                    navmesh,
                    NavmeshV { vertices: nm.vertices, triangles: nm.triangles.push(value) },
                ),
            )
        },
        AtomicCommand::RemoveTriangle { navmesh, index, value } => {
            let nm = navmesh_at(s, navmesh);
            (
                AtomicCommand::RemoveTriangle {
                    navmesh,
                    index,
                    value: Some(nm.triangles[index as int]),
                },
                with_navmesh(
                    s,
                    navmesh,
                    NavmeshV { vertices: nm.vertices, triangles: nm.triangles.remove(index as int) },
                ),
            )
        },
    }
}

/// `c` may revert on `s`: its target is live, the captured state is present,
/// and for an add command the last element is still the one it appended — a
/// collection mutated out of band would make the revert invalid.
pub open spec fn atomic_can_revert(c: AtomicCommand, s: SceneContextV) -> bool {
    match c {
        AtomicCommand::SetRectangleTexture { handle, old_value, .. } => valid_node(s, handle)
            && old_value is Some,
        AtomicCommand::SetRectangleColor { handle, old_value, .. } => valid_node(s, handle)
            && old_value is Some,
        AtomicCommand::SetTag { handle, old_value, .. } => valid_node(s, handle)
            && old_value is Some,
        AtomicCommand::AddTriangle { navmesh, value } => valid_navmesh(s, navmesh)
            && navmesh_at(s, navmesh).triangles.len() > 0 && navmesh_at(s, navmesh).triangles.last()
            == value,
        AtomicCommand::RemoveTriangle { navmesh, index, value } => valid_navmesh(s, navmesh)
            && value is Some && index <= navmesh_at(s, navmesh).triangles.len(),
    }
}

/// What reverting `c` on `s` yields: the command with its captured state
/// released, and the context with the prior value written back.
pub open spec fn atomic_revert_spec(c: AtomicCommand, s: SceneContextV) -> (
    AtomicCommand,
    SceneContextV,
) {
    match c {
        AtomicCommand::SetRectangleTexture { handle, old_value, new_value } => {
            let n = node_at(s, handle);
            (
                AtomicCommand::SetRectangleTexture { handle, old_value: None, new_value },
                with_node(s, handle, NodeState { texture: old_value->0, ..n }),
            )
        },
        AtomicCommand::SetRectangleColor { handle, old_value, new_value } => {
            let n = node_at(s, handle);
            (
                AtomicCommand::SetRectangleColor { handle, old_value: None, new_value },
                with_node(s, handle, NodeState { color: old_value->0, ..n }),
            )
        },
        AtomicCommand::SetTag { handle, old_value, new_value } => {
            let n = node_at(s, handle);
            (
                AtomicCommand::SetTag { handle, old_value: None, new_value },
                with_node(s, handle, NodeState { tag: old_value->0, ..n }),
            )
        },
        AtomicCommand::AddTriangle { navmesh, value } => {
            let nm = navmesh_at(s, navmesh);
            (
                c,
                with_navmesh(
                    s,
                    navmesh,
                    NavmeshV { vertices: nm.vertices, triangles: nm.triangles.drop_last() },
                ),
            )
        },
        AtomicCommand::RemoveTriangle { navmesh, index, value } => {
            let nm = navmesh_at(s, navmesh);
            (
                AtomicCommand::RemoveTriangle { navmesh, index, value: None },
                with_navmesh(
                    s,
                    navmesh,
                    NavmeshV {
                        vertices: nm.vertices,
                        triangles: nm.triangles.insert(index as int, value->0),
                    },
                ),
            )
        },
    }
}

/// Executes one atomic command against the context and returns the command
/// in its executed state (prior value captured).
pub fn execute_atomic(c: AtomicCommand, ctx: &mut SceneContext) -> (res: AtomicCommand)
    requires
        atomic_can_execute(c, old(ctx).view()),
    ensures
        res == atomic_execute_spec(c, old(ctx).view()).0,
        final(ctx).view() == atomic_execute_spec(c, old(ctx).view()).1,
{
    match c {
        AtomicCommand::SetRectangleTexture { handle, old_value: _, new_value } => {
            let n = ctx.node(handle);
            ctx.set_node(handle, NodeState { texture: new_value, ..n });
            AtomicCommand::SetRectangleTexture { handle, old_value: Some(n.texture), new_value }
        },
        AtomicCommand::SetRectangleColor { handle, old_value: _, new_value } => {
            let n = ctx.node(handle);
            ctx.set_node(handle, NodeState { color: new_value, ..n });
            AtomicCommand::SetRectangleColor { handle, old_value: Some(n.color), new_value }
        },
        AtomicCommand::SetTag { handle, old_value: _, new_value } => {
            let n = ctx.node(handle);
            ctx.set_node(handle, NodeState { tag: new_value, ..n });
            AtomicCommand::SetTag { handle, old_value: Some(n.tag), new_value }
        },
        AtomicCommand::AddTriangle { navmesh, value } => {
            ctx.push_triangle(navmesh, value);
            c
        },
        AtomicCommand::RemoveTriangle { navmesh, index, value: _ } => {
            let removed = ctx.remove_triangle(navmesh, index);
            AtomicCommand::RemoveTriangle { navmesh, index, value: Some(removed) }
        },
    }
}

/// Reverts one atomic command against the context and returns the command in
/// its pre-execute state (captured value released).
pub fn revert_atomic(c: AtomicCommand, ctx: &mut SceneContext) -> (res: AtomicCommand)
    requires
        atomic_can_revert(c, old(ctx).view()),
    ensures
        res == atomic_revert_spec(c, old(ctx).view()).0,
        final(ctx).view() == atomic_revert_spec(c, old(ctx).view()).1,
{
    match c {
        AtomicCommand::SetRectangleTexture { handle, old_value, new_value } => {
            let n = ctx.node(handle);
            ctx.set_node(handle, NodeState { texture: old_value.unwrap(), ..n });
            AtomicCommand::SetRectangleTexture { handle, old_value: None, new_value }
        },
        AtomicCommand::SetRectangleColor { handle, old_value, new_value } => {
            let n = ctx.node(handle);
            ctx.set_node(handle, NodeState { color: old_value.unwrap(), ..n });
            AtomicCommand::SetRectangleColor { handle, old_value: None, new_value }
        },
        AtomicCommand::SetTag { handle, old_value, new_value } => {
            let n = ctx.node(handle);
            ctx.set_node(handle, NodeState { tag: old_value.unwrap(), ..n });
            AtomicCommand::SetTag { handle, old_value: None, new_value }
        },
        AtomicCommand::AddTriangle { navmesh, value: _ } => {
            let _popped = ctx.pop_triangle(navmesh);
            c
        },
        AtomicCommand::RemoveTriangle { navmesh, index, value } => {
            ctx.insert_triangle(navmesh, index, value.unwrap());
            AtomicCommand::RemoveTriangle { navmesh, index, value: None }
        },
    }
}

/// Executing then reverting one atomic command restores both the command and
/// the context exactly.
pub proof fn lemma_atomic_round_trip(c: AtomicCommand, s: SceneContextV)
    requires
        atomic_can_execute(c, s),
    ensures
        atomic_can_revert(atomic_execute_spec(c, s).0, atomic_execute_spec(c, s).1),
        atomic_revert_spec(atomic_execute_spec(c, s).0, atomic_execute_spec(c, s).1) == (c, s),
{
    let (c1, s1) = atomic_execute_spec(c, s);
    match c {
        AtomicCommand::SetRectangleTexture { handle, old_value, new_value } => {
            let n = node_at(s, handle);
            assert(atomic_revert_spec(c1, s1).1 =~~= s);
        },
        AtomicCommand::SetRectangleColor { handle, old_value, new_value } => {
            assert(atomic_revert_spec(c1, s1).1 =~~= s);
        },
        AtomicCommand::SetTag { handle, old_value, new_value } => {
            assert(atomic_revert_spec(c1, s1).1 =~~= s);
        },
        AtomicCommand::AddTriangle { navmesh, value } => {
            let nm = navmesh_at(s, navmesh);
            assert(nm.triangles.push(value).drop_last() =~= nm.triangles);
            assert(atomic_revert_spec(c1, s1).1 =~~= s);
        },
        AtomicCommand::RemoveTriangle { navmesh, index, value } => {
            let nm = navmesh_at(s, navmesh);
            assert(nm.triangles.remove(index as int).insert(index as int, nm.triangles[index as int])
                =~= nm.triangles);
            assert(atomic_revert_spec(c1, s1).1 =~~= s);
        },
    }
}

/// The children of a composite may execute in stored order from `s`: each
/// child is enabled in the state the children before it leave behind.
pub open spec fn seq_can_execute(cs: Seq<AtomicCommand>, s: SceneContextV) -> bool
    decreases cs.len(),
{
    cs.len() == 0 || {
        &&& seq_can_execute(cs.drop_last(), s)
        &&& atomic_can_execute(cs.last(), seq_execute_spec(cs.drop_last(), s).1)
    }
}

/// What executing the children in stored order, first to last, yields.
pub open spec fn seq_execute_spec(cs: Seq<AtomicCommand>, s: SceneContextV) -> (
    Seq<AtomicCommand>,
    SceneContextV,
)
    decreases cs.len(),
{
    if cs.len() == 0 {
        (cs, s)
    } else {
        let fr = seq_execute_spec(cs.drop_last(), s);
        let la = atomic_execute_spec(cs.last(), fr.1);
        (fr.0.push(la.0), la.1)
    }
}

/// The children of a composite may revert in reverse order from `s`.
pub open spec fn seq_can_revert(cs: Seq<AtomicCommand>, s: SceneContextV) -> bool
    decreases cs.len(),
{
    cs.len() == 0 || {
        &&& atomic_can_revert(cs.last(), s)
        &&& seq_can_revert(cs.drop_last(), atomic_revert_spec(cs.last(), s).1)
    }
}

/// What reverting the children in reverse order, last to first, yields.
pub open spec fn seq_revert_spec(cs: Seq<AtomicCommand>, s: SceneContextV) -> (
    Seq<AtomicCommand>,
    SceneContextV,
)
    decreases cs.len(),
{
    if cs.len() == 0 {
        (cs, s)
    } else {
        let la = atomic_revert_spec(cs.last(), s);
        let fr = seq_revert_spec(cs.drop_last(), la.1);
        (fr.0.push(la.0), fr.1)
    }
}

pub proof fn lemma_seq_revert_len(cs: Seq<AtomicCommand>, s: SceneContextV)
    ensures
        seq_revert_spec(cs, s).0.len() == cs.len(),
    decreases cs.len(),
{
    if cs.len() != 0 {
        lemma_seq_revert_len(cs.drop_last(), atomic_revert_spec(cs.last(), s).1);
    }
}

/// Composite round trip: executing children first to last and then reverting
/// them last to first restores both the children and the context exactly.
pub proof fn lemma_seq_round_trip(cs: Seq<AtomicCommand>, s: SceneContextV)
    requires
        seq_can_execute(cs, s),
    ensures
        seq_can_revert(seq_execute_spec(cs, s).0, seq_execute_spec(cs, s).1),
        seq_revert_spec(seq_execute_spec(cs, s).0, seq_execute_spec(cs, s).1) == (cs, s),
    decreases cs.len(),
{
    if cs.len() == 0 {
    } else {
        let front = cs.drop_last();
        let fr = seq_execute_spec(front, s);
        let la = atomic_execute_spec(cs.last(), fr.1);
        lemma_seq_round_trip(front, s);
        lemma_atomic_round_trip(cs.last(), fr.1);
        let cs1 = fr.0.push(la.0);
        assert(cs1.drop_last() =~= fr.0);
        assert(seq_revert_spec(cs1, la.1).0 =~= cs);
    }
}

/// Every child of an executable composite is enabled in the state the prefix
/// before it leaves behind.
pub proof fn lemma_seq_execute_prefix_enabled(cs: Seq<AtomicCommand>, s: SceneContextV, i: int)
    requires
        seq_can_execute(cs, s),
        0 <= i < cs.len(),
    ensures
        atomic_can_execute(cs[i], seq_execute_spec(cs.subrange(0, i), s).1),
    decreases cs.len(),
{
    let front = cs.drop_last();
    if i == cs.len() - 1 {
        assert(cs.subrange(0, i) =~= front);
    } else {
        assert(front.subrange(0, i) =~= cs.subrange(0, i));
        lemma_seq_execute_prefix_enabled(front, s, i);
    }
}

/// `c` may execute on `s`.
pub open spec fn can_execute(c: CommandV, s: SceneContextV) -> bool {
    match c {
        CommandV::Atomic(a) => atomic_can_execute(a, s),
        CommandV::Composite(cs) => seq_can_execute(cs, s),
    }
}

/// What executing `c` on `s` yields.
pub open spec fn execute_spec(c: CommandV, s: SceneContextV) -> (CommandV, SceneContextV) {
    match c {
        CommandV::Atomic(a) => {
            let r = atomic_execute_spec(a, s);
            (CommandV::Atomic(r.0), r.1)
        },
        CommandV::Composite(cs) => {
            let r = seq_execute_spec(cs, s);
            (CommandV::Composite(r.0), r.1)
        },
    }
}

/// `c` may revert on `s`.
pub open spec fn can_revert(c: CommandV, s: SceneContextV) -> bool {
    match c {
        CommandV::Atomic(a) => atomic_can_revert(a, s),
        CommandV::Composite(cs) => seq_can_revert(cs, s),
    }
}

/// What reverting `c` on `s` yields.
pub open spec fn revert_spec(c: CommandV, s: SceneContextV) -> (CommandV, SceneContextV) {
    match c {
        CommandV::Atomic(a) => {
            let r = atomic_revert_spec(a, s);
            (CommandV::Atomic(r.0), r.1)
        },
        CommandV::Composite(cs) => {
            let r = seq_revert_spec(cs, s);
            (CommandV::Composite(r.0), r.1)
        },
    }
}

/// Round-trip law: for every command — atomic or composite — executing and
/// then reverting on any context the command may execute on restores both
/// the command and the context exactly.
pub proof fn lemma_command_round_trip(c: CommandV, s: SceneContextV)
    requires
        can_execute(c, s),
    ensures
        can_revert(execute_spec(c, s).0, execute_spec(c, s).1),
        revert_spec(execute_spec(c, s).0, execute_spec(c, s).1) == (c, s),
{
    match c {
        CommandV::Atomic(a) => {
            lemma_atomic_round_trip(a, s);
        },
        CommandV::Composite(cs) => {
            lemma_seq_round_trip(cs, s);
        },
    }
}

/// Executes a command against the context: an atomic command directly, a
/// composite by running its children in stored order, first to last. Returns
/// the command in its executed state.
pub fn execute_command(cmd: SceneCommand, ctx: &mut SceneContext) -> (res: SceneCommand)
    requires
        can_execute(cmd.view(), old(ctx).view()),
    ensures
        res.view() == execute_spec(cmd.view(), old(ctx).view()).0,
        final(ctx).view() == execute_spec(cmd.view(), old(ctx).view()).1,
{
    match cmd {
        SceneCommand::Atomic(a) => SceneCommand::Atomic(execute_atomic(a, ctx)),
        SceneCommand::Composite(cs) => {
            let mut cs = cs;
            let ghost cs0 = cs.view();
            let ghost s0 = ctx.view();
            let n = cs.len();
            let mut i: usize = 0;
            while i < n
                invariant
                    i <= n,
                    n == cs.view().len(),
                    cs0.len() == n,
                    seq_can_execute(cs0, s0),
                    ctx.view() == seq_execute_spec(cs0.subrange(0, i as int), s0).1,
                    cs.view().subrange(0, i as int) == seq_execute_spec(
                        cs0.subrange(0, i as int),
                        s0,
                    ).0,
                    cs.view().subrange(i as int, n as int) == cs0.subrange(i as int, n as int),
                decreases n - i,
            {
                proof {
                    lemma_seq_execute_prefix_enabled(cs0, s0, i as int);
                    assert(cs.view().subrange(i as int, n as int)[0] == cs.view()[i as int]);
                    assert(cs.view()[i as int] == cs0[i as int]);
                }
                let c = cs[i];
                let ghost prev = cs.view();
                let c2 = execute_atomic(c, ctx);
                cs.set(i, c2);
                proof {
                    assert(cs0.subrange(0, i as int + 1).drop_last() =~= cs0.subrange(0, i as int));
                    assert(cs0.subrange(0, i as int + 1).last() == cs0[i as int]);
                    assert(cs.view().subrange(0, i as int + 1) =~= seq_execute_spec(
                        cs0.subrange(0, i as int + 1),
                        s0,
                    ).0);
                    assert forall|k: int| i as int + 1 <= k < n as int implies cs.view()[k]
                        == cs0[k] by {
                        assert(prev.subrange(i as int, n as int)[k - i as int] == cs0.subrange(
                            i as int,
                            n as int,
                        )[k - i as int]);
                    }
                    assert(cs.view().subrange(i as int + 1, n as int) =~= cs0.subrange(
                        i as int + 1,
                        n as int,
                    ));
                }
                i = i + 1;
            }
            proof {
                assert(cs0.subrange(0, n as int) =~= cs0);
                assert(cs.view().subrange(0, n as int) =~= cs.view());
            }
            SceneCommand::Composite(cs)
        },
    }
}

/// Reverts a command against the context: an atomic command directly, a
/// composite by reverting its children in reverse order, last to first.
/// Returns the command in its pre-execute state.
pub fn revert_command(cmd: SceneCommand, ctx: &mut SceneContext) -> (res: SceneCommand)
    requires
        can_revert(cmd.view(), old(ctx).view()),
    ensures
        res.view() == revert_spec(cmd.view(), old(ctx).view()).0,
        final(ctx).view() == revert_spec(cmd.view(), old(ctx).view()).1,
{
    match cmd {
        SceneCommand::Atomic(a) => SceneCommand::Atomic(revert_atomic(a, ctx)),
        SceneCommand::Composite(cs) => {
            let mut cs = cs;
            let ghost cs0 = cs.view();
            let ghost s0 = ctx.view();
            let ghost full = seq_revert_spec(cs0, s0);
            let n = cs.len();
            proof {
                lemma_seq_revert_len(cs0, s0);
                assert(cs0.subrange(0, n as int) =~= cs0);
                assert(full.0.subrange(0, n as int) =~= full.0);
            }
            let mut i: usize = n;
            while i > 0
                invariant
                    i <= n,
                    n == cs.view().len(),
                    cs0.len() == n,
                    full == seq_revert_spec(cs0, s0),
                    full.0.len() == n,
                    seq_can_revert(cs0.subrange(0, i as int), ctx.view()),
                    seq_revert_spec(cs0.subrange(0, i as int), ctx.view()) == (
                        full.0.subrange(0, i as int),
                        full.1,
                    ),
                    cs.view().subrange(0, i as int) == cs0.subrange(0, i as int),
                    cs.view().subrange(i as int, n as int) == full.0.subrange(i as int, n as int),
                decreases i,
            {
                let ghost pre = ctx.view();
                let ghost prefix = cs0.subrange(0, i as int);
                proof {
                    assert(prefix.last() == cs0[i as int - 1]);
                    assert(prefix.drop_last() =~= cs0.subrange(0, i as int - 1));
                    assert(cs.view().subrange(0, i as int)[i as int - 1] == cs.view()[i as int - 1]);
                    assert(cs.view()[i as int - 1] == cs0[i as int - 1]);
                }
                i = i - 1;
                let c = cs[i];
                let ghost prev = cs.view();
                let c2 = revert_atomic(c, ctx);
                cs.set(i, c2);
                proof {
                    let la = atomic_revert_spec(cs0[i as int], pre);
                    let fr = seq_revert_spec(cs0.subrange(0, i as int), la.1);
                    assert((fr.0.push(la.0), fr.1) == (
                        full.0.subrange(0, i as int + 1),
                        full.1,
                    ));
                    lemma_seq_revert_len(cs0.subrange(0, i as int), la.1);
                    assert(fr.0.push(la.0).drop_last() =~= fr.0);
                    assert(fr.0 =~= full.0.subrange(0, i as int + 1).drop_last());
                    assert(full.0.subrange(0, i as int + 1).drop_last() =~= full.0.subrange(
                        0,
                        i as int,
                    ));
                    assert(la.0 == full.0.subrange(0, i as int + 1).last());
                    assert(full.0.subrange(0, i as int + 1).last() == full.0[i as int]);
                    assert(cs.view().subrange(0, i as int) =~= cs0.subrange(0, i as int));
                    assert forall|k: int| i as int + 1 <= k < n as int implies cs.view()[k]
                        == full.0[k] by {
                        assert(prev.subrange(i as int + 1, n as int)[k - (i as int + 1)]
                            == full.0.subrange(i as int + 1, n as int)[k - (i as int + 1)]);
                    }
                    assert(cs.view().subrange(i as int, n as int) =~= full.0.subrange(
                        i as int,
                        n as int,
                    ));
                }
            }
            proof {
                assert(cs0.subrange(0, 0) =~= Seq::<AtomicCommand>::empty());
                assert(cs.view().subrange(0, n as int) =~= cs.view());
                assert(cs.view() =~= full.0);
            }
            SceneCommand::Composite(cs)
        },
    }
}

/// Composite order law: a composite of two add commands on the same navmesh
/// appends the first value and then the second, in that order; reverting the
/// executed composite removes the second and then the first, leaving the
/// collection — and the whole context — exactly as before.
pub proof fn lemma_composite_add_order(
    nm: Handle,
    a: NavmeshTriangle,
    b: NavmeshTriangle,
    s: SceneContextV,
)
    requires
        valid_navmesh(s, nm),
    ensures
        ({
            let comp = CommandV::Composite(
                seq![
                    AtomicCommand::AddTriangle { navmesh: nm, value: a },
                    AtomicCommand::AddTriangle { navmesh: nm, value: b },
                ],
            );
            let first = CommandV::Atomic(AtomicCommand::AddTriangle { navmesh: nm, value: a });
            let executed = execute_spec(comp, s);
            &&& can_execute(comp, s)
            // after the first child alone: `a` appended
            &&& navmesh_at(execute_spec(first, s).1, nm).triangles == navmesh_at(
                s,
                nm,
            ).triangles.push(a)
            // after the whole composite: `a` appended, then `b`
            &&& navmesh_at(executed.1, nm).triangles == navmesh_at(s, nm).triangles.push(a).push(b)
            // reverting starts with the last child: `b` leaves first ...
            &&& navmesh_at(
                atomic_revert_spec(
                    AtomicCommand::AddTriangle { navmesh: nm, value: b },
                    executed.1,
                ).1,
                nm,
            ).triangles == navmesh_at(s, nm).triangles.push(a)
            // ... and the full revert restores the context exactly
            &&& can_revert(executed.0, executed.1)
            &&& revert_spec(executed.0, executed.1).1 == s
        }),
{
    let ca = AtomicCommand::AddTriangle { navmesh: nm, value: a };
    let cb = AtomicCommand::AddTriangle { navmesh: nm, value: b };
    let children = seq![ca, cb];
    assert(children.drop_last() =~= seq![ca]);
    assert(seq![ca].drop_last() =~= Seq::<AtomicCommand>::empty());
    let s1 = atomic_execute_spec(ca, s).1;
    assert(navmesh_at(s1, nm).triangles == navmesh_at(s, nm).triangles.push(a));
    let s2 = atomic_execute_spec(cb, s1).1;
    assert(navmesh_at(s2, nm).triangles == navmesh_at(s, nm).triangles.push(a).push(b));
    assert(seq_execute_spec(Seq::<AtomicCommand>::empty(), s).1 == s);
    assert(seq![ca].last() == ca);
    assert(seq_execute_spec(seq![ca], s).1 == s1);
    assert(children.last() == cb);
    assert(seq_can_execute(Seq::<AtomicCommand>::empty(), s));
    assert(valid_navmesh(s1, nm));
    assert(seq_can_execute(seq![ca], s));
    assert(seq_can_execute(children, s));
    assert(seq_execute_spec(children, s).1 == s2);
    assert(navmesh_at(atomic_revert_spec(cb, s2).1, nm).triangles =~= navmesh_at(
        s,
        nm,
    ).triangles.push(a));
    lemma_seq_round_trip(children, s);
    lemma_command_round_trip(CommandV::Composite(children), s);
}

/// Label of an atomic command for the history display.
pub open spec fn atomic_command_name(a: AtomicCommand) -> Seq<char> {
    match a {
        AtomicCommand::SetRectangleTexture { .. } => "SetRectangleTextureCommand".view(),
        AtomicCommand::SetRectangleColor { .. } => "SetRectangleColorCommand".view(),
        AtomicCommand::SetTag { .. } => "SetTagCommand".view(),
        AtomicCommand::AddTriangle { .. } => "AddNavmeshTriangleCommand".view(),
        AtomicCommand::RemoveTriangle { .. } => "RemoveNavmeshTriangleCommand".view(),
    }
}

/// Label of a command for the history display.
pub open spec fn command_name(c: CommandV) -> Seq<char> {
    match c {
        CommandV::Atomic(a) => atomic_command_name(a),
        CommandV::Composite(_) => "CommandGroup".view(),
    }
}

impl SceneCommand {
    /// Human-readable label of the command, for display and logging only; it
    /// may inspect the context but never mutates it, and is never parsed
    /// back.
    pub fn name(&self, _ctx: &SceneContext) -> (r: String)
        ensures
            r.view() == command_name(self.view()),
    {
        match self {
            SceneCommand::Atomic(a) => match a {
                AtomicCommand::SetRectangleTexture { .. } => "SetRectangleTextureCommand".to_owned(),
                AtomicCommand::SetRectangleColor { .. } => "SetRectangleColorCommand".to_owned(),
                AtomicCommand::SetTag { .. } => "SetTagCommand".to_owned(),
                AtomicCommand::AddTriangle { .. } => "AddNavmeshTriangleCommand".to_owned(),
                AtomicCommand::RemoveTriangle { .. } => "RemoveNavmeshTriangleCommand".to_owned(),
            },
            SceneCommand::Composite(_) => "CommandGroup".to_owned(),
        }
    }
}

} // verus!
