//! The undo/redo history.
//!
//! A [`CommandStack`] is an ordered sequence of executed commands plus a
//! cursor separating done from undone. `push` executes a command, discards
//! the undone suffix (the redo tail is destroyed permanently) and appends;
//! `undo` steps the cursor back and reverts; `redo` re-executes the command
//! at the cursor and steps forward; `clear` drops the history without
//! reverting anything.
//!
//! The stack carries a ghost record of its run: `pristine` holds every
//! stored command as it was pushed (pre-execute), and `history` holds the
//! context value before and after each of them. The well-formedness
//! predicate [`CommandStack::wf`] ties the record to the live context, and
//! [`lemma_history_is_replay`] shows the record means what the LIFO law
//! demands: the entry at position `i` is exactly the result of executing the
//! first `i` pushed commands, in push order, from the base state.

use vstd::prelude::*;

use crate::commands::{
    can_execute, execute_command, execute_spec, lemma_command_round_trip, revert_command,
    CommandV, SceneCommand,
};
use crate::scene::{SceneContext, SceneContextV};

verus! {

/// Link `i` of the ghost record: the `i`-th pushed command is enabled on the
/// state before it, and executing it there yields the state after it.
pub open spec fn chain_step(
    pristine: Seq<CommandV>,
    history: Seq<SceneContextV>,
    i: int,
) -> bool {
    &&& can_execute(pristine[i], history[i])
    &&& execute_spec(pristine[i], history[i]).1 == history[i + 1]
}

/// The whole ghost record is a valid execution chain.
pub open spec fn chain_ok(pristine: Seq<CommandV>, history: Seq<SceneContextV>) -> bool {
    forall|i: int| 0 <= i < pristine.len() ==> #[trigger] chain_step(pristine, history, i)
}

/// The context that executing `cs` in order, first to last, leaves behind
/// when started from `s`.
pub open spec fn replay(cs: Seq<CommandV>, s: SceneContextV) -> SceneContextV
    decreases cs.len(),
{
    if cs.len() == 0 {
        s
    } else {
        execute_spec(cs.last(), replay(cs.drop_last(), s)).1
    }
}

/// Stack LIFO law: in a valid execution chain, the state recorded at
/// position `i` equals the replay of the first `i` pushed commands from the
/// base state — so after `k` undos of `n` pushes the context is the state
/// after executing the first `n - k` pushes only.
pub proof fn lemma_history_is_replay(
    pristine: Seq<CommandV>,
    history: Seq<SceneContextV>,
    i: int,
)
    requires
        chain_ok(pristine, history),
        history.len() == pristine.len() + 1,
        0 <= i <= pristine.len(),
    ensures
        history[i] == replay(pristine.take(i), history[0]),
    decreases i,
{
    if i > 0 {
        lemma_history_is_replay(pristine, history, i - 1);
        assert(chain_step(pristine, history, i - 1));
        assert(pristine.take(i).drop_last() =~= pristine.take(i - 1));
        assert(pristine.take(i).last() == pristine[i - 1]);
    }
}

/// The undo/redo history: stored commands and the cursor that separates the
/// executed prefix from the undone suffix.
pub struct CommandStack {
    commands: Vec<SceneCommand>,
    cursor: usize,
    pristine: Ghost<Seq<CommandV>>,
    history: Ghost<Seq<SceneContextV>>,
}

impl CommandStack {
    /// The stored commands, as mathematical values, in push order.
    pub closed spec fn commands_view(self) -> Seq<CommandV> {
        self.commands.view().map(|i: int, c: SceneCommand| c.view())
    }

    /// Where the cursor stands: commands before it are executed, commands at
    /// or after it are undone.
    pub closed spec fn cursor_spec(self) -> int {
        self.cursor as int
    }

    /// The ghost record of every stored command as it was pushed, before its
    /// first execute.
    pub closed spec fn pristine_spec(self) -> Seq<CommandV> {
        self.pristine.view()
    }

    /// The ghost record of the context before and after each stored command:
    /// entry `i` is the context just before the `i`-th pushed command
    /// executed, and the last entry is the context after the newest one.
    pub closed spec fn history_spec(self) -> Seq<SceneContextV> {
        self.history.view()
    }

    /// The stack is well formed against the live context `s`: the ghost
    /// record is a valid execution chain, the cursor is in range and anchors
    /// `s`, commands before the cursor are stored in executed state, and
    /// commands at or after it are stored as pushed.
    pub open spec fn wf(self, s: SceneContextV) -> bool {
        let n = self.commands_view().len();
        &&& 0 <= self.cursor_spec() <= n
        &&& self.pristine_spec().len() == n
        &&& self.history_spec().len() == n + 1
        &&& (n > 0 ==> self.history_spec()[self.cursor_spec()] == s)
        &&& chain_ok(self.pristine_spec(), self.history_spec())
        &&& forall|i: int|
            0 <= i < self.cursor_spec() ==> #[trigger] self.commands_view()[i] == execute_spec(
                self.pristine_spec()[i],
                self.history_spec()[i],
            ).0
        &&& forall|i: int|
            self.cursor_spec() <= i < n ==> #[trigger] self.commands_view()[i]
                == self.pristine_spec()[i]
    }

    /// Stack LIFO law, on the stack itself: while the stack is well formed,
    /// the state its record anchors at position `i` is the replay of the
    /// first `i` pushed commands, in push order, from the base state — and
    /// `undo`/`redo` move the live context exactly along this record.
    pub proof fn lemma_lifo(self, s: SceneContextV, i: int)
        requires
            self.wf(s),
            0 <= i <= self.commands_view().len(),
        ensures
            self.history_spec()[i] == replay(
                self.pristine_spec().take(i),
                self.history_spec()[0],
            ),
    {
        lemma_history_is_replay(self.pristine_spec(), self.history_spec(), i);
    }

    /// A fresh, empty history: well formed against any context.
    pub fn new() -> (stack: CommandStack)
        ensures
            stack.commands_view().len() == 0,
            stack.cursor_spec() == 0,
            forall|s: SceneContextV| stack.wf(s),
    {
        let stack = CommandStack {
            commands: Vec::new(),
            cursor: 0,
            pristine: Ghost(Seq::empty()),
            history: Ghost(Seq::empty().push(arbitrary())),
        };
        proof {
            assert(stack.commands_view() =~= Seq::<CommandV>::empty());
        }
        stack
    }

    pub fn command_count(&self) -> (n: usize)
        ensures
            n == self.commands_view().len(),
    {
        self.commands.len()
    }

    pub fn cursor_position(&self) -> (k: usize)
        ensures
            k == self.cursor_spec(),
    {
        self.cursor
    }

    /// There is something to undo: the cursor is not at the bottom.
    pub fn can_undo(&self) -> (b: bool)
        ensures
            b == (self.cursor_spec() > 0),
    {
        self.cursor > 0
    }

    /// There is something to redo: the cursor is not at the tail.
    pub fn can_redo(&self) -> (b: bool)
        ensures
            b == (self.cursor_spec() < self.commands_view().len()),
    {
        self.cursor < self.commands.len()
    }

    /// Executes `cmd`, discards the undone suffix — the redo tail is
    /// destroyed permanently, a later redo is a no-op — appends the executed
    /// command and advances the cursor to the new tail.
    pub fn push(&mut self, cmd: SceneCommand, ctx: &mut SceneContext)
        requires
            old(self).wf(old(ctx).view()),
            can_execute(cmd.view(), old(ctx).view()),
            old(self).commands_view().len() < usize::MAX,
        ensures
            final(self).wf(final(ctx).view()),
            final(ctx).view() == execute_spec(cmd.view(), old(ctx).view()).1,
            final(self).cursor_spec() == old(self).cursor_spec() + 1,
            final(self).commands_view() == old(self).commands_view().take(
                old(self).cursor_spec(),
            ).push(execute_spec(cmd.view(), old(ctx).view()).0),
            final(self).pristine_spec() == old(self).pristine_spec().take(
                old(self).cursor_spec(),
            ).push(cmd.view()),
            final(self).history_spec() == old(self).history_spec().take(
                old(self).cursor_spec(),
            ).push(old(ctx).view()).push(execute_spec(cmd.view(), old(ctx).view()).1),
    {
        let ghost pre = ctx.view();
        let executed = execute_command(cmd, ctx);
        self.commands.truncate(self.cursor);
        self.commands.push(executed);
        proof {
            self.pristine@ = self.pristine@.take(self.cursor as int).push(cmd.view());
            self.history@ = self.history@.take(self.cursor as int).push(pre).push(ctx.view());
        }
        self.cursor = self.cursor + 1;
        proof {
            assert(self.commands_view() =~= old(self).commands_view().take(
                old(self).cursor_spec(),
            ).push(execute_spec(cmd.view(), pre).0));
            assert forall|i: int| 0 <= i < self.pristine_spec().len() implies #[trigger] chain_step(
                self.pristine_spec(),
                self.history_spec(),
                i,
            ) by {
                if i < old(self).cursor_spec() {
                    assert(chain_step(old(self).pristine_spec(), old(self).history_spec(), i));
                }
            }
        }
    }

    /// No-op when the cursor is at the bottom; otherwise steps the cursor
    /// back and reverts the command there, restoring the context recorded
    /// just before that command first executed.
    pub fn undo(&mut self, ctx: &mut SceneContext)
        requires
            old(self).wf(old(ctx).view()),
        ensures
            final(self).wf(final(ctx).view()),
            final(self).pristine_spec() == old(self).pristine_spec(),
            final(self).history_spec() == old(self).history_spec(),
            final(self).commands_view().len() == old(self).commands_view().len(),
            old(self).cursor_spec() == 0 ==> *final(self) == *old(self) && *final(ctx) == *old(ctx),
            old(self).cursor_spec() > 0 ==> {
                &&& final(self).cursor_spec() == old(self).cursor_spec() - 1
                &&& final(ctx).view() == old(self).history_spec()[old(self).cursor_spec() - 1]
            },
    {
        if self.cursor == 0 {
            return ;
        }
        let k = self.cursor - 1;
        proof {
            assert(chain_step(self.pristine_spec(), self.history_spec(), k as int));
            assert(old(self).commands_view()[k as int] == execute_spec(
                self.pristine_spec()[k as int],
                self.history_spec()[k as int],
            ).0);
            lemma_command_round_trip(self.pristine_spec()[k as int], self.history_spec()[k as int]);
        }
        let cmd = self.commands.remove(k);
        let reverted = revert_command(cmd, ctx);
        self.commands.insert(k, reverted);
        self.cursor = k;
        proof {
            let ki = k as int;
            let before = old(self).commands.view();
            let mid = before.remove(ki);
            before.remove_ensures(ki);
            mid.insert_ensures(ki, reverted);
            assert forall|j: int| 0 <= j < self.commands_view().len() implies self.commands_view()[j]
                == old(self).commands_view().update(ki, old(self).pristine_spec()[ki])[j] by {
                if j < ki {
                    assert(mid[j] == before[j]);
                } else if j > ki {
                    assert(mid.insert(ki, reverted)[j] == mid[j - 1]);
                    assert(mid[j - 1] == before[j]);
                }
            }
            assert(self.commands_view() =~= old(self).commands_view().update(
                ki,
                old(self).pristine_spec()[ki],
            ));
        }
    }

    /// No-op when the cursor is at the tail (in particular right after a
    /// push); otherwise re-executes the command at the cursor and steps
    /// forward, restoring the context recorded just after that command's
    /// original execute.
    pub fn redo(&mut self, ctx: &mut SceneContext)
        requires
            old(self).wf(old(ctx).view()),
        ensures
            final(self).wf(final(ctx).view()),
            final(self).pristine_spec() == old(self).pristine_spec(),
            final(self).history_spec() == old(self).history_spec(),
            final(self).commands_view().len() == old(self).commands_view().len(),
            old(self).cursor_spec() == old(self).commands_view().len() ==> *final(self) == *old(
                self,
            ) && *final(ctx) == *old(ctx),
            old(self).cursor_spec() < old(self).commands_view().len() ==> {
                &&& final(self).cursor_spec() == old(self).cursor_spec() + 1
                &&& final(ctx).view() == old(self).history_spec()[old(self).cursor_spec() + 1]
            },
    {
        if self.cursor == self.commands.len() {
            return ;
        }
        let k = self.cursor;
        proof {
            assert(chain_step(self.pristine_spec(), self.history_spec(), k as int));
            assert(old(self).commands_view()[k as int] == old(self).pristine_spec()[k as int]);
        }
        let cmd = self.commands.remove(k);
        let executed = execute_command(cmd, ctx);
        self.commands.insert(k, executed);
        self.cursor = k + 1;
        proof {
            let ki = k as int;
            let before = old(self).commands.view();
            let mid = before.remove(ki);
            before.remove_ensures(ki);
            mid.insert_ensures(ki, executed);
            assert forall|j: int| 0 <= j < self.commands_view().len() implies self.commands_view()[j]
                == old(self).commands_view().update(
                ki,
                execute_spec(old(self).pristine_spec()[ki], old(self).history_spec()[ki]).0,
            )[j] by {
                if j < ki {
                    assert(mid[j] == before[j]);
                } else if j > ki {
                    assert(mid.insert(ki, executed)[j] == mid[j - 1]);
                    assert(mid[j - 1] == before[j]);
                }
            }
            assert(self.commands_view() =~= old(self).commands_view().update(
                ki,
                execute_spec(old(self).pristine_spec()[ki], old(self).history_spec()[ki]).0,
            ));
        }
    }

    /// Drops every stored command and resets the cursor, without reverting
    /// anything: the caller is responsible for the context's consistency,
    /// typically right after the whole scene was replaced and the old
    /// history became meaningless.
    pub fn clear(&mut self)
        ensures
            final(self).commands_view().len() == 0,
            final(self).cursor_spec() == 0,
            forall|s: SceneContextV| final(self).wf(s),
    {
        self.commands.clear();
        self.cursor = 0;
        proof {
            self.pristine@ = Seq::empty();
            self.history@ = Seq::empty().push(arbitrary());
            assert(self.commands_view() =~= Seq::<CommandV>::empty());
        }
    }
}

} // verus!
