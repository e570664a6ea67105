use scene_commands::commands::{AtomicCommand, SceneCommand};
use scene_commands::pool::Handle;
use scene_commands::scene::{NodeKind, NodeState, SceneContext};
use scene_commands::stack::CommandStack;

fn rect_context(texture: i64) -> (SceneContext, Handle) {
    let mut ctx = SceneContext::new();
    let h = ctx.graph.spawn(NodeState { kind: NodeKind::Rectangle, texture, color: 0, tag: 0 });
    (ctx, h)
}

fn set_texture(h: Handle, v: i64) -> SceneCommand {
    SceneCommand::Atomic(AtomicCommand::SetRectangleTexture {
        handle: h,
        old_value: None,
        new_value: v,
    })
}

#[test]
fn stack_lifo() {
    // Pushes P1..P3, then k undos: after each undo the context equals the
    // state after executing only the pushes that remain before the cursor.
    let (mut ctx, h) = rect_context(1);
    let mut stack = CommandStack::new();
    stack.push(set_texture(h, 10), &mut ctx);
    stack.push(set_texture(h, 20), &mut ctx);
    stack.push(set_texture(h, 30), &mut ctx);
    assert_eq!(ctx.node(h).texture, 30);
    stack.undo(&mut ctx);
    assert_eq!(ctx.node(h).texture, 20);
    stack.undo(&mut ctx);
    assert_eq!(ctx.node(h).texture, 10);
    stack.undo(&mut ctx);
    assert_eq!(ctx.node(h).texture, 1);
    // Undo at the bottom is a no-op.
    stack.undo(&mut ctx);
    assert_eq!(ctx.node(h).texture, 1);
    assert_eq!(stack.command_count(), 3);
    assert_eq!(stack.cursor_position(), 0);
}

#[test]
fn redo_restores() {
    // After undo then redo, the context equals the state immediately after
    // the original execute.
    let (mut ctx, h) = rect_context(1);
    let mut stack = CommandStack::new();
    stack.push(set_texture(h, 10), &mut ctx);
    stack.push(set_texture(h, 20), &mut ctx);
    stack.undo(&mut ctx);
    assert_eq!(ctx.node(h).texture, 10);
    stack.redo(&mut ctx);
    assert_eq!(ctx.node(h).texture, 20);
    // Redo at the tail is a no-op.
    stack.redo(&mut ctx);
    assert_eq!(ctx.node(h).texture, 20);
    assert_eq!(stack.cursor_position(), 2);
}

#[test]
fn redo_tail_destruction() {
    // Push after one undo discards the undone suffix permanently: redo is a
    // no-op and the undone command is gone from the history.
    let (mut ctx, h) = rect_context(1);
    let mut stack = CommandStack::new();
    stack.push(set_texture(h, 10), &mut ctx);
    stack.push(set_texture(h, 20), &mut ctx);
    stack.undo(&mut ctx);
    assert_eq!(ctx.node(h).texture, 10);
    stack.push(set_texture(h, 99), &mut ctx);
    assert_eq!(ctx.node(h).texture, 99);
    assert_eq!(stack.command_count(), 2);
    assert!(!stack.can_redo());
    stack.redo(&mut ctx);
    assert_eq!(ctx.node(h).texture, 99);
    // The discarded command (new value 20) is unreachable: undoing all the
    // way back never replays it.
    stack.undo(&mut ctx);
    assert_eq!(ctx.node(h).texture, 10);
    stack.undo(&mut ctx);
    assert_eq!(ctx.node(h).texture, 1);
}

#[test]
fn undo_redo_flags() {
    let (mut ctx, h) = rect_context(1);
    let mut stack = CommandStack::new();
    assert!(!stack.can_undo());
    assert!(!stack.can_redo());
    stack.push(set_texture(h, 10), &mut ctx);
    assert!(stack.can_undo());
    assert!(!stack.can_redo());
    stack.undo(&mut ctx);
    assert!(!stack.can_undo());
    assert!(stack.can_redo());
}

#[test]
fn clear_drops_history_without_revert() {
    let (mut ctx, h) = rect_context(1);
    let mut stack = CommandStack::new();
    stack.push(set_texture(h, 10), &mut ctx);
    stack.push(set_texture(h, 20), &mut ctx);
    stack.clear();
    assert_eq!(stack.command_count(), 0);
    assert_eq!(stack.cursor_position(), 0);
    // Nothing was reverted: the context keeps the last executed state.
    assert_eq!(ctx.node(h).texture, 20);
    // The cleared stack is usable against the context as it now is.
    stack.push(set_texture(h, 5), &mut ctx);
    assert_eq!(ctx.node(h).texture, 5);
    stack.undo(&mut ctx);
    assert_eq!(ctx.node(h).texture, 20);
}

#[test]
fn composite_as_one_history_entry() {
    let (mut ctx, h) = rect_context(1);
    let mut stack = CommandStack::new();
    let batch = SceneCommand::Composite(vec![
        AtomicCommand::SetRectangleTexture { handle: h, old_value: None, new_value: 10 },
        AtomicCommand::SetRectangleColor { handle: h, old_value: None, new_value: 7 },
    ]);
    stack.push(batch, &mut ctx);
    assert_eq!(ctx.node(h).texture, 10);
    assert_eq!(ctx.node(h).color, 7);
    assert_eq!(stack.command_count(), 1);
    // One undo reverts the whole batch.
    stack.undo(&mut ctx);
    assert_eq!(ctx.node(h).texture, 1);
    assert_eq!(ctx.node(h).color, 0);
}
