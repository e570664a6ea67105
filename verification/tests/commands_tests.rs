use scene_commands::commands::{execute_command, revert_command, AtomicCommand, SceneCommand};
use scene_commands::inspector::{
    handle_base_property_changed, handle_rectangle_property_changed, FieldKind, PropertyChanged,
    PropertyName,
};
use scene_commands::pool::{Handle, Pool};
use scene_commands::scene::{Navmesh, NavmeshTriangle, NodeKind, NodeState, SceneContext};

fn rect_context(texture: i64, color: i64) -> (SceneContext, Handle) {
    let mut ctx = SceneContext::new();
    let h = ctx.graph.spawn(NodeState { kind: NodeKind::Rectangle, texture, color, tag: 0 });
    (ctx, h)
}

fn navmesh_context(triangles: Vec<NavmeshTriangle>) -> (SceneContext, Handle) {
    let mut ctx = SceneContext::new();
    let h = ctx.navmeshes.spawn(Navmesh { vertices: Pool::new(), triangles });
    (ctx, h)
}

fn tri(i: u32) -> NavmeshTriangle {
    NavmeshTriangle {
        a: Handle::new(i, 1),
        b: Handle::new(i + 1, 1),
        c: Handle::new(i + 2, 1),
    }
}

fn triangles_of(ctx: &SceneContext, h: Handle) -> Vec<NavmeshTriangle> {
    ctx.navmeshes.get(h).triangles.clone()
}

#[test]
fn round_trip_scalar_set() {
    // A scalar set command changing a numeric field from 1 to 5: after
    // execute the field reads 5, after revert it reads 1 again.
    let (mut ctx, h) = rect_context(1, 0);
    let cmd = SceneCommand::Atomic(AtomicCommand::SetRectangleTexture {
        handle: h,
        old_value: None,
        new_value: 5,
    });
    let cmd = execute_command(cmd, &mut ctx);
    assert_eq!(ctx.node(h).texture, 5);
    let _cmd = revert_command(cmd, &mut ctx);
    assert_eq!(ctx.node(h).texture, 1);
    assert_eq!(ctx.node(h).color, 0);
    assert_eq!(ctx.node(h).kind, NodeKind::Rectangle);
}

#[test]
fn round_trip_color_and_tag() {
    let (mut ctx, h) = rect_context(7, 3);
    let cmd = SceneCommand::Atomic(AtomicCommand::SetRectangleColor {
        handle: h,
        old_value: None,
        new_value: 9,
    });
    let cmd = execute_command(cmd, &mut ctx);
    assert_eq!(ctx.node(h).color, 9);
    let _cmd = revert_command(cmd, &mut ctx);
    assert_eq!(ctx.node(h).color, 3);

    let cmd = SceneCommand::Atomic(AtomicCommand::SetTag {
        handle: h,
        old_value: None,
        new_value: 42,
    });
    let cmd = execute_command(cmd, &mut ctx);
    assert_eq!(ctx.node(h).tag, 42);
    let _cmd = revert_command(cmd, &mut ctx);
    assert_eq!(ctx.node(h).tag, 0);
}

#[test]
fn composite_order() {
    // A composite of [AddA, AddB]: execute appends A then B in that order;
    // revert removes B then A and leaves the collection exactly as before.
    let (mut ctx, nm) = navmesh_context(Vec::new());
    let a = tri(0);
    let b = tri(3);
    let comp = SceneCommand::Composite(vec![
        AtomicCommand::AddTriangle { navmesh: nm, value: a },
        AtomicCommand::AddTriangle { navmesh: nm, value: b },
    ]);
    let comp = execute_command(comp, &mut ctx);
    assert_eq!(triangles_of(&ctx, nm), vec![a, b]);
    let _comp = revert_command(comp, &mut ctx);
    assert_eq!(triangles_of(&ctx, nm), Vec::new());
}

#[test]
fn composite_round_trip_mixed() {
    let (mut ctx, nm) = navmesh_context(vec![tri(0), tri(3), tri(6)]);
    let comp = SceneCommand::Composite(vec![
        AtomicCommand::RemoveTriangle { navmesh: nm, index: 0, value: None },
        AtomicCommand::AddTriangle { navmesh: nm, value: tri(9) },
    ]);
    let comp = execute_command(comp, &mut ctx);
    assert_eq!(triangles_of(&ctx, nm), vec![tri(3), tri(6), tri(9)]);
    let _comp = revert_command(comp, &mut ctx);
    assert_eq!(triangles_of(&ctx, nm), vec![tri(0), tri(3), tri(6)]);
}

#[test]
fn remove_insert_index_stability() {
    // Collection [A, B, C]; remove at index 1 leaves [A, C]; revert puts B
    // back exactly at index 1.
    let a = tri(0);
    let b = tri(3);
    let c = tri(6);
    let (mut ctx, nm) = navmesh_context(vec![a, b, c]);
    let cmd = SceneCommand::Atomic(AtomicCommand::RemoveTriangle {
        navmesh: nm,
        index: 1,
        value: None,
    });
    let cmd = execute_command(cmd, &mut ctx);
    assert_eq!(triangles_of(&ctx, nm), vec![a, c]);
    let _cmd = revert_command(cmd, &mut ctx);
    assert_eq!(triangles_of(&ctx, nm), vec![a, b, c]);
}

#[test]
fn add_remove_symmetry() {
    // Empty collection; add X gives [X]; revert gives []; the reverted
    // command executes again and gives [X] once more.
    let x = tri(0);
    let (mut ctx, nm) = navmesh_context(Vec::new());
    let cmd = SceneCommand::Atomic(AtomicCommand::AddTriangle { navmesh: nm, value: x });
    let cmd = execute_command(cmd, &mut ctx);
    assert_eq!(triangles_of(&ctx, nm), vec![x]);
    let cmd = revert_command(cmd, &mut ctx);
    assert_eq!(triangles_of(&ctx, nm), Vec::new());
    let _cmd = execute_command(cmd, &mut ctx);
    assert_eq!(triangles_of(&ctx, nm), vec![x]);
}

#[test]
fn empty_composite_is_inert() {
    let (mut ctx, nm) = navmesh_context(vec![tri(0)]);
    let comp = SceneCommand::Composite(Vec::new());
    let comp = execute_command(comp, &mut ctx);
    assert_eq!(triangles_of(&ctx, nm), vec![tri(0)]);
    let _comp = revert_command(comp, &mut ctx);
    assert_eq!(triangles_of(&ctx, nm), vec![tri(0)]);
}

#[test]
fn command_names() {
    let ctx = SceneContext::new();
    let h = Handle::new(0, 1);
    let cmd = SceneCommand::Atomic(AtomicCommand::SetRectangleTexture {
        handle: h,
        old_value: None,
        new_value: 1,
    });
    assert_eq!(cmd.name(&ctx), "SetRectangleTextureCommand");
    let cmd = SceneCommand::Atomic(AtomicCommand::AddTriangle { navmesh: h, value: tri(0) });
    assert_eq!(cmd.name(&ctx), "AddNavmeshTriangleCommand");
    let cmd = SceneCommand::Composite(Vec::new());
    assert_eq!(cmd.name(&ctx), "CommandGroup");
}

#[test]
fn factory_texture_change() {
    let (mut ctx, h) = rect_context(1, 0);
    let node = ctx.node(h);
    let args = PropertyChanged { name: PropertyName::Texture, value: FieldKind::Object(5) };
    let cmd = handle_rectangle_property_changed(&args, h, &node).expect("a texture command");
    let _cmd = execute_command(cmd, &mut ctx);
    assert_eq!(ctx.node(h).texture, 5);
}

#[test]
fn factory_color_change() {
    let (mut ctx, h) = rect_context(1, 2);
    let node = ctx.node(h);
    let args = PropertyChanged { name: PropertyName::Color, value: FieldKind::Object(8) };
    let cmd = handle_rectangle_property_changed(&args, h, &node).expect("a color command");
    let _cmd = execute_command(cmd, &mut ctx);
    assert_eq!(ctx.node(h).color, 8);
}

#[test]
fn factory_nested_base_tag() {
    let (mut ctx, h) = rect_context(1, 0);
    let node = ctx.node(h);
    let inner = PropertyChanged { name: PropertyName::Tag, value: FieldKind::Object(77) };
    let args = PropertyChanged {
        name: PropertyName::Base,
        value: FieldKind::Inspectable(Box::new(inner)),
    };
    let cmd = handle_rectangle_property_changed(&args, h, &node).expect("a tag command");
    let _cmd = execute_command(cmd, &mut ctx);
    assert_eq!(ctx.node(h).tag, 77);
}

#[test]
fn factory_unmatched_is_no_command() {
    let (ctx, h) = rect_context(1, 0);
    let node = ctx.node(h);
    // An unknown property maps to no command: a legitimate no-op.
    let args = PropertyChanged { name: PropertyName::Other, value: FieldKind::Object(5) };
    assert!(handle_rectangle_property_changed(&args, h, &node).is_none());
    // A collection payload is not handled by this factory.
    let args = PropertyChanged { name: PropertyName::Texture, value: FieldKind::Collection };
    assert!(handle_rectangle_property_changed(&args, h, &node).is_none());
    // A base event directly carrying an unknown name maps to no command.
    let args = PropertyChanged { name: PropertyName::Other, value: FieldKind::Object(5) };
    assert!(handle_base_property_changed(&args, h, &node).is_none());
}

#[test]
fn factory_ignores_non_rectangle() {
    let mut ctx = SceneContext::new();
    let h = ctx.graph.spawn(NodeState { kind: NodeKind::Pivot, texture: 0, color: 0, tag: 0 });
    let node = ctx.node(h);
    let args = PropertyChanged { name: PropertyName::Texture, value: FieldKind::Object(5) };
    assert!(handle_rectangle_property_changed(&args, h, &node).is_none());
}
