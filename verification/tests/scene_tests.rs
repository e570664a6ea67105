use scene_commands::pool::{Handle, Pool};
use scene_commands::scene::{
    EditorScene, EffectSelection, GraphSelection, NavmeshSelection, NavmeshVertex, RawNavmesh,
    Selection, TriangleDefinition, Vector3,
};

fn pos(x: i64, y: i64, z: i64) -> Vector3 {
    Vector3 { x, y, z }
}

#[test]
fn selection_len_and_emptiness() {
    let none = Selection::Nothing;
    assert!(none.is_empty());
    assert_eq!(none.len(), 0);
    assert!(!none.is_single_selection());

    let sound = Selection::SoundContext;
    assert!(!sound.is_empty());
    assert_eq!(sound.len(), 1);
    assert!(sound.is_single_selection());

    let graph = Selection::Graph(GraphSelection { nodes: vec![Handle::new(1, 1)] });
    assert!(!graph.is_empty());
    assert_eq!(graph.len(), 1);
    assert!(graph.is_single_selection());

    let graph2 = Selection::Graph(GraphSelection {
        nodes: vec![Handle::new(1, 1), Handle::new(2, 1)],
    });
    assert_eq!(graph2.len(), 2);
    assert!(!graph2.is_single_selection());

    let navmesh = Selection::Navmesh(NavmeshSelection {
        navmesh: Handle::new(0, 1),
        entities: Vec::new(),
    });
    assert!(navmesh.is_empty());
    assert_eq!(navmesh.len(), 0);

    let effect = Selection::Effect(EffectSelection { effects: vec![Handle::new(3, 1)] });
    assert_eq!(effect.len(), 1);
    assert!(!effect.is_empty());
}

#[test]
fn selection_default_is_nothing() {
    let s: Selection = Default::default();
    assert!(s.is_empty());
    assert_eq!(s.len(), 0);
}

#[test]
fn pool_handles_are_generation_checked() {
    let mut pool: Pool<NavmeshVertex> = Pool::new();
    let h = pool.spawn(NavmeshVertex { position: pos(1, 2, 3) });
    assert_eq!(h, Handle::new(0, 1));
    assert!(pool.is_valid(h));
    // A handle with a stale generation is detected, never aliased.
    assert!(!pool.is_valid(Handle::new(0, 2)));
    assert!(!pool.is_valid(Handle::new(1, 1)));
    assert_eq!(pool.get(h).position, pos(1, 2, 3));
}

#[test]
fn from_native_scene_builds_pools() {
    let raw = RawNavmesh {
        vertices: vec![pos(0, 0, 0), pos(1, 0, 0), pos(0, 1, 0)],
        triangles: vec![TriangleDefinition { a: 0, b: 1, c: 2 }],
    };
    let scene = EditorScene::from_native_scene(&vec![raw], Some("level.rgs".to_owned()));
    assert_eq!(scene.path, Some("level.rgs".to_owned()));
    assert_eq!(scene.root, Handle::new(0, 1));
    assert!(scene.context.graph.is_valid(scene.root));
    let nm_handle = Handle::new(0, 1);
    assert!(scene.context.navmeshes.is_valid(nm_handle));
    let nm = scene.context.navmeshes.get(nm_handle);
    assert_eq!(nm.vertices.len(), 3);
    assert_eq!(nm.vertices.get(Handle::new(1, 1)).position, pos(1, 0, 0));
    assert_eq!(nm.triangles.len(), 1);
    assert_eq!(nm.triangles[0].a, Handle::new(0, 1));
    assert_eq!(nm.triangles[0].b, Handle::new(1, 1));
    assert_eq!(nm.triangles[0].c, Handle::new(2, 1));
}

#[test]
fn save_is_dense_and_remembers_path() {
    // Importing engine navmeshes and saving them back reproduces the dense
    // data exactly: the sparse-to-dense handle mapping inverts the import.
    let raw_a = RawNavmesh {
        vertices: vec![pos(0, 0, 0), pos(4, 0, 0), pos(0, 4, 0), pos(4, 4, 0)],
        triangles: vec![
            TriangleDefinition { a: 0, b: 1, c: 2 },
            TriangleDefinition { a: 1, b: 3, c: 2 },
        ],
    };
    let raw_b = RawNavmesh { vertices: vec![pos(7, 7, 7)], triangles: Vec::new() };
    let mut scene = EditorScene::from_native_scene(&vec![raw_a, raw_b], None);
    assert_eq!(scene.path, None);
    let out = scene.save("level.rgs".to_owned());
    assert_eq!(scene.path, Some("level.rgs".to_owned()));
    assert_eq!(out.len(), 2);
    assert_eq!(
        out[0].vertices,
        vec![pos(0, 0, 0), pos(4, 0, 0), pos(0, 4, 0), pos(4, 4, 0)]
    );
    assert_eq!(
        out[0].triangles,
        vec![
            TriangleDefinition { a: 0, b: 1, c: 2 },
            TriangleDefinition { a: 1, b: 3, c: 2 },
        ]
    );
    assert_eq!(out[1].vertices, vec![pos(7, 7, 7)]);
    assert_eq!(out[1].triangles, Vec::new());
}
