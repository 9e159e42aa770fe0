use lib_wgpu_learn::model::{
    draw_mesh, draw_mesh_instanced, draw_model, draw_model_instanced, DrawCall, Material, Mesh,
    Model,
};

fn cube() -> Model {
    Model {
        meshes: vec![
            Mesh { name: "body".to_string(), num_elements: 36, material: 1 },
            Mesh { name: "cap".to_string(), num_elements: 6, material: 0 },
        ],
        materials: vec![
            Material { name: "stone".to_string() },
            Material { name: "wood".to_string() },
        ],
    }
}

#[test]
fn model_draws_each_mesh_with_its_material() {
    let calls = draw_model_instanced(&cube(), (0, 100));
    assert_eq!(
        calls,
        vec![
            DrawCall { mesh: 0, material: 1, index_count: 36, instances: (0, 100) },
            DrawCall { mesh: 1, material: 0, index_count: 6, instances: (0, 100) },
        ]
    );
}

#[test]
fn model_drawn_once() {
    let calls = draw_model(&cube());
    assert_eq!(calls.len(), 2);
    assert!(calls.iter().all(|c| c.instances == (0, 1)));
}

#[test]
fn single_mesh_draws() {
    let m = cube();
    assert_eq!(
        draw_mesh_instanced(&m, 1, (5, 9)),
        DrawCall { mesh: 1, material: 0, index_count: 6, instances: (5, 9) }
    );
    assert_eq!(
        draw_mesh(&m, 0),
        DrawCall { mesh: 0, material: 1, index_count: 36, instances: (0, 1) }
    );
}

#[test]
fn empty_model_draws_nothing() {
    let m = Model { meshes: vec![], materials: vec![] };
    assert!(draw_model_instanced(&m, (0, 10)).is_empty());
}
