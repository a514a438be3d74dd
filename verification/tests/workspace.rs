use portfolio::{DemoType, RenderPass, Workspace};

fn all_kinds() -> Vec<DemoType> {
    vec![
        DemoType::Triangle,
        DemoType::Mandelbrot,
        DemoType::Model3d,
        DemoType::Physics,
        DemoType::Tetris,
    ]
}

#[test]
fn new_workspace_starts_with_triangle() {
    let workspace = Workspace::new();
    assert!(workspace.get_current_demo_type() == DemoType::Triangle);
}

#[test]
fn new_workspace_has_initial_color() {
    let workspace = Workspace::new();
    let color = workspace.get_triangle_params().color;
    assert_eq!(color, [0.1f32.to_bits(), 0.2f32.to_bits(), 0.3f32.to_bits()]);
    assert_eq!(f32::from_bits(color[0]), 0.1f32);
    assert_eq!(f32::from_bits(color[1]), 0.2f32);
    assert_eq!(f32::from_bits(color[2]), 0.3f32);
}

#[test]
fn selected_kind_is_read_back_for_every_kind() {
    let mut workspace = Workspace::new();
    for kind in all_kinds() {
        workspace.set_demo_type(kind);
        assert!(workspace.get_current_demo_type() == kind);
    }
}

#[test]
fn selecting_keeps_the_color() {
    let mut workspace = Workspace::new();
    workspace.get_triangle_params_mut().color = [7, 8, 9];
    for kind in all_kinds() {
        workspace.set_demo_type(kind);
        assert_eq!(workspace.get_triangle_params().color, [7, 8, 9]);
    }
}

#[test]
fn second_selection_wins() {
    let mut workspace = Workspace::new();
    workspace.set_demo_type(DemoType::Tetris);
    workspace.set_demo_type(DemoType::Mandelbrot);
    assert!(workspace.get_current_demo_type() == DemoType::Mandelbrot);
}

#[test]
fn color_round_trips() {
    let samples: Vec<[f32; 3]> = vec![
        [0.0, 0.0, 0.0],
        [1.0, 1.0, 1.0],
        [0.1, 0.2, 0.3],
        [0.25, 0.5, 0.75],
        [1.0, 0.0, 0.333],
    ];
    let mut workspace = Workspace::new();
    for sample in samples {
        let bits = [sample[0].to_bits(), sample[1].to_bits(), sample[2].to_bits()];
        workspace.get_triangle_params_mut().color = bits;
        let read = workspace.get_triangle_params().color;
        assert_eq!(read, bits);
        assert_eq!(
            [f32::from_bits(read[0]), f32::from_bits(read[1]), f32::from_bits(read[2])],
            sample
        );
        assert!(workspace.get_current_demo_type() == DemoType::Triangle);
    }
}

#[test]
fn demo_types_are_offered_in_order() {
    let types = Workspace::get_demo_types();
    assert_eq!(types.len(), 5);
    assert!(types[0].0 == DemoType::Triangle);
    assert_eq!(types[0].1, "Triangle");
    assert!(types[1].0 == DemoType::Mandelbrot);
    assert_eq!(types[1].1, "Mandelbrot");
    assert!(types[2].0 == DemoType::Model3d);
    assert_eq!(types[2].1, "Model3d");
    assert!(types[3].0 == DemoType::Tetris);
    assert_eq!(types[3].1, "Tetris");
    assert!(types[4].0 == DemoType::Physics);
    assert_eq!(types[4].1, "Physics");
}

#[test]
fn workspace_update_changes_nothing() {
    let mut workspace = Workspace::new();
    workspace.set_demo_type(DemoType::Model3d);
    workspace.get_triangle_params_mut().color = [1, 2, 3];
    workspace.update();
    assert!(workspace.get_current_demo_type() == DemoType::Model3d);
    assert_eq!(workspace.get_triangle_params().color, [1, 2, 3]);
}

#[test]
fn workspace_draw_records_nothing() {
    let workspace = Workspace::new();
    let mut pass = RenderPass::new();
    pass.draw(0, 3, 0, 1);
    workspace.draw(&mut pass);
    assert_eq!(pass.commands().len(), 1);
}
