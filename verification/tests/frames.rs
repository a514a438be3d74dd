use portfolio::model_3d::check_mesh;
use portfolio::{
    DemoManager, DemoType, DrawCommand, IndexFormat, MeshError, MeshProperty, Owner, PanelItem,
    Presentation, PropertyPanel, RenderBridge, RenderPass, Workspace,
};

fn torus_like() -> Vec<MeshProperty> {
    vec![
        MeshProperty::Points(vec![[1, 2, 3]]),
        MeshProperty::Normals(vec![[4, 5, 6]]),
        MeshProperty::FaceVertexIndices(vec![0, 0, 0]),
    ]
}

fn manager() -> DemoManager {
    let properties = torus_like();
    assert_eq!(check_mesh(&properties), Ok(()));
    DemoManager::new(&properties)
}

fn binds_owner(command: &DrawCommand, owner: Owner) -> bool {
    match command {
        DrawCommand::SetPipeline { owner: o } => *o == owner,
        DrawCommand::SetBindGroup { owner: o, .. } => *o == owner,
        DrawCommand::SetVertexBuffer { owner: o, .. } => *o == owner,
        DrawCommand::SetIndexBuffer { owner: o, .. } => *o == owner,
        _ => false,
    }
}

fn screen_sequence() -> Vec<DrawCommand> {
    vec![
        DrawCommand::SetPipeline { owner: Owner::Screen },
        DrawCommand::SetBindGroup { index: 0, owner: Owner::Screen },
        DrawCommand::SetVertexBuffer { slot: 0, owner: Owner::Screen },
        DrawCommand::SetIndexBuffer { owner: Owner::Screen, format: IndexFormat::Uint16 },
        DrawCommand::DrawIndexed {
            first_index: 0,
            end_index: 6,
            base_vertex: 0,
            first_instance: 0,
            end_instance: 1,
        },
    ]
}

#[test]
fn mesh_check_turns_down_what_gives_no_manager() {
    let broken = vec![MeshProperty::Points(vec![[1, 2, 3]])];
    assert_eq!(check_mesh(&broken), Err(MeshError::AttributesMissing));
    let no_indices = vec![MeshProperty::Points(vec![]), MeshProperty::Normals(vec![])];
    assert_eq!(check_mesh(&no_indices), Err(MeshError::IndicesMissing));
    let short = vec![
        MeshProperty::Normals(vec![[0, 0, 1]]),
        MeshProperty::Points(vec![[1, 2, 3], [4, 5, 6]]),
        MeshProperty::FaceVertexIndices(vec![0, 1, 1]),
    ];
    assert_eq!(check_mesh(&short), Err(MeshError::NormalsMissing));
}

#[test]
fn manager_owns_every_showcase() {
    let manager = manager();
    assert_eq!(manager.triangle().vertex_data().len(), 24);
    assert_eq!(manager.mandelbrot().vertex_data().len(), 32);
    assert_eq!(manager.mandelbrot().index_data().len(), 12);
    assert_eq!(manager.model_3d().vertex_data().len(), 24);
    assert_eq!(manager.model_3d().index_data().len(), 12);
    assert_eq!(manager.vertex_data().len(), 32);
    assert_eq!(manager.index_data().len(), 12);
    let mut expected: Vec<u8> = Vec::new();
    for index in [0u16, 1, 2, 0, 2, 3] {
        expected.extend_from_slice(&index.to_ne_bytes());
    }
    assert_eq!(manager.index_data(), &expected);
}

#[test]
fn unimplemented_kinds_draw_nothing() {
    let manager = manager();
    let bridge = RenderBridge::new();
    for kind in [DemoType::Physics, DemoType::Tetris] {
        let mut workspace = Workspace::new();
        workspace.set_demo_type(kind);
        let frames = bridge.prepare(Some(&manager), &workspace);
        assert_eq!(frames.len(), 1);
        assert!(frames[0].write.is_none());
        assert!(!frames[0].offscreen.depth);
        assert_eq!(frames[0].offscreen.pass.commands().len(), 0);
        assert_eq!(frames[0].offscreen.pass.draw_call_count(), 0);
        let mut pass = RenderPass::new();
        bridge.paint(Some(&manager), &workspace, &mut pass);
        assert_eq!(pass.commands().len(), 0);
        assert_eq!(pass.draw_call_count(), 0);
    }
}

#[test]
fn switching_twice_draws_only_the_current_kind() {
    let manager = manager();
    let mut workspace = Workspace::new();
    workspace.set_demo_type(DemoType::Mandelbrot);
    let first = manager.draw_pre(&workspace);
    assert_eq!(first.pass.draw_call_count(), 1);
    for command in first.pass.commands() {
        assert!(!binds_owner(command, Owner::Triangle));
        assert!(!binds_owner(command, Owner::Model3d));
        assert!(!binds_owner(command, Owner::Screen));
    }
    assert!(binds_owner(&first.pass.commands()[0], Owner::Mandelbrot));
    workspace.set_demo_type(DemoType::Model3d);
    let second = manager.draw_pre(&workspace);
    assert!(second.depth);
    assert_eq!(second.pass.draw_call_count(), 1);
    for command in second.pass.commands() {
        assert!(!binds_owner(command, Owner::Triangle));
        assert!(!binds_owner(command, Owner::Mandelbrot));
        assert!(!binds_owner(command, Owner::Screen));
    }
    assert!(binds_owner(&second.pass.commands()[0], Owner::Model3d));
    workspace.set_demo_type(DemoType::Tetris);
    workspace.set_demo_type(DemoType::Triangle);
    let third = manager.draw_pre(&workspace);
    assert!(!third.depth);
    assert_eq!(third.pass.draw_call_count(), 1);
    for command in third.pass.commands() {
        assert!(!binds_owner(command, Owner::Mandelbrot));
        assert!(!binds_owner(command, Owner::Model3d));
    }
}

#[test]
fn triangle_frame_stages_color_then_draws_once() {
    let manager = manager();
    let bridge = RenderBridge::new();
    let mut workspace = Workspace::new();
    workspace.set_demo_type(DemoType::Triangle);
    workspace.get_triangle_params_mut().color =
        [0.1f32.to_bits(), 0.2f32.to_bits(), 0.3f32.to_bits()];
    let frames = bridge.prepare(Some(&manager), &workspace);
    assert_eq!(frames.len(), 1);
    let write = frames[0].write.as_ref().unwrap();
    assert!(write.owner == Owner::Triangle);
    assert_eq!(write.offset, 0);
    let staged: Vec<f32> = write
        .data
        .chunks(4)
        .map(|c| f32::from_ne_bytes([c[0], c[1], c[2], c[3]]))
        .collect();
    assert_eq!(staged, vec![0.1f32, 0.2, 0.3]);
    assert!(!frames[0].offscreen.depth);
    let expected = vec![
        DrawCommand::SetPipeline { owner: Owner::Triangle },
        DrawCommand::SetBindGroup { index: 0, owner: Owner::Triangle },
        DrawCommand::SetVertexBuffer { slot: 0, owner: Owner::Triangle },
        DrawCommand::Draw { first_vertex: 0, end_vertex: 3, first_instance: 0, end_instance: 1 },
    ];
    assert_eq!(frames[0].offscreen.pass.commands(), &expected);
    assert_eq!(frames[0].offscreen.pass.draw_call_count(), 1);
    let mut pass = RenderPass::new();
    bridge.paint(Some(&manager), &workspace, &mut pass);
    assert_eq!(pass.commands(), &screen_sequence());
}

#[test]
fn mandelbrot_frame_draws_one_indexed_quad() {
    let manager = manager();
    let bridge = RenderBridge::new();
    let mut workspace = Workspace::new();
    workspace.set_demo_type(DemoType::Mandelbrot);
    let frames = bridge.prepare(Some(&manager), &workspace);
    assert_eq!(frames.len(), 1);
    assert!(frames[0].write.is_none());
    assert!(!frames[0].offscreen.depth);
    let mut painted = RenderPass::new();
    bridge.paint(Some(&manager), &workspace, &mut painted);
    let quad = DrawCommand::DrawIndexed {
        first_index: 0,
        end_index: 6,
        base_vertex: 0,
        first_instance: 0,
        end_instance: 1,
    };
    let expected = vec![
        DrawCommand::SetPipeline { owner: Owner::Mandelbrot },
        DrawCommand::SetVertexBuffer { slot: 0, owner: Owner::Mandelbrot },
        DrawCommand::SetIndexBuffer { owner: Owner::Mandelbrot, format: IndexFormat::Uint16 },
        quad,
    ];
    assert_eq!(frames[0].offscreen.pass.commands(), &expected);
    assert_eq!(painted.commands().len(), 0);
    let mut frame: Vec<DrawCommand> = frames[0].offscreen.pass.commands().clone();
    frame.extend(painted.commands().iter().copied());
    assert_eq!(frame, expected);
    assert_eq!(frames[0].offscreen.pass.draw_call_count() + painted.draw_call_count(), 1);
    assert_eq!(frame.iter().filter(|command| command.draws()).count(), 1);
    assert_eq!(frame.iter().filter(|command| **command == quad).count(), 1);
    for command in &frame {
        assert!(!matches!(command, DrawCommand::Draw { .. }));
        assert!(!binds_owner(command, Owner::Triangle));
        assert!(!binds_owner(command, Owner::Model3d));
        assert!(!binds_owner(command, Owner::Screen));
    }
}

#[test]
fn model_frame_needs_depth() {
    let manager = manager();
    let mut workspace = Workspace::new();
    workspace.set_demo_type(DemoType::Model3d);
    assert!(manager.update(&workspace).is_none());
    let offscreen = manager.draw_pre(&workspace);
    assert!(offscreen.depth);
    assert_eq!(offscreen.pass.commands().len(), 5);
    assert_eq!(
        offscreen.pass.commands()[4],
        DrawCommand::DrawIndexed {
            first_index: 0,
            end_index: 3456,
            base_vertex: 0,
            first_instance: 0,
            end_instance: 1,
        }
    );
}

#[test]
fn update_stages_only_for_the_triangle() {
    let manager = manager();
    let mut workspace = Workspace::new();
    for kind in [DemoType::Mandelbrot, DemoType::Model3d, DemoType::Physics, DemoType::Tetris] {
        workspace.set_demo_type(kind);
        assert!(manager.update(&workspace).is_none());
    }
    workspace.set_demo_type(DemoType::Triangle);
    workspace.get_triangle_params_mut().color = [1, 2, 3];
    let write = manager.update(&workspace).unwrap();
    let mut expected: Vec<u8> = Vec::new();
    for word in [1u32, 2, 3] {
        expected.extend_from_slice(&word.to_ne_bytes());
    }
    assert_eq!(write.data, expected);
}

#[test]
fn paint_appends_the_screen_quad_where_the_manager_presents() {
    let manager = manager();
    for kind in [DemoType::Triangle, DemoType::Model3d] {
        let mut workspace = Workspace::new();
        workspace.set_demo_type(kind);
        let mut pass = RenderPass::new();
        pass.set_pipeline(Owner::Triangle);
        manager.draw(&workspace, &mut pass);
        let mut expected = vec![DrawCommand::SetPipeline { owner: Owner::Triangle }];
        expected.extend(screen_sequence());
        assert_eq!(pass.commands(), &expected);
    }
}

#[test]
fn paint_adds_nothing_where_the_host_presents() {
    let manager = manager();
    let mut workspace = Workspace::new();
    workspace.set_demo_type(DemoType::Mandelbrot);
    let mut pass = RenderPass::new();
    pass.set_pipeline(Owner::Triangle);
    manager.draw(&workspace, &mut pass);
    assert_eq!(pass.commands(), &vec![DrawCommand::SetPipeline { owner: Owner::Triangle }]);
    assert_eq!(pass.draw_call_count(), 0);
}

#[test]
fn presentation_goes_by_kind() {
    assert_eq!(Presentation::of(DemoType::Triangle), Presentation::ScreenQuad);
    assert_eq!(Presentation::of(DemoType::Mandelbrot), Presentation::HostImage);
    assert_eq!(Presentation::of(DemoType::Model3d), Presentation::ScreenQuad);
    assert_eq!(Presentation::of(DemoType::Physics), Presentation::Nothing);
    assert_eq!(Presentation::of(DemoType::Tetris), Presentation::Nothing);
}

#[test]
fn triangle_and_model_frames_draw_twice() {
    let manager = manager();
    let bridge = RenderBridge::new();
    for kind in [DemoType::Triangle, DemoType::Model3d] {
        let mut workspace = Workspace::new();
        workspace.set_demo_type(kind);
        let frames = bridge.prepare(Some(&manager), &workspace);
        let mut painted = RenderPass::new();
        bridge.paint(Some(&manager), &workspace, &mut painted);
        assert_eq!(frames[0].offscreen.pass.draw_call_count(), 1);
        assert_eq!(painted.draw_call_count(), 1);
    }
}

#[test]
fn bridge_without_manager_does_nothing() {
    let bridge = RenderBridge::default();
    let workspace = Workspace::new();
    assert_eq!(bridge.prepare(None, &workspace).len(), 0);
    let mut pass = RenderPass::new();
    bridge.paint(None, &workspace, &mut pass);
    assert_eq!(pass.commands().len(), 0);
}

#[test]
fn do_something_keeps_the_manager() {
    let mut manager = manager();
    manager.do_something();
    let workspace = Workspace::new();
    assert_eq!(manager.draw_pre(&workspace).pass.draw_call_count(), 1);
}

#[test]
fn panel_shows_rows_for_the_active_kind() {
    let panel = PropertyPanel::new();
    let mut workspace = Workspace::new();
    assert_eq!(panel.draw(&workspace), vec![PanelItem::ColorEdit("Color")]);
    workspace.set_demo_type(DemoType::Mandelbrot);
    assert_eq!(panel.draw(&workspace), vec![PanelItem::Label("Nothing")]);
    for kind in [DemoType::Model3d, DemoType::Physics, DemoType::Tetris] {
        workspace.set_demo_type(kind);
        assert_eq!(panel.draw(&workspace), Vec::<PanelItem>::new());
    }
}
