use objviewer::camera::{CameraInput, ScrollAmount};
use objviewer::menu::Menu;
use objviewer::mesh::{LoadError, MeshSource};
use objviewer::renderer::{
    key_command, select_surface_format, surface_error_action, wireframe_draw_ranges,
    DrawPlan, FrameAction, PipelineKind, Renderer, SurfaceErrorKind, UiCommand,
};
use objviewer::vec3::Vec3Fixed;

fn v(x: i64, y: i64, z: i64) -> Vec3Fixed {
    Vec3Fixed { x, y, z }
}

fn cube_source() -> MeshSource {
    MeshSource {
        positions: vec![
            v(-500, -500, -500),
            v(500, -500, -500),
            v(500, 500, -500),
            v(-500, 500, -500),
            v(-500, -500, 500),
            v(500, -500, 500),
            v(500, 500, 500),
            v(-500, 500, 500),
        ],
        normals: Vec::new(),
        indices: vec![
            0, 1, 2, 0, 2, 3, 4, 6, 5, 4, 7, 6, 0, 3, 7, 0, 7, 4, 1, 5, 6, 1, 6, 2, 0, 4,
            5, 0, 5, 1, 3, 2, 6, 3, 6, 7,
        ],
    }
}

#[test]
fn new_renderer_starts_solid_without_mesh() {
    let r = Renderer::new(1024, 768, true, 0);
    assert_eq!(r.surface_width, 1024);
    assert_eq!(r.surface_height, 768);
    assert!(!r.wireframe_mode);
    assert!(r.wireframe_supported);
    assert!(!r.has_mesh);
    assert_eq!(r.mesh.vertices.len(), 0);
    assert_eq!(r.camera.viewport_width, 1024);
}

#[test]
fn resize_to_zero_area_changes_nothing() {
    let mut r = Renderer::new(1024, 768, true, 0);
    let before = r.clone();
    r.resize(0, 600);
    assert_eq!(r, before);
    r.resize(800, 0);
    assert_eq!(r, before);
    r.resize(0, 0);
    assert_eq!(r, before);
}

#[test]
fn resize_updates_surface_and_aspect_exactly() {
    let mut r = Renderer::new(1024, 768, true, 0);
    r.resize(1920, 1080);
    assert_eq!(r.surface_width, 1920);
    assert_eq!(r.surface_height, 1080);
    assert_eq!(r.camera.viewport_width, 1920);
    assert_eq!(r.camera.viewport_height, 1080);
}

#[test]
fn resize_is_idempotent() {
    let mut r = Renderer::new(1024, 768, true, 0);
    r.resize(800, 600);
    let once = r.clone();
    r.resize(800, 600);
    assert_eq!(r, once);
}

#[test]
fn toggling_wireframe_twice_restores_mode() {
    let mut r = Renderer::new(100, 100, true, 0);
    assert!(!r.wireframe_mode);
    r.toggle_wireframe();
    assert!(r.wireframe_mode);
    r.toggle_wireframe();
    assert!(!r.wireframe_mode);
}

#[test]
fn wireframe_without_capability_renders_solid() {
    let mut r = Renderer::new(100, 100, false, 0);
    r.toggle_wireframe();
    assert!(r.wireframe_mode);
    assert_eq!(r.active_pipeline(), PipelineKind::Solid);
}

#[test]
fn wireframe_with_capability_selects_wireframe() {
    let mut r = Renderer::new(100, 100, true, 0);
    assert_eq!(r.active_pipeline(), PipelineKind::Solid);
    r.toggle_wireframe();
    assert_eq!(r.active_pipeline(), PipelineKind::Wireframe);
}

#[test]
fn surface_errors_map_to_frame_actions() {
    assert_eq!(
        surface_error_action(SurfaceErrorKind::Lost),
        FrameAction::ReconfigureAndSkip
    );
    assert_eq!(
        surface_error_action(SurfaceErrorKind::Outdated),
        FrameAction::ReconfigureAndSkip
    );
    assert_eq!(
        surface_error_action(SurfaceErrorKind::OutOfMemory),
        FrameAction::Terminate
    );
    assert_eq!(surface_error_action(SurfaceErrorKind::Timeout), FrameAction::SkipFrame);
    assert_eq!(surface_error_action(SurfaceErrorKind::Other), FrameAction::SkipFrame);
}

#[test]
fn surface_format_prefers_first_srgb() {
    assert_eq!(select_surface_format(&vec![false, true, true]), 1);
    assert_eq!(select_surface_format(&vec![true, false]), 0);
    assert_eq!(select_surface_format(&vec![false, false, false]), 0);
    assert_eq!(select_surface_format(&vec![false]), 0);
}

#[test]
fn wireframe_ranges_cover_whole_triangles() {
    let ranges = wireframe_draw_ranges(36);
    assert_eq!(ranges.len(), 12);
    assert_eq!(ranges[0], (0, 3));
    assert_eq!(ranges[11], (33, 36));
    for (k, (start, end)) in ranges.iter().enumerate() {
        assert_eq!(*start, 3 * k as u32);
        assert_eq!(*end, 3 * k as u32 + 3);
    }
    // a ragged tail draws only the whole triangles before it
    assert_eq!(wireframe_draw_ranges(7), vec![(0, 3), (3, 6)]);
    assert_eq!(wireframe_draw_ranges(0), Vec::<(u32, u32)>::new());
}

#[test]
fn keys_map_to_commands() {
    assert_eq!(key_command('o'), UiCommand::OpenModel);
    assert_eq!(key_command('O'), UiCommand::OpenModel);
    assert_eq!(key_command('w'), UiCommand::ToggleWireframe);
    assert_eq!(key_command('W'), UiCommand::ToggleWireframe);
    assert_eq!(key_command('p'), UiCommand::ToggleStatsDetail);
    assert_eq!(key_command('P'), UiCommand::ToggleStatsDetail);
    assert_eq!(key_command('q'), UiCommand::Quit);
    assert_eq!(key_command('Q'), UiCommand::Quit);
    assert_eq!(key_command('x'), UiCommand::Ignore);
}

#[test]
fn renderer_forwards_input_to_camera() {
    let mut r = Renderer::new(100, 100, true, 0);
    r.handle_input(&CameraInput::Scroll { amount: ScrollAmount::Lines(1) });
    assert_eq!(r.camera.distance, 4_500);
}

#[test]
fn zero_area_viewport_event_leaves_camera_unchanged() {
    let mut r = Renderer::new(1024, 768, true, 0);
    let before = r.clone();
    r.handle_input(&CameraInput::ViewportResized { width: 0, height: 50 });
    assert_eq!(r, before);
    r.handle_input(&CameraInput::ViewportResized { width: 640, height: 480 });
    assert_eq!(r.camera.viewport_width, 640);
    assert_eq!(r.camera.viewport_height, 480);
}

#[test]
fn failed_load_leaves_renderer_untouched() {
    let mut r = Renderer::new(100, 100, true, 0);
    let before = r.clone();
    let bad = MeshSource {
        positions: Vec::new(),
        normals: Vec::new(),
        indices: Vec::new(),
    };
    assert_eq!(r.load_mesh(&bad), Err(LoadError::EmptyGeometry));
    assert_eq!(r, before);
    assert!(!r.has_mesh);
}

#[test]
fn load_unit_cube_end_to_end() {
    let mut r = Renderer::new(1024, 768, true, 0);
    assert_eq!(r.load_mesh(&cube_source()), Ok(()));
    assert!(r.has_mesh);
    // eight vertices in, thirty-six indices out
    assert_eq!(r.mesh.vertices.len(), 8);
    assert_eq!(r.mesh.num_indices, 36);
    // every computed normal is unit length up to rounding
    for mv in &r.mesh.vertices {
        let n2 = mv.normal.x * mv.normal.x + mv.normal.y * mv.normal.y
            + mv.normal.z * mv.normal.z;
        assert!((994_000..=1_002_003).contains(&n2));
    }
    // the bounding box is exact
    let (mn, mx) = r.mesh.bounding_box().unwrap();
    assert_eq!(mn, v(-500, -500, -500));
    assert_eq!(mx, v(500, 500, 500));
    // the camera frames the box center from twice the diagonal
    assert_eq!(r.camera.target, v(0, 0, 0));
    assert_eq!(r.camera.distance, 3_464);
}

#[test]
fn draw_plan_follows_mode_and_mesh() {
    let mut r = Renderer::new(100, 100, true, 0);
    assert_eq!(r.draw_plan(), DrawPlan::Placeholder);
    r.load_mesh(&cube_source()).unwrap();
    assert_eq!(r.draw_plan(), DrawPlan::MeshIndexed { index_count: 36 });
    r.toggle_wireframe();
    match r.draw_plan() {
        DrawPlan::MeshWireframe { ranges } => {
            assert_eq!(ranges.len(), 12);
            assert_eq!(ranges[0], (0, 3));
            assert_eq!(ranges[11], (33, 36));
        }
        other => panic!("unexpected plan {:?}", other),
    }
    // without the capability, wireframe selection still draws solid
    let mut solid_only = Renderer::new(100, 100, false, 0);
    solid_only.load_mesh(&cube_source()).unwrap();
    solid_only.toggle_wireframe();
    assert_eq!(solid_only.draw_plan(), DrawPlan::MeshIndexed { index_count: 36 });
}

#[test]
fn tiny_mesh_draws_unindexed() {
    // two vertices make no whole triangle, so no indices are
    // synthesized and the mesh is drawn in vertex order
    let mut r = Renderer::new(100, 100, true, 0);
    let src = MeshSource {
        positions: vec![v(0, 0, 0), v(1000, 0, 0)],
        normals: vec![v(0, 1000, 0), v(0, 1000, 0)],
        indices: Vec::new(),
    };
    assert_eq!(r.load_mesh(&src), Ok(()));
    assert_eq!(r.mesh.num_indices, 0);
    assert_eq!(r.draw_plan(), DrawPlan::MeshUnindexed { vertex_count: 2 });
}

#[test]
fn menu_handle_constructs() {
    let m = Menu::new();
    assert_eq!(m, Menu);
}
