use bevy_webgl1::frame::{plan_frame, Command, DrawFault, Drawable, FrameError, ImageState, MeshData, MeshFault};
use bevy_webgl1::indices::Indices;

fn header() -> Vec<Command<f32>> {
    vec![
        Command::SetViewport { width: 800, height: 600 },
        Command::Clear,
        Command::EnableCullingAndDepth,
        Command::UseProgram,
        Command::UploadCamera,
    ]
}

fn triangle(offset: f32) -> MeshData<f32> {
    MeshData {
        positions: Some(vec![[offset, 0.0, 0.0], [1.0, offset, 0.0], [0.0, 1.0, offset]]),
        uvs: Some(vec![[0.0, 0.0], [1.0, 0.0], [0.0, 1.0]]),
        indices: Some(Indices::U16(vec![0, 1, 2])),
    }
}

fn ready(mesh: Option<MeshData<f32>>) -> Drawable<f32> {
    Drawable { image: ImageState::Ready { width: 2, height: 2 }, mesh }
}

fn count<F: Fn(&Command<f32>) -> bool>(cs: &[Command<f32>], f: F) -> usize {
    cs.iter().filter(|&c| f(c)).count()
}

#[test]
fn empty_scene_clears_and_uploads_camera_once() {
    let plan = plan_frame::<f32>(1, 800, 600, &vec![]).unwrap();
    assert_eq!(plan.commands, header());
    assert!(plan.faults.is_empty());
    assert_eq!(count(&plan.commands, |c| matches!(c, Command::UploadCamera)), 1);
    assert_eq!(count(&plan.commands, |c| matches!(c, Command::Clear)), 1);
    assert_eq!(count(&plan.commands, |c| matches!(c, Command::DrawTriangles { .. })), 0);
}

#[test]
fn one_drawable_gets_one_texture_three_uploads_one_draw() {
    let plan = plan_frame(1, 800, 600, &vec![ready(Some(triangle(0.0)))]).unwrap();
    let mut expected = header();
    expected.push(Command::UploadTexture { drawable: 0, width: 2, height: 2 });
    expected.push(Command::UploadPositions {
        drawable: 0,
        data: vec![0.0, 0.0, 0.0, 1.0, 0.0, 0.0, 0.0, 1.0, 0.0],
    });
    expected.push(Command::UploadUvs { drawable: 0, data: vec![0.0, 0.0, 1.0, 0.0, 0.0, 1.0] });
    expected.push(Command::UploadIndices { drawable: 0, data: vec![0, 1, 2] });
    expected.push(Command::SetModel { drawable: 0 });
    expected.push(Command::DrawTriangles { drawable: 0, count: 3 });
    assert_eq!(plan.commands, expected);
    assert_eq!(count(&plan.commands, |c| matches!(c, Command::UploadTexture { .. })), 1);
    assert_eq!(count(&plan.commands, |c| matches!(c, Command::DrawTriangles { .. })), 1);
}

#[test]
fn upload_sizes_follow_vertex_and_index_counts() {
    let mesh = MeshData {
        positions: Some(vec![[1.0f32, 2.0, 3.0], [4.0, 5.0, 6.0], [7.0, 8.0, 9.0], [10.0, 11.0, 12.0]]),
        uvs: Some(vec![[0.5f32, 0.25], [0.75, 1.0], [0.0, 0.0], [1.0, 1.0]]),
        indices: Some(Indices::U32(vec![0, 1, 2, 2, 3, 0])),
    };
    let plan = plan_frame(1, 800, 600, &vec![ready(Some(mesh))]).unwrap();
    let c = &plan.commands;
    assert_eq!(c.len(), 11);
    match (&c[6], &c[7], &c[8], &c[10]) {
        (
            Command::UploadPositions { data: p, .. },
            Command::UploadUvs { data: u, .. },
            Command::UploadIndices { data: i, .. },
            Command::DrawTriangles { count, .. },
        ) => {
            assert_eq!(p.len(), 12);
            assert_eq!(p[3..6], [4.0, 5.0, 6.0]);
            assert_eq!(u.len(), 8);
            assert_eq!(u[0..2], [0.5, 0.25]);
            assert_eq!(i, &vec![0u16, 1, 2, 2, 3, 0]);
            assert_eq!(*count, 6);
        }
        _ => panic!("uploads out of order"),
    }
}

#[test]
fn two_drawables_draw_after_their_own_uploads() {
    let plan = plan_frame(1, 800, 600, &vec![ready(Some(triangle(5.0))), ready(Some(triangle(7.0)))]).unwrap();
    let c = &plan.commands;
    assert_eq!(c.len(), 17);
    assert_eq!(c[10], Command::DrawTriangles { drawable: 0, count: 3 });
    assert_eq!(c[6], Command::UploadPositions { drawable: 0, data: vec![5.0, 0.0, 0.0, 1.0, 5.0, 0.0, 0.0, 1.0, 5.0] });
    assert_eq!(c[11], Command::UploadTexture { drawable: 1, width: 2, height: 2 });
    assert_eq!(c[12], Command::UploadPositions { drawable: 1, data: vec![7.0, 0.0, 0.0, 1.0, 7.0, 0.0, 0.0, 1.0, 7.0] });
    assert_eq!(c[16], Command::DrawTriangles { drawable: 1, count: 3 });
}

#[test]
fn camera_count_other_than_one_is_a_frame_error() {
    let ds = vec![ready(Some(triangle(0.0)))];
    assert_eq!(plan_frame(0, 800, 600, &ds), Err(FrameError::CameraCount { found: 0 }));
    assert_eq!(plan_frame(2, 800, 600, &ds), Err(FrameError::CameraCount { found: 2 }));
}

#[test]
fn unready_material_or_image_skips_silently() {
    for image in [ImageState::MaterialUnresolved, ImageState::Untextured, ImageState::ImageUnresolved] {
        let ds = vec![Drawable { image, mesh: Some(triangle(0.0)) }];
        let plan = plan_frame(1, 800, 600, &ds).unwrap();
        assert_eq!(plan.commands, header());
        assert!(plan.faults.is_empty());
    }
}

#[test]
fn unresolved_mesh_is_skipped_after_its_texture() {
    let plan = plan_frame(1, 800, 600, &vec![ready(None), ready(Some(triangle(0.0)))]).unwrap();
    assert_eq!(plan.commands[5], Command::UploadTexture { drawable: 0, width: 2, height: 2 });
    assert_eq!(plan.commands[6], Command::UploadTexture { drawable: 1, width: 2, height: 2 });
    assert_eq!(plan.commands.len(), 12);
    assert!(plan.faults.is_empty());
}

#[test]
fn malformed_meshes_are_reported_and_skipped() {
    let mut no_pos = triangle(0.0);
    no_pos.positions = None;
    let mut no_uv = triangle(0.0);
    no_uv.uvs = None;
    let mut short_uv = triangle(0.0);
    short_uv.uvs = Some(vec![[0.0, 0.0]]);
    let mut no_ix = triangle(0.0);
    no_ix.indices = None;
    let ds = vec![ready(Some(no_pos)), ready(Some(no_uv)), ready(Some(short_uv)), ready(Some(no_ix)), ready(Some(triangle(0.0)))];
    let plan = plan_frame(1, 800, 600, &ds).unwrap();
    assert_eq!(
        plan.faults,
        vec![
            DrawFault { drawable: 0, fault: MeshFault::MissingPositions },
            DrawFault { drawable: 1, fault: MeshFault::MissingUvs },
            DrawFault { drawable: 2, fault: MeshFault::UvCountMismatch },
            DrawFault { drawable: 3, fault: MeshFault::MissingIndices },
        ]
    );
    assert_eq!(plan.commands.len(), 5 + 4 + 6);
    assert_eq!(plan.commands[14], Command::DrawTriangles { drawable: 4, count: 3 });
}
