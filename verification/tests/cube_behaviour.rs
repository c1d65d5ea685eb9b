use particle_cube::frame::{
    frame_commands, FrameCommand, Pipeline, GLASS_VERTICES, LINE_VERTICES, PARTICLE_VERTICES,
};
use particle_cube::pointer::DragTracker;
use particle_cube::surface::{select_surface_format, Viewport};
use particle_cube::uniform::{CameraUniform, LightingConfig, CAMERA_UNIFORM_SIZE, LIGHTING_CONFIG_SIZE};

#[test]
fn viewport_keeps_its_size_until_the_window_changes() {
    let mut vp = Viewport::new(800, 600);
    assert!(!vp.update(800, 600));
    assert_eq!((vp.width, vp.height), (800, 600));
}

#[test]
fn viewport_takes_a_new_width() {
    let mut vp = Viewport::new(800, 600);
    assert!(vp.update(1024, 600));
    assert_eq!((vp.width, vp.height), (1024, 600));
}

#[test]
fn viewport_takes_a_new_height() {
    let mut vp = Viewport::new(800, 600);
    assert!(vp.update(800, 700));
    assert_eq!((vp.width, vp.height), (800, 700));
}

#[test]
fn viewport_resize_settles_after_one_update() {
    let mut vp = Viewport::new(800, 600);
    assert!(vp.update(0, 0));
    assert!(!vp.update(0, 0));
    assert!(vp.update(1920, 1080));
    assert!(!vp.update(1920, 1080));
}

#[test]
fn surface_format_prefers_the_first_srgb() {
    assert_eq!(select_surface_format(&[false, true, true]), 1);
    assert_eq!(select_surface_format(&[true, false]), 0);
    assert_eq!(select_surface_format(&[false, false, false, true]), 3);
}

#[test]
fn surface_format_falls_back_to_the_first() {
    assert_eq!(select_surface_format(&[false]), 0);
    assert_eq!(select_surface_format(&[false, false]), 0);
}

#[test]
fn tracker_starts_idle_at_the_origin() {
    let t = DragTracker::new();
    assert!(!t.dragging);
    assert_eq!((t.last_x, t.last_y), (0, 0));
}

#[test]
fn moves_without_a_drag_do_nothing() {
    let mut t = DragTracker::new();
    assert!(t.moved(50, 60).is_none());
    assert!(!t.dragging);
    assert_eq!((t.last_x, t.last_y), (0, 0));
}

#[test]
fn drag_rotates_by_the_displacement() {
    let mut t = DragTracker::new();
    t.press(10, 20);
    assert!(t.dragging);
    let r = t.moved(15, 18).unwrap();
    assert_eq!((r.dx, r.dy), (5, -2));
    let r = t.moved(20, 20).unwrap();
    assert_eq!((r.dx, r.dy), (5, 2));
    assert_eq!((t.last_x, t.last_y), (20, 20));
}

#[test]
fn release_ends_the_drag() {
    let mut t = DragTracker::new();
    t.press(1, 1);
    t.release();
    assert!(!t.dragging);
    assert!(t.moved(100, 100).is_none());
    assert_eq!((t.last_x, t.last_y), (1, 1));
}

#[test]
fn drag_rotations_add_up_to_the_whole_displacement() {
    let mut t = DragTracker::new();
    t.press(100, 200);
    let path = [(103, 190), (90, 250), (-40, 0), (7, 7)];
    let (mut sx, mut sy) = (0i64, 0i64);
    for (x, y) in path {
        let r = t.moved(x, y).unwrap();
        sx += r.dx;
        sy += r.dy;
    }
    assert_eq!((sx, sy), (7 - 100, 7 - 200));
}

#[test]
fn drag_displacement_does_not_overflow() {
    let mut t = DragTracker::new();
    t.press(i32::MIN, i32::MAX);
    let r = t.moved(i32::MAX, i32::MIN).unwrap();
    assert_eq!(r.dx, (1i64 << 32) - 1);
    assert_eq!(r.dy, -((1i64 << 32) - 1));
}

fn sample_camera() -> CameraUniform {
    let mut view_proj = [0u32; 16];
    for (i, w) in view_proj.iter_mut().enumerate() {
        *w = (i as f32 * 0.5 - 2.0).to_bits();
    }
    CameraUniform {
        view_proj,
        position: [1.0f32.to_bits(), (-2.5f32).to_bits(), 4.5f32.to_bits(), 1.0f32.to_bits()],
    }
}

#[test]
fn camera_uniform_is_eighty_bytes() {
    let bytes = sample_camera().to_bytes();
    assert_eq!(bytes.len(), 80);
    assert_eq!(CAMERA_UNIFORM_SIZE, 80);
}

#[test]
fn camera_uniform_bytes_are_little_endian_words() {
    let bytes = sample_camera().to_bytes();
    // position[0] == 1.0 sits right after the 16 matrix words.
    assert_eq!(&bytes[64..68], &[0x00, 0x00, 0x80, 0x3f]);
    // view_proj[0] == -2.0
    assert_eq!(&bytes[0..4], &[0x00, 0x00, 0x00, 0xc0]);
}

#[test]
fn camera_uniform_reads_back_as_written() {
    let cam = sample_camera();
    let bytes = cam.to_bytes();
    for i in 0..16 {
        let w = u32::from_le_bytes([bytes[4 * i], bytes[4 * i + 1], bytes[4 * i + 2], bytes[4 * i + 3]]);
        assert_eq!(w, cam.view_proj[i]);
        assert_eq!(f32::from_bits(w), i as f32 * 0.5 - 2.0);
    }
    for i in 0..4 {
        let j = 64 + 4 * i;
        let w = u32::from_le_bytes([bytes[j], bytes[j + 1], bytes[j + 2], bytes[j + 3]]);
        assert_eq!(w, cam.position[i]);
    }
}

#[test]
fn lighting_config_is_forty_eight_bytes_in_field_order() {
    let light = LightingConfig {
        ambient_color: [0.15f32.to_bits(), 0.1f32.to_bits(), 0.25f32.to_bits(), 0.8f32.to_bits()],
        light_dir: [1.0f32.to_bits(), 1.5f32.to_bits(), 1.0f32.to_bits(), 0.0f32.to_bits()],
        params: [0.005f32.to_bits(), 1.0f32.to_bits(), 0.8f32.to_bits(), 0.0f32.to_bits()],
    };
    let bytes = light.to_bytes();
    assert_eq!(bytes.len(), 48);
    assert_eq!(LIGHTING_CONFIG_SIZE, 48);
    let words: Vec<f32> = bytes
        .chunks(4)
        .map(|c| f32::from_le_bytes([c[0], c[1], c[2], c[3]]))
        .collect();
    assert_eq!(
        words,
        vec![0.15, 0.1, 0.25, 0.8, 1.0, 1.5, 1.0, 0.0, 0.005, 1.0, 0.8, 0.0]
    );
}

#[test]
fn arbitrary_word_is_split_least_significant_byte_first() {
    let cam = CameraUniform { view_proj: [0x1234_5678; 16], position: [0xdead_beef; 4] };
    let bytes = cam.to_bytes();
    assert_eq!(&bytes[0..4], &[0x78, 0x56, 0x34, 0x12]);
    assert_eq!(&bytes[76..80], &[0xef, 0xbe, 0xad, 0xde]);
}

#[test]
fn acquired_frame_draws_lines_particles_then_glass() {
    assert_eq!(
        frame_commands(true),
        vec![
            FrameCommand::BeginPass,
            FrameCommand::SetPipeline(Pipeline::Lines),
            FrameCommand::SetBindGroup(0),
            FrameCommand::Draw(9504),
            FrameCommand::SetPipeline(Pipeline::Particles),
            FrameCommand::Draw(10368),
            FrameCommand::SetPipeline(Pipeline::Glass),
            FrameCommand::Draw(36),
            FrameCommand::Submit,
            FrameCommand::Present,
            FrameCommand::RequestNextFrame,
        ]
    );
    assert_eq!((LINE_VERTICES, PARTICLE_VERTICES, GLASS_VERTICES), (9504, 10368, 36));
}

#[test]
fn surface_error_stops_the_loop() {
    let cmds = frame_commands(false);
    assert_eq!(cmds, vec![FrameCommand::ReportSurfaceError]);
    assert!(!cmds.contains(&FrameCommand::RequestNextFrame));
    assert!(!cmds.contains(&FrameCommand::Present));
}

#[test]
fn dragging_follows_the_last_press_or_release() {
    let mut t = DragTracker::new();
    t.moved(3, 3);
    assert!(!t.dragging);
    t.press(5, 6);
    t.moved(7, 8);
    assert!(t.dragging);
    t.release();
    t.moved(9, 9);
    assert!(!t.dragging);
    assert_eq!((t.last_x, t.last_y), (7, 8));
    t.release();
    t.press(-4, 2);
    t.moved(0, 0);
    t.moved(1, 1);
    assert!(t.dragging);
    assert_eq!((t.last_x, t.last_y), (1, 1));
}
