use engine_core::camera::{Camera, CameraController, Projection, ScrollDelta};
use engine_core::engine::{handle_event, map_key, EngineEvent, KeyInput};
use engine_core::fixed::{Vec3Fx, FX_ONE};
use engine_core::hdr::{HdrPipeline, TextureFormat};
use engine_core::renderer::{
    choose_surface_format, react_to_surface_error, FrameAction, LoadOp, PassDesc, PassTarget,
    Renderer, SurfaceError,
};
use engine_core::trig::HALF_PI_FX;
use engine_core::camera::CameraMovement;

fn test_renderer(width: u32, height: u32) -> Renderer {
    let camera = Camera::new(Vec3Fx { x: 0, y: 0, z: 0 }, 0, 0);
    let projection = Projection::new(800, 600, HALF_PI_FX, FX_ONE, 100 * FX_ONE);
    let controller = CameraController::new(5 * FX_ONE, FX_ONE);
    Renderer::new(width, height, camera, projection, controller)
}

// A zero-area resize (a minimized window, or a platform reporting
// nonsense) must not crash and must clamp to one pixel; a later sane
// resize is accepted as usual.
#[test]
fn resize_clamps_zero_to_one_pixel() {
    let mut r = test_renderer(800, 600);
    r.resize(0, 0);
    assert_eq!(r.config.width, 1);
    assert_eq!(r.config.height, 1);
    assert_eq!(r.hdr.width, 1);
    assert_eq!(r.hdr.height, 1);
    assert_eq!(r.depth_width, 1);
    assert_eq!(r.depth_height, 1);
    r.resize(1024, 768);
    assert_eq!(r.config.width, 1024);
    assert_eq!(r.config.height, 768);
    assert_eq!(r.hdr.width, 1024);
    assert_eq!(r.hdr.height, 768);
    assert_eq!(r.projection.aspect, 1024 * FX_ONE / 768);
}

#[test]
fn new_renderer_clamps_too() {
    let r = test_renderer(0, 600);
    assert_eq!(r.config.width, 1);
    assert_eq!(r.config.height, 600);
}

#[test]
fn projection_resize_clamps_zero_area_reports() {
    let mut p = Projection::new(800, 600, HALF_PI_FX, FX_ONE, 100 * FX_ONE);
    p.resize(0, 0);
    // a 0x0 report behaves as 1x1: the ratio is one, finite
    assert_eq!(p.aspect, FX_ONE);
    p.resize(0, 50);
    assert_eq!(p.aspect, FX_ONE / 50);
    assert_eq!(p.fovy, HALF_PI_FX);
    let q = Projection::new(0, 0, HALF_PI_FX, FX_ONE, 100 * FX_ONE);
    assert_eq!(q.aspect, FX_ONE);
}

#[test]
fn hdr_resize_clamps_and_a_valid_resize_restores() {
    let mut h = HdrPipeline::new(0, 0);
    assert_eq!((h.width, h.height), (1, 1));
    h.resize(0, 0);
    assert_eq!((h.width, h.height), (1, 1));
    // a valid resize after the degenerate one restores the exact size
    h.resize(640, 480);
    assert_eq!((h.width, h.height), (640, 480));
    assert_eq!(h.bind_group_generation, h.texture_generation);
}

#[test]
fn surface_format_prefers_the_first_srgb_entry() {
    assert_eq!(choose_surface_format(&vec![false, true, true]), 1);
    assert_eq!(choose_surface_format(&vec![true, false]), 0);
    // no sRGB capability: the first reported format is taken
    assert_eq!(choose_surface_format(&vec![false, false, false]), 0);
    assert_eq!(choose_surface_format(&vec![false]), 0);
}

#[test]
fn resize_recreates_the_hdr_target_and_its_bind_group() {
    let mut h = HdrPipeline::new(640, 480);
    assert_eq!(h.format(), TextureFormat::Rgba16Float);
    let g0 = h.texture_generation;
    h.resize(320, 200);
    assert_eq!(h.width, 320);
    assert_eq!(h.height, 200);
    assert_eq!(h.texture_generation, g0 + 1);
    assert_eq!(h.bind_group_generation, h.texture_generation);
}

#[test]
fn frame_passes_run_in_order_against_one_image() {
    let r = test_renderer(800, 600);
    let plan = r.render(true);
    assert_eq!(plan.len(), 3);
    assert_eq!(
        plan[0],
        PassDesc::Geometry { target: PassTarget::HdrTarget, load: LoadOp::ClearColor, depth: true }
    );
    assert_eq!(
        plan[1],
        PassDesc::Tonemap { target: PassTarget::Swapchain, load: LoadOp::LoadPrevious, vertices: 3 }
    );
    assert_eq!(
        plan[2],
        PassDesc::TextOverlay { target: PassTarget::Swapchain, load: LoadOp::LoadPrevious }
    );
    let bare = r.render(false);
    assert_eq!(bare.len(), 2);
    assert_eq!(bare[0], plan[0]);
    assert_eq!(bare[1], plan[1]);
}

#[test]
fn surface_errors_recover_or_fail_as_policy_says() {
    assert_eq!(react_to_surface_error(&SurfaceError::Outdated), FrameAction::Reconfigure);
    assert_eq!(react_to_surface_error(&SurfaceError::Lost), FrameAction::Reconfigure);
    assert_eq!(react_to_surface_error(&SurfaceError::Timeout), FrameAction::SkipFrame);
    assert_eq!(react_to_surface_error(&SurfaceError::OutOfMemory), FrameAction::Fail);
}

#[test]
fn update_integrates_and_reencodes_the_uniform() {
    let mut r = test_renderer(800, 600);
    r.camera_controller.process_keyboard(CameraMovement::Forward);
    r.update(FX_ONE).unwrap();
    // speed 5 over one second along +x
    assert_eq!(r.camera.position, Vec3Fx { x: 5 * FX_ONE, y: 0, z: 0 });
    let vals = r.camera_uniform.to_values();
    assert_eq!(vals[0], 5 * FX_ONE);
    assert_eq!(vals[1], 0);
    assert_eq!(vals[2], 0);
    assert_eq!(vals[3], FX_ONE);
    // the intents were consumed with the frame
    assert_eq!(r.camera_controller.amount_forward, 0);
}

#[test]
fn keys_map_to_the_classic_bindings() {
    assert_eq!(map_key(&KeyInput::Letter('w')), Some(CameraMovement::Forward));
    assert_eq!(map_key(&KeyInput::Letter('a')), Some(CameraMovement::Left));
    assert_eq!(map_key(&KeyInput::Letter('s')), Some(CameraMovement::Backward));
    assert_eq!(map_key(&KeyInput::Letter('d')), Some(CameraMovement::Right));
    assert_eq!(map_key(&KeyInput::Space), Some(CameraMovement::Jump));
    assert_eq!(map_key(&KeyInput::Shift), Some(CameraMovement::Crouch));
    assert_eq!(map_key(&KeyInput::Letter('q')), None);
}

#[test]
fn events_route_into_the_rig() {
    let mut r = test_renderer(800, 600);
    assert!(!handle_event(&mut r, &EngineEvent::MouseMotion { dx: 11, dy: -22 }));
    assert_eq!(r.camera_controller.rotate_horizontal, 11);
    assert_eq!(r.camera_controller.rotate_vertical, -22);
    assert!(!handle_event(&mut r, &EngineEvent::KeyPressed(KeyInput::Letter('w'))));
    assert_eq!(r.camera_controller.amount_forward, FX_ONE);
    assert!(!handle_event(&mut r, &EngineEvent::KeyPressed(KeyInput::Letter('x'))));
    assert_eq!(r.camera_controller.amount_forward, FX_ONE);
    assert!(!handle_event(&mut r, &EngineEvent::MouseWheel(ScrollDelta::Pixels(0, 64))));
    assert_eq!(r.camera_controller.scroll, 64);
    assert!(!handle_event(&mut r, &EngineEvent::Resized { width: 0, height: 50 }));
    assert_eq!(r.config.width, 1);
    assert_eq!(r.config.height, 50);
    assert!(!handle_event(&mut r, &EngineEvent::Other));
    assert!(handle_event(&mut r, &EngineEvent::CloseRequested));
}
