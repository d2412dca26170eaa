use gpu_window::surface::{
    choose_format, frame_step, surface_format, FrameError, FrameStep, InitError, PresentMode,
    SurfaceConfig, TRIANGLE_INSTANCES, TRIANGLE_VERTICES,
};

#[test]
fn new_config_is_vsynced() {
    let c = SurfaceConfig::new(2, 1024, 768);
    assert_eq!(
        c,
        SurfaceConfig { format: 2, width: 1024, height: 768, present_mode: PresentMode::Fifo }
    );
}

#[test]
fn config_resize_keeps_format_and_mode() {
    let mut c = SurfaceConfig::new(1, 800, 600);
    c.resize(300, 200);
    assert_eq!(
        c,
        SurfaceConfig { format: 1, width: 300, height: 200, present_mode: PresentMode::Fifo }
    );
}

#[test]
fn first_srgb_format_is_preferred() {
    assert_eq!(choose_format(&vec![false, true, true]), Some(1));
    assert_eq!(choose_format(&vec![true, false]), Some(0));
    assert_eq!(choose_format(&vec![false, false, false, true]), Some(3));
}

#[test]
fn without_srgb_the_first_format_is_taken() {
    assert_eq!(choose_format(&vec![false, false]), Some(0));
    assert_eq!(choose_format(&vec![false]), Some(0));
}

#[test]
fn no_supported_format_gives_none() {
    assert_eq!(choose_format(&vec![]), None);
    assert_eq!(surface_format(&vec![]), None);
}

#[test]
fn surface_format_prefers_srgb_formats() {
    let formats = vec![
        wgpu::TextureFormat::Bgra8Unorm,
        wgpu::TextureFormat::Rgba8Unorm,
        wgpu::TextureFormat::Bgra8UnormSrgb,
        wgpu::TextureFormat::Rgba8UnormSrgb,
    ];
    assert_eq!(surface_format(&formats), Some(2));
    let linear = vec![wgpu::TextureFormat::Rgba16Float, wgpu::TextureFormat::Bgra8Unorm];
    assert_eq!(surface_format(&linear), Some(0));
}

#[test]
fn reasons_name_each_failure() {
    assert_eq!(FrameError::Timeout.reason(), "Timeout");
    assert_eq!(FrameError::Outdated.reason(), "Outdated");
    assert_eq!(FrameError::Lost.reason(), "Lost");
    assert_eq!(FrameError::OutOfMemory.reason(), "OutOfMemory");
}

#[test]
fn every_acquisition_failure_reconfigures() {
    assert_eq!(frame_step(Ok(())), FrameStep::Render);
    for e in [FrameError::Timeout, FrameError::Outdated, FrameError::Lost, FrameError::OutOfMemory] {
        assert_eq!(frame_step(Err(e)), FrameStep::Reconfigure(e));
    }
}

#[test]
fn one_triangle_per_frame() {
    assert_eq!(TRIANGLE_VERTICES, 3);
    assert_eq!(TRIANGLE_INSTANCES, 1);
}

#[test]
fn init_error_messages() {
    assert_eq!(InitError::NoAdapter.message(), "No adapter found");
    assert_eq!(InitError::NoSurfaceFormat.message(), "No surface format supported");
    assert_eq!(InitError::WindowCreation("no display".to_string()).message(), "no display");
    assert_eq!(InitError::SurfaceCreation("bad handle".to_string()).message(), "bad handle");
    assert_eq!(InitError::DeviceCreation("lost".to_string()).message(), "lost");
}
