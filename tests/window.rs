use gpu_window::event::{Event, Keycode, WindowEvent};
use gpu_window::window::{FullscreenMode, WindowBuilder, WindowFlags};

#[test]
fn builder_defaults() {
    let b = WindowBuilder::new();
    assert_eq!(b.title, "Vulkan Window");
    assert_eq!(b.width, 800);
    assert_eq!(b.height, 600);
    assert!(!b.resizable);
    assert_eq!(b.fullscreen, FullscreenMode::Windowed);
    assert!(b.vsync);
    assert_eq!(b.max_fps, None);
    assert!(b.decorated);
}

#[test]
fn builder_setters_change_one_field_each() {
    let b = WindowBuilder::new()
        .with_title("triangle")
        .with_size(1024, 768)
        .with_resizable(true)
        .with_fullscreen(FullscreenMode::Borderless)
        .with_vsync(false)
        .with_max_fps(144)
        .with_decorated(false);
    assert_eq!(b.title, "triangle");
    assert_eq!(b.width, 1024);
    assert_eq!(b.height, 768);
    assert!(b.resizable);
    assert_eq!(b.fullscreen, FullscreenMode::Borderless);
    assert!(!b.vsync);
    assert_eq!(b.max_fps, Some(144));
    assert!(!b.decorated);
}

#[test]
fn flags_follow_the_configuration() {
    let plain = WindowBuilder::new().flags();
    assert_eq!(
        plain,
        WindowFlags { resizable: false, borderless: false, fullscreen_desktop: false }
    );
    let undecorated = WindowBuilder::new().with_decorated(false).with_resizable(true).flags();
    assert_eq!(
        undecorated,
        WindowFlags { resizable: true, borderless: true, fullscreen_desktop: false }
    );
    let borderless = WindowBuilder::new().with_fullscreen(FullscreenMode::Borderless).flags();
    assert!(borderless.borderless);
    assert!(!borderless.fullscreen_desktop);
    let full = WindowBuilder::new().with_fullscreen(FullscreenMode::Fullscreen).flags();
    assert!(full.fullscreen_desktop);
    assert!(!full.borderless);
}

#[test]
fn built_window_is_open_at_configured_size() {
    let w = WindowBuilder::new().with_size(1024, 768).build(3);
    assert!(w.is_open());
    assert_eq!(w.current_size(), (1024, 768));
    assert_eq!(w.get_id(), 3);
}

#[test]
fn resize_records_new_size() {
    let mut w = WindowBuilder::new().build(1);
    w.resize(640, 480);
    assert_eq!(w.current_size(), (640, 480));
    w.resize(1920, 1080);
    assert_eq!(w.current_size(), (1920, 1080));
}

#[test]
fn poll_with_nothing_pending_is_empty() {
    let mut w = WindowBuilder::new().build(1);
    assert!(w.get_events().is_empty());
}

#[test]
fn poll_never_returns_an_event_twice() {
    let mut w = WindowBuilder::new().build(1);
    let a = Event::Window { window_id: 1, win_event: WindowEvent::Moved(5, 6) };
    let b = Event::KeyDown { keycode: Some(Keycode::Other) };
    w.push_event(a);
    w.push_event(b);
    assert_eq!(w.get_events(), vec![a, b]);
    assert!(w.get_events().is_empty());
    w.push_event(Event::Quit);
    assert_eq!(w.get_events(), vec![Event::Quit]);
    assert!(w.get_events().is_empty());
}

#[test]
fn quit_is_permanent() {
    let mut w = WindowBuilder::new().build(1);
    w.quit();
    assert!(!w.is_open());
    w.quit();
    w.resize(10, 10);
    w.push_event(Event::Other);
    let _ = w.get_events();
    assert!(!w.is_open());
}
