use pip_viewer::capture::CaptureError;
use pip_viewer::overlay::{
    surface_size, App, FrameCommand, OverlayCommand, OverlayEvent, PipOverlay,
};

fn app(width: u32, height: u32) -> App {
    PipOverlay::new(9, width, height).run()
}

#[test]
fn overlay_keeps_what_it_is_given() {
    let overlay = PipOverlay::new(9, 640, 480);
    assert_eq!(overlay.target_window_id, 9);
    let app = overlay.run();
    assert_eq!((app.target_window_id, app.source_width, app.source_height), (9, 640, 480));
    assert!(!app.has_window && !app.has_surface && !app.has_capture);
}

fn opening_size(width: u32, height: u32) -> (u32, u32) {
    let window = app(width, height).resumed(None).unwrap();
    (window.width, window.height)
}

#[test]
fn new_window_is_a_quarter_of_the_source() {
    assert_eq!(opening_size(1920, 1080), (480, 270));
    assert_eq!(opening_size(1923, 1083), (480, 270));
}

#[test]
fn new_window_has_a_least_size() {
    assert_eq!(opening_size(800, 600), (200, 150));
    assert_eq!(opening_size(0, 0), (200, 150));
    assert_eq!(opening_size(4000, 10), (1000, 150));
}

#[test]
fn new_window_stays_on_top() {
    let window = app(800, 600).resumed(None).unwrap();
    assert_eq!(window.title, "PiP Viewer");
    assert!(window.always_on_top);
    assert!(window.resizable);
    assert!(window.icon.is_none());
    let icon = winit::window::Icon::from_rgba(vec![1, 2, 3, 4], 1, 1).unwrap();
    let window = app(800, 600).resumed(Some(icon.clone())).unwrap();
    assert_eq!(format!("{:?}", window.icon.unwrap()), format!("{:?}", icon));
}

#[test]
fn failed_capture_is_reported() {
    let mut app = app(800, 600);
    app.opened(Ok((1, 1)));
    match app.captured(100, 90, Err("Target window no longer exists".to_string())) {
        FrameCommand::Report(message) => {
            assert_eq!(message, "Capture error: Target window no longer exists")
        }
        other => panic!("{:?}", other),
    }
    assert_eq!(app.render(100, 90), Some((100, 90)));
    match app.captured(100, 90, Ok(())) {
        FrameCommand::Draw { width, height } => assert_eq!((width, height), (100, 90)),
        other => panic!("{:?}", other),
    }
}

#[test]
fn frames_are_drawn_on_the_buffer_there_is() {
    let mut app = app(800, 600);
    app.opened(Ok((1, 1)));
    let frame = [1, 2, 3, 4];
    let mut buffer = [9u32; 2];
    assert!(app.draw(&frame, 1, 1, 2, 1, Some(&mut buffer)));
    assert_eq!(buffer, [0x030201, 0x030201]);
    assert!(!app.draw(&frame, 1, 1, 2, 1, None));
    let mut small = [9u32; 1];
    assert!(!app.draw(&frame, 1, 1, 2, 1, Some(&mut small)));
    assert_eq!(small, [9]);
}

#[test]
fn window_is_opened_once() {
    let mut app = app(800, 600);
    assert_eq!(app.opened(Ok((640, 480))), None);
    assert!(app.has_window && app.has_surface && app.has_capture);
    assert_eq!((app.source_width, app.source_height), (640, 480));
    assert!(app.resumed(None).is_none());
}

#[test]
fn window_opens_without_a_capture() {
    let mut app = app(800, 600);
    assert_eq!(
        app.opened(Err(CaptureError::WindowGone)).as_deref(),
        Some("Failed to initialize capture: Target window no longer exists")
    );
    assert!(app.has_window && app.has_surface && !app.has_capture);
    assert_eq!((app.source_width, app.source_height), (800, 600));
    assert_eq!(app.render(100, 100), None);
}

#[test]
fn events_are_answered() {
    let mut app = app(800, 600);
    let resized = OverlayEvent::Resized { width: 5, height: 6 };
    assert_eq!(app.window_event(resized), OverlayCommand::Nothing);
    app.opened(Ok((1, 1)));
    assert_eq!(
        app.window_event(resized),
        OverlayCommand::ResizeSurface { width: 5, height: 6 }
    );
    assert_eq!(
        app.window_event(OverlayEvent::Resized { width: 0, height: 6 }),
        OverlayCommand::Nothing
    );
    assert_eq!(
        app.window_event(OverlayEvent::Resized { width: 5, height: 0 }),
        OverlayCommand::Nothing
    );
    assert_eq!(app.window_event(OverlayEvent::CloseRequested), OverlayCommand::Exit);
    assert_eq!(app.window_event(OverlayEvent::RedrawRequested), OverlayCommand::Render);
    assert_eq!(app.window_event(OverlayEvent::Other), OverlayCommand::Nothing);
}

#[test]
fn redraws_need_a_window() {
    let mut app = app(800, 600);
    assert!(!app.about_to_wait());
    assert_eq!(app.render(100, 100), None);
    app.opened(Ok((1, 1)));
    assert!(app.about_to_wait());
    assert_eq!(app.render(100, 90), Some((100, 90)));
    assert_eq!(app.render(0, 90), None);
}

#[test]
fn empty_surfaces_are_refused() {
    assert_eq!(surface_size(3, 4), Some((3, 4)));
    assert_eq!(surface_size(0, 4), None);
    assert_eq!(surface_size(3, 0), None);
}
