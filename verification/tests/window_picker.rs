use pip_viewer::client_finder::{window_contains_point, ClientFinder, FindStep};
use pip_viewer::window_picker::{
    pick_window, PickStep, PickerError, WindowInfo, WindowPicker, CROSSHAIR_GLYPH, PICK_BUTTON,
};
use pip_viewer::window_property::ByteOrder;
use pip_viewer::x11::{AtomName, InputEvent, Property, Reply, Request};
use std::cell::RefCell;

fn property(kind: u32, value: &[u8]) -> Reply {
    Reply::Property { kind, value: value.to_vec() }
}

fn ids(ids: &[u32]) -> Vec<u8> {
    ids.iter().flat_map(|id| id.to_ne_bytes()).collect()
}

/// Three windows, bottom to top: 10 covers everything, 11 the lower right, 12 the upper left.
/// The pointer is at (150, 150).
fn server(request: Request) -> Reply {
    match request {
        Request::Connect => Reply::Connected { root: 1 },
        Request::GenerateId => Reply::Id(77),
        Request::GrabPointer { .. } => Reply::Grab { granted: true },
        Request::WaitForEvent => {
            Reply::Event(InputEvent::ButtonPress { button: PICK_BUTTON })
        }
        Request::QueryPointer { .. } => Reply::Pointer { x: 150, y: 150 },
        Request::InternAtom(AtomName::NetClientList) => Reply::Atom(50),
        Request::InternAtom(AtomName::NetClientListStacking) => Reply::Atom(51),
        Request::InternAtom(AtomName::NetWmName) => Reply::Atom(52),
        Request::InternAtom(AtomName::Utf8String) => Reply::Atom(53),
        Request::GetProperty { window: 1, property: Property::Atom(51), .. } => {
            property(33, &ids(&[10, 11, 12]))
        }
        Request::GetProperty { property: Property::Atom(52), .. } => property(53, b"Editor"),
        Request::GetProperty { property: Property::WmClass, .. } => property(31, b"ed\0Ed\0"),
        Request::GetProperty { .. } => property(0, b""),
        Request::GetGeometry { window: 10 } => {
            Reply::Geometry { root: 1, width: 1000, height: 1000, depth: 24 }
        }
        Request::GetGeometry { .. } => {
            Reply::Geometry { root: 2, width: 100, height: 100, depth: 24 }
        }
        Request::TranslateOrigin { window: 11, .. } => Reply::Origin { x: 100, y: 100 },
        Request::TranslateOrigin { .. } => Reply::Origin { x: 0, y: 0 },
        _ => Reply::Done,
    }
}

fn run(
    mut picker: WindowPicker,
    server: impl Fn(Request) -> Reply,
) -> (Result<WindowInfo, PickerError>, Vec<Request>) {
    let mut requests = Vec::new();
    loop {
        let request = picker.request();
        requests.push(request);
        match picker.advance(server(request)) {
            PickStep::Ask(next) => picker = next,
            PickStep::Picked(info) => return (Ok(info), requests),
            PickStep::Failed(error) => return (Err(error), requests),
        }
    }
}

fn failure(server: impl Fn(Request) -> Reply) -> String {
    run(pick_window(), server).0.unwrap_err().message()
}

fn failing_at(at: Request) -> impl Fn(Request) -> Reply {
    move |request| {
        if request == at {
            Reply::SendFailed("gone".to_string())
        } else {
            server(request)
        }
    }
}

#[test]
fn topmost_window_under_the_pointer_is_picked() {
    let (result, requests) = run(pick_window(), server);
    let info = result.unwrap();
    assert_eq!(info.window_id, 11);
    assert_eq!(info.name.as_deref(), Some("Editor"));
    assert_eq!(info.class.as_deref(), Some("Ed"));
    assert_eq!((info.x, info.y, info.width, info.height), (100, 100, 100, 100));
    assert_eq!(
        requests[..9],
        [
            Request::Connect,
            Request::GenerateId,
            Request::OpenCursorFont { font: 77 },
            Request::GenerateId,
            Request::CreateGlyphCursor {
                cursor: 77,
                font: 77,
                source_glyph: 34,
                mask_glyph: 35,
                foreground_shade: 0,
                background_shade: 65535,
            },
            Request::CloseFont { font: 77 },
            Request::Flush,
            Request::GrabPointer { window: 1, cursor: 77 },
            Request::WaitForEvent,
        ]
    );
    assert!(requests.contains(&Request::UngrabPointer));
    assert!(requests.contains(&Request::TranslateOrigin { window: 11, target: 2 }));
    assert_eq!(CROSSHAIR_GLYPH, 34);
}

#[test]
fn other_buttons_cancel() {
    for button in [0, 2, 3] {
        let (result, requests) = run(pick_window(), |request| match request {
            Request::WaitForEvent => Reply::Event(InputEvent::ButtonPress { button }),
            Request::UngrabPointer | Request::Flush if button == 3 => {
                Reply::SendFailed("gone".to_string())
            }
            other => server(other),
        });
        if button == 3 {
            assert_eq!(result.unwrap_err().message(), "Failed to connect to X11: gone");
        } else {
            assert_eq!(result.unwrap_err().message(), "Selection cancelled");
            assert_eq!(requests[requests.len() - 2..], [Request::UngrabPointer, Request::Flush]);
        }
    }
}

#[test]
fn failed_release_does_not_stop_a_cancel() {
    let flushes = RefCell::new(0);
    let message = failure(|request| match request {
        Request::WaitForEvent => Reply::Event(InputEvent::ButtonPress { button: 3 }),
        Request::UngrabPointer => Reply::SendFailed("gone".to_string()),
        Request::Flush => {
            *flushes.borrow_mut() += 1;
            if *flushes.borrow() == 2 {
                Reply::SendFailed("gone".to_string())
            } else {
                Reply::Done
            }
        }
        other => server(other),
    });
    assert_eq!(message, "Selection cancelled");
}

#[test]
fn other_events_are_ignored() {
    let events = RefCell::new(vec![
        InputEvent::ButtonPress { button: 1 },
        InputEvent::Other,
        InputEvent::ButtonRelease,
    ]);
    let (result, requests) = run(pick_window(), |request| match request {
        Request::WaitForEvent => Reply::Event(events.borrow_mut().pop().unwrap()),
        other => server(other),
    });
    assert_eq!(result.unwrap().window_id, 11);
    assert_eq!(requests.iter().filter(|r| **r == Request::WaitForEvent).count(), 3);
}

#[test]
fn clicking_on_the_desktop_cancels() {
    let message = failure(|request| match request {
        Request::QueryPointer { .. } => Reply::Pointer { x: 2000, y: 2000 },
        other => server(other),
    });
    assert_eq!(message, "Selection cancelled");
}

#[test]
fn window_zero_cancels() {
    let message = failure(|request| match request {
        Request::GetProperty { window: 1, property: Property::Atom(51), .. } => {
            property(33, &ids(&[0]))
        }
        other => server(other),
    });
    assert_eq!(message, "Selection cancelled");
}

#[test]
fn refused_grab_fails() {
    let message = failure(|request| match request {
        Request::GrabPointer { .. } => Reply::Grab { granted: false },
        other => server(other),
    });
    assert_eq!(message, "Failed to grab pointer");
}

#[test]
fn lost_connection_and_failed_queries_are_told_apart() {
    let lost = "Failed to connect to X11: gone";
    let query = "Failed to query window: gone";
    assert_eq!(failure(failing_at(Request::Connect)), lost);
    assert_eq!(failure(failing_at(Request::GenerateId)), lost);
    assert_eq!(failure(failing_at(Request::OpenCursorFont { font: 77 })), lost);
    assert_eq!(failure(failing_at(Request::CloseFont { font: 77 })), lost);
    assert_eq!(failure(failing_at(Request::Flush)), lost);
    assert_eq!(failure(failing_at(Request::GrabPointer { window: 1, cursor: 77 })), lost);
    assert_eq!(failure(failing_at(Request::WaitForEvent)), lost);
    assert_eq!(failure(failing_at(Request::QueryPointer { window: 1 })), query);
    assert_eq!(
        failure(failing_at(Request::InternAtom(AtomName::NetClientListStacking))),
        query
    );
    assert_eq!(failure(failing_at(Request::UngrabPointer)), lost);
    assert_eq!(failure(failing_at(Request::TranslateOrigin { window: 11, target: 2 })), query);
    assert_eq!(failure(failing_at(Request::InternAtom(AtomName::NetWmName))), query);
    assert_eq!(failure(failing_at(pip_viewer::window_property::ask_window_class(11))), query);
}

fn find(server: impl Fn(Request) -> Reply) -> Result<u32, String> {
    let order =
        if 1u16.to_ne_bytes() == 1u16.to_le_bytes() { ByteOrder::Little } else { ByteOrder::Big };
    let mut finder = ClientFinder::find_client_window(order, 1);
    loop {
        let reply = server(finder.request());
        match finder.advance(reply) {
            FindStep::Ask(next) => finder = next,
            FindStep::Found(window) => return Ok(window),
            FindStep::Failed(message) => return Err(message),
        }
    }
}

#[test]
fn windows_that_cannot_be_asked_are_skipped() {
    let found = find(|request| match request {
        Request::GetGeometry { window: 11 } => Reply::ReplyFailed("BadWindow".to_string()),
        other => server(other),
    });
    assert_eq!(found, Ok(10));
    let found = find(|request| match request {
        Request::TranslateOrigin { window: 11, .. } => Reply::SendFailed("gone".to_string()),
        other => server(other),
    });
    assert_eq!(found, Ok(10));
}

#[test]
fn stacking_order_decides() {
    let found = find(|request| match request {
        Request::GetProperty { window: 1, property: Property::Atom(51), .. } => {
            property(33, &ids(&[11, 10]))
        }
        other => server(other),
    });
    assert_eq!(found, Ok(10));
}

#[test]
fn client_list_stands_in_for_the_stacking_list() {
    let no_stacking = |list: Reply| {
        let list = RefCell::new(Some(list));
        find(move |request| match request {
            Request::GetProperty { window: 1, property: Property::Atom(51), .. } => {
                property(0, b"")
            }
            Request::GetProperty { window: 1, property: Property::Atom(50), .. } => {
                list.borrow_mut().take().unwrap()
            }
            other => server(other),
        })
    };
    assert_eq!(no_stacking(property(0, b"")), Ok(1));
    assert_eq!(no_stacking(property(33, &ids(&[10]))), Ok(10));
    assert_eq!(no_stacking(property(33, &ids(&[10, 11, 12]))), Ok(11));
    assert_eq!(no_stacking(property(33, &ids(&[12]))), Ok(1));
    assert_eq!(no_stacking(property(33, b"")), Ok(1));
    assert_eq!(no_stacking(Reply::ReplyFailed("no list".to_string())), Err("no list".to_string()));
}

#[test]
fn edges_of_a_window() {
    assert!(window_contains_point(-5, 3, -5, 3, 10, 10));
    assert!(window_contains_point(4, 12, -5, 3, 10, 10));
    assert!(!window_contains_point(5, 12, -5, 3, 10, 10));
    assert!(!window_contains_point(4, 13, -5, 3, 10, 10));
    assert!(!window_contains_point(-6, 3, -5, 3, 10, 10));
    assert!(!window_contains_point(0, 2, -5, 3, 10, 10));
    assert!(!window_contains_point(0, 0, 0, 0, 0, 5));
    assert!(window_contains_point(98301, 0, 32767, 0, 65535, 1));
}
