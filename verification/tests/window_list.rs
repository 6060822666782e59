use pip_viewer::window_list::{list_windows, ListStep, WindowEntry, WindowLister};
use pip_viewer::window_property::ByteOrder;
use pip_viewer::x11::{AtomName, Property, PropertyType, Reply, Request};

fn property(kind: u32, value: &[u8]) -> Reply {
    Reply::Property { kind, value: value.to_vec() }
}

/// A server on whose root window 1 there are the windows 10 to 14.
fn server(request: Request) -> Reply {
    match request {
        Request::Connect => Reply::Connected { root: 1 },
        Request::InternAtom(AtomName::NetClientList) => Reply::Atom(50),
        Request::InternAtom(AtomName::NetClientListStacking) => Reply::Atom(51),
        Request::InternAtom(AtomName::NetWmName) => Reply::Atom(52),
        Request::InternAtom(AtomName::Utf8String) => Reply::Atom(53),
        Request::GetProperty { window: 1, property: Property::Atom(50), kind } => {
            assert_eq!(kind, PropertyType::Window);
            let mut value = Vec::new();
            for id in [10u32, 11, 12, 13, 14] {
                value.extend(id.to_ne_bytes());
            }
            property(33, &value)
        }
        Request::GetProperty { window: 10, property: Property::Atom(52), .. } => {
            property(53, b"Editor")
        }
        Request::GetProperty { window: 10, property: Property::WmClass, .. } => {
            property(31, b"ed\0Ed\0")
        }
        Request::GetProperty { window: 11, property: Property::WmName, .. } => {
            property(31, b"Old")
        }
        Request::GetProperty { window: 12, property: Property::Atom(52), .. } => property(53, b"x"),
        Request::GetProperty { window: 12, property: Property::WmClass, .. } => {
            property(31, b"y\0z\0")
        }
        Request::GetProperty { window: 13, .. } => Reply::ReplyFailed("BadWindow".to_string()),
        Request::GetProperty { window: 14, property: Property::Atom(52), .. } => {
            property(53, b"n")
        }
        Request::GetProperty { window: 14, property: Property::WmClass, .. } => {
            property(31, b"cc\0")
        }
        Request::GetProperty { .. } => property(0, b""),
        other => panic!("unexpected {:?}", other),
    }
}

fn run(
    mut lister: WindowLister,
    server: impl Fn(Request) -> Reply,
) -> Result<Vec<WindowEntry>, String> {
    loop {
        let reply = server(lister.request());
        match lister.advance(reply) {
            ListStep::Ask(next) => lister = next,
            ListStep::Listed(entries) => return Ok(entries),
            ListStep::Failed(message) => return Err(message),
        }
    }
}

fn shown(entries: &[WindowEntry]) -> Vec<(u32, &str, &str)> {
    entries.iter().map(|e| (e.id, e.name.as_str(), e.class.as_str())).collect()
}

#[test]
fn windows_are_listed_in_order() {
    let entries = run(list_windows(), server).unwrap();
    assert_eq!(
        shown(&entries),
        [
            (10, "Editor", "Ed"),
            (11, "Old", "<unknown>"),
            (13, "<unnamed>", "<unknown>"),
            (14, "n", "cc"),
        ]
    );
}

#[test]
fn byte_order_of_the_server_counts() {
    let entries = run(WindowLister::start(ByteOrder::Big), |request| match request {
        Request::GetProperty { window: 1, .. } => property(33, &[0, 0, 0, 10]),
        other => server(other),
    });
    assert_eq!(shown(&entries.unwrap()), [(10, "Editor", "Ed")]);
}

#[test]
fn missing_client_list_lists_nothing() {
    let entries = run(list_windows(), |request| match request {
        Request::GetProperty { window: 1, .. } => property(0, b""),
        other => server(other),
    });
    assert_eq!(entries.unwrap().len(), 0);
}

#[test]
fn empty_client_list_lists_nothing() {
    let entries = run(list_windows(), |request| match request {
        Request::GetProperty { window: 1, .. } => property(33, b""),
        other => server(other),
    });
    assert_eq!(entries.unwrap().len(), 0);
}

#[test]
fn failures_before_the_list_end_the_listing() {
    let result = run(list_windows(), |_| Reply::SendFailed("no display".to_string()));
    assert_eq!(result.unwrap_err(), "no display");
    let result = run(list_windows(), |request| match request {
        Request::InternAtom(_) => Reply::ReplyFailed("no atom".to_string()),
        other => server(other),
    });
    assert_eq!(result.unwrap_err(), "no atom");
    let result = run(list_windows(), |request| match request {
        Request::GetProperty { window: 1, .. } => Reply::ReplyFailed("no list".to_string()),
        other => server(other),
    });
    assert_eq!(result.unwrap_err(), "no list");
}

#[test]
fn names_shorter_than_two_bytes_do_not_count() {
    let listed = |name: &'static [u8], class: &'static [u8]| {
        run(list_windows(), move |request| match request {
            Request::GetProperty { window: 1, .. } => property(33, &10u32.to_ne_bytes()),
            Request::GetProperty { property: Property::Atom(52), .. } => property(53, name),
            Request::GetProperty { property: Property::WmClass, .. } => property(31, class),
            other => server(other),
        })
        .unwrap()
        .len()
    };
    assert_eq!(listed(b"x", b"y"), 0);
    assert_eq!(listed(b"xx", b"y"), 1);
    assert_eq!(listed(b"x", b"yy"), 1);
    assert_eq!(listed("é".as_bytes(), b"y"), 1);
}

#[test]
fn entries_can_be_cloned() {
    let entry = WindowEntry { id: 3, name: "a".to_string(), class: "b".to_string() };
    let copy = entry.clone();
    assert_eq!(shown(&[copy]), [(3, "a", "b")]);
}
