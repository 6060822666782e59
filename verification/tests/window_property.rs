use pip_viewer::text::{byte_len, joined};
use pip_viewer::window_property::{
    ask_window_class, get_window_class, parse_window_ids, read_class, read_text, ByteOrder,
    NameQuery, NameStep,
};
use pip_viewer::x11::{AtomName, Property, PropertyType, Reply, Request};

fn property(kind: u32, value: &[u8]) -> Reply {
    Reply::Property { kind, value: value.to_vec() }
}

#[test]
fn atoms_have_their_names() {
    assert_eq!(AtomName::NetClientList.as_str(), "_NET_CLIENT_LIST");
    assert_eq!(AtomName::NetClientListStacking.as_str(), "_NET_CLIENT_LIST_STACKING");
    assert_eq!(AtomName::NetWmName.as_str(), "_NET_WM_NAME");
    assert_eq!(AtomName::Utf8String.as_str(), "UTF8_STRING");
}

#[test]
fn text_is_measured_in_bytes_and_joined() {
    assert_eq!(byte_len("a↻"), 4);
    assert_eq!(joined("ab", "↻"), "ab↻");
}

#[test]
fn window_ids_are_four_bytes_each() {
    let value = [1, 2, 3, 4, 5, 0, 0, 0];
    assert_eq!(parse_window_ids(ByteOrder::Little, &value), [0x04030201, 5]);
    assert_eq!(parse_window_ids(ByteOrder::Big, &value), [0x01020304, 0x05000000]);
}

#[test]
fn trailing_bytes_are_no_window_id() {
    assert_eq!(parse_window_ids(ByteOrder::Little, &[1, 0, 0, 0, 2, 0, 0]), [1]);
    assert_eq!(parse_window_ids(ByteOrder::Little, &[1, 0, 0]), []);
    assert_eq!(parse_window_ids(ByteOrder::Big, &[]), []);
}

#[test]
fn text_needs_a_type_and_bytes() {
    assert_eq!(read_text(31, b"xterm").as_deref(), Some("xterm"));
    assert_eq!(read_text(0, b"xterm"), None);
    assert_eq!(read_text(31, b""), None);
}

#[test]
fn ill_formed_text_is_replaced() {
    assert_eq!(read_text(1, b"a\xffb").as_deref(), Some("a\u{fffd}b"));
    assert_eq!(read_text(1, "↻".as_bytes()).as_deref(), Some("↻"));
}

#[test]
fn class_is_the_second_string() {
    assert_eq!(read_class(31, b"xterm\0XTerm\0").as_deref(), Some("XTerm"));
    assert_eq!(read_class(31, b"xterm\0XTerm").as_deref(), Some("XTerm"));
    assert_eq!(read_class(31, b"\0XTerm\0").as_deref(), Some("XTerm"));
    assert_eq!(read_class(31, b"a\0b\0c\0").as_deref(), Some("b"));
}

#[test]
fn instance_stands_in_for_a_missing_class() {
    assert_eq!(read_class(31, b"xterm\0\0").as_deref(), Some("xterm"));
    assert_eq!(read_class(31, b"xterm\0").as_deref(), Some("xterm"));
    assert_eq!(read_class(31, b"xterm").as_deref(), Some("xterm"));
}

#[test]
fn no_class_at_all() {
    assert_eq!(read_class(31, b""), None);
    assert_eq!(read_class(31, b"\0\0"), None);
    assert_eq!(read_class(31, b"\0"), None);
    assert_eq!(read_class(0, b"xterm\0XTerm\0"), None);
}

#[test]
fn class_query_passes_failures_on() {
    assert_eq!(
        ask_window_class(7),
        Request::GetProperty {
            window: 7,
            property: Property::WmClass,
            kind: PropertyType::String
        }
    );
    assert_eq!(get_window_class(property(31, b"a\0B\0")), Ok(Some("B".to_string())));
    assert_eq!(get_window_class(property(0, b"")), Ok(None));
    assert_eq!(get_window_class(Reply::SendFailed("x".to_string())), Err("x".to_string()));
    assert_eq!(get_window_class(Reply::ReplyFailed("y".to_string())), Err("y".to_string()));
}

fn ask(step: NameStep) -> NameQuery {
    match step {
        NameStep::Ask(query) => query,
        other => panic!("ended with {:?}", other),
    }
}

#[test]
fn net_wm_name_comes_first() {
    let query = NameQuery::get_window_name(9);
    assert_eq!(query.request(), Request::InternAtom(AtomName::NetWmName));
    let query = ask(query.advance(Reply::Atom(100)));
    assert_eq!(query.request(), Request::InternAtom(AtomName::Utf8String));
    let query = ask(query.advance(Reply::Atom(200)));
    assert_eq!(
        query.request(),
        Request::GetProperty {
            window: 9,
            property: Property::Atom(100),
            kind: PropertyType::Atom(200)
        }
    );
    match query.advance(property(200, b"Editor")) {
        NameStep::Found(name) => assert_eq!(name.as_deref(), Some("Editor")),
        other => panic!("{:?}", other),
    }
}

#[test]
fn wm_name_is_the_fallback() {
    let query = NameQuery::NetWmName { window: 9, net_wm_name: 1, utf8_string: 2 };
    let query = ask(query.advance(property(2, b"")));
    assert_eq!(
        query.request(),
        Request::GetProperty { window: 9, property: Property::WmName, kind: PropertyType::String }
    );
    match query.advance(property(31, b"old")) {
        NameStep::Found(name) => assert_eq!(name.as_deref(), Some("old")),
        other => panic!("{:?}", other),
    }
    match query.advance(property(0, b"")) {
        NameStep::Found(name) => assert_eq!(name, None),
        other => panic!("{:?}", other),
    }
}

#[test]
fn failed_lookup_ends_the_name_query() {
    let query = NameQuery::get_window_name(9);
    match query.advance(Reply::ReplyFailed("BadAtom".to_string())) {
        NameStep::Failed(message) => assert_eq!(message, "BadAtom"),
        other => panic!("{:?}", other),
    }
}

#[test]
fn classes_hold_no_nul() {
    assert_eq!(read_class(31, b"\xff\0\xfe\0").as_deref(), Some("\u{fffd}"));
    assert_eq!(read_class(31, b"a\0\xff").as_deref(), Some("\u{fffd}"));
    assert_eq!(read_text(31, b"a\0b").as_deref(), Some("a\0b"));
}
