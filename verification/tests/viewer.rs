use pip_viewer::tray::TrayAction;
use pip_viewer::viewer::{
    detect_session, next_command, selection_message, source_size, SessionType, SizeQuery, SizeStep,
    ViewerCommand,
};
use pip_viewer::window_picker::WindowInfo;
use pip_viewer::x11::{Reply, Request};

#[test]
fn actions_become_commands() {
    for session in [SessionType::X11, SessionType::Wayland] {
        assert_eq!(
            next_command(session, Some(TrayAction::SelectWindow(5))),
            ViewerCommand::ShowWindow(5)
        );
        assert_eq!(
            next_command(session, Some(TrayAction::PortalSelect)),
            ViewerCommand::ShowPortalWindow
        );
        assert_eq!(next_command(session, Some(TrayAction::Quit)), ViewerCommand::Exit);
        assert_eq!(next_command(session, None), ViewerCommand::Disconnected);
    }
}

#[test]
fn clicking_needs_x11() {
    let click = Some(TrayAction::ClickToSelect);
    assert_eq!(next_command(SessionType::X11, click), ViewerCommand::PickWindow);
    assert_eq!(next_command(SessionType::Wayland, click), ViewerCommand::Wait);
}

#[test]
fn sessions_have_names() {
    assert_eq!(SessionType::X11.as_str(), "X11");
    assert_eq!(SessionType::Wayland.as_str(), "Wayland");
}

fn info(name: Option<&str>, class: Option<&str>) -> WindowInfo {
    WindowInfo {
        window_id: 1,
        name: name.map(str::to_string),
        class: class.map(str::to_string),
        x: 0,
        y: 0,
        width: 1,
        height: 1,
    }
}

#[test]
fn picked_window_is_announced() {
    assert_eq!(selection_message(&info(Some("Editor"), Some("Ed"))), "Selected: Editor (Ed)");
    assert_eq!(selection_message(&info(None, None)), "Selected: <unnamed> (<unknown>)");
}

#[test]
fn size_of_a_window() {
    let query = SizeQuery::get_window_size(4);
    assert_eq!(query.request(), Request::Connect);
    assert_eq!(
        query.advance(Reply::SendFailed("no display".to_string())),
        SizeStep::Found(None)
    );
    match query.advance(Reply::Connected { root: 1 }) {
        SizeStep::Ask(query) => {
            assert_eq!(query.request(), Request::GetGeometry { window: 4 });
            let geometry = Reply::Geometry { root: 1, width: 640, height: 480, depth: 24 };
            assert_eq!(query.advance(geometry), SizeStep::Found(Some((640, 480))));
            assert_eq!(
                query.advance(Reply::ReplyFailed("gone".to_string())),
                SizeStep::Found(None)
            );
        }
        other => panic!("{:?}", other),
    }
    assert_eq!(source_size(Some((640, 480))), (640, 480));
    assert_eq!(source_size(None), (800, 600));
}

#[test]
fn session_is_told_by_the_environment() {
    let detect = |named: &str, display| detect_session(named.to_string(), display);
    assert_eq!(detect("wayland", false), SessionType::Wayland);
    assert_eq!(detect("x11", true), SessionType::X11);
    assert_eq!(detect("", true), SessionType::Wayland);
    assert_eq!(detect("", false), SessionType::X11);
    assert_eq!(detect("tty", true), SessionType::Wayland);
}
