//! What the viewer does about the actions that the tray sends.
use crate::text::joined;
use crate::tray::TrayAction;
use crate::window_list::text_or;
use crate::window_picker::{InfoView, WindowInfo};
use crate::x11::{Reply, Request};
use vstd::prelude::*;

verus! {

/// The kind of desktop session the viewer runs in.
#[derive(Clone, Copy, Debug, PartialEq, Eq, Structural)]
pub enum SessionType {
    X11,
    Wayland,
}

impl SessionType {
    /// How the session is called.
    pub fn as_str(self) -> (name: &'static str)
        ensures
            name@ == match self {
                SessionType::X11 => "X11"@,
                SessionType::Wayland => "Wayland"@,
            },
    {
        match self {
            SessionType::X11 => "X11",
            SessionType::Wayland => "Wayland",
        }
    }
}

/// Tells the session type by what the environment holds: the session type it names, which may be
/// empty, and whether it names a Wayland display.
pub fn detect_session(named: String, wayland_display: bool) -> (session: SessionType)
    ensures
        session == if named@ == "wayland"@ || (named@ != "x11"@ && wayland_display) {
            SessionType::Wayland
        } else {
            SessionType::X11
        },
{
    if named == "wayland".to_owned() || (named != "x11".to_owned() && wayland_display) {
        SessionType::Wayland
    } else {
        SessionType::X11
    }
}

/// What the viewer does next.
#[derive(Clone, Copy, Debug, PartialEq, Eq, Structural)]
pub enum ViewerCommand {
    /// Wait for the next action.
    Wait,
    /// Show the X11 window with this id.
    ShowWindow(u32),
    /// Let the user click on a window, and show it.
    PickWindow,
    /// Let the portal ask for a window, and show it.
    ShowPortalWindow,
    /// Stop, because the user asked for it.
    Exit,
    /// Stop, because the tray is gone.
    Disconnected,
}

/// What to do about an action; there is none once the tray is gone. Windows can only be clicked
/// on in an X11 session.
pub open spec fn command_for(session: SessionType, received: Option<TrayAction>) -> ViewerCommand {
    match received {
        Some(TrayAction::SelectWindow(window)) => ViewerCommand::ShowWindow(window),
        Some(TrayAction::ClickToSelect) => {
            if session == SessionType::X11 {
                ViewerCommand::PickWindow
            } else {
                ViewerCommand::Wait
            }
        },
        Some(TrayAction::PortalSelect) => ViewerCommand::ShowPortalWindow,
        Some(TrayAction::Quit) => ViewerCommand::Exit,
        None => ViewerCommand::Disconnected,
    }
}

/// See [`command_for`].
pub fn next_command(session: SessionType, received: Option<TrayAction>) -> (command: ViewerCommand)
    ensures
        command == command_for(session, received),
{
    match received {
        Some(TrayAction::SelectWindow(window)) => ViewerCommand::ShowWindow(window),
        Some(TrayAction::ClickToSelect) => {
            if session == SessionType::X11 {
                ViewerCommand::PickWindow
            } else {
                ViewerCommand::Wait
            }
        },
        Some(TrayAction::PortalSelect) => ViewerCommand::ShowPortalWindow,
        Some(TrayAction::Quit) => ViewerCommand::Exit,
        None => ViewerCommand::Disconnected,
    }
}

/// How a picked window is announced.
pub open spec fn announcement(info: InfoView) -> Seq<char> {
    "Selected: "@ + text_or(info.name, "<unnamed>"@) + " ("@ + text_or(info.class, "<unknown>"@)
        + ")"@
}

/// See [`announcement`].
pub fn selection_message(info: &WindowInfo) -> (message: String)
    ensures
        message@ == announcement(info@),
{
    let name: &str = match &info.name {
        Some(name) => name.as_str(),
        None => "<unnamed>",
    };
    let class: &str = match &info.class {
        Some(class) => class.as_str(),
        None => "<unknown>",
    };
    let mut message = joined("Selected: ", name);
    message.append(" (");
    message.append(class);
    message.append(")");
    message
}

/// Looking up the size of a window.
#[derive(Clone, Copy, Debug, PartialEq, Eq, Structural)]
pub enum SizeQuery {
    Connection { window: u32 },
    Geometry { window: u32 },
}

/// Where a [`SizeQuery`] stands after a reply.
#[derive(Clone, Copy, Debug, PartialEq, Eq)]
pub enum SizeStep {
    Ask(SizeQuery),
    /// The size, if the window could be asked.
    Found(Option<(u32, u32)>),
}

/// What is assumed of a window whose size cannot be told.
pub const DEFAULT_SIZE: (u32, u32) = (800, 600);

impl SizeQuery {
    /// What is asked next.
    pub open spec fn asks(self) -> Request {
        match self {
            SizeQuery::Connection { .. } => Request::Connect,
            SizeQuery::Geometry { window } => Request::GetGeometry { window },
        }
    }

    /// What follows from `reply`.
    pub open spec fn after(self, reply: Reply) -> SizeStep {
        match (self, reply) {
            (SizeQuery::Connection { window }, Reply::Connected { .. }) => SizeStep::Ask(
                SizeQuery::Geometry { window },
            ),
            (SizeQuery::Geometry { .. }, Reply::Geometry { width, height, .. }) => SizeStep::Found(
                Some((width as u32, height as u32)),
            ),
            _ => SizeStep::Found(None),
        }
    }

    /// Starts looking up the size of `window`.
    pub fn get_window_size(window: u32) -> (query: SizeQuery)
        ensures
            query == (SizeQuery::Connection { window }),
    {
        SizeQuery::Connection { window }
    }

    /// See [`SizeQuery::asks`].
    pub fn request(&self) -> (request: Request)
        ensures
            request == self.asks(),
    {
        match *self {
            SizeQuery::Connection { .. } => Request::Connect,
            SizeQuery::Geometry { window } => Request::GetGeometry { window },
        }
    }

    /// Takes the reply to [`SizeQuery::request`].
    pub fn advance(self, reply: Reply) -> (step: SizeStep)
        ensures
            step == self.after(reply),
    {
        match (self, reply) {
            (SizeQuery::Connection { window }, Reply::Connected { .. }) => SizeStep::Ask(
                SizeQuery::Geometry { window },
            ),
            (SizeQuery::Geometry { .. }, Reply::Geometry { width, height, .. }) => SizeStep::Found(
                Some((width as u32, height as u32)),
            ),
            _ => SizeStep::Found(None),
        }
    }
}

/// The size to show a window at that was found to have the size `found`.
pub fn source_size(found: Option<(u32, u32)>) -> (size: (u32, u32))
    ensures
        size == match found {
            Some(size) => size,
            None => (800, 600),
        },
{
    match found {
        Some(size) => size,
        None => DEFAULT_SIZE,
    }
}

/// Only the user's wish to quit, or the loss of the tray, stops the viewer.
pub proof fn viewer_stops_for_two_reasons(session: SessionType, received: Option<TrayAction>)
    ensures
        command_for(session, received) is Exit <==> received == Some(TrayAction::Quit),
        command_for(session, received) is Disconnected <==> received is None,
{
}

/// In a Wayland session, clicking to select does nothing.
pub proof fn clicking_needs_x11(session: SessionType)
    ensures
        command_for(session, Some(TrayAction::ClickToSelect)) is PickWindow <==> session
            == SessionType::X11,
        session == SessionType::Wayland ==> command_for(session, Some(TrayAction::ClickToSelect))
            is Wait,
{
}

/// Choosing a window shows that window, in every session; clicking picks one in X11 only; the portal
/// is asked where the user wants it; and only quitting or a lost tray stops the viewer.
pub proof fn actions_do_what_they_say(
    session: SessionType,
    window: u32,
    chosen: ViewerCommand,
    click: ViewerCommand,
    portal: ViewerCommand,
    quit: ViewerCommand,
    lost: ViewerCommand,
)
    requires
        call_ensures(next_command, (session, Some(TrayAction::SelectWindow(window))), chosen),
        call_ensures(next_command, (session, Some(TrayAction::ClickToSelect)), click),
        call_ensures(next_command, (session, Some(TrayAction::PortalSelect)), portal),
        call_ensures(next_command, (session, Some(TrayAction::Quit)), quit),
        call_ensures(next_command, (session, None), lost),
    ensures
        chosen == ViewerCommand::ShowWindow(window),
        session is X11 ==> click == ViewerCommand::PickWindow,
        session is Wayland ==> click == ViewerCommand::Wait,
        portal == ViewerCommand::ShowPortalWindow,
        quit == ViewerCommand::Exit,
        lost == ViewerCommand::Disconnected,
{
}

/// A picked window is announced by its name, then its class in brackets; what is missing of them is
/// said to be.
pub proof fn announcement_names_the_window(info: WindowInfo, message: String)
    requires
        call_ensures(selection_message, (&info,), message),
    ensures
        ({
            let name = match info.name {
                Some(name) => name@,
                None => "<unnamed>"@,
            };
            let class = match info.class {
                Some(class) => class@,
                None => "<unknown>"@,
            };
            message@ == "Selected: "@ + name + " ("@ + class + ")"@
        }),
{
}

/// The size of a window is the width and the height that the server tells, in this order, and is
/// not known where the server cannot be reached or does not know the window.
pub proof fn size_is_what_the_server_tells(
    window: u32,
    query: SizeQuery,
    connection: Reply,
    geometry: Reply,
    size: (u32, u32),
)
    requires
        call_ensures(SizeQuery::get_window_size, (window,), query),
        connection.answers(Request::Connect),
        geometry.answers(Request::GetGeometry { window }),
        connection.failure() is None && geometry.failure() is None ==> size == (
            geometry->Geometry_width as u32,
            geometry->Geometry_height as u32,
        ),
    ensures
        query.asks() == Request::Connect,
        connection.failure() is Some ==> query.after(connection) == SizeStep::Found(None),
        connection.failure() is None ==> (query.after(connection) matches SizeStep::Ask(next) && {
            &&& next.asks() == (Request::GetGeometry { window })
            &&& geometry.failure() is Some ==> next.after(geometry) == SizeStep::Found(None)
            &&& geometry.failure() is None ==> next.after(geometry) == SizeStep::Found(Some(size))
        }),
{
}

/// A window whose size is not known is taken to have 800 by 600 pixels.
pub proof fn unknown_size_is_the_default(found: Option<(u32, u32)>, size: (u32, u32))
    requires
        call_ensures(source_size, (found,), size),
    ensures
        found is None ==> size == (800u32, 600u32),
        found is Some ==> found == Some(size),
{
}

/// A session that is named is taken by its name; another one is Wayland exactly if it has a Wayland
/// display. Each is called by its name.
pub proof fn session_is_told_by_its_name(
    named: String,
    wayland_display: bool,
    session: SessionType,
    name: &'static str,
)
    requires
        call_ensures(detect_session, (named, wayland_display), session),
        call_ensures(SessionType::as_str, (session,), name),
    ensures
        named@ == "wayland"@ ==> session is Wayland,
        named@ == "x11"@ && named@ != "wayland"@ ==> session is X11,
        named@ != "wayland"@ && named@ != "x11"@ ==> (session is Wayland <==> wayland_display),
        session is X11 ==> name@ == "X11"@,
        session is Wayland ==> name@ == "Wayland"@,
{
}

} // verus!
