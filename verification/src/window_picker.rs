//! Letting the user pick a window by clicking on it.
use crate::client_finder::{
    client_on, find_end, find_end_is_final, find_run, finder_finds_the_client, ClientFinder,
    FindState, FindStep, FindStepView,
};
use crate::text::{has_no_nul, joined, text_of};
use crate::window_property::{
    ask_window_class, class_in, class_part, class_request, get_window_class, is_native, name_end,
    name_on, name_query_finds_the_name, name_run, native_order, opt_view, ByteOrder, NameQuery,
    NameStep, NameStepView,
};
use crate::x11::{steady, InputEvent, Property, PropertyType, Reply, Request};
use vstd::prelude::*;

verus! {

/// A window that was picked.
#[derive(Debug)]
pub struct WindowInfo {
    pub window_id: u32,
    pub name: Option<String>,
    pub class: Option<String>,
    pub x: i16,
    pub y: i16,
    pub width: u16,
    pub height: u16,
}

/// A [`WindowInfo`] by its view.
pub struct InfoView {
    pub window_id: u32,
    pub name: Option<Seq<char>>,
    pub class: Option<Seq<char>>,
    pub x: i16,
    pub y: i16,
    pub width: u16,
    pub height: u16,
}

impl View for WindowInfo {
    type V = InfoView;

    open spec fn view(&self) -> InfoView {
        InfoView {
            window_id: self.window_id,
            name: opt_view(self.name),
            class: opt_view(self.class),
            x: self.x,
            y: self.y,
            width: self.width,
            height: self.height,
        }
    }
}

/// Whether the name and the class that are known of a window can be shown, the class without NUL.
pub open spec fn is_described(info: InfoView) -> bool {
    &&& info.name matches Some(name) ==> name.len() > 0
    &&& info.class matches Some(class) ==> class.len() > 0 && has_no_nul(class)
}

/// Why no window was picked.
#[derive(Debug)]
pub enum PickerError {
    ConnectionFailed(String),
    GrabFailed,
    UserCancelled,
    WindowQueryFailed(String),
}

/// A [`PickerError`] by its view.
pub enum PickerErrorView {
    ConnectionFailed(Seq<char>),
    GrabFailed,
    UserCancelled,
    WindowQueryFailed(Seq<char>),
}

impl View for PickerError {
    type V = PickerErrorView;

    open spec fn view(&self) -> PickerErrorView {
        match *self {
            PickerError::ConnectionFailed(message) => PickerErrorView::ConnectionFailed(message@),
            PickerError::GrabFailed => PickerErrorView::GrabFailed,
            PickerError::UserCancelled => PickerErrorView::UserCancelled,
            PickerError::WindowQueryFailed(message) => PickerErrorView::WindowQueryFailed(message@),
        }
    }
}

impl PickerErrorView {
    /// How the error reads.
    pub open spec fn display(self) -> Seq<char> {
        match self {
            PickerErrorView::ConnectionFailed(e) => "Failed to connect to X11: "@ + e,
            PickerErrorView::GrabFailed => "Failed to grab pointer"@,
            PickerErrorView::UserCancelled => "Selection cancelled"@,
            PickerErrorView::WindowQueryFailed(e) => "Failed to query window: "@ + e,
        }
    }
}

impl PickerError {
    /// See [`PickerErrorView::display`].
    pub fn message(&self) -> (text: String)
        ensures
            text@ == self@.display(),
    {
        match self {
            PickerError::ConnectionFailed(e) => joined("Failed to connect to X11: ", e.as_str()),
            PickerError::GrabFailed => "Failed to grab pointer".to_owned(),
            PickerError::UserCancelled => "Selection cancelled".to_owned(),
            PickerError::WindowQueryFailed(e) => joined("Failed to query window: ", e.as_str()),
        }
    }
}

/// The crosshair in the standard cursor font; its mask is the glyph after it.
pub const CROSSHAIR_GLYPH: u16 = 34;

/// The mouse button that picks a window; any other cancels.
pub const PICK_BUTTON: u8 = 1;

/// Where a window is on the screen.
#[derive(Clone, Copy, Debug, PartialEq, Eq, Structural)]
pub struct Placement {
    pub window: u32,
    pub x: i16,
    pub y: i16,
    pub width: u16,
    pub height: u16,
}

/// What the picking is waiting for.
#[derive(Clone, Copy, Debug, PartialEq, Eq, Structural)]
pub enum PickPhase {
    Connection,
    FontId,
    OpenFont { font: u32 },
    CursorId { font: u32 },
    CreateCursor { font: u32, cursor: u32 },
    CloseFont { font: u32, cursor: u32 },
    FlushCursor { cursor: u32 },
    Grab { cursor: u32 },
    /// Waiting for a click.
    Click,
    /// Releasing the pointer after a click that cancels.
    CancelUngrab,
    CancelFlush,
    /// Finding the window that was clicked on.
    Find,
    /// Releasing the pointer after the window was found.
    Ungrab { window: u32 },
    Flush { window: u32 },
    Geometry { window: u32 },
    Origin { window: u32, root: u32, width: u16, height: u16 },
    Name { query: NameQuery, place: Placement },
    Class { place: Placement },
}

/// A picking under way.
#[derive(Debug)]
pub struct WindowPicker {
    order: ByteOrder,
    root: u32,
    phase: PickPhase,
    finder: ClientFinder,
    name: Option<String>,
}

/// A [`WindowPicker`] by its view.
pub struct PickState {
    pub order: ByteOrder,
    pub root: u32,
    pub phase: PickPhase,
    pub finder: FindState,
    pub name: Option<Seq<char>>,
}

/// Where a [`WindowPicker`] stands after a reply.
#[derive(Debug)]
pub enum PickStep {
    Ask(WindowPicker),
    Picked(WindowInfo),
    Failed(PickerError),
}

/// A [`PickStep`] by its view.
pub enum PickStepView {
    Ask(PickState),
    Picked(InfoView),
    Failed(PickerErrorView),
}

impl View for WindowPicker {
    type V = PickState;

    closed spec fn view(&self) -> PickState {
        PickState {
            order: self.order,
            root: self.root,
            phase: self.phase,
            finder: self.finder@,
            name: opt_view(self.name),
        }
    }
}

impl View for PickStep {
    type V = PickStepView;

    open spec fn view(&self) -> PickStepView {
        match *self {
            PickStep::Ask(picker) => PickStepView::Ask(picker@),
            PickStep::Picked(info) => PickStepView::Picked(info@),
            PickStep::Failed(error) => PickStepView::Failed(error@),
        }
    }
}

impl PickState {
    /// A picking that has not begun yet.
    pub open spec fn start(order: ByteOrder) -> PickState {
        PickState {
            order,
            root: 0,
            phase: PickPhase::Connection,
            finder: FindState::start(order, 0),
            name: None,
        }
    }

    /// The search is in order, and what is asked about after it is a client window. Its name, once
    /// known, is not empty.
    pub open spec fn valid(self) -> bool {
        &&& self.finder.valid()
        &&& match self.phase {
            PickPhase::Geometry { window } => self.is_client(window),
            PickPhase::Origin { window, .. } => self.is_client(window),
            PickPhase::Name { query, place } => self.is_client(place.window) && query.window()
                == place.window,
            PickPhase::Class { place } => self.is_client(place.window) && (
            self.name matches Some(name) ==> name.len() > 0),
            _ => true,
        }
    }

    /// Whether `window` is neither the desktop nor nothing.
    pub open spec fn is_client(self, window: u32) -> bool {
        window != self.root && window != 0
    }

    /// Whether the pointer is grabbed.
    pub open spec fn holds_pointer(self) -> bool {
        self.phase is Click || self.phase is CancelUngrab || self.phase is Find
            || self.phase is Ungrab
    }

    /// What is asked next.
    pub open spec fn asks(self) -> Request {
        match self.phase {
            PickPhase::Connection => Request::Connect,
            PickPhase::FontId => Request::GenerateId,
            PickPhase::OpenFont { font } => Request::OpenCursorFont { font },
            PickPhase::CursorId { .. } => Request::GenerateId,
            PickPhase::CreateCursor { font, cursor } => Request::CreateGlyphCursor {
                cursor,
                font,
                source_glyph: CROSSHAIR_GLYPH,
                mask_glyph: (CROSSHAIR_GLYPH + 1) as u16,
                foreground_shade: 0,
                background_shade: 65535,
            },
            PickPhase::CloseFont { font, .. } => Request::CloseFont { font },
            PickPhase::FlushCursor { .. } => Request::Flush,
            PickPhase::Grab { cursor } => Request::GrabPointer { window: self.root, cursor },
            PickPhase::Click => Request::WaitForEvent,
            PickPhase::CancelUngrab => Request::UngrabPointer,
            PickPhase::CancelFlush => Request::Flush,
            PickPhase::Find => self.finder.asks(),
            PickPhase::Ungrab { .. } => Request::UngrabPointer,
            PickPhase::Flush { .. } => Request::Flush,
            PickPhase::Geometry { window } => Request::GetGeometry { window },
            PickPhase::Origin { window, root, .. } => Request::TranslateOrigin {
                window,
                target: root,
            },
            PickPhase::Name { query, .. } => query.asks(),
            PickPhase::Class { place } => class_request(place.window),
        }
    }

    /// The state in which `phase` is waited for next.
    pub open spec fn go_to(self, phase: PickPhase) -> PickStepView {
        PickStepView::Ask(PickState { phase, ..self })
    }

    /// The error that a failed reply ends the picking with: a lost connection until the click and
    /// while the pointer is released, a failed query while windows are asked about.
    pub open spec fn error(self, message: Seq<char>) -> PickerErrorView {
        match self.phase {
            PickPhase::Find | PickPhase::Geometry { .. } | PickPhase::Origin { .. }
            | PickPhase::Name { .. } | PickPhase::Class { .. } =>
                PickerErrorView::WindowQueryFailed(message),
            _ => PickerErrorView::ConnectionFailed(message),
        }
    }

    /// What follows from the event `event`, waited for with the pointer grabbed.
    pub open spec fn after_event(self, event: InputEvent) -> PickStepView {
        match event {
            InputEvent::ButtonPress { button } => {
                if button != PICK_BUTTON {
                    self.go_to(PickPhase::CancelUngrab)
                } else {
                    PickStepView::Ask(
                        PickState {
                            phase: PickPhase::Find,
                            finder: FindState::start(self.order, self.root),
                            ..self
                        },
                    )
                }
            },
            _ => self.go_to(PickPhase::Click),
        }
    }

    /// What follows from `reply`.
    pub open spec fn after(self, reply: Reply) -> PickStepView
        recommends
            self.valid(),
            reply.answers(self.asks()),
    {
        match (self.phase, reply) {
            (PickPhase::CancelUngrab, _) => self.go_to(PickPhase::CancelFlush),
            (PickPhase::CancelFlush, _) => PickStepView::Failed(PickerErrorView::UserCancelled),
            (PickPhase::Find, _) => match self.finder.after(reply) {
                FindStepView::Ask(finder) => PickStepView::Ask(PickState { finder, ..self }),
                FindStepView::Found(window) => PickStepView::Ask(
                    PickState {
                        phase: PickPhase::Ungrab { window },
                        finder: FindState::start(self.order, self.root),
                        ..self
                    },
                ),
                FindStepView::Failed(message) => PickStepView::Failed(self.error(message)),
            },
            (PickPhase::Name { place, query }, _) => match query.after(reply) {
                NameStepView::Ask(query) => self.go_to(PickPhase::Name { query, place }),
                NameStepView::Found(name) => PickStepView::Ask(
                    PickState { phase: PickPhase::Class { place }, name, ..self },
                ),
                NameStepView::Failed(message) => PickStepView::Failed(self.error(message)),
            },
            (PickPhase::Class { place }, _) => match class_in(reply) {
                Ok(class) => PickStepView::Picked(
                    InfoView {
                        window_id: place.window,
                        name: self.name,
                        class,
                        x: place.x,
                        y: place.y,
                        width: place.width,
                        height: place.height,
                    },
                ),
                Err(message) => PickStepView::Failed(self.error(message)),
            },
            (PickPhase::Connection, Reply::Connected { root }) => PickStepView::Ask(
                PickState { root, phase: PickPhase::FontId, ..self },
            ),
            (PickPhase::FontId, Reply::Id(font)) => self.go_to(PickPhase::OpenFont { font }),
            (PickPhase::OpenFont { font }, Reply::Done) => self.go_to(PickPhase::CursorId { font }),
            (PickPhase::CursorId { font }, Reply::Id(cursor)) => self.go_to(
                PickPhase::CreateCursor { font, cursor },
            ),
            (PickPhase::CreateCursor { font, cursor }, Reply::Done) => self.go_to(
                PickPhase::CloseFont { font, cursor },
            ),
            (PickPhase::CloseFont { cursor, .. }, Reply::Done) => self.go_to(
                PickPhase::FlushCursor { cursor },
            ),
            (PickPhase::FlushCursor { cursor }, Reply::Done) => self.go_to(
                PickPhase::Grab { cursor },
            ),
            (PickPhase::Grab { .. }, Reply::Grab { granted }) => {
                if granted {
                    self.go_to(PickPhase::Click)
                } else {
                    PickStepView::Failed(PickerErrorView::GrabFailed)
                }
            },
            (PickPhase::Click, Reply::Event(event)) => self.after_event(event),
            (PickPhase::Ungrab { window }, Reply::Done) => self.go_to(PickPhase::Flush { window }),
            (PickPhase::Flush { window }, Reply::Done) => {
                if self.is_client(window) {
                    self.go_to(PickPhase::Geometry { window })
                } else {
                    PickStepView::Failed(PickerErrorView::UserCancelled)
                }
            },
            (PickPhase::Geometry { window }, Reply::Geometry { root, width, height, .. }) =>
                self.go_to(PickPhase::Origin { window, root, width, height }),
            (PickPhase::Origin { window, width, height, .. }, Reply::Origin { x, y }) => self.go_to(
                PickPhase::Name {
                    query: NameQuery::NetWmNameAtom { window },
                    place: Placement { window, x, y, width, height },
                },
            ),
            _ => PickStepView::Failed(self.error(reply.failure()->0)),
        }
    }
}

/// Starts letting the user pick a window of a server on this machine, reading values in the
/// machine's byte order; the contract leaves open which of the two that is.
pub fn pick_window() -> (picker: WindowPicker)
    ensures
        is_native(picker@.order),
        picker@ == PickState::start(picker@.order),
        picker@.valid(),
{
    WindowPicker::start(native_order())
}

impl WindowPicker {
    /// Starts letting the user pick a window of a server that sends values in the given byte
    /// order.
    pub fn start(order: ByteOrder) -> (picker: WindowPicker)
        ensures
            picker@ == PickState::start(order),
            picker@.valid(),
    {
        WindowPicker {
            order,
            root: 0,
            phase: PickPhase::Connection,
            finder: ClientFinder::find_client_window(order, 0),
            name: None,
        }
    }

    /// See [`PickState::asks`].
    pub fn request(&self) -> (request: Request)
        requires
            self@.valid(),
        ensures
            request == self@.asks(),
    {
        match self.phase {
            PickPhase::Connection => Request::Connect,
            PickPhase::FontId => Request::GenerateId,
            PickPhase::OpenFont { font } => Request::OpenCursorFont { font },
            PickPhase::CursorId { .. } => Request::GenerateId,
            PickPhase::CreateCursor { font, cursor } => Request::CreateGlyphCursor {
                cursor,
                font,
                source_glyph: CROSSHAIR_GLYPH,
                mask_glyph: CROSSHAIR_GLYPH + 1,
                foreground_shade: 0,
                background_shade: 65535,
            },
            PickPhase::CloseFont { font, .. } => Request::CloseFont { font },
            PickPhase::FlushCursor { .. } => Request::Flush,
            PickPhase::Grab { cursor } => Request::GrabPointer { window: self.root, cursor },
            PickPhase::Click => Request::WaitForEvent,
            PickPhase::CancelUngrab => Request::UngrabPointer,
            PickPhase::CancelFlush => Request::Flush,
            PickPhase::Find => self.finder.request(),
            PickPhase::Ungrab { .. } => Request::UngrabPointer,
            PickPhase::Flush { .. } => Request::Flush,
            PickPhase::Geometry { window } => Request::GetGeometry { window },
            PickPhase::Origin { window, root, .. } => Request::TranslateOrigin {
                window,
                target: root,
            },
            PickPhase::Name { query, .. } => query.request(),
            PickPhase::Class { place } => ask_window_class(place.window),
        }
    }

    fn go_to(self, phase: PickPhase) -> (step: PickStep)
        ensures
            step@ == self@.go_to(phase),
    {
        let mut picker = self;
        picker.phase = phase;
        PickStep::Ask(picker)
    }

    fn error(&self, message: String) -> (error: PickerError)
        ensures
            error@ == self@.error(message@),
    {
        match self.phase {
            PickPhase::Find | PickPhase::Geometry { .. } | PickPhase::Origin { .. }
            | PickPhase::Name { .. } | PickPhase::Class { .. } => PickerError::WindowQueryFailed(
                message,
            ),
            _ => PickerError::ConnectionFailed(message),
        }
    }

    fn after_event(self, event: InputEvent) -> (step: PickStep)
        requires
            self@.valid(),
        ensures
            step@ == self@.after_event(event),
            step matches PickStep::Ask(next) ==> next@.valid(),
    {
        match event {
            InputEvent::ButtonPress { button } => {
                if button != PICK_BUTTON {
                    self.go_to(PickPhase::CancelUngrab)
                } else {
                    let mut picker = self;
                    picker.phase = PickPhase::Find;
                    picker.finder = ClientFinder::find_client_window(picker.order, picker.root);
                    PickStep::Ask(picker)
                }
            },
            _ => self.go_to(PickPhase::Click),
        }
    }

    fn after_find(self, reply: Reply) -> (step: PickStep)
        requires
            self@.valid(),
            self@.phase is Find,
            reply.answers(self@.asks()),
        ensures
            step@ == self@.after(reply),
            step matches PickStep::Ask(next) ==> next@.valid(),
    {
        let WindowPicker { order, root, phase, finder, name } = self;
        match finder.advance(reply) {
            FindStep::Ask(finder) => PickStep::Ask(
                WindowPicker { order, root, phase, finder, name },
            ),
            FindStep::Found(window) => PickStep::Ask(
                WindowPicker {
                    order,
                    root,
                    phase: PickPhase::Ungrab { window },
                    finder: ClientFinder::find_client_window(order, root),
                    name,
                },
            ),
            FindStep::Failed(message) => PickStep::Failed(PickerError::WindowQueryFailed(message)),
        }
    }

    /// Takes the reply to [`WindowPicker::request`]. The name and the class of a window that is
    /// picked can be shown, if it has them.
    pub fn advance(self, reply: Reply) -> (step: PickStep)
        requires
            self@.valid(),
            reply.answers(self@.asks()),
        ensures
            step@ == self@.after(reply),
            step matches PickStep::Ask(next) ==> next@.valid(),
            step matches PickStep::Picked(info) ==> is_described(info@),
    {
        match self.phase {
            PickPhase::CancelUngrab => self.go_to(PickPhase::CancelFlush),
            PickPhase::CancelFlush => PickStep::Failed(PickerError::UserCancelled),
            PickPhase::Find => self.after_find(reply),
            PickPhase::Name { query, place } => match query.advance(reply) {
                NameStep::Ask(query) => self.go_to(PickPhase::Name { query, place }),
                NameStep::Found(name) => {
                    let mut picker = self;
                    picker.phase = PickPhase::Class { place };
                    picker.name = name;
                    PickStep::Ask(picker)
                },
                NameStep::Failed(message) => PickStep::Failed(self.error(message)),
            },
            PickPhase::Class { place } => match get_window_class(reply) {
                Ok(class) => PickStep::Picked(
                    WindowInfo {
                        window_id: place.window,
                        name: self.name,
                        class,
                        x: place.x,
                        y: place.y,
                        width: place.width,
                        height: place.height,
                    },
                ),
                Err(message) => PickStep::Failed(self.error(message)),
            },
            _ => match reply {
                Reply::SendFailed(message) => PickStep::Failed(self.error(message)),
                Reply::ReplyFailed(message) => PickStep::Failed(self.error(message)),
                Reply::Connected { root } => {
                    let mut picker = self;
                    picker.root = root;
                    picker.phase = PickPhase::FontId;
                    PickStep::Ask(picker)
                },
                Reply::Id(id) => match self.phase {
                    PickPhase::FontId => self.go_to(PickPhase::OpenFont { font: id }),
                    PickPhase::CursorId { font } => self.go_to(
                        PickPhase::CreateCursor { font, cursor: id },
                    ),
                    _ => unreached(),
                },
                Reply::Done => match self.phase {
                    PickPhase::OpenFont { font } => self.go_to(PickPhase::CursorId { font }),
                    PickPhase::CreateCursor { font, cursor } => self.go_to(
                        PickPhase::CloseFont { font, cursor },
                    ),
                    PickPhase::CloseFont { cursor, .. } => self.go_to(
                        PickPhase::FlushCursor { cursor },
                    ),
                    PickPhase::FlushCursor { cursor } => self.go_to(PickPhase::Grab { cursor }),
                    PickPhase::Ungrab { window } => self.go_to(PickPhase::Flush { window }),
                    PickPhase::Flush { window } => {
                        if window == self.root || window == 0 {
                            PickStep::Failed(PickerError::UserCancelled)
                        } else {
                            self.go_to(PickPhase::Geometry { window })
                        }
                    },
                    _ => unreached(),
                },
                Reply::Grab { granted } => {
                    if granted {
                        self.go_to(PickPhase::Click)
                    } else {
                        PickStep::Failed(PickerError::GrabFailed)
                    }
                },
                Reply::Event(event) => self.after_event(event),
                Reply::Geometry { root, width, height, .. } => match self.phase {
                    PickPhase::Geometry { window } => self.go_to(
                        PickPhase::Origin { window, root, width, height },
                    ),
                    _ => unreached(),
                },
                Reply::Origin { x, y } => match self.phase {
                    PickPhase::Origin { window, width, height, .. } => self.go_to(
                        PickPhase::Name {
                            query: NameQuery::get_window_name(window),
                            place: Placement { window, x, y, width, height },
                        },
                    ),
                    _ => unreached(),
                },
                _ => unreached(),
            },
        }
    }
}

/// What a window is on a steady server: its size, its place on the screen, its name and class.
pub open spec fn info_on(
    server: spec_fn(Request) -> Reply,
    window: u32,
) -> Result<InfoView, Seq<char>> {
    match server(Request::GetGeometry { window }) {
        Reply::Geometry { root, width, height, .. } => match server(
            Request::TranslateOrigin { window, target: root },
        ) {
            Reply::Origin { x, y } => match name_on(server, window) {
                Ok(name) => match class_in(server(class_request(window))) {
                    Ok(class) => Ok(
                        InfoView { window_id: window, name, class, x, y, width, height },
                    ),
                    Err(message) => Err(message),
                },
                Err(message) => Err(message),
            },
            failed => Err(failed.failure()->0),
        },
        failed => Err(failed.failure()->0),
    }
}

/// What a click that picks comes to on a steady server: the window under the pointer, unless that
/// is the desktop.
pub open spec fn pick_on(
    server: spec_fn(Request) -> Reply,
    order: ByteOrder,
    root: u32,
) -> Result<InfoView, PickerErrorView> {
    match client_on(server, order, root) {
        Err(message) => Err(PickerErrorView::WindowQueryFailed(message)),
        Ok(window) => {
            if let Some(message) = server(Request::UngrabPointer).failure() {
                Err(PickerErrorView::ConnectionFailed(message))
            } else if let Some(message) = server(Request::Flush).failure() {
                Err(PickerErrorView::ConnectionFailed(message))
            } else if window == root || window == 0 {
                Err(PickerErrorView::UserCancelled)
            } else {
                match info_on(server, window) {
                    Ok(info) => Ok(info),
                    Err(message) => Err(PickerErrorView::WindowQueryFailed(message)),
                }
            }
        },
    }
}

/// The end of a picking that came to `result`.
pub open spec fn pick_end(result: Result<InfoView, PickerErrorView>) -> PickStepView {
    match result {
        Ok(info) => PickStepView::Picked(info),
        Err(error) => PickStepView::Failed(error),
    }
}

/// Where a picking stands after at most `steps` replies of a steady server.
pub open spec fn pick_run(
    state: PickState,
    server: spec_fn(Request) -> Reply,
    steps: nat,
) -> PickStepView
    decreases steps,
{
    if steps == 0 {
        PickStepView::Ask(state)
    } else {
        match state.after(server(state.asks())) {
            PickStepView::Ask(next) => pick_run(next, server, (steps - 1) as nat),
            end => end,
        }
    }
}

/// The run through the name lookup.
proof fn run_name(
    state: PickState,
    query: NameQuery,
    place: Placement,
    server: spec_fn(Request) -> Reply,
    name: Result<Option<Seq<char>>, Seq<char>>,
    budget: nat,
    rest: nat,
) -> (steps: nat)
    requires
        state.phase == (PickPhase::Name { query, place }),
        name_run(query, server, budget) == name_end(name),
    ensures
        match name {
            Ok(name) => pick_run(state, server, steps) == pick_run(
                PickState { phase: PickPhase::Class { place }, name, ..state },
                server,
                rest,
            ),
            Err(message) => pick_run(state, server, steps) == PickStepView::Failed(
                PickerErrorView::WindowQueryFailed(message),
            ),
        },
    decreases budget,
{
    match query.after(server(query.asks())) {
        NameStepView::Ask(next) => {
            let after = PickState { phase: PickPhase::Name { query: next, place }, ..state };
            let more = run_name(after, next, place, server, name, (budget - 1) as nat, rest);
            more + 1
        },
        _ => rest + 1,
    }
}

/// The run from a client window to what is known of it.
proof fn run_info(state: PickState, window: u32, server: spec_fn(Request) -> Reply) -> (steps: nat)
    requires
        steady(server),
        state.phase == (PickPhase::Geometry { window }),
    ensures
        pick_run(state, server, steps) == match info_on(server, window) {
            Ok(info) => PickStepView::Picked(info),
            Err(message) => PickStepView::Failed(PickerErrorView::WindowQueryFailed(message)),
        },
{
    reveal_with_fuel(pick_run, 2);
    let geometry = state.asks();
    assert(server(geometry).answers(geometry));
    match server(geometry) {
        Reply::Geometry { root, width, height, .. } => {
            let placing = PickState {
                phase: PickPhase::Origin { window, root, width, height },
                ..state
            };
            let origin = placing.asks();
            assert(server(origin).answers(origin));
            match server(origin) {
                Reply::Origin { x, y } => {
                    let place = Placement { window, x, y, width, height };
                    let query = NameQuery::NetWmNameAtom { window };
                    let naming = PickState { phase: PickPhase::Name { query, place }, ..placing };
                    let name = name_on(server, window);
                    name_query_finds_the_name(server, window);
                    let class = class_request(window);
                    assert(server(class).answers(class));
                    let more = run_name(naming, query, place, server, name, 4, 1);
                    assert(pick_run(state, server, (more + 2) as nat) == pick_run(
                        placing,
                        server,
                        (more + 1) as nat,
                    ));
                    more + 2
                },
                _ => 2,
            }
        },
        _ => 1,
    }
}

/// The run through the search for the window that was clicked on.
proof fn run_find(
    state: PickState,
    server: spec_fn(Request) -> Reply,
    found: Result<u32, Seq<char>>,
    budget: nat,
    rest: nat,
) -> (steps: nat)
    requires
        state.phase is Find,
        find_run(state.finder, server, budget) == find_end(found),
    ensures
        match found {
            Ok(window) => pick_run(state, server, steps) == pick_run(
                PickState {
                    phase: PickPhase::Ungrab { window },
                    finder: FindState::start(state.order, state.root),
                    ..state
                },
                server,
                rest,
            ),
            Err(message) => pick_run(state, server, steps) == PickStepView::Failed(
                PickerErrorView::WindowQueryFailed(message),
            ),
        },
    decreases budget,
{
    match state.finder.after(server(state.finder.asks())) {
        FindStepView::Ask(finder) => {
            let after = PickState { finder, ..state };
            let more = run_find(after, server, found, (budget - 1) as nat, rest);
            more + 1
        },
        _ => rest + 1,
    }
}

/// Once the pointer is grabbed, a press of the picking button picks, on a steady server, the
/// window that [`pick_on`] names.
pub proof fn click_picks_the_client(
    state: PickState,
    server: spec_fn(Request) -> Reply,
) -> (steps: nat)
    requires
        steady(server),
        state.phase is Click,
    ensures
        ({
            let press = Reply::Event(InputEvent::ButtonPress { button: PICK_BUTTON });
            &&& press.answers(state.asks())
            &&& state.after(press) matches PickStepView::Ask(next) && pick_run(next, server, steps)
                == pick_end(pick_on(server, state.order, state.root))
        }),
{
    let finding = PickState {
        phase: PickPhase::Find,
        finder: FindState::start(state.order, state.root),
        ..state
    };
    let found = client_on(server, state.order, state.root);
    let budget = finder_finds_the_client(server, state.order, state.root);
    match found {
        Err(_) => run_find(finding, server, found, budget, 0),
        Ok(window) => {
            assert(server(Request::UngrabPointer).answers(Request::UngrabPointer));
            assert(server(Request::Flush).answers(Request::Flush));
            let releasing = PickState { phase: PickPhase::Ungrab { window }, ..finding };
            let flushing = PickState { phase: PickPhase::Flush { window }, ..releasing };
            let asking = PickState { phase: PickPhase::Geometry { window }, ..flushing };
            let more = run_info(asking, window, server);
            let end = pick_end(pick_on(server, state.order, state.root));
            if server(Request::UngrabPointer).failure() is None {
                assert(releasing.after(server(releasing.asks())) == PickStepView::Ask(flushing));
                if server(Request::Flush).failure() is None && state.is_client(window) {
                    assert(flushing.after(server(flushing.asks())) == PickStepView::Ask(asking));
                }
                assert(pick_run(flushing, server, (more + 1) as nat) == end);
            }
            assert(pick_run(releasing, server, (more + 2) as nat) == end);
            run_find(finding, server, found, budget, (more + 2) as nat)
        },
    }
}

/// A press of any other button cancels, whatever the server replies, and releases the pointer
/// before it does.
pub proof fn other_buttons_cancel(state: PickState, button: u8, ungrab: Reply, flush: Reply)
    requires
        state.phase is Click,
        button != PICK_BUTTON,
    ensures
        state.after(Reply::Event(InputEvent::ButtonPress { button })) matches PickStepView::Ask(
            releasing,
        ) && {
            &&& releasing.asks() == Request::UngrabPointer
            &&& releasing.after(ungrab) matches PickStepView::Ask(flushing) && {
                &&& flushing.asks() == Request::Flush
                &&& flushing.after(flush) == PickStepView::Failed(PickerErrorView::UserCancelled)
            }
        },
{
}

/// Events other than button presses are ignored.
pub proof fn other_events_are_ignored(state: PickState, event: InputEvent)
    requires
        state.phase is Click,
        !(event is ButtonPress),
    ensures
        state.after(Reply::Event(event)) == PickStepView::Ask(state),
{
}

/// The pointer is grabbed only by asking for it, released only by asking for that, and no longer
/// grabbed when a window has been picked or the user has cancelled.
pub proof fn pointer_is_released(state: PickState, reply: Reply)
    requires
        state.valid(),
        reply.answers(state.asks()),
    ensures
        match state.after(reply) {
            PickStepView::Ask(next) => {
                &&& next.holds_pointer() && !state.holds_pointer() ==> state.asks() is GrabPointer
                    && reply == (Reply::Grab { granted: true })
                &&& state.holds_pointer() && !next.holds_pointer() ==> state.asks()
                    is UngrabPointer
            },
            PickStepView::Picked(_) => !state.holds_pointer(),
            PickStepView::Failed(error) => error is UserCancelled ==> !state.holds_pointer(),
        },
{
}

/// A window that is picked is neither the desktop nor nothing.
pub proof fn picked_window_is_a_client(state: PickState, reply: Reply)
    requires
        state.valid(),
        reply.answers(state.asks()),
    ensures
        state.after(reply) matches PickStepView::Picked(info) ==> info.window_id != state.root
            && info.window_id != 0,
{
}

/// Where a picking stands after `replies`.
pub open spec fn pick_replay(state: PickState, replies: Seq<Reply>) -> PickStepView
    decreases replies.len(),
{
    if replies.len() == 0 {
        PickStepView::Ask(state)
    } else {
        match state.after(replies[0]) {
            PickStepView::Ask(next) => pick_replay(next, replies.drop_first()),
            end => end,
        }
    }
}

/// What a picking asks for while `replies` come in, one after the other.
pub open spec fn pick_requests(state: PickState, replies: Seq<Reply>) -> Seq<Request>
    decreases replies.len(),
{
    if replies.len() == 0 {
        Seq::empty()
    } else {
        seq![state.asks()] + match state.after(replies[0]) {
            PickStepView::Ask(next) => pick_requests(next, replies.drop_first()),
            _ => Seq::empty(),
        }
    }
}

/// Where nothing fails, a crosshair cursor is created, in black on white, the pointer is grabbed
/// with it on the root window, and a click is waited for.
pub proof fn picking_shows_a_crosshair(order: ByteOrder, root: u32, font: u32, cursor: u32)
    ensures
        ({
            let start = PickState::start(order);
            let replies = seq![
                Reply::Connected { root },
                Reply::Id(font),
                Reply::Done,
                Reply::Id(cursor),
                Reply::Done,
                Reply::Done,
                Reply::Done,
                Reply::Grab { granted: true },
            ];
            &&& pick_replay(start, replies) == PickStepView::Ask(
                PickState { root, phase: PickPhase::Click, ..start },
            )
            &&& pick_requests(start, replies) == seq![
                Request::Connect,
                Request::GenerateId,
                Request::OpenCursorFont { font },
                Request::GenerateId,
                Request::CreateGlyphCursor {
                    cursor,
                    font,
                    source_glyph: 34,
                    mask_glyph: 35,
                    foreground_shade: 0,
                    background_shade: 65535,
                },
                Request::CloseFont { font },
                Request::Flush,
                Request::GrabPointer { window: root, cursor },
            ]
        }),
{
    reveal_with_fuel(pick_replay, 9);
    reveal_with_fuel(pick_requests, 9);
    let start = PickState::start(order);
    let replies = seq![
        Reply::Connected { root },
        Reply::Id(font),
        Reply::Done,
        Reply::Id(cursor),
        Reply::Done,
        Reply::Done,
        Reply::Done,
        Reply::Grab { granted: true },
    ];
    assert(pick_requests(start, replies) =~= seq![
        Request::Connect,
        Request::GenerateId,
        Request::OpenCursorFont { font },
        Request::GenerateId,
        Request::CreateGlyphCursor {
            cursor,
            font,
            source_glyph: 34,
            mask_glyph: 35,
            foreground_shade: 0,
            background_shade: 65535,
        },
        Request::CloseFont { font },
        Request::Flush,
        Request::GrabPointer { window: root, cursor },
    ]);
}

/// Once the first button is pressed, the pointer is released, and the window that the search found
/// is picked, with the size, the place on its own root window, the name and the class that the
/// server tells. The desktop cannot be picked, and whatever fails on the way is the error.
pub proof fn picked_window_is_as_the_server_tells(
    state: PickState,
    server: spec_fn(Request) -> Reply,
    window: u32,
    search: nat,
) -> (steps: nat)
    requires
        steady(server),
        state.phase is Click,
        find_run(FindState::start(state.order, state.root), server, search) == FindStepView::Found(
            window,
        ),
    ensures
        ({
            let begun = state.after(Reply::Event(InputEvent::ButtonPress { button: 1 }));
            let end = pick_run(begun->Ask_0, server, steps);
            let released = server(Request::UngrabPointer);
            let flushed = server(Request::Flush);
            let geometry = server(Request::GetGeometry { window });
            let origin = server(
                Request::TranslateOrigin { window, target: geometry->Geometry_root },
            );
            let name = name_run(NameQuery::NetWmNameAtom { window }, server, 4);
            let class = server(
                Request::GetProperty {
                    window,
                    property: Property::WmClass,
                    kind: PropertyType::String,
                },
            );
            &&& begun is Ask
            &&& if released.failure() is Some {
                end == PickStepView::Failed(
                    PickerErrorView::ConnectionFailed(released.failure()->0),
                )
            } else if flushed.failure() is Some {
                end == PickStepView::Failed(PickerErrorView::ConnectionFailed(flushed.failure()->0))
            } else if window == state.root || window == 0 {
                end == PickStepView::Failed(PickerErrorView::UserCancelled)
            } else if geometry.failure() is Some {
                end == PickStepView::Failed(
                    PickerErrorView::WindowQueryFailed(geometry.failure()->0),
                )
            } else if origin.failure() is Some {
                end == PickStepView::Failed(PickerErrorView::WindowQueryFailed(origin.failure()->0))
            } else if name is Failed {
                end == PickStepView::Failed(PickerErrorView::WindowQueryFailed(name->Failed_0))
            } else if class.failure() is Some {
                end == PickStepView::Failed(PickerErrorView::WindowQueryFailed(class.failure()->0))
            } else {
                &&& name is Found
                &&& end == PickStepView::Picked(
                    InfoView {
                        window_id: window,
                        name: name->Found_0,
                        class: if class->Property_kind != 0 && class->Property_value@.len() > 0
                            && class_part(class->Property_value@).len() > 0 {
                            Some(text_of(class_part(class->Property_value@)))
                        } else {
                            None
                        },
                        x: origin->Origin_x,
                        y: origin->Origin_y,
                        width: geometry->Geometry_width,
                        height: geometry->Geometry_height,
                    },
                )
            }
        }),
{
    let start = FindState::start(state.order, state.root);
    let found = finder_finds_the_client(server, state.order, state.root);
    if found <= search {
        find_end_is_final(start, server, found, search);
    } else {
        find_end_is_final(start, server, search, found);
    }
    assert(client_on(server, state.order, state.root) == Ok::<u32, Seq<char>>(window));
    let geometry = Request::GetGeometry { window };
    assert(server(geometry).answers(geometry));
    let origin = Request::TranslateOrigin {
        window,
        target: server(geometry)->Geometry_root,
    };
    assert(server(origin).answers(origin));
    let class = class_request(window);
    assert(server(class).answers(class));
    assert(server(Request::UngrabPointer).answers(Request::UngrabPointer));
    assert(server(Request::Flush).answers(Request::Flush));
    name_query_finds_the_name(server, window);
    click_picks_the_client(state, server)
}

/// Once the first button is pressed, a search that fails ends the picking as a failed question about
/// windows, with the same message.
pub proof fn failed_search_ends_the_picking(
    state: PickState,
    server: spec_fn(Request) -> Reply,
    message: Seq<char>,
    search: nat,
) -> (steps: nat)
    requires
        steady(server),
        state.phase is Click,
        find_run(FindState::start(state.order, state.root), server, search) == FindStepView::Failed(
            message,
        ),
    ensures
        ({
            let begun = state.after(Reply::Event(InputEvent::ButtonPress { button: 1 }));
            &&& begun is Ask
            &&& pick_run(begun->Ask_0, server, steps) == PickStepView::Failed(
                PickerErrorView::WindowQueryFailed(message),
            )
        }),
{
    let start = FindState::start(state.order, state.root);
    let found = finder_finds_the_client(server, state.order, state.root);
    if found <= search {
        find_end_is_final(start, server, found, search);
    } else {
        find_end_is_final(start, server, search, found);
    }
    click_picks_the_client(state, server)
}

/// A press of any button but the first cancels, and releases the pointer before it does.
pub proof fn only_the_first_button_picks(state: PickState, button: u8)
    requires
        state.phase is Click,
    ensures
        state.after(Reply::Event(InputEvent::ButtonPress { button })) matches PickStepView::Ask(
            next,
        ) && (next.asks() == Request::UngrabPointer <==> button != 1) && (button == 1 ==> next.asks()
            == (Request::QueryPointer { window: state.root })),
{
}

/// A pointer that cannot be grabbed is one error, a connection that fails outside of the questions
/// about windows another, and a failed question about the window that was found a third.
pub proof fn failures_are_told_apart(state: PickState, reply: Reply, message: Seq<char>)
    requires
        !(state.phase is Find),
        !(state.phase is CancelUngrab),
        !(state.phase is CancelFlush),
        reply.failure() == Some(message),
        reply.answers(state.asks()),
    ensures
        match state.asks() {
            Request::Connect | Request::GenerateId | Request::OpenCursorFont { .. }
            | Request::CreateGlyphCursor { .. } | Request::CloseFont { .. }
            | Request::GrabPointer { .. } | Request::WaitForEvent | Request::UngrabPointer
            | Request::Flush => state.after(reply) == PickStepView::Failed(
                PickerErrorView::ConnectionFailed(message),
            ),
            _ => state.after(reply) == PickStepView::Failed(
                PickerErrorView::WindowQueryFailed(message),
            ),
        },
        state.phase is Grab ==> state.after(Reply::Grab { granted: false }) == PickStepView::Failed(
            PickerErrorView::GrabFailed,
        ),
{
}

/// How each error reads.
pub proof fn picker_errors_say_what_failed(error: PickerError, text: String)
    requires
        call_ensures(PickerError::message, (&error,), text),
    ensures
        match error {
            PickerError::ConnectionFailed(e) => text@ == "Failed to connect to X11: "@ + e@,
            PickerError::GrabFailed => text@ == "Failed to grab pointer"@,
            PickerError::UserCancelled => text@ == "Selection cancelled"@,
            PickerError::WindowQueryFailed(e) => text@ == "Failed to query window: "@ + e@,
        },
{
}

} // verus!
