//! The exchange with the X server, as plain values.
//!
//! Each task of this crate that talks to the server is a state that names the next [`Request`]
//! and is advanced by the [`Reply`] to it. Performing the request is left to the caller.
use vstd::prelude::*;

verus! {

/// An atom that is looked up by name.
#[derive(Clone, Copy, Debug, PartialEq, Eq, Structural)]
pub enum AtomName {
    NetClientList,
    NetClientListStacking,
    NetWmName,
    Utf8String,
}

impl AtomName {
    /// The name under which the server knows the atom.
    pub open spec fn spelling(self) -> Seq<char> {
        match self {
            AtomName::NetClientList => "_NET_CLIENT_LIST"@,
            AtomName::NetClientListStacking => "_NET_CLIENT_LIST_STACKING"@,
            AtomName::NetWmName => "_NET_WM_NAME"@,
            AtomName::Utf8String => "UTF8_STRING"@,
        }
    }

    /// See [`AtomName::spelling`].
    pub fn as_str(self) -> (name: &'static str)
        ensures
            name@ == self.spelling(),
    {
        match self {
            AtomName::NetClientList => "_NET_CLIENT_LIST",
            AtomName::NetClientListStacking => "_NET_CLIENT_LIST_STACKING",
            AtomName::NetWmName => "_NET_WM_NAME",
            AtomName::Utf8String => "UTF8_STRING",
        }
    }
}

/// A window property: one of the predefined ones, or one whose atom was looked up.
#[derive(Clone, Copy, Debug, PartialEq, Eq, Structural)]
pub enum Property {
    WmName,
    WmClass,
    Atom(u32),
}

/// The type a property is asked for as.
#[derive(Clone, Copy, Debug, PartialEq, Eq, Structural)]
pub enum PropertyType {
    Window,
    String,
    Atom(u32),
}

/// How many 32-bit units of a property are read.
pub const PROPERTY_LENGTH: u32 = 1024;

/// Something to be done with the X server or with shared memory.
#[derive(Clone, Copy, Debug, PartialEq, Eq, Structural)]
pub enum Request {
    /// Open a connection.
    Connect,
    /// Look up an atom, creating it where it does not exist.
    InternAtom(AtomName),
    /// Read the first [`PROPERTY_LENGTH`] units of a property without deleting it.
    GetProperty { window: u32, property: Property, kind: PropertyType },
    /// Ask for a window's geometry.
    GetGeometry { window: u32 },
    /// Translate the origin of `window` into the coordinates of `target`.
    TranslateOrigin { window: u32, target: u32 },
    /// Ask where the pointer is on the root window of the screen of `window`.
    QueryPointer { window: u32 },
    /// Allocate a fresh resource id.
    GenerateId,
    /// Open the standard cursor font as `font`.
    OpenCursorFont { font: u32 },
    /// Create `cursor` from two glyphs of `font`; the shades are used for red, green and blue alike.
    CreateGlyphCursor {
        cursor: u32,
        font: u32,
        source_glyph: u16,
        mask_glyph: u16,
        foreground_shade: u16,
        background_shade: u16,
    },
    /// Close `font`.
    CloseFont { font: u32 },
    /// Grab the pointer for button presses and releases, showing `cursor`.
    GrabPointer { window: u32, cursor: u32 },
    /// Release the pointer grab.
    UngrabPointer,
    /// Wait for the next event.
    WaitForEvent,
    /// Flush the connection.
    Flush,
    /// Negotiate the Composite extension.
    CompositeQueryVersion { major: u32, minor: u32 },
    /// Negotiate the MIT-SHM extension.
    ShmQueryVersion,
    /// Redirect `window` to off-screen storage, automatically updated.
    RedirectWindow { window: u32 },
    /// Undo [`Request::RedirectWindow`].
    UnredirectWindow { window: u32 },
    /// Let `pixmap` name the off-screen storage of `window`.
    NameWindowPixmap { window: u32, pixmap: u32 },
    /// Free `pixmap`.
    FreePixmap { pixmap: u32 },
    /// Attach the server to the shared memory `shm_id`, writable, as `segment`.
    ShmAttach { segment: u32, shm_id: i32 },
    /// Detach the server from `segment`.
    ShmDetach { segment: u32 },
    /// Copy all planes of `pixmap` from its origin into `segment` at offset zero.
    ShmGetImage { pixmap: u32, width: u16, height: u16, segment: u32 },
    /// Create private shared memory of `size` bytes, readable and writable by the owner only.
    ShmCreate { size: u64 },
    /// Map the shared memory `shm_id` into this process.
    ShmMap { shm_id: i32 },
    /// Unmap the shared memory from this process.
    ShmUnmap,
    /// Mark the shared memory `shm_id` for removal.
    ShmRemove { shm_id: i32 },
}

/// An input event, as far as window picking tells events apart.
#[derive(Clone, Copy, Debug, PartialEq, Eq, Structural)]
pub enum InputEvent {
    ButtonPress { button: u8 },
    ButtonRelease,
    Other,
}

/// What came of a [`Request`].
#[derive(Debug)]
pub enum Reply {
    /// The request could not be handed to the server (or, if it takes no reply, not be done).
    SendFailed(String),
    /// The request went out and the server answered with an error or not at all.
    ReplyFailed(String),
    /// The request was carried out and has nothing to report.
    Done,
    Connected { root: u32 },
    Atom(u32),
    Property { kind: u32, value: Vec<u8> },
    Geometry { root: u32, width: u16, height: u16, depth: u8 },
    Origin { x: i16, y: i16 },
    Pointer { x: i16, y: i16 },
    Id(u32),
    Grab { granted: bool },
    Event(InputEvent),
    /// The identifier of new shared memory; negative where none could be created.
    Shm { id: i32 },
    /// Whether the shared memory could be mapped.
    Mapping { mapped: bool },
}

impl Reply {
    /// The message of a reply that reports a failure.
    pub open spec fn failure(self) -> Option<Seq<char>> {
        match self {
            Reply::SendFailed(message) => Some(message@),
            Reply::ReplyFailed(message) => Some(message@),
            _ => None,
        }
    }

    /// Whether this is a reply that `request` can get.
    pub open spec fn answers(self, request: Request) -> bool {
        match request {
            Request::Connect => self is Connected || self is SendFailed,
            Request::InternAtom(_) => self is Atom || self is SendFailed || self is ReplyFailed,
            Request::GetProperty { .. } => self is Property || self is SendFailed
                || self is ReplyFailed,
            Request::GetGeometry { .. } => self is Geometry || self is SendFailed
                || self is ReplyFailed,
            Request::TranslateOrigin { .. } => self is Origin || self is SendFailed
                || self is ReplyFailed,
            Request::QueryPointer { .. } => self is Pointer || self is SendFailed
                || self is ReplyFailed,
            Request::GenerateId => self is Id || self is SendFailed,
            Request::GrabPointer { .. } => self is Grab || self is SendFailed
                || self is ReplyFailed,
            Request::WaitForEvent => self is Event || self is SendFailed,
            Request::CompositeQueryVersion { .. } => self is Done || self is SendFailed
                || self is ReplyFailed,
            Request::ShmQueryVersion => self is Done || self is SendFailed || self is ReplyFailed,
            Request::ShmGetImage { .. } => self is Done || self is SendFailed
                || self is ReplyFailed,
            Request::ShmCreate { .. } => self is Shm,
            Request::ShmMap { .. } => self is Mapping,
            Request::ShmUnmap => self is Done,
            Request::ShmRemove { .. } => self is Done,
            Request::OpenCursorFont { .. } | Request::CreateGlyphCursor { .. }
            | Request::CloseFont { .. } | Request::UngrabPointer | Request::Flush
            | Request::RedirectWindow { .. } | Request::UnredirectWindow { .. }
            | Request::NameWindowPixmap { .. } | Request::FreePixmap { .. }
            | Request::ShmAttach { .. } | Request::ShmDetach { .. } => self is Done
                || self is SendFailed,
        }
    }
}

/// A server whose answers depend on the request alone.
pub open spec fn steady(server: spec_fn(Request) -> Reply) -> bool {
    forall|request: Request| (#[trigger] server(request)).answers(request)
}

/// Atoms are looked up under the names that the window manager hints give them.
pub proof fn atoms_have_their_hints_names(atom: AtomName, name: &'static str)
    requires
        call_ensures(AtomName::as_str, (atom,), name),
    ensures
        atom == AtomName::NetClientList ==> name@ == "_NET_CLIENT_LIST"@,
        atom == AtomName::NetClientListStacking ==> name@ == "_NET_CLIENT_LIST_STACKING"@,
        atom == AtomName::NetWmName ==> name@ == "_NET_WM_NAME"@,
        atom == AtomName::Utf8String ==> name@ == "UTF8_STRING"@,
{
}

/// A reply reports a failure exactly if it is one of the two failures, and then with its message.
pub proof fn failures_carry_their_message(message: String, reply: Reply)
    ensures
        Reply::SendFailed(message).failure() == Some(message@),
        Reply::ReplyFailed(message).failure() == Some(message@),
        reply.failure() is Some <==> reply is SendFailed || reply is ReplyFailed,
{
}

} // verus!
