//! Capturing the contents of an X11 window through shared memory.
use crate::text::joined;
use crate::x11::{Reply, Request};
use vstd::prelude::*;

verus! {

/// Why capturing failed.
#[derive(Debug)]
pub enum CaptureError {
    ConnectionFailed(String),
    CompositeNotSupported,
    ShmNotSupported,
    ShmCreateFailed(String),
    CaptureFailed(String),
    WindowGone,
}

/// A [`CaptureError`] by its view.
pub enum CaptureErrorView {
    ConnectionFailed(Seq<char>),
    CompositeNotSupported,
    ShmNotSupported,
    ShmCreateFailed(Seq<char>),
    CaptureFailed(Seq<char>),
    WindowGone,
}

impl View for CaptureError {
    type V = CaptureErrorView;

    open spec fn view(&self) -> CaptureErrorView {
        match *self {
            CaptureError::ConnectionFailed(e) => CaptureErrorView::ConnectionFailed(e@),
            CaptureError::CompositeNotSupported => CaptureErrorView::CompositeNotSupported,
            CaptureError::ShmNotSupported => CaptureErrorView::ShmNotSupported,
            CaptureError::ShmCreateFailed(e) => CaptureErrorView::ShmCreateFailed(e@),
            CaptureError::CaptureFailed(e) => CaptureErrorView::CaptureFailed(e@),
            CaptureError::WindowGone => CaptureErrorView::WindowGone,
        }
    }
}

impl CaptureErrorView {
    /// How the error reads.
    pub open spec fn display(self) -> Seq<char> {
        match self {
            CaptureErrorView::ConnectionFailed(e) => "X11 connection failed: "@ + e,
            CaptureErrorView::CompositeNotSupported => "XComposite extension not supported"@,
            CaptureErrorView::ShmNotSupported => "XShm extension not supported"@,
            CaptureErrorView::ShmCreateFailed(e) => "Failed to create shared memory: "@ + e,
            CaptureErrorView::CaptureFailed(e) => "Capture failed: "@ + e,
            CaptureErrorView::WindowGone => "Target window no longer exists"@,
        }
    }
}

impl CaptureError {
    /// See [`CaptureErrorView::display`].
    pub fn message(&self) -> (text: String)
        ensures
            text@ == self@.display(),
    {
        match self {
            CaptureError::ConnectionFailed(e) => joined("X11 connection failed: ", e.as_str()),
            CaptureError::CompositeNotSupported => "XComposite extension not supported".to_owned(),
            CaptureError::ShmNotSupported => "XShm extension not supported".to_owned(),
            CaptureError::ShmCreateFailed(e) => joined(
                "Failed to create shared memory: ",
                e.as_str(),
            ),
            CaptureError::CaptureFailed(e) => joined("Capture failed: ", e.as_str()),
            CaptureError::WindowGone => "Target window no longer exists".to_owned(),
        }
    }
}

/// A window that is captured, and what it is captured with.
#[derive(Clone, Copy, Debug)]
pub struct WindowCapture {
    pub target_window: u32,
    /// Names the window's off-screen storage.
    pub pixmap: u32,
    /// The server's handle on the shared memory.
    pub shm_seg: u32,
    pub shm_id: i32,
    /// How many bytes of shared memory are mapped into this process, if any are.
    pub mapped: Option<u64>,
    pub width: u16,
    pub height: u16,
    pub depth: u8,
}

/// The size in bytes of a BGRA frame.
pub open spec fn frame_bytes(width: u16, height: u16) -> u64 {
    (width * height * 4) as u64
}

fn frame_size(width: u16, height: u16) -> (size: u64)
    ensures
        size == frame_bytes(width, height),
        size == width * height * 4,
{
    let w: u64 = width as u64;
    let h: u64 = height as u64;
    assert(w * h <= 0xffff * 0xffff) by (nonlinear_arith)
        requires
            w <= 0xffff,
            h <= 0xffff,
    ;
    w * h * 4
}

impl WindowCapture {
    /// Whether shared memory for one frame of the present size is mapped.
    pub open spec fn ready(self) -> bool {
        self.mapped == Some(frame_bytes(self.width, self.height))
    }

    fn has_mapped(&self, size: u64) -> (mapped: bool)
        ensures
            mapped == (self.mapped == Some(size)),
    {
        match self.mapped {
            Some(mapped) => mapped == size,
            None => false,
        }
    }

    /// Starts capturing `window_id`.
    pub fn new(window_id: u32) -> (opening: CaptureOpening)
        ensures
            opening == (CaptureOpening { window: window_id, phase: OpenPhase::Connection }),
    {
        CaptureOpening { window: window_id, phase: OpenPhase::Connection }
    }

    pub fn width(&self) -> (width: u32)
        ensures
            width == self.width,
    {
        self.width as u32
    }

    pub fn height(&self) -> (height: u32)
        ensures
            height == self.height,
    {
        self.height as u32
    }

    /// Starts capturing the current frame, whatever became of the buffers in an earlier capture.
    pub fn capture_frame(self) -> (frame: FrameCapture)
        ensures
            frame == (FrameCapture { capture: self, phase: FramePhase::Geometry }),
            frame.valid(),
    {
        FrameCapture { capture: self, phase: FramePhase::Geometry }
    }

    /// What gives everything back, in order. It does not matter which of it fails.
    pub open spec fn releasing(self) -> Seq<Request> {
        seq![
            Request::ShmDetach { segment: self.shm_seg },
            Request::ShmUnmap,
            Request::FreePixmap { pixmap: self.pixmap },
            Request::UnredirectWindow { window: self.target_window },
            Request::Flush,
        ]
    }

    /// See [`WindowCapture::releasing`].
    pub fn release(&self) -> (requests: Vec<Request>)
        ensures
            requests@ == self.releasing(),
    {
        let requests = vec![
            Request::ShmDetach { segment: self.shm_seg },
            Request::ShmUnmap,
            Request::FreePixmap { pixmap: self.pixmap },
            Request::UnredirectWindow { window: self.target_window },
            Request::Flush,
        ];
        assert(requests@ =~= self.releasing());
        requests
    }
}

/// What setting up the buffers of a capture is waiting for.
#[derive(Clone, Copy, Debug, PartialEq, Eq, Structural)]
pub enum BufferPhase {
    PixmapId,
    NamePixmap,
    Create,
    MapMemory { shm_id: i32 },
    /// Removing shared memory that could not be mapped.
    Discard { shm_id: i32 },
    SegmentId { shm_id: i32 },
    Attach { shm_id: i32 },
    /// Removing the shared memory once everyone has detached.
    Remove { shm_id: i32 },
    Flush,
}

/// Setting up the pixmap and the shared memory of a capture.
#[derive(Clone, Copy, Debug)]
pub struct BufferSetup {
    pub capture: WindowCapture,
    pub phase: BufferPhase,
}

/// Where a [`BufferSetup`] stands after a reply.
#[derive(Debug)]
pub enum BufferStep {
    Ask(BufferSetup),
    Ready(WindowCapture),
    /// The capture as far as it got.
    Failed(WindowCapture, CaptureError),
}

/// A [`BufferStep`] by its view.
pub enum BufferStepView {
    Ask(BufferSetup),
    Ready(WindowCapture),
    Failed(WindowCapture, CaptureErrorView),
}

impl View for BufferStep {
    type V = BufferStepView;

    open spec fn view(&self) -> BufferStepView {
        match *self {
            BufferStep::Ask(setup) => BufferStepView::Ask(setup),
            BufferStep::Ready(capture) => BufferStepView::Ready(capture),
            BufferStep::Failed(capture, error) => BufferStepView::Failed(capture, error@),
        }
    }
}

impl BufferSetup {
    /// Once flushing is all that is left, the shared memory is there.
    pub open spec fn valid(self) -> bool {
        self.phase is Flush ==> self.capture.ready()
    }

    /// What is asked next.
    pub open spec fn asks(self) -> Request {
        match self.phase {
            BufferPhase::PixmapId => Request::GenerateId,
            BufferPhase::NamePixmap => Request::NameWindowPixmap {
                window: self.capture.target_window,
                pixmap: self.capture.pixmap,
            },
            BufferPhase::Create => Request::ShmCreate {
                size: frame_bytes(self.capture.width, self.capture.height),
            },
            BufferPhase::MapMemory { shm_id } => Request::ShmMap { shm_id },
            BufferPhase::Discard { shm_id } => Request::ShmRemove { shm_id },
            BufferPhase::SegmentId { .. } => Request::GenerateId,
            BufferPhase::Attach { shm_id } => Request::ShmAttach {
                segment: self.capture.shm_seg,
                shm_id,
            },
            BufferPhase::Remove { shm_id } => Request::ShmRemove { shm_id },
            BufferPhase::Flush => Request::Flush,
        }
    }

    /// The state in which `phase` is waited for next.
    pub open spec fn go_to(self, phase: BufferPhase) -> BufferStepView {
        BufferStepView::Ask(BufferSetup { phase, ..self })
    }

    /// The error that a failed reply ends the setup with.
    pub open spec fn error(self, message: Seq<char>) -> CaptureErrorView {
        match self.phase {
            BufferPhase::NamePixmap => CaptureErrorView::CaptureFailed(message),
            BufferPhase::Attach { .. } => CaptureErrorView::ShmCreateFailed(message),
            _ => CaptureErrorView::ConnectionFailed(message),
        }
    }

    /// What follows from `reply`.
    pub open spec fn after(self, reply: Reply) -> BufferStepView
        recommends
            reply.answers(self.asks()),
    {
        match (self.phase, reply) {
            (BufferPhase::PixmapId, Reply::Id(pixmap)) => BufferStepView::Ask(
                BufferSetup {
                    capture: WindowCapture { pixmap, ..self.capture },
                    phase: BufferPhase::NamePixmap,
                },
            ),
            (BufferPhase::NamePixmap, Reply::Done) => self.go_to(BufferPhase::Create),
            (BufferPhase::Create, Reply::Shm { id }) => {
                if id < 0 {
                    BufferStepView::Failed(
                        self.capture,
                        CaptureErrorView::ShmCreateFailed("shmget failed"@),
                    )
                } else {
                    self.go_to(BufferPhase::MapMemory { shm_id: id })
                }
            },
            (BufferPhase::MapMemory { shm_id }, Reply::Mapping { mapped }) => {
                if mapped {
                    self.go_to(BufferPhase::SegmentId { shm_id })
                } else {
                    self.go_to(BufferPhase::Discard { shm_id })
                }
            },
            (BufferPhase::Discard { .. }, Reply::Done) => BufferStepView::Failed(
                self.capture,
                CaptureErrorView::ShmCreateFailed("shmat failed"@),
            ),
            (BufferPhase::SegmentId { shm_id }, Reply::Id(shm_seg)) => BufferStepView::Ask(
                BufferSetup {
                    capture: WindowCapture { shm_seg, ..self.capture },
                    phase: BufferPhase::Attach { shm_id },
                },
            ),
            (BufferPhase::Attach { shm_id }, Reply::Done) => self.go_to(
                BufferPhase::Remove { shm_id },
            ),
            (BufferPhase::Remove { shm_id }, Reply::Done) => BufferStepView::Ask(
                BufferSetup {
                    capture: WindowCapture {
                        shm_id,
                        mapped: Some(frame_bytes(self.capture.width, self.capture.height)),
                        ..self.capture
                    },
                    phase: BufferPhase::Flush,
                },
            ),
            (BufferPhase::Flush, Reply::Done) => BufferStepView::Ready(self.capture),
            _ => BufferStepView::Failed(self.capture, self.error(reply.failure()->0)),
        }
    }

    /// See [`BufferSetup::asks`].
    pub fn request(&self) -> (request: Request)
        ensures
            request == self.asks(),
    {
        match self.phase {
            BufferPhase::PixmapId => Request::GenerateId,
            BufferPhase::NamePixmap => Request::NameWindowPixmap {
                window: self.capture.target_window,
                pixmap: self.capture.pixmap,
            },
            BufferPhase::Create => Request::ShmCreate {
                size: frame_size(self.capture.width, self.capture.height),
            },
            BufferPhase::MapMemory { shm_id } => Request::ShmMap { shm_id },
            BufferPhase::Discard { shm_id } => Request::ShmRemove { shm_id },
            BufferPhase::SegmentId { .. } => Request::GenerateId,
            BufferPhase::Attach { shm_id } => Request::ShmAttach {
                segment: self.capture.shm_seg,
                shm_id,
            },
            BufferPhase::Remove { shm_id } => Request::ShmRemove { shm_id },
            BufferPhase::Flush => Request::Flush,
        }
    }

    fn moved_to(self, phase: BufferPhase) -> (step: BufferStep)
        ensures
            step@ == self.go_to(phase),
    {
        BufferStep::Ask(BufferSetup { capture: self.capture, phase })
    }

    fn failed_with(&self, message: String) -> (error: CaptureError)
        ensures
            error@ == self.error(message@),
    {
        match self.phase {
            BufferPhase::NamePixmap => CaptureError::CaptureFailed(message),
            BufferPhase::Attach { .. } => CaptureError::ShmCreateFailed(message),
            _ => CaptureError::ConnectionFailed(message),
        }
    }

    /// Takes the reply to [`BufferSetup::request`].
    pub fn advance(self, reply: Reply) -> (step: BufferStep)
        requires
            self.valid(),
            reply.answers(self.asks()),
        ensures
            step@ == self.after(reply),
            match step {
                BufferStep::Ask(next) => next.valid(),
                BufferStep::Ready(capture) => capture.ready(),
                BufferStep::Failed(..) => true,
            },
    {
        let mut setup = self;
        match reply {
            Reply::SendFailed(message) => BufferStep::Failed(setup.capture, setup.failed_with(message)),
            Reply::Id(id) => match setup.phase {
                BufferPhase::PixmapId => {
                    setup.capture.pixmap = id;
                    setup.moved_to(BufferPhase::NamePixmap)
                },
                BufferPhase::SegmentId { shm_id } => {
                    setup.capture.shm_seg = id;
                    setup.moved_to(BufferPhase::Attach { shm_id })
                },
                _ => unreached(),
            },
            Reply::Shm { id } => {
                if id < 0 {
                    BufferStep::Failed(
                        setup.capture,
                        CaptureError::ShmCreateFailed("shmget failed".to_owned()),
                    )
                } else {
                    setup.moved_to(BufferPhase::MapMemory { shm_id: id })
                }
            },
            Reply::Mapping { mapped } => match setup.phase {
                BufferPhase::MapMemory { shm_id } => {
                    if mapped {
                        setup.moved_to(BufferPhase::SegmentId { shm_id })
                    } else {
                        setup.moved_to(BufferPhase::Discard { shm_id })
                    }
                },
                _ => unreached(),
            },
            Reply::Done => match setup.phase {
                BufferPhase::NamePixmap => setup.moved_to(BufferPhase::Create),
                BufferPhase::Discard { .. } => BufferStep::Failed(
                    setup.capture,
                    CaptureError::ShmCreateFailed("shmat failed".to_owned()),
                ),
                BufferPhase::Attach { shm_id } => setup.moved_to(BufferPhase::Remove { shm_id }),
                BufferPhase::Remove { shm_id } => {
                    setup.capture.shm_id = shm_id;
                    setup.capture.mapped = Some(
                        frame_size(setup.capture.width, setup.capture.height),
                    );
                    setup.moved_to(BufferPhase::Flush)
                },
                BufferPhase::Flush => BufferStep::Ready(setup.capture),
                _ => unreached(),
            },
            _ => unreached(),
        }
    }
}

/// What the opening of a capture is waiting for.
#[derive(Clone, Copy, Debug)]
pub enum OpenPhase {
    Connection,
    Composite,
    Shm,
    Geometry,
    Redirect { capture: WindowCapture },
    Buffers(BufferSetup),
}

/// The opening of a capture.
#[derive(Clone, Copy, Debug)]
pub struct CaptureOpening {
    pub window: u32,
    pub phase: OpenPhase,
}

/// Where a [`CaptureOpening`] stands after a reply.
#[derive(Debug)]
pub enum OpenStep {
    Ask(CaptureOpening),
    Opened(WindowCapture),
    Failed(CaptureError),
}

/// An [`OpenStep`] by its view.
pub enum OpenStepView {
    Ask(CaptureOpening),
    Opened(WindowCapture),
    Failed(CaptureErrorView),
}

impl View for OpenStep {
    type V = OpenStepView;

    open spec fn view(&self) -> OpenStepView {
        match *self {
            OpenStep::Ask(opening) => OpenStepView::Ask(opening),
            OpenStep::Opened(capture) => OpenStepView::Opened(capture),
            OpenStep::Failed(error) => OpenStepView::Failed(error@),
        }
    }
}

impl CaptureOpening {
    pub open spec fn valid(self) -> bool {
        self.phase matches OpenPhase::Buffers(setup) ==> setup.valid()
    }

    /// What is asked next.
    pub open spec fn asks(self) -> Request {
        match self.phase {
            OpenPhase::Connection => Request::Connect,
            OpenPhase::Composite => Request::CompositeQueryVersion { major: 0, minor: 4 },
            OpenPhase::Shm => Request::ShmQueryVersion,
            OpenPhase::Geometry => Request::GetGeometry { window: self.window },
            OpenPhase::Redirect { .. } => Request::RedirectWindow { window: self.window },
            OpenPhase::Buffers(setup) => setup.asks(),
        }
    }

    /// The state in which `phase` is waited for next.
    pub open spec fn go_to(self, phase: OpenPhase) -> OpenStepView {
        OpenStepView::Ask(CaptureOpening { phase, ..self })
    }

    /// The error that a failed reply ends the opening with. A missing extension, or a missing
    /// window, is told from a request that did not get through.
    pub open spec fn error(self, reply: Reply) -> CaptureErrorView {
        let message = reply.failure()->0;
        match self.phase {
            OpenPhase::Composite if reply is ReplyFailed => CaptureErrorView::CompositeNotSupported,
            OpenPhase::Shm if reply is ReplyFailed => CaptureErrorView::ShmNotSupported,
            OpenPhase::Geometry if reply is ReplyFailed => CaptureErrorView::WindowGone,
            OpenPhase::Geometry => CaptureErrorView::CaptureFailed(message),
            OpenPhase::Redirect { .. } => CaptureErrorView::CaptureFailed(message),
            _ => CaptureErrorView::ConnectionFailed(message),
        }
    }

    /// What follows from `reply`.
    pub open spec fn after(self, reply: Reply) -> OpenStepView
        recommends
            reply.answers(self.asks()),
    {
        match (self.phase, reply) {
            (OpenPhase::Buffers(setup), _) => match setup.after(reply) {
                BufferStepView::Ask(setup) => self.go_to(OpenPhase::Buffers(setup)),
                BufferStepView::Ready(capture) => OpenStepView::Opened(capture),
                BufferStepView::Failed(_, error) => OpenStepView::Failed(error),
            },
            (OpenPhase::Connection, Reply::Connected { .. }) => self.go_to(OpenPhase::Composite),
            (OpenPhase::Composite, Reply::Done) => self.go_to(OpenPhase::Shm),
            (OpenPhase::Shm, Reply::Done) => self.go_to(OpenPhase::Geometry),
            (OpenPhase::Geometry, Reply::Geometry { width, height, depth, .. }) => self.go_to(
                OpenPhase::Redirect {
                    capture: WindowCapture {
                        target_window: self.window,
                        pixmap: 0,
                        shm_seg: 0,
                        shm_id: 0,
                        mapped: None,
                        width,
                        height,
                        depth,
                    },
                },
            ),
            (OpenPhase::Redirect { capture }, Reply::Done) => self.go_to(
                OpenPhase::Buffers(BufferSetup { capture, phase: BufferPhase::PixmapId }),
            ),
            _ => OpenStepView::Failed(self.error(reply)),
        }
    }

    /// See [`CaptureOpening::asks`].
    pub fn request(&self) -> (request: Request)
        ensures
            request == self.asks(),
    {
        match self.phase {
            OpenPhase::Connection => Request::Connect,
            OpenPhase::Composite => Request::CompositeQueryVersion { major: 0, minor: 4 },
            OpenPhase::Shm => Request::ShmQueryVersion,
            OpenPhase::Geometry => Request::GetGeometry { window: self.window },
            OpenPhase::Redirect { .. } => Request::RedirectWindow { window: self.window },
            OpenPhase::Buffers(setup) => setup.request(),
        }
    }

    fn moved_to(self, phase: OpenPhase) -> (step: OpenStep)
        ensures
            step@ == self.go_to(phase),
    {
        OpenStep::Ask(CaptureOpening { window: self.window, phase })
    }

    /// Takes the reply to [`CaptureOpening::request`].
    pub fn advance(self, reply: Reply) -> (step: OpenStep)
        requires
            self.valid(),
            reply.answers(self.asks()),
        ensures
            step@ == self.after(reply),
            match step {
                OpenStep::Ask(next) => next.valid(),
                OpenStep::Opened(capture) => capture.ready(),
                OpenStep::Failed(_) => true,
            },
    {
        match self.phase {
            OpenPhase::Buffers(setup) => match setup.advance(reply) {
                BufferStep::Ask(setup) => self.moved_to(OpenPhase::Buffers(setup)),
                BufferStep::Ready(capture) => OpenStep::Opened(capture),
                BufferStep::Failed(_, error) => OpenStep::Failed(error),
            },
            _ => match reply {
                Reply::SendFailed(message) => OpenStep::Failed(
                    match self.phase {
                        OpenPhase::Geometry => CaptureError::CaptureFailed(message),
                        OpenPhase::Redirect { .. } => CaptureError::CaptureFailed(message),
                        _ => CaptureError::ConnectionFailed(message),
                    },
                ),
                Reply::ReplyFailed(_) => OpenStep::Failed(
                    match self.phase {
                        OpenPhase::Composite => CaptureError::CompositeNotSupported,
                        OpenPhase::Shm => CaptureError::ShmNotSupported,
                        _ => CaptureError::WindowGone,
                    },
                ),
                Reply::Connected { .. } => self.moved_to(OpenPhase::Composite),
                Reply::Geometry { width, height, depth, .. } => self.moved_to(
                    OpenPhase::Redirect {
                        capture: WindowCapture {
                            target_window: self.window,
                            pixmap: 0,
                            shm_seg: 0,
                            shm_id: 0,
                            mapped: None,
                            width,
                            height,
                            depth,
                        },
                    },
                ),
                Reply::Done => match self.phase {
                    OpenPhase::Composite => self.moved_to(OpenPhase::Shm),
                    OpenPhase::Shm => self.moved_to(OpenPhase::Geometry),
                    OpenPhase::Redirect { capture } => self.moved_to(
                        OpenPhase::Buffers(BufferSetup { capture, phase: BufferPhase::PixmapId }),
                    ),
                    _ => unreached(),
                },
                _ => unreached(),
            },
        }
    }
}

/// What capturing a frame is waiting for. Up to [`FramePhase::Buffers`], the buffers are resized.
#[derive(Clone, Copy, Debug)]
pub enum FramePhase {
    Geometry,
    Detach { width: u16, height: u16 },
    Unmap { width: u16, height: u16 },
    FreePixmap { width: u16, height: u16 },
    Buffers(BufferPhase),
    NamePixmap,
    Image,
}

/// The capturing of one frame.
#[derive(Clone, Copy, Debug)]
pub struct FrameCapture {
    pub capture: WindowCapture,
    pub phase: FramePhase,
}

/// Where a [`FrameCapture`] stands after a reply.
#[derive(Debug)]
pub enum FrameStep {
    Ask(FrameCapture),
    /// The first `size` bytes of the shared memory hold the frame.
    Captured { capture: WindowCapture, size: u64 },
    /// The capture as far as it got.
    Failed { capture: WindowCapture, error: CaptureError },
}

/// A [`FrameStep`] by its view.
pub enum FrameStepView {
    Ask(FrameCapture),
    Captured { capture: WindowCapture, size: u64 },
    Failed { capture: WindowCapture, error: CaptureErrorView },
}

impl View for FrameStep {
    type V = FrameStepView;

    open spec fn view(&self) -> FrameStepView {
        match *self {
            FrameStep::Ask(frame) => FrameStepView::Ask(frame),
            FrameStep::Captured { capture, size } => FrameStepView::Captured { capture, size },
            FrameStep::Failed { capture, error } => FrameStepView::Failed {
                capture,
                error: error@,
            },
        }
    }
}

impl FrameCapture {
    /// While the buffers are replaced, no shared memory is mapped until the new one is.
    pub open spec fn valid(self) -> bool {
        match self.phase {
            FramePhase::FreePixmap { .. } => self.capture.mapped is None,
            FramePhase::Buffers(phase) => BufferSetup { capture: self.capture, phase }.valid() && (
            phase is Flush || self.capture.mapped is None),
            _ => true,
        }
    }

    /// What is asked next.
    pub open spec fn asks(self) -> Request {
        match self.phase {
            FramePhase::Geometry => Request::GetGeometry { window: self.capture.target_window },
            FramePhase::Detach { .. } => Request::ShmDetach { segment: self.capture.shm_seg },
            FramePhase::Unmap { .. } => Request::ShmUnmap,
            FramePhase::FreePixmap { .. } => Request::FreePixmap { pixmap: self.capture.pixmap },
            FramePhase::Buffers(phase) => BufferSetup { capture: self.capture, phase }.asks(),
            FramePhase::NamePixmap => Request::NameWindowPixmap {
                window: self.capture.target_window,
                pixmap: self.capture.pixmap,
            },
            FramePhase::Image => Request::ShmGetImage {
                pixmap: self.capture.pixmap,
                width: self.capture.width,
                height: self.capture.height,
                segment: self.capture.shm_seg,
            },
        }
    }

    /// The state in which `phase` is waited for next.
    pub open spec fn go_to(self, phase: FramePhase) -> FrameStepView {
        FrameStepView::Ask(FrameCapture { phase, ..self })
    }

    /// What follows from `reply`. The buffers are replaced where the window's size has changed. An
    /// image is no frame where an earlier failure has left no shared memory for it.
    pub open spec fn after(self, reply: Reply) -> FrameStepView
        recommends
            self.valid(),
            reply.answers(self.asks()),
    {
        match (self.phase, reply) {
            (FramePhase::Buffers(phase), _) => match (BufferSetup {
                capture: self.capture,
                phase,
            }).after(reply) {
                BufferStepView::Ask(setup) => FrameStepView::Ask(
                    FrameCapture {
                        capture: setup.capture,
                        phase: FramePhase::Buffers(setup.phase),
                    },
                ),
                BufferStepView::Ready(capture) => FrameStepView::Ask(
                    FrameCapture { capture, phase: FramePhase::NamePixmap },
                ),
                BufferStepView::Failed(capture, error) => FrameStepView::Failed { capture, error },
            },
            (FramePhase::Geometry, Reply::Geometry { width, height, .. }) => {
                if width != self.capture.width || height != self.capture.height {
                    self.go_to(FramePhase::Detach { width, height })
                } else {
                    self.go_to(FramePhase::NamePixmap)
                }
            },
            (FramePhase::Detach { width, height }, Reply::Done) => self.go_to(
                FramePhase::Unmap { width, height },
            ),
            (FramePhase::Unmap { width, height }, Reply::Done) => FrameStepView::Ask(
                FrameCapture {
                    capture: WindowCapture { mapped: None, ..self.capture },
                    phase: FramePhase::FreePixmap { width, height },
                },
            ),
            (FramePhase::FreePixmap { width, height }, Reply::Done) => FrameStepView::Ask(
                FrameCapture {
                    capture: WindowCapture { width, height, ..self.capture },
                    phase: FramePhase::Buffers(BufferPhase::PixmapId),
                },
            ),
            (FramePhase::NamePixmap, Reply::Done) => self.go_to(FramePhase::Image),
            (FramePhase::Image, Reply::Done) => {
                if self.capture.ready() {
                    FrameStepView::Captured {
                        capture: self.capture,
                        size: frame_bytes(self.capture.width, self.capture.height),
                    }
                } else {
                    FrameStepView::Failed {
                        capture: self.capture,
                        error: CaptureErrorView::CaptureFailed("no shared memory is mapped"@),
                    }
                }
            },
            (FramePhase::Geometry, Reply::ReplyFailed(_)) => FrameStepView::Failed {
                capture: self.capture,
                error: CaptureErrorView::WindowGone,
            },
            _ => FrameStepView::Failed {
                capture: self.capture,
                error: CaptureErrorView::CaptureFailed(reply.failure()->0),
            },
        }
    }

    /// See [`FrameCapture::asks`].
    pub fn request(&self) -> (request: Request)
        ensures
            request == self.asks(),
    {
        match self.phase {
            FramePhase::Geometry => Request::GetGeometry { window: self.capture.target_window },
            FramePhase::Detach { .. } => Request::ShmDetach { segment: self.capture.shm_seg },
            FramePhase::Unmap { .. } => Request::ShmUnmap,
            FramePhase::FreePixmap { .. } => Request::FreePixmap { pixmap: self.capture.pixmap },
            FramePhase::Buffers(phase) => BufferSetup { capture: self.capture, phase }.request(),
            FramePhase::NamePixmap => Request::NameWindowPixmap {
                window: self.capture.target_window,
                pixmap: self.capture.pixmap,
            },
            FramePhase::Image => Request::ShmGetImage {
                pixmap: self.capture.pixmap,
                width: self.capture.width,
                height: self.capture.height,
                segment: self.capture.shm_seg,
            },
        }
    }

    fn moved_to(self, phase: FramePhase) -> (step: FrameStep)
        ensures
            step@ == self.go_to(phase),
    {
        FrameStep::Ask(FrameCapture { capture: self.capture, phase })
    }

    /// Takes the reply to [`FrameCapture::request`].
    pub fn advance(self, reply: Reply) -> (step: FrameStep)
        requires
            self.valid(),
            reply.answers(self.asks()),
        ensures
            step@ == self.after(reply),
            match step {
                FrameStep::Ask(next) => next.valid(),
                FrameStep::Captured { capture, size } => capture.ready() && capture.mapped == Some(
                    size,
                ),
                FrameStep::Failed { .. } => true,
            },
    {
        let mut frame = self;
        match frame.phase {
            FramePhase::Buffers(phase) => match (BufferSetup {
                capture: frame.capture,
                phase,
            }).advance(reply) {
                BufferStep::Ask(setup) => FrameStep::Ask(
                    FrameCapture {
                        capture: setup.capture,
                        phase: FramePhase::Buffers(setup.phase),
                    },
                ),
                BufferStep::Ready(capture) => FrameStep::Ask(
                    FrameCapture { capture, phase: FramePhase::NamePixmap },
                ),
                BufferStep::Failed(capture, error) => FrameStep::Failed { capture, error },
            },
            _ => match reply {
                Reply::SendFailed(message) => FrameStep::Failed {
                    capture: frame.capture,
                    error: CaptureError::CaptureFailed(message),
                },
                Reply::ReplyFailed(message) => FrameStep::Failed {
                    capture: frame.capture,
                    error: match frame.phase {
                        FramePhase::Geometry => CaptureError::WindowGone,
                        _ => CaptureError::CaptureFailed(message),
                    },
                },
                Reply::Geometry { width, height, .. } => {
                    if width != frame.capture.width || height != frame.capture.height {
                        frame.moved_to(FramePhase::Detach { width, height })
                    } else {
                        frame.moved_to(FramePhase::NamePixmap)
                    }
                },
                Reply::Done => match frame.phase {
                    FramePhase::Detach { width, height } => frame.moved_to(
                        FramePhase::Unmap { width, height },
                    ),
                    FramePhase::Unmap { width, height } => {
                        frame.capture.mapped = None;
                        frame.moved_to(FramePhase::FreePixmap { width, height })
                    },
                    FramePhase::FreePixmap { width, height } => {
                        frame.capture.width = width;
                        frame.capture.height = height;
                        frame.moved_to(FramePhase::Buffers(BufferPhase::PixmapId))
                    },
                    FramePhase::NamePixmap => frame.moved_to(FramePhase::Image),
                    FramePhase::Image => {
                        let size: u64 = frame_size(frame.capture.width, frame.capture.height);
                        if frame.capture.has_mapped(size) {
                            FrameStep::Captured { capture: frame.capture, size }
                        } else {
                            FrameStep::Failed {
                                capture: frame.capture,
                                error: CaptureError::CaptureFailed(
                                    "no shared memory is mapped".to_owned(),
                                ),
                            }
                        }
                    },
                    _ => unreached(),
                },
                _ => unreached(),
            },
        }
    }
}

/// Where an opening stands after `replies`.
pub open spec fn open_replay(opening: CaptureOpening, replies: Seq<Reply>) -> OpenStepView
    decreases replies.len(),
{
    if replies.len() == 0 {
        OpenStepView::Ask(opening)
    } else {
        match opening.after(replies[0]) {
            OpenStepView::Ask(next) => open_replay(next, replies.drop_first()),
            end => end,
        }
    }
}

/// What an opening asks for while `replies` come in, one after the other.
pub open spec fn open_requests(opening: CaptureOpening, replies: Seq<Reply>) -> Seq<Request>
    decreases replies.len(),
{
    if replies.len() == 0 {
        Seq::empty()
    } else {
        seq![opening.asks()] + match opening.after(replies[0]) {
            OpenStepView::Ask(next) => open_requests(next, replies.drop_first()),
            _ => Seq::empty(),
        }
    }
}

/// Where the capturing of a frame stands after `replies`.
pub open spec fn frame_replay(frame: FrameCapture, replies: Seq<Reply>) -> FrameStepView
    decreases replies.len(),
{
    if replies.len() == 0 {
        FrameStepView::Ask(frame)
    } else {
        match frame.after(replies[0]) {
            FrameStepView::Ask(next) => frame_replay(next, replies.drop_first()),
            end => end,
        }
    }
}

/// What the capturing of a frame asks for while `replies` come in, one after the other.
pub open spec fn frame_requests(frame: FrameCapture, replies: Seq<Reply>) -> Seq<Request>
    decreases replies.len(),
{
    if replies.len() == 0 {
        Seq::empty()
    } else {
        seq![frame.asks()] + match frame.after(replies[0]) {
            FrameStepView::Ask(next) => frame_requests(next, replies.drop_first()),
            _ => Seq::empty(),
        }
    }
}

/// Sizes in 16 bits give a frame size in 64 bits without loss.
pub proof fn frame_bytes_is_exact(width: u16, height: u16)
    ensures
        frame_bytes(width, height) == width * height * 4,
{
    assert(width * height <= 0xffff * 0xffff) by (nonlinear_arith)
        requires
            width <= 0xffff,
            height <= 0xffff,
    ;
}

/// The replies to an opening in which nothing fails.
pub open spec fn good_opening(
    root: u32,
    parent: u32,
    width: u16,
    height: u16,
    depth: u8,
    pixmap: u32,
    shm_id: i32,
    segment: u32,
) -> Seq<Reply> {
    seq![
        Reply::Connected { root },
        Reply::Done,
        Reply::Done,
        Reply::Geometry { root: parent, width, height, depth },
        Reply::Done,
        Reply::Id(pixmap),
        Reply::Done,
        Reply::Shm { id: shm_id },
        Reply::Mapping { mapped: true },
        Reply::Id(segment),
        Reply::Done,
        Reply::Done,
        Reply::Done,
    ]
}

/// An opening in which nothing fails negotiates both extensions, redirects the window, names its
/// storage and shares memory for one frame with the server; it ends with a capture that is ready,
/// of the window's present size, made of the ids that were handed out.
pub proof fn opening_without_failures_opens(
    window: u32,
    root: u32,
    parent: u32,
    width: u16,
    height: u16,
    depth: u8,
    pixmap: u32,
    shm_id: i32,
    segment: u32,
)
    requires
        shm_id >= 0,
    ensures
        ({
            let opening = CaptureOpening { window, phase: OpenPhase::Connection };
            let replies = good_opening(root, parent, width, height, depth, pixmap, shm_id, segment);
            &&& open_replay(opening, replies) == OpenStepView::Opened(
                WindowCapture {
                    target_window: window,
                    pixmap,
                    shm_seg: segment,
                    shm_id,
                    mapped: Some(frame_bytes(width, height)),
                    width,
                    height,
                    depth,
                },
            )
            &&& open_requests(opening, replies) == seq![
                Request::Connect,
                Request::CompositeQueryVersion { major: 0, minor: 4 },
                Request::ShmQueryVersion,
                Request::GetGeometry { window },
                Request::RedirectWindow { window },
                Request::GenerateId,
                Request::NameWindowPixmap { window, pixmap },
                Request::ShmCreate { size: frame_bytes(width, height) },
                Request::ShmMap { shm_id },
                Request::GenerateId,
                Request::ShmAttach { segment, shm_id },
                Request::ShmRemove { shm_id },
                Request::Flush,
            ]
        }),
{
    reveal_with_fuel(open_replay, 14);
    reveal_with_fuel(open_requests, 14);
    let opening = CaptureOpening { window, phase: OpenPhase::Connection };
    let replies = good_opening(root, parent, width, height, depth, pixmap, shm_id, segment);
    assert(open_requests(opening, replies) =~= seq![
        Request::Connect,
        Request::CompositeQueryVersion { major: 0, minor: 4 },
        Request::ShmQueryVersion,
        Request::GetGeometry { window },
        Request::RedirectWindow { window },
        Request::GenerateId,
        Request::NameWindowPixmap { window, pixmap },
        Request::ShmCreate { size: frame_bytes(width, height) },
        Request::ShmMap { shm_id },
        Request::GenerateId,
        Request::ShmAttach { segment, shm_id },
        Request::ShmRemove { shm_id },
        Request::Flush,
    ]);
}

/// A failure ends an opening, and only a failure, or shared memory that could not be created or
/// mapped, makes it fail.
pub proof fn opening_fails_on_failures_only(opening: CaptureOpening, reply: Reply)
    requires
        reply.answers(opening.asks()),
    ensures
        reply.failure() is Some ==> opening.after(reply) is Failed,
        opening.after(reply) is Failed ==> reply.failure() is Some || (reply matches Reply::Shm {
            id,
        } && id < 0) || (opening.phase matches OpenPhase::Buffers(setup)
            && setup.phase is Discard),
{
}

/// Shared memory that cannot be mapped is removed before the setup fails.
pub proof fn unmapped_memory_is_removed(setup: BufferSetup, shm_id: i32)
    requires
        setup.phase == (BufferPhase::MapMemory { shm_id }),
    ensures
        setup.after(Reply::Mapping { mapped: false }) matches BufferStepView::Ask(discarding) && {
            &&& discarding.asks() == Request::ShmRemove { shm_id }
            &&& discarding.after(Reply::Done) == BufferStepView::Failed(
                setup.capture,
                CaptureErrorView::ShmCreateFailed("shmat failed"@),
            )
        },
{
}

/// The size that a frame will have once it is captured.
pub open spec fn frame_target(frame: FrameCapture) -> (u16, u16) {
    match frame.phase {
        FramePhase::Detach { width, height } => (width, height),
        FramePhase::Unmap { width, height } => (width, height),
        FramePhase::FreePixmap { width, height } => (width, height),
        _ => (frame.capture.width, frame.capture.height),
    }
}

proof fn target_is_kept(frame: FrameCapture, replies: Seq<Reply>)
    requires
        frame.valid(),
        !(frame.phase is Geometry),
    ensures
        frame_replay(frame, replies) matches FrameStepView::Captured { capture, size } ==> {
            &&& (capture.width, capture.height) == frame_target(frame)
            &&& capture.ready()
            &&& capture.mapped == Some(size)
            &&& capture.target_window == frame.capture.target_window
            &&& capture.depth == frame.capture.depth
        },
    decreases replies.len(),
{
    if replies.len() > 0 {
        if let FrameStepView::Ask(next) = frame.after(replies[0]) {
            target_is_kept(next, replies.drop_first());
        }
    }
}

/// A captured frame has the size that the window reported first, and lies in shared memory of
/// just that size. Where the window has changed its size, the buffers are new.
pub proof fn captured_frame_has_the_windows_size(
    capture: WindowCapture,
    replies: Seq<Reply>,
    root: u32,
    width: u16,
    height: u16,
    depth: u8,
)
    requires
        replies.len() > 0,
        replies[0] == (Reply::Geometry { root, width, height, depth }),
    ensures
        frame_replay(
            FrameCapture { capture, phase: FramePhase::Geometry },
            replies,
        ) matches FrameStepView::Captured { capture: now, size } ==> {
            &&& now.ready()
            &&& now.mapped == Some(size)
            &&& size == width * height * 4
            &&& now.width == width && now.height == height
            &&& now.target_window == capture.target_window && now.depth == capture.depth
        },
{
    frame_bytes_is_exact(width, height);
    let start = FrameCapture { capture, phase: FramePhase::Geometry };
    if let FrameStepView::Ask(next) = start.after(replies[0]) {
        target_is_kept(next, replies.drop_first());
    }
}

/// Whether the capturing of a frame ended because there is no such window any more.
pub open spec fn reports_gone(step: FrameStepView) -> bool {
    step matches FrameStepView::Failed { error, .. } && error is WindowGone
}

proof fn only_geometry_tells_of_gone(frame: FrameCapture, replies: Seq<Reply>)
    requires
        !(frame.phase is Geometry),
    ensures
        !reports_gone(frame_replay(frame, replies)),
    decreases replies.len(),
{
    if replies.len() > 0 {
        if let FrameStepView::Ask(next) = frame.after(replies[0]) {
            only_geometry_tells_of_gone(next, replies.drop_first());
        }
    }
}

/// In every state of the buffers, the window is reported as gone just where the request for its
/// geometry went out and failed. Nothing is changed and nothing else is asked for then.
pub proof fn failed_geometry_means_gone(capture: WindowCapture, replies: Seq<Reply>)
    requires
        replies.len() > 0,
        replies[0].answers(Request::GetGeometry { window: capture.target_window }),
    ensures
        ({
            let frame = FrameCapture { capture, phase: FramePhase::Geometry };
            &&& reports_gone(frame_replay(frame, replies)) <==> replies[0] is ReplyFailed
            &&& replies[0] is ReplyFailed ==> frame_replay(frame, replies) == (
            FrameStepView::Failed { capture, error: CaptureErrorView::WindowGone })
            &&& replies[0] is ReplyFailed ==> frame_requests(frame, replies) == seq![
                Request::GetGeometry { window: capture.target_window },
            ]
        }),
{
    let frame = FrameCapture { capture, phase: FramePhase::Geometry };
    if let FrameStepView::Ask(next) = frame.after(replies[0]) {
        only_geometry_tells_of_gone(next, replies.drop_first());
    }
    assert(replies[0] is ReplyFailed ==> frame_requests(frame, replies) =~= seq![
        Request::GetGeometry { window: capture.target_window },
    ]);
}

/// As long as the window keeps its size, nothing of the capture changes, whatever the server
/// replies and in every state of the buffers. The frame is captured if its image arrives in shared
/// memory, and a failed request on the way is reported as it stands.
pub proof fn unchanged_size_keeps_the_buffers(
    capture: WindowCapture,
    root: u32,
    depth: u8,
    named: Reply,
    image: Reply,
)
    requires
        named.answers(
            Request::NameWindowPixmap { window: capture.target_window, pixmap: capture.pixmap },
        ),
        image.answers(
            Request::ShmGetImage {
                pixmap: capture.pixmap,
                width: capture.width,
                height: capture.height,
                segment: capture.shm_seg,
            },
        ),
    ensures
        ({
            let frame = FrameCapture { capture, phase: FramePhase::Geometry };
            let replies = seq![
                Reply::Geometry { root, width: capture.width, height: capture.height, depth },
                named,
                image,
            ];
            let end = frame_replay(frame, replies);
            let name_request = Request::NameWindowPixmap {
                window: capture.target_window,
                pixmap: capture.pixmap,
            };
            match (named.failure(), image.failure()) {
                (Some(message), _) => {
                    &&& end == (FrameStepView::Failed {
                        capture,
                        error: CaptureErrorView::CaptureFailed(message),
                    })
                    &&& frame_requests(frame, replies) == seq![
                        Request::GetGeometry { window: capture.target_window },
                        name_request,
                    ]
                },
                (None, failure) => {
                    &&& match failure {
                        Some(message) => end == (FrameStepView::Failed {
                            capture,
                            error: CaptureErrorView::CaptureFailed(message),
                        }),
                        None if capture.ready() => end == (FrameStepView::Captured {
                            capture,
                            size: frame_bytes(capture.width, capture.height),
                        }),
                        None => end == (FrameStepView::Failed {
                            capture,
                            error: CaptureErrorView::CaptureFailed("no shared memory is mapped"@),
                        }),
                    }
                    &&& frame_requests(frame, replies) == seq![
                        Request::GetGeometry { window: capture.target_window },
                        name_request,
                        Request::ShmGetImage {
                            pixmap: capture.pixmap,
                            width: capture.width,
                            height: capture.height,
                            segment: capture.shm_seg,
                        },
                    ]
                },
            }
        }),
{
    reveal_with_fuel(frame_replay, 4);
    reveal_with_fuel(frame_requests, 4);
    let frame = FrameCapture { capture, phase: FramePhase::Geometry };
    let replies = seq![
        Reply::Geometry { root, width: capture.width, height: capture.height, depth },
        named,
        image,
    ];
    let geometry_request = Request::GetGeometry { window: capture.target_window };
    let name_request = Request::NameWindowPixmap {
        window: capture.target_window,
        pixmap: capture.pixmap,
    };
    if named.failure() is Some {
        assert(frame_requests(frame, replies) =~= seq![geometry_request, name_request]);
    } else {
        assert(frame_requests(frame, replies) =~= seq![
            geometry_request,
            name_request,
            Request::ShmGetImage {
                pixmap: capture.pixmap,
                width: capture.width,
                height: capture.height,
                segment: capture.shm_seg,
            },
        ]);
    }
}

/// The replies to a frame capture in which the size has changed and nothing fails.
pub open spec fn good_resize(
    root: u32,
    width: u16,
    height: u16,
    depth: u8,
    pixmap: u32,
    shm_id: i32,
    segment: u32,
) -> Seq<Reply> {
    seq![
        Reply::Geometry { root, width, height, depth },
        Reply::Done,
        Reply::Done,
        Reply::Done,
        Reply::Id(pixmap),
        Reply::Done,
        Reply::Shm { id: shm_id },
        Reply::Mapping { mapped: true },
        Reply::Id(segment),
        Reply::Done,
        Reply::Done,
        Reply::Done,
        Reply::Done,
        Reply::Done,
    ]
}

/// A resize in which nothing fails gives the old buffers back, sets up new ones and captures a
/// frame of the new size through them. So it does after a resize that failed.
pub proof fn resize_without_failures_captures(
    capture: WindowCapture,
    root: u32,
    width: u16,
    height: u16,
    depth: u8,
    pixmap: u32,
    shm_id: i32,
    segment: u32,
)
    requires
        width != capture.width || height != capture.height,
        shm_id >= 0,
    ensures
        ({
            let frame = FrameCapture { capture, phase: FramePhase::Geometry };
            let replies = good_resize(root, width, height, depth, pixmap, shm_id, segment);
            let window = capture.target_window;
            &&& frame_replay(frame, replies) == (FrameStepView::Captured {
                capture: WindowCapture {
                    pixmap,
                    shm_seg: segment,
                    shm_id,
                    mapped: Some(frame_bytes(width, height)),
                    width,
                    height,
                    ..capture
                },
                size: frame_bytes(width, height),
            })
            &&& frame_requests(frame, replies) == seq![
                Request::GetGeometry { window },
                Request::ShmDetach { segment: capture.shm_seg },
                Request::ShmUnmap,
                Request::FreePixmap { pixmap: capture.pixmap },
                Request::GenerateId,
                Request::NameWindowPixmap { window, pixmap },
                Request::ShmCreate { size: frame_bytes(width, height) },
                Request::ShmMap { shm_id },
                Request::GenerateId,
                Request::ShmAttach { segment, shm_id },
                Request::ShmRemove { shm_id },
                Request::Flush,
                Request::NameWindowPixmap { window, pixmap },
                Request::ShmGetImage { pixmap, width, height, segment },
            ]
        }),
{
    reveal_with_fuel(frame_replay, 15);
    reveal_with_fuel(frame_requests, 15);
    let frame = FrameCapture { capture, phase: FramePhase::Geometry };
    let replies = good_resize(root, width, height, depth, pixmap, shm_id, segment);
    let window = capture.target_window;
    assert(frame_requests(frame, replies) =~= seq![
        Request::GetGeometry { window },
        Request::ShmDetach { segment: capture.shm_seg },
        Request::ShmUnmap,
        Request::FreePixmap { pixmap: capture.pixmap },
        Request::GenerateId,
        Request::NameWindowPixmap { window, pixmap },
        Request::ShmCreate { size: frame_bytes(width, height) },
        Request::ShmMap { shm_id },
        Request::GenerateId,
        Request::ShmAttach { segment, shm_id },
        Request::ShmRemove { shm_id },
        Request::Flush,
        Request::NameWindowPixmap { window, pixmap },
        Request::ShmGetImage { pixmap, width, height, segment },
    ]);
}

/// Releasing a capture gives back everything that its opening and its resizes took: the window's
/// redirection, its pixmap, the server's segment and the mapping.
pub proof fn release_gives_everything_back(capture: WindowCapture)
    ensures
        capture.releasing().contains(Request::UnredirectWindow { window: capture.target_window }),
        capture.releasing().contains(Request::FreePixmap { pixmap: capture.pixmap }),
        capture.releasing().contains(Request::ShmDetach { segment: capture.shm_seg }),
        capture.releasing().contains(Request::ShmUnmap),
        capture.releasing().last() == Request::Flush,
{
    let requests = capture.releasing();
    assert(requests[0] == Request::ShmDetach { segment: capture.shm_seg });
    assert(requests[1] == Request::ShmUnmap);
    assert(requests[2] == Request::FreePixmap { pixmap: capture.pixmap });
    assert(requests[3] == Request::UnredirectWindow { window: capture.target_window });
}

/// Which error a failed request ends an opening with: an extension that is missing, a window that
/// is gone, shared memory that cannot be attached, a failed request about the window, or else a
/// failed connection. Shared memory that cannot be created is an error too.
pub proof fn opening_errors_say_what_failed(opening: CaptureOpening, reply: Reply, message: Seq<char>)
    requires
        reply.answers(opening.asks()),
        reply.failure() == Some(message) || (reply matches Reply::Shm { id } && id < 0),
    ensures
        opening.after(reply) == OpenStepView::Failed(
            match opening.asks() {
                Request::CompositeQueryVersion { .. } if reply is ReplyFailed =>
                    CaptureErrorView::CompositeNotSupported,
                Request::ShmQueryVersion if reply is ReplyFailed =>
                    CaptureErrorView::ShmNotSupported,
                Request::GetGeometry { .. } if reply is ReplyFailed => CaptureErrorView::WindowGone,
                Request::GetGeometry { .. } | Request::RedirectWindow { .. }
                | Request::NameWindowPixmap { .. } => CaptureErrorView::CaptureFailed(message),
                Request::ShmCreate { .. } => CaptureErrorView::ShmCreateFailed("shmget failed"@),
                Request::ShmAttach { .. } => CaptureErrorView::ShmCreateFailed(message),
                _ => CaptureErrorView::ConnectionFailed(message),
            },
        ),
{
}

/// Which error a failed request ends the capturing of a frame with. What the capture is made of
/// stays as it is at that moment.
pub proof fn frame_errors_say_what_failed(frame: FrameCapture, reply: Reply, message: Seq<char>)
    requires
        reply.answers(frame.asks()),
        reply.failure() == Some(message) || (reply matches Reply::Shm { id } && id < 0),
    ensures
        frame.after(reply) == (FrameStepView::Failed {
            capture: frame.capture,
            error: match frame.asks() {
                Request::GetGeometry { .. } if reply is ReplyFailed => CaptureErrorView::WindowGone,
                Request::GenerateId | Request::Flush => CaptureErrorView::ConnectionFailed(message),
                Request::ShmCreate { .. } => CaptureErrorView::ShmCreateFailed("shmget failed"@),
                Request::ShmAttach { .. } => CaptureErrorView::ShmCreateFailed(message),
                _ => CaptureErrorView::CaptureFailed(message),
            },
        }),
{
}

/// Where a resize fails, the capture is left with just what had been replaced by then.
pub proof fn failed_resize_keeps_what_it_got(
    capture: WindowCapture,
    root: u32,
    width: u16,
    height: u16,
    depth: u8,
    pixmap: u32,
    shm_id: i32,
    segment: u32,
    failed: Reply,
    message: Seq<char>,
)
    requires
        width != capture.width || height != capture.height,
        shm_id >= 0,
        failed is SendFailed,
        failed.failure() == Some(message),
    ensures
        ({
            let frame = FrameCapture { capture, phase: FramePhase::Geometry };
            let replies = good_resize(root, width, height, depth, pixmap, shm_id, segment);
            let unmapped = WindowCapture { mapped: None, ..capture };
            let sized = WindowCapture { width, height, ..unmapped };
            let named = WindowCapture { pixmap, ..sized };
            let attached = WindowCapture { shm_seg: segment, ..named };
            let mapped = WindowCapture {
                shm_id,
                mapped: Some((width * height * 4) as u64),
                ..attached
            };
            let lost = CaptureErrorView::ConnectionFailed(message);
            let refused = CaptureErrorView::CaptureFailed(message);
            let unshared = CaptureErrorView::ShmCreateFailed(message);
            &&& frame_replay(frame, replies.take(1).push(failed)) == (FrameStepView::Failed {
                capture,
                error: refused,
            })
            &&& frame_replay(frame, replies.take(3).push(failed)) == (FrameStepView::Failed {
                capture: unmapped,
                error: refused,
            })
            &&& frame_replay(frame, replies.take(4).push(failed)) == (FrameStepView::Failed {
                capture: sized,
                error: lost,
            })
            &&& frame_replay(frame, replies.take(5).push(failed)) == (FrameStepView::Failed {
                capture: named,
                error: refused,
            })
            &&& frame_replay(frame, replies.take(8).push(failed)) == (FrameStepView::Failed {
                capture: named,
                error: lost,
            })
            &&& frame_replay(frame, replies.take(9).push(failed)) == (FrameStepView::Failed {
                capture: attached,
                error: unshared,
            })
            &&& frame_replay(frame, replies.take(11).push(failed)) == (FrameStepView::Failed {
                capture: mapped,
                error: lost,
            })
            &&& frame_replay(frame, replies.take(12).push(failed)) == (FrameStepView::Failed {
                capture: mapped,
                error: refused,
            })
            &&& frame_replay(frame, replies.take(13).push(failed)) == (FrameStepView::Failed {
                capture: mapped,
                error: refused,
            })
        }),
{
    reveal_with_fuel(frame_replay, 15);
}

/// Releasing asks for all of it, in an order in which the server lets go of the memory before this
/// process does, and flushes last.
pub proof fn release_goes_in_order(capture: WindowCapture, requests: Vec<Request>)
    requires
        call_ensures(WindowCapture::release, (&capture,), requests),
    ensures
        requests@ == seq![
            Request::ShmDetach { segment: capture.shm_seg },
            Request::ShmUnmap,
            Request::FreePixmap { pixmap: capture.pixmap },
            Request::UnredirectWindow { window: capture.target_window },
            Request::Flush,
        ],
{
}

/// A capture tells the width as its width and the height as its height.
pub proof fn capture_tells_its_size(capture: WindowCapture, width: u32, height: u32)
    requires
        call_ensures(WindowCapture::width, (&capture,), width),
        call_ensures(WindowCapture::height, (&capture,), height),
    ensures
        width == capture.width,
        height == capture.height,
{
}

/// How each error reads.
pub proof fn capture_errors_say_what_failed(error: CaptureError, text: String)
    requires
        call_ensures(CaptureError::message, (&error,), text),
    ensures
        match error {
            CaptureError::ConnectionFailed(e) => text@ == "X11 connection failed: "@ + e@,
            CaptureError::CompositeNotSupported => text@ == "XComposite extension not supported"@,
            CaptureError::ShmNotSupported => text@ == "XShm extension not supported"@,
            CaptureError::ShmCreateFailed(e) => text@ == "Failed to create shared memory: "@ + e@,
            CaptureError::CaptureFailed(e) => text@ == "Capture failed: "@ + e@,
            CaptureError::WindowGone => text@ == "Target window no longer exists"@,
        },
{
}

/// A capture is ready exactly if the memory that is mapped has four bytes for each pixel.
pub proof fn ready_capture_has_a_frame_mapped(capture: WindowCapture)
    ensures
        capture.ready() <==> (capture.mapped matches Some(bytes) && bytes == capture.width
            * capture.height * 4),
{
    frame_bytes_is_exact(capture.width, capture.height);
}

/// An opening or a resize whose shared memory cannot be mapped removes that memory and fails with
/// the reason, and leaves a capture that is resized without any memory.
pub proof fn unmapped_memory_is_an_error(
    window: u32,
    capture: WindowCapture,
    root: u32,
    width: u16,
    height: u16,
    depth: u8,
    pixmap: u32,
    shm_id: i32,
    segment: u32,
)
    requires
        shm_id >= 0,
        width != capture.width || height != capture.height,
    ensures
        ({
            let opening = CaptureOpening { window, phase: OpenPhase::Connection };
            let frame = FrameCapture { capture, phase: FramePhase::Geometry };
            let refused = seq![Reply::Mapping { mapped: false }, Reply::Done];
            let opened = good_opening(
                root,
                root,
                width,
                height,
                depth,
                pixmap,
                shm_id,
                segment,
            ).take(8) + refused;
            let resized = good_resize(
                root,
                width,
                height,
                depth,
                pixmap,
                shm_id,
                segment,
            ).take(7) + refused;
            let error = CaptureErrorView::ShmCreateFailed("shmat failed"@);
            &&& open_replay(opening, opened) == OpenStepView::Failed(error)
            &&& open_requests(opening, opened).last() == (Request::ShmRemove { shm_id })
            &&& frame_replay(frame, resized) == (FrameStepView::Failed {
                capture: WindowCapture { pixmap, mapped: None, width, height, ..capture },
                error,
            })
            &&& frame_requests(frame, resized).last() == (Request::ShmRemove { shm_id })
        }),
{
    reveal_with_fuel(open_replay, 11);
    reveal_with_fuel(open_requests, 11);
    reveal_with_fuel(frame_replay, 10);
    reveal_with_fuel(frame_requests, 10);
}

} // verus!
