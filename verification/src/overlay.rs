//! The overlay window that shows the captured frames.
use crate::capture::CaptureError;
use crate::scale::{drawing_fits, each_pixel_shows_its_nearest, scale_frame, scaled};
use crate::text::joined;
use vstd::prelude::*;
use winit::window::Icon;

verus! {

/// The least width of a new overlay.
pub const MIN_PIP_WIDTH: u32 = 200;

/// The least height of a new overlay.
pub const MIN_PIP_HEIGHT: u32 = 150;

pub open spec fn at_least(value: u32, least: u32) -> u32 {
    if value < least {
        least
    } else {
        value
    }
}

/// The size of a new overlay: a quarter of the source's, but not less than the least one.
pub open spec fn pip_size(source_width: u32, source_height: u32) -> (u32, u32) {
    (at_least(source_width / 4, MIN_PIP_WIDTH), at_least(source_height / 4, MIN_PIP_HEIGHT))
}

fn max_of(value: u32, least: u32) -> (result: u32)
    ensures
        result == at_least(value, least),
{
    if value < least {
        least
    } else {
        value
    }
}

/// The size to give a surface, which cannot be empty.
pub open spec fn drawable(width: u32, height: u32) -> Option<(u32, u32)> {
    if width > 0 && height > 0 {
        Some((width, height))
    } else {
        None
    }
}

/// See [`drawable`].
pub fn surface_size(width: u32, height: u32) -> (size: Option<(u32, u32)>)
    ensures
        size == drawable(width, height),
{
    if width > 0 && height > 0 {
        Some((width, height))
    } else {
        None
    }
}

/// An overlay to be shown: the window it is for, and what is known of that window's size.
#[derive(Clone, Copy, Debug, PartialEq, Eq, Structural)]
pub struct PipOverlay {
    pub target_window_id: u32,
    pub initial_width: u32,
    pub initial_height: u32,
}

impl PipOverlay {
    pub fn new(window_id: u32, width: u32, height: u32) -> (overlay: Self)
        ensures
            overlay == (PipOverlay {
                target_window_id: window_id,
                initial_width: width,
                initial_height: height,
            }),
    {
        PipOverlay { target_window_id: window_id, initial_width: width, initial_height: height }
    }

    /// The overlay as it is when its event loop begins.
    pub fn run(self) -> (app: App)
        ensures
            app == (App {
                has_window: false,
                has_surface: false,
                has_capture: false,
                target_window_id: self.target_window_id,
                source_width: self.initial_width,
                source_height: self.initial_height,
            }),
            app.valid(),
    {
        App {
            has_window: false,
            has_surface: false,
            has_capture: false,
            target_window_id: self.target_window_id,
            source_width: self.initial_width,
            source_height: self.initial_height,
        }
    }
}

/// The window to open for an overlay.
#[derive(Debug)]
pub struct WindowRequest {
    pub title: String,
    /// The size of the window without its frame, in logical pixels.
    pub width: u32,
    pub height: u32,
    /// Whether the window stays above all others.
    pub always_on_top: bool,
    /// Whether the user can resize the window.
    pub resizable: bool,
    pub icon: Option<Icon>,
}

/// What follows once a frame has been captured for drawing, or could not be.
#[derive(Debug)]
pub enum FrameCommand {
    /// Print the message. The surface is left as it is, and nothing is drawn.
    Report(String),
    /// Give the surface this size, which is not empty, and draw on its buffer.
    Draw { width: u32, height: u32 },
}

/// A window event, as far as the overlay tells events apart.
#[derive(Clone, Copy, Debug, PartialEq, Eq, Structural)]
pub enum OverlayEvent {
    CloseRequested,
    Resized { width: u32, height: u32 },
    RedrawRequested,
    Other,
}

/// What the overlay does about an event.
#[derive(Clone, Copy, Debug, PartialEq, Eq, Structural)]
pub enum OverlayCommand {
    Nothing,
    /// Leave the event loop.
    Exit,
    /// Give the surface a new size, which is not empty.
    ResizeSurface { width: u32, height: u32 },
    /// Draw the current frame.
    Render,
}

/// An overlay in its event loop.
#[derive(Clone, Copy, Debug, PartialEq, Eq, Structural)]
pub struct App {
    pub has_window: bool,
    pub has_surface: bool,
    pub has_capture: bool,
    pub target_window_id: u32,
    pub source_width: u32,
    pub source_height: u32,
}

impl App {
    /// The window and its surface come together, and before any capture.
    pub open spec fn valid(self) -> bool {
        &&& self.has_window == self.has_surface
        &&& self.has_capture ==> self.has_window
    }

    /// The window to open when the event loop resumes; none where it is open. It is sized by what
    /// is known of the source so far, and opens with or without an icon.
    pub fn resumed(&self, icon: Option<Icon>) -> (window: Option<WindowRequest>)
        ensures
            window is None <==> self.has_window,
            window matches Some(window) ==> {
                &&& window.title@ == "PiP Viewer"@
                &&& (window.width, window.height) == pip_size(self.source_width, self.source_height)
                &&& window.always_on_top
                &&& window.resizable
                &&& window.icon == icon
            },
    {
        if self.has_window {
            return None;
        }
        let width: u32 = max_of(self.source_width / 4, MIN_PIP_WIDTH);
        let height: u32 = max_of(self.source_height / 4, MIN_PIP_HEIGHT);
        Some(
            WindowRequest {
                title: "PiP Viewer".to_owned(),
                width,
                height,
                always_on_top: true,
                resizable: true,
                icon,
            },
        )
    }

    /// Notes that the window and its surface were created, and how the opening of the capture went:
    /// the size of what is captured, or the error, for which the message to print is returned.
    pub fn opened(&mut self, capture: Result<(u32, u32), CaptureError>) -> (message: Option<String>)
        ensures
            final(self).valid(),
            match capture {
                Ok((width, height)) => {
                    &&& message is None
                    &&& *final(self) == (App {
                        has_window: true,
                        has_surface: true,
                        has_capture: true,
                        source_width: width,
                        source_height: height,
                        ..*old(self)
                    })
                },
                Err(error) => {
                    &&& message matches Some(message) && message@
                        == "Failed to initialize capture: "@ + error@.display()
                    &&& *final(self) == (App {
                        has_window: true,
                        has_surface: true,
                        has_capture: false,
                        ..*old(self)
                    })
                },
            },
    {
        self.has_window = true;
        self.has_surface = true;
        match capture {
            Ok((width, height)) => {
                self.has_capture = true;
                self.source_width = width;
                self.source_height = height;
                None
            },
            Err(error) => {
                self.has_capture = false;
                let text = error.message();
                Some(joined("Failed to initialize capture: ", text.as_str()))
            },
        }
    }

    /// What to do about a window event.
    pub fn window_event(&self, event: OverlayEvent) -> (command: OverlayCommand)
        ensures
            command == match event {
                OverlayEvent::CloseRequested => OverlayCommand::Exit,
                OverlayEvent::Resized { width, height } => {
                    if self.has_surface && width > 0 && height > 0 {
                        OverlayCommand::ResizeSurface { width, height }
                    } else {
                        OverlayCommand::Nothing
                    }
                },
                OverlayEvent::RedrawRequested => OverlayCommand::Render,
                OverlayEvent::Other => OverlayCommand::Nothing,
            },
    {
        match event {
            OverlayEvent::CloseRequested => OverlayCommand::Exit,
            OverlayEvent::Resized { width, height } => {
                if self.has_surface && width > 0 && height > 0 {
                    OverlayCommand::ResizeSurface { width, height }
                } else {
                    OverlayCommand::Nothing
                }
            },
            OverlayEvent::RedrawRequested => OverlayCommand::Render,
            OverlayEvent::Other => OverlayCommand::Nothing,
        }
    }

    /// Whether to request a redraw before waiting for events.
    pub fn about_to_wait(&self) -> (redraw: bool)
        ensures
            redraw == self.has_window,
    {
        self.has_window
    }

    /// The size to draw the current frame at, if there is anything to draw and to draw on.
    pub fn render(&self, inner_width: u32, inner_height: u32) -> (size: Option<(u32, u32)>)
        ensures
            size == if self.has_window && self.has_surface && self.has_capture {
                drawable(inner_width, inner_height)
            } else {
                None
            },
    {
        if !self.has_window || !self.has_surface || !self.has_capture {
            return None;
        }
        surface_size(inner_width, inner_height)
    }

    /// What follows once a frame was to be captured for drawing at `width` by `height`, the size
    /// that [`App::render`] gave. A failure changes nothing, so that the next redraw tries again.
    pub fn captured(&self, width: u32, height: u32, frame: Result<(), String>) -> (command:
        FrameCommand)
        ensures
            match (frame, command) {
                (Ok(_), FrameCommand::Draw { width: w, height: h }) => w == width && h == height,
                (Err(error), FrameCommand::Report(message)) => message@ == "Capture error: "@
                    + error@,
                _ => false,
            },
    {
        match frame {
            Ok(_) => FrameCommand::Draw { width, height },
            Err(error) => FrameCommand::Report(joined("Capture error: ", error.as_str())),
        }
    }

    /// Draws a frame of `src_width` by `src_height` pixels on the surface's buffer, if there is one,
    /// and tells whether it is to be presented. A buffer that is too small is left alone.
    pub fn draw(
        &self,
        frame: &[u8],
        src_width: u32,
        src_height: u32,
        width: u32,
        height: u32,
        buffer: Option<&mut [u32]>,
    ) -> (present: bool)
        requires
            buffer matches Some(buffer) ==> drawing_fits(
                src_width as int,
                src_height as int,
                width as int,
                height as int,
                buffer@.len() as int,
            ),
        ensures
            match buffer {
                Some(buffer) => {
                    &&& present == (buffer@.len() >= width * height)
                    &&& final(buffer)@ == if present {
                        scaled(
                            frame@,
                            src_width as int,
                            src_height as int,
                            width as int,
                            height as int,
                            buffer@,
                        )
                    } else {
                        buffer@
                    }
                },
                None => !present,
            },
    {
        match buffer {
            Some(buffer) => scale_frame(frame, src_width, src_height, width, height, buffer),
            None => false,
        }
    }
}

/// A new overlay is never smaller than the least size, nor than a quarter of the source.
pub proof fn new_overlay_is_large_enough(source_width: u32, source_height: u32)
    ensures
        pip_size(source_width, source_height).0 >= MIN_PIP_WIDTH,
        pip_size(source_width, source_height).1 >= MIN_PIP_HEIGHT,
        pip_size(source_width, source_height).0 >= source_width / 4,
        pip_size(source_width, source_height).1 >= source_height / 4,
{
}

/// A new overlay is as wide as a quarter of what is known of the source, or 200 pixels if that is
/// more, and as high as a quarter, or 150 pixels. It stays on top, can be resized, and opens once.
pub proof fn overlay_opens_at_a_quarter(
    window_id: u32,
    width: u32,
    height: u32,
    icon: Option<Icon>,
    overlay: PipOverlay,
    app: App,
    request: Option<WindowRequest>,
)
    requires
        call_ensures(PipOverlay::new, (window_id, width, height), overlay),
        call_ensures(PipOverlay::run, (overlay,), app),
        call_ensures(App::resumed, (&app, icon), request),
    ensures
        app.target_window_id == window_id,
        request matches Some(request) && {
            &&& 4 * request.width <= width < 4 * request.width + 4 || (request.width == 200 && width
                < 800)
            &&& 4 * request.height <= height < 4 * request.height + 4 || (request.height == 150
                && height < 600)
            &&& request.width >= 200
            &&& request.height >= 150
            &&& request.title@ == "PiP Viewer"@
            &&& request.always_on_top
            &&& request.resizable
            &&& request.icon == icon
        },
{
}

/// What an overlay does about an event, and whether it redraws and draws, by what it has.
pub proof fn overlay_acts_on_what_it_has(
    app: App,
    icon: Option<Icon>,
    request: Option<WindowRequest>,
    width: u32,
    height: u32,
    resize: OverlayCommand,
    close: OverlayCommand,
    redraw: OverlayCommand,
    other: OverlayCommand,
    wants_redraw: bool,
    size: Option<(u32, u32)>,
    surface: Option<(u32, u32)>,
)
    requires
        app.valid(),
        call_ensures(App::resumed, (&app, icon), request),
        call_ensures(App::window_event, (&app, OverlayEvent::Resized { width, height }), resize),
        call_ensures(App::window_event, (&app, OverlayEvent::CloseRequested), close),
        call_ensures(App::window_event, (&app, OverlayEvent::RedrawRequested), redraw),
        call_ensures(App::window_event, (&app, OverlayEvent::Other), other),
        call_ensures(App::about_to_wait, (&app,), wants_redraw),
        call_ensures(App::render, (&app, width, height), size),
        call_ensures(surface_size, (width, height), surface),
    ensures
        request is Some <==> !app.has_window,
        wants_redraw <==> app.has_window,
        close == OverlayCommand::Exit,
        redraw == OverlayCommand::Render,
        other == OverlayCommand::Nothing,
        app.has_window && width > 0 && height > 0 ==> resize == (OverlayCommand::ResizeSurface {
            width,
            height,
        }),
        !app.has_window || width == 0 || height == 0 ==> resize == OverlayCommand::Nothing,
        app.has_capture && width > 0 && height > 0 ==> size == Some((width, height)),
        !app.has_capture || width == 0 || height == 0 ==> size is None,
        width > 0 && height > 0 ==> surface == Some((width, height)),
        width == 0 || height == 0 ==> surface is None,
{
}

/// A frame that was captured is drawn at the size it was captured for, and one that was not is
/// reported with its error.
pub proof fn captured_frames_are_drawn(
    app: App,
    width: u32,
    height: u32,
    frame: Result<(), String>,
    command: FrameCommand,
)
    requires
        call_ensures(App::captured, (&app, width, height, frame), command),
    ensures
        frame is Ok ==> command == (FrameCommand::Draw { width, height }),
        frame matches Err(error) ==> (command matches FrameCommand::Report(message) && message@
            == "Capture error: "@ + error@),
{
}

/// Once the window is open, the overlay knows it, and the size of what is captured. Without a
/// capture it keeps what it knew, and has something to say.
pub proof fn opening_is_noted(
    app: &mut App,
    capture: Result<(u32, u32), CaptureError>,
    text: String,
    message: Option<String>,
)
    requires
        call_ensures(App::opened, (app, capture), message),
        capture matches Err(error) ==> call_ensures(CaptureError::message, (&error,), text),
    ensures
        final(app).has_window,
        final(app).has_surface,
        final(app).has_capture <==> capture is Ok,
        final(app).target_window_id == old(app).target_window_id,
        capture matches Ok((width, height)) ==> {
            &&& final(app).source_width == width
            &&& final(app).source_height == height
            &&& message is None
        },
        capture is Err ==> {
            &&& final(app).source_width == old(app).source_width
            &&& final(app).source_height == old(app).source_height
            &&& message matches Some(message) && message@ == "Failed to initialize capture: "@
                + text@
        },
{
}

/// A surface without a buffer, or with one that is too small, is not presented and not changed. Any
/// other shows at `(x, y)` the pixel of the frame at the nearest coordinates below the exact
/// quotients, if the frame holds it in full.
pub proof fn drawn_surface_shows_the_frame(
    app: App,
    frame: &[u8],
    src_width: u32,
    src_height: u32,
    width: u32,
    height: u32,
    buffer: &mut [u32],
    present: bool,
    without: bool,
    x: int,
    y: int,
    src_x: int,
    src_y: int,
)
    requires
        call_ensures(
            App::draw,
            (&app, frame, src_width, src_height, width, height, Some(buffer)),
            present,
        ),
        call_ensures(App::draw, (&app, frame, src_width, src_height, width, height, None), without),
        0 <= x < width,
        0 <= y < height,
        src_x * width <= x * src_width < (src_x + 1) * width,
        src_y * height <= y * src_height < (src_y + 1) * height,
    ensures
        !without,
        present <==> old(buffer)@.len() >= width * height,
        final(buffer)@.len() == old(buffer)@.len(),
        !present ==> final(buffer)@ == old(buffer)@,
        present ==> ({
            let offset = (src_y * src_width + src_x) * 4;
            let at = y * width + x;
            let now = final(buffer)@[at] as int;
            if offset + 3 < frame@.len() {
                now == frame@[offset + 2] * 0x1_0000 + frame@[offset + 1] * 0x100 + frame@[offset]
            } else {
                now == old(buffer)@[at]
            }
        }),
{
    if present {
        each_pixel_shows_its_nearest(
            frame@,
            src_width as int,
            src_height as int,
            width as int,
            height as int,
            old(buffer)@,
            x,
            y,
            src_x,
            src_y,
        );
    }
}

} // verus!
