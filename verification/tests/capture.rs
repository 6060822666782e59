use pip_viewer::capture::{
    CaptureError, CaptureOpening, FrameStep, OpenStep, WindowCapture,
};
use pip_viewer::x11::{Reply, Request};
use std::cell::RefCell;

/// A server that hands out ids from 100 on, and on which a window is `width` by `height`.
struct Server {
    width: u16,
    height: u16,
    next_id: RefCell<u32>,
}

impl Server {
    fn new(width: u16, height: u16) -> Server {
        Server { width, height, next_id: RefCell::new(100) }
    }

    fn reply(&self, request: Request) -> Reply {
        match request {
            Request::Connect => Reply::Connected { root: 1 },
            Request::GetGeometry { .. } => {
                Reply::Geometry { root: 1, width: self.width, height: self.height, depth: 24 }
            }
            Request::GenerateId => {
                let id = *self.next_id.borrow();
                *self.next_id.borrow_mut() = id + 1;
                Reply::Id(id)
            }
            Request::ShmCreate { .. } => Reply::Shm { id: 5 },
            Request::ShmMap { .. } => Reply::Mapping { mapped: true },
            _ => Reply::Done,
        }
    }
}

fn open(
    mut opening: CaptureOpening,
    server: impl Fn(Request) -> Reply,
) -> (Result<WindowCapture, CaptureError>, Vec<Request>) {
    let mut requests = Vec::new();
    loop {
        let request = opening.request();
        requests.push(request);
        match opening.advance(server(request)) {
            OpenStep::Ask(next) => opening = next,
            OpenStep::Opened(capture) => return (Ok(capture), requests),
            OpenStep::Failed(error) => return (Err(error), requests),
        }
    }
}

type Outcome = (WindowCapture, Result<u64, CaptureError>, Vec<Request>);

fn capture_frame(capture: WindowCapture, server: impl Fn(Request) -> Reply) -> Outcome {
    let mut frame = capture.capture_frame();
    let mut requests = Vec::new();
    loop {
        let request = frame.request();
        requests.push(request);
        match frame.advance(server(request)) {
            FrameStep::Ask(next) => frame = next,
            FrameStep::Captured { capture, size } => return (capture, Ok(size), requests),
            FrameStep::Failed { capture, error } => return (capture, Err(error), requests),
        }
    }
}

fn opened(width: u16, height: u16) -> WindowCapture {
    let server = Server::new(width, height);
    open(WindowCapture::new(9), |request| server.reply(request)).0.unwrap()
}

fn fields(c: &WindowCapture) -> (u32, u32, u32, i32, Option<u64>, u16, u16, u8) {
    (c.target_window, c.pixmap, c.shm_seg, c.shm_id, c.mapped, c.width, c.height, c.depth)
}

#[test]
fn opening_asks_for_everything_in_order() {
    let server = Server::new(30, 20);
    let (result, requests) = open(WindowCapture::new(9), |request| server.reply(request));
    let capture = result.unwrap();
    assert_eq!(fields(&capture), (9, 100, 101, 5, Some(2400), 30, 20, 24));
    assert_eq!((capture.width(), capture.height()), (30, 20));
    assert_eq!(
        requests,
        [
            Request::Connect,
            Request::CompositeQueryVersion { major: 0, minor: 4 },
            Request::ShmQueryVersion,
            Request::GetGeometry { window: 9 },
            Request::RedirectWindow { window: 9 },
            Request::GenerateId,
            Request::NameWindowPixmap { window: 9, pixmap: 100 },
            Request::ShmCreate { size: 2400 },
            Request::ShmMap { shm_id: 5 },
            Request::GenerateId,
            Request::ShmAttach { segment: 101, shm_id: 5 },
            Request::ShmRemove { shm_id: 5 },
            Request::Flush,
        ]
    );
}

#[test]
fn largest_window_fits_into_64_bits() {
    assert_eq!(opened(65535, 65535).mapped, Some(17_179_344_900));
}

fn open_error(at: Request, reply: fn(String) -> Reply) -> String {
    let server = Server::new(30, 20);
    let (result, requests) = open(WindowCapture::new(9), |request| {
        if request == at {
            reply("oops".to_string())
        } else {
            server.reply(request)
        }
    });
    assert_eq!(requests.last(), Some(&at));
    result.unwrap_err().message()
}

#[test]
fn each_failure_has_its_error() {
    let composite = Request::CompositeQueryVersion { major: 0, minor: 4 };
    let geometry = Request::GetGeometry { window: 9 };
    let lost = "X11 connection failed: oops";
    let failed = "Capture failed: oops";
    assert_eq!(open_error(Request::Connect, Reply::SendFailed), lost);
    assert_eq!(open_error(composite, Reply::SendFailed), lost);
    assert_eq!(
        open_error(composite, Reply::ReplyFailed),
        "XComposite extension not supported"
    );
    assert_eq!(open_error(Request::ShmQueryVersion, Reply::SendFailed), lost);
    assert_eq!(
        open_error(Request::ShmQueryVersion, Reply::ReplyFailed),
        "XShm extension not supported"
    );
    assert_eq!(open_error(geometry, Reply::SendFailed), failed);
    assert_eq!(open_error(geometry, Reply::ReplyFailed), "Target window no longer exists");
    assert_eq!(open_error(Request::RedirectWindow { window: 9 }, Reply::SendFailed), failed);
    assert_eq!(open_error(Request::GenerateId, Reply::SendFailed), lost);
    assert_eq!(
        open_error(Request::NameWindowPixmap { window: 9, pixmap: 100 }, Reply::SendFailed),
        failed
    );
    assert_eq!(
        open_error(Request::ShmAttach { segment: 101, shm_id: 5 }, Reply::SendFailed),
        "Failed to create shared memory: oops"
    );
    assert_eq!(open_error(Request::Flush, Reply::SendFailed), lost);
}

#[test]
fn shared_memory_that_cannot_be_created() {
    let server = Server::new(30, 20);
    let (result, requests) = open(WindowCapture::new(9), |request| match request {
        Request::ShmCreate { .. } => Reply::Shm { id: -1 },
        other => server.reply(other),
    });
    assert_eq!(
        result.unwrap_err().message(),
        "Failed to create shared memory: shmget failed"
    );
    assert_eq!(requests.last(), Some(&Request::ShmCreate { size: 2400 }));
}

#[test]
fn shared_memory_that_cannot_be_mapped_is_removed() {
    let server = Server::new(30, 20);
    let (result, requests) = open(WindowCapture::new(9), |request| match request {
        Request::ShmMap { .. } => Reply::Mapping { mapped: false },
        other => server.reply(other),
    });
    assert_eq!(result.unwrap_err().message(), "Failed to create shared memory: shmat failed");
    assert_eq!(
        requests[requests.len() - 2..],
        [Request::ShmMap { shm_id: 5 }, Request::ShmRemove { shm_id: 5 }]
    );
}

#[test]
fn frame_of_unchanged_size_uses_the_same_buffers() {
    let capture = opened(30, 20);
    let server = Server::new(30, 20);
    let (now, size, requests) = capture_frame(capture, |request| server.reply(request));
    assert_eq!(size.unwrap(), 2400);
    assert_eq!(fields(&now), fields(&capture));
    assert_eq!(
        requests,
        [
            Request::GetGeometry { window: 9 },
            Request::NameWindowPixmap { window: 9, pixmap: 100 },
            Request::ShmGetImage { pixmap: 100, width: 30, height: 20, segment: 101 },
        ]
    );
}

#[test]
fn frame_of_new_size_replaces_the_buffers() {
    let server = Server::new(40, 20);
    *server.next_id.borrow_mut() = 200;
    let (now, size, requests) =
        capture_frame(opened(30, 20), |request| match request {
            Request::ShmCreate { .. } => Reply::Shm { id: 6 },
            other => server.reply(other),
        });
    assert_eq!(size.unwrap(), 3200);
    assert_eq!(fields(&now), (9, 200, 201, 6, Some(3200), 40, 20, 24));
    assert_eq!(
        requests,
        [
            Request::GetGeometry { window: 9 },
            Request::ShmDetach { segment: 101 },
            Request::ShmUnmap,
            Request::FreePixmap { pixmap: 100 },
            Request::GenerateId,
            Request::NameWindowPixmap { window: 9, pixmap: 200 },
            Request::ShmCreate { size: 3200 },
            Request::ShmMap { shm_id: 6 },
            Request::GenerateId,
            Request::ShmAttach { segment: 201, shm_id: 6 },
            Request::ShmRemove { shm_id: 6 },
            Request::Flush,
            Request::NameWindowPixmap { window: 9, pixmap: 200 },
            Request::ShmGetImage { pixmap: 200, width: 40, height: 20, segment: 201 },
        ]
    );
}

fn frame_error(width: u16, at: Request, reply: fn(String) -> Reply) -> (WindowCapture, String) {
    let server = Server::new(width, 20);
    let (now, result, _) = capture_frame(opened(30, 20), |request| {
        if request == at {
            reply("oops".to_string())
        } else {
            server.reply(request)
        }
    });
    (now, result.unwrap_err().message())
}

#[test]
fn failures_while_capturing() {
    let geometry = Request::GetGeometry { window: 9 };
    let image = Request::ShmGetImage { pixmap: 100, width: 30, height: 20, segment: 101 };
    assert_eq!(frame_error(30, geometry, Reply::ReplyFailed).1, "Target window no longer exists");
    assert_eq!(frame_error(30, geometry, Reply::SendFailed).1, "Capture failed: oops");
    assert_eq!(frame_error(30, image, Reply::SendFailed).1, "Capture failed: oops");
    assert_eq!(frame_error(30, image, Reply::ReplyFailed).1, "Capture failed: oops");
}

#[test]
fn failed_resize_is_left_where_it_got() {
    let (now, message) = frame_error(40, Request::ShmDetach { segment: 101 }, Reply::SendFailed);
    assert_eq!(message, "Capture failed: oops");
    assert_eq!(fields(&now), fields(&opened(30, 20)));

    let (now, message) = frame_error(40, Request::FreePixmap { pixmap: 100 }, Reply::SendFailed);
    assert_eq!(message, "Capture failed: oops");
    assert_eq!(fields(&now), (9, 100, 101, 5, None, 30, 20, 24));

    let (now, message) = frame_error(40, Request::GenerateId, Reply::SendFailed);
    assert_eq!(message, "X11 connection failed: oops");
    assert_eq!(fields(&now), (9, 100, 101, 5, None, 40, 20, 24));

    let attach = Request::ShmAttach { segment: 101, shm_id: 5 };
    let (now, message) = frame_error(40, attach, Reply::SendFailed);
    assert_eq!(message, "Failed to create shared memory: oops");
    assert_eq!(now.mapped, None);

    let (now, message) = frame_error(40, Request::Flush, Reply::SendFailed);
    assert_eq!(message, "X11 connection failed: oops");
    assert_eq!(now.mapped, Some(3200));
}

#[test]
fn release_gives_everything_back() {
    assert_eq!(
        opened(30, 20).release(),
        [
            Request::ShmDetach { segment: 101 },
            Request::ShmUnmap,
            Request::FreePixmap { pixmap: 100 },
            Request::UnredirectWindow { window: 9 },
            Request::Flush,
        ]
    );
}

#[test]
fn capturing_goes_on_after_a_failed_resize() {
    let (broken, _) = frame_error(40, Request::GenerateId, Reply::SendFailed);
    assert_eq!(broken.mapped, None);

    let gone = |request: Request| match request {
        Request::GetGeometry { .. } => Reply::ReplyFailed("BadWindow".to_string()),
        other => panic!("unexpected {:?}", other),
    };
    let (now, result, requests) = capture_frame(broken, gone);
    assert_eq!(result.unwrap_err().message(), "Target window no longer exists");
    assert_eq!(fields(&now), fields(&broken));
    assert_eq!(requests, [Request::GetGeometry { window: 9 }]);

    let server = Server::new(40, 20);
    let (now, result, _) = capture_frame(broken, |request| match request {
        Request::ShmGetImage { .. } => Reply::ReplyFailed("BadShmSeg".to_string()),
        other => server.reply(other),
    });
    assert_eq!(result.unwrap_err().message(), "Capture failed: BadShmSeg");
    assert_eq!(fields(&now), fields(&broken));

    let (now, result, _) = capture_frame(broken, |request| server.reply(request));
    assert_eq!(result.unwrap_err().message(), "Capture failed: no shared memory is mapped");
    assert_eq!(fields(&now), fields(&broken));

    let server = Server::new(50, 20);
    let (now, result, _) = capture_frame(broken, |request| server.reply(request));
    assert_eq!(result.unwrap(), 4000);
    assert_eq!(fields(&now), (9, 100, 101, 5, Some(4000), 50, 20, 24));
}
