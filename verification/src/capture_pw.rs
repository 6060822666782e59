//! Capturing frames that PipeWire delivers.
use vstd::prelude::*;

verus! {

/// The size in bytes of a frame of four bytes per pixel.
pub open spec fn pixel_bytes(width: u32, height: u32) -> int {
    width * height * 4
}

/// `data` cut, or filled up with zeros, to `len` bytes.
pub open spec fn resized(data: Seq<u8>, len: int) -> Seq<u8> {
    Seq::new(
        len as nat,
        |i: int|
            if i < data.len() {
                data[i]
            } else {
                0
            },
    )
}

/// Whether a frame of this size has no more bytes than 32 bits can count.
pub fn frame_fits(width: u32, height: u32) -> (fits: bool)
    ensures
        fits == (pixel_bytes(width, height) <= u32::MAX),
{
    let w: u64 = width as u64;
    let h: u64 = height as u64;
    assert(0 <= w * h <= 0xffff_ffff * 0xffff_ffff) by (nonlinear_arith)
        requires
            0 <= w <= 0xffff_ffff,
            0 <= h <= 0xffff_ffff,
    ;
    w * h <= u32::MAX as u64 / 4
}

fn frame_len(width: u32, height: u32) -> (len: usize)
    requires
        pixel_bytes(width, height) <= u32::MAX,
    ensures
        len == pixel_bytes(width, height),
{
    assert(0 <= width * height <= width * height * 4) by (nonlinear_arith)
        requires
            0 <= width,
            0 <= height,
    ;
    (width * height * 4) as usize
}

fn resize_bytes(data: &mut Vec<u8>, len: usize)
    ensures
        final(data)@ == resized(old(data)@, len as int),
{
    let ghost before = data@;
    data.resize(len, 0);
    assert(data@ =~= resized(before, len as int)) by {
        if len > before.len() {
            assert forall|i: int| 0 <= i < before.len() implies data@[i] == before[i] by {
                assert(data@.subrange(0, before.len() as int)[i] == before[i]);
            }
        }
    }
}

fn copy_bytes(target: &mut Vec<u8>, source: &[u8])
    requires
        old(target)@.len() <= source@.len(),
    ensures
        final(target)@ == source@.take(old(target)@.len() as int),
{
    let len: usize = target.len();
    let mut i: usize = 0;
    while i < len
        invariant
            i <= len == target@.len(),
            len <= source@.len(),
            target@.take(i as int) == source@.take(i as int),
        decreases len - i,
    {
        target[i] = source[i];
        assert(target@.take(i + 1) =~= target@.take(i as int).push(source@[i as int]));
        assert(source@.take(i + 1) =~= source@.take(i as int).push(source@[i as int]));
        i = i + 1;
    }
    assert(target@ =~= target@.take(len as int));
}

/// The latest frame, as the PipeWire thread leaves it for the viewer.
#[derive(Debug)]
pub struct SharedFrame {
    data: Vec<u8>,
    width: u32,
    height: u32,
}

/// A frame by its contents and size.
pub struct FrameView {
    pub data: Seq<u8>,
    pub width: u32,
    pub height: u32,
}

impl FrameView {
    /// Whether the frame holds just its pixels, and no more of them than 32 bits can count.
    pub open spec fn valid(self) -> bool {
        self.data.len() == pixel_bytes(self.width, self.height) <= u32::MAX
    }

    /// A black frame.
    pub open spec fn black(width: u32, height: u32) -> FrameView {
        FrameView { data: Seq::new(pixel_bytes(width, height) as nat, |i: int| 0u8), width, height }
    }

    /// The frame, given a new size.
    pub open spec fn with_size(self, width: u32, height: u32) -> FrameView {
        FrameView { data: resized(self.data, pixel_bytes(width, height)), width, height }
    }

    /// The frame after a change of the stream parameter `id`. Only the format matters, and it
    /// only if a size that is not empty could be read out of it.
    pub open spec fn after_param(self, id: u32, format_id: u32, size: Option<(u32, u32)>)
        -> FrameView {
        match size {
            Some((width, height)) if id == format_id && width > 0 && height > 0 => self.with_size(
                width,
                height,
            ),
            _ => self,
        }
    }

    /// The frame after a buffer has been delivered whose parts are `datas`. The first part counts:
    /// it is taken over if it is mapped and holds a full frame.
    pub open spec fn after_buffer(self, datas: Seq<Option<&[u8]>>) -> FrameView {
        if datas.len() == 0 {
            self
        } else {
            match datas[0] {
                Some(bytes) if bytes@.len() >= pixel_bytes(self.width, self.height) => FrameView {
                    data: bytes@.take(pixel_bytes(self.width, self.height)),
                    ..self
                },
                _ => self,
            }
        }
    }
}

/// What a capture holds once it has looked at the shared frame, which may not have been possible.
pub open spec fn after_capture(local: FrameView, shared: Option<FrameView>) -> FrameView {
    match shared {
        Some(shared) => shared,
        None => local,
    }
}

impl View for SharedFrame {
    type V = FrameView;

    closed spec fn view(&self) -> FrameView {
        FrameView { data: self.data@, width: self.width, height: self.height }
    }
}

impl SharedFrame {
    /// A black frame.
    pub fn new(width: u32, height: u32) -> (frame: SharedFrame)
        requires
            pixel_bytes(width, height) <= u32::MAX,
        ensures
            frame@ == FrameView::black(width, height),
            frame@.valid(),
    {
        let data: Vec<u8> = vec![0u8; frame_len(width, height)];
        assert(data@ =~= FrameView::black(width, height).data);
        SharedFrame { data, width, height }
    }

    /// See [`FrameView::after_param`].
    pub fn param_changed(&mut self, id: u32, format_id: u32, size: Option<(u32, u32)>)
        requires
            old(self)@.valid(),
            size matches Some((width, height)) ==> (id == format_id && width > 0 && height > 0
                ==> pixel_bytes(width, height) <= u32::MAX),
        ensures
            final(self)@ == old(self)@.after_param(id, format_id, size),
            final(self)@.valid(),
            size matches Some((width, height)) ==> (id == format_id && width > 0 && height > 0 ==> {
                &&& final(self)@.width == width
                &&& final(self)@.height == height
                &&& final(self)@.data.len() == width * height * 4
            }),
    {
        if id != format_id {
            return ;
        }
        if let Some((width, height)) = size {
            if width > 0 && height > 0 {
                let len: usize = frame_len(width, height);
                self.width = width;
                self.height = height;
                resize_bytes(&mut self.data, len);
            }
        }
    }

    /// See [`FrameView::after_buffer`].
    pub fn process(&mut self, datas: &[Option<&[u8]>])
        requires
            old(self)@.valid(),
        ensures
            final(self)@ == old(self)@.after_buffer(datas@),
            final(self)@.valid(),
    {
        if datas.len() == 0 {
            return ;
        }
        if let Some(bytes) = datas[0] {
            let expected: usize = frame_len(self.width, self.height);
            if bytes.len() >= expected {
                copy_bytes(&mut self.data, bytes);
            }
        }
    }
}

/// The viewer's side of a PipeWire capture: its own copy of the latest frame.
#[derive(Debug)]
pub struct PipeWireCapture {
    local_frame: Vec<u8>,
    local_width: u32,
    local_height: u32,
}

impl View for PipeWireCapture {
    type V = FrameView;

    closed spec fn view(&self) -> FrameView {
        FrameView {
            data: self.local_frame@,
            width: self.local_width,
            height: self.local_height,
        }
    }
}

impl PipeWireCapture {
    /// A capture that has not seen a frame yet.
    pub fn new(width: u32, height: u32) -> (capture: PipeWireCapture)
        requires
            pixel_bytes(width, height) <= u32::MAX,
        ensures
            capture@ == FrameView::black(width, height),
            capture@.valid(),
    {
        let local_frame: Vec<u8> = vec![0u8; frame_len(width, height)];
        assert(local_frame@ =~= FrameView::black(width, height).data);
        PipeWireCapture { local_frame, local_width: width, local_height: height }
    }

    pub fn width(&self) -> (width: u32)
        ensures
            width == self@.width,
    {
        self.local_width
    }

    pub fn height(&self) -> (height: u32)
        ensures
            height == self@.height,
    {
        self.local_height
    }

    /// Takes over the shared frame, or reports why it could not be looked at.
    pub fn capture_frame(&mut self, shared: Result<&SharedFrame, String>) -> (frame: Result<
        &[u8],
        String,
    >)
        requires
            old(self)@.valid(),
            shared matches Ok(shared) ==> shared@.valid(),
        ensures
            final(self)@.valid(),
            match shared {
                Ok(shared) => {
                    &&& final(self)@ == after_capture(old(self)@, Some(shared@))
                    &&& frame matches Ok(data) && data@ == final(self)@.data
                },
                Err(message) => {
                    &&& final(self)@ == after_capture(old(self)@, None)
                    &&& frame == Err::<&[u8], String>(message)
                },
            },
    {
        match shared {
            Err(message) => Err(message),
            Ok(shared) => {
                if shared.width != self.local_width || shared.height != self.local_height {
                    self.local_width = shared.width;
                    self.local_height = shared.height;
                    resize_bytes(
                        &mut self.local_frame,
                        frame_len(shared.width, shared.height),
                    );
                }
                copy_bytes(&mut self.local_frame, shared.data.as_slice());
                assert(shared.data@.take(shared.data@.len() as int) =~= shared.data@);
                Ok(self.local_frame.as_slice())
            },
        }
    }
}

/// A stream that the desktop portal offers.
#[derive(Clone, Copy, Debug)]
pub struct PortalStream {
    pub node_id: u32,
    pub size: Option<(i32, i32)>,
}

/// The stream to capture.
#[derive(Clone, Copy, Debug)]
pub struct CaptureTarget {
    pub node_id: u32,
    pub width: u32,
    pub height: u32,
}

/// What is assumed of a stream that does not tell its size.
pub const DEFAULT_WIDTH: i32 = 800;

/// See [`DEFAULT_WIDTH`].
pub const DEFAULT_HEIGHT: i32 = 600;

/// A signed size taken as unsigned: negative ones wrap around.
pub open spec fn as_unsigned(value: i32) -> int {
    if value >= 0 {
        value as int
    } else {
        value + 0x1_0000_0000
    }
}

fn to_unsigned(value: i32) -> (result: u32)
    ensures
        result == as_unsigned(value),
{
    assert(value >= 0 ==> (value as u32) == value) by (bit_vector);
    assert(value < 0 ==> (value as u32) == value + 0x1_0000_0000) by (bit_vector);
    value as u32
}

/// The stream that is captured of those a portal session offers: the first.
pub fn start_portal_session(streams: &[PortalStream]) -> (target: Result<CaptureTarget, String>)
    ensures
        match target {
            Ok(target) => {
                let (width, height) = match streams@[0].size {
                    Some(size) => size,
                    None => (DEFAULT_WIDTH, DEFAULT_HEIGHT),
                };
                &&& streams@.len() > 0
                &&& target.node_id == streams@[0].node_id
                &&& target.width == as_unsigned(width)
                &&& target.height == as_unsigned(height)
            },
            Err(message) => streams@.len() == 0 && message@ == "No streams returned from portal"@,
        },
{
    if streams.len() == 0 {
        return Err("No streams returned from portal".to_owned());
    }
    let stream = streams[0];
    let (width, height) = match stream.size {
        Some(size) => size,
        None => (DEFAULT_WIDTH, DEFAULT_HEIGHT),
    };
    Ok(
        CaptureTarget {
            node_id: stream.node_id,
            width: to_unsigned(width),
            height: to_unsigned(height),
        },
    )
}

/// What a stream parameter is made of.
#[derive(Clone, Copy, Debug, PartialEq, Eq, Structural)]
pub enum ObjectType {
    /// The description of a format.
    Format,
}

/// What a stream parameter is for.
#[derive(Clone, Copy, Debug, PartialEq, Eq, Structural)]
pub enum ParameterId {
    /// A format that the stream may have.
    EnumFormat,
}

/// What a property of a format tells.
#[derive(Clone, Copy, Debug, PartialEq, Eq, Structural)]
pub enum FormatKey {
    MediaType,
    MediaSubtype,
    VideoFormat,
}

/// What a property of a format has for a value.
#[derive(Clone, Copy, Debug, PartialEq, Eq, Structural)]
pub enum FormatValue {
    /// The media type of video.
    Video,
    /// The media subtype of raw media.
    Raw,
    /// The video format of four bytes per pixel: blue, green, red, and one that does not count.
    Bgrx,
}

/// A property of a format.
#[derive(Clone, Copy, Debug, PartialEq, Eq, Structural)]
pub struct FormatProperty {
    pub key: FormatKey,
    pub value: FormatValue,
    /// The bits of the property's flags.
    pub flags: u32,
}

/// A stream parameter that describes a format.
#[derive(Debug)]
pub struct FormatObject {
    pub object_type: ObjectType,
    pub id: ParameterId,
    pub properties: Vec<FormatProperty>,
}

/// A property without flags.
pub open spec fn plain_property(key: FormatKey, value: FormatValue) -> FormatProperty {
    FormatProperty { key, value, flags: 0 }
}

/// The format that is asked for: raw video of four bytes per pixel, BGRx.
pub fn requested_format() -> (format: FormatObject)
    ensures
        format.object_type == ObjectType::Format,
        format.id == ParameterId::EnumFormat,
        format.properties@ == seq![
            plain_property(FormatKey::MediaType, FormatValue::Video),
            plain_property(FormatKey::MediaSubtype, FormatValue::Raw),
            plain_property(FormatKey::VideoFormat, FormatValue::Bgrx),
        ],
{
    let properties = vec![
        FormatProperty { key: FormatKey::MediaType, value: FormatValue::Video, flags: 0 },
        FormatProperty { key: FormatKey::MediaSubtype, value: FormatValue::Raw, flags: 0 },
        FormatProperty { key: FormatKey::VideoFormat, value: FormatValue::Bgrx, flags: 0 },
    ];
    assert(properties@ =~= seq![
        plain_property(FormatKey::MediaType, FormatValue::Video),
        plain_property(FormatKey::MediaSubtype, FormatValue::Raw),
        plain_property(FormatKey::VideoFormat, FormatValue::Bgrx),
    ]);
    FormatObject { object_type: ObjectType::Format, id: ParameterId::EnumFormat, properties }
}

/// The stream parameters: the bytes of the [`requested_format`], if it could be serialized.
pub fn build_video_params(format: Option<Vec<u8>>) -> (params: Vec<Vec<u8>>)
    ensures
        params@ == match format {
            Some(bytes) => seq![bytes],
            None => Seq::<Vec<u8>>::empty(),
        },
{
    let mut params: Vec<Vec<u8>> = Vec::new();
    if let Some(bytes) = format {
        params.push(bytes);
        assert(params@ =~= seq![bytes]);
    }
    params
}

/// A delivered buffer that holds a full frame is what is captured next, byte for byte, whatever
/// the capture held before.
pub proof fn delivered_frame_is_captured(
    frame: FrameView,
    local: FrameView,
    datas: Seq<Option<&[u8]>>,
    bytes: &[u8],
)
    requires
        frame.valid(),
        datas.len() > 0,
        datas[0] == Some(bytes),
        bytes@.len() >= pixel_bytes(frame.width, frame.height),
    ensures
        ({
            let captured = after_capture(local, Some(frame.after_buffer(datas)));
            &&& captured.valid()
            &&& captured.data == bytes@.take(frame.data.len() as int)
            &&& captured.width == frame.width
            &&& captured.height == frame.height
        }),
{
}

/// A delivered buffer without a full frame leaves the frame as it was.
pub proof fn short_buffer_is_dropped(frame: FrameView, datas: Seq<Option<&[u8]>>)
    requires
        datas.len() > 0 && datas[0] is Some ==> datas[0]->0@.len() < pixel_bytes(
            frame.width,
            frame.height,
        ),
    ensures
        frame.after_buffer(datas) == frame,
{
}

/// Whatever changes and buffers the stream delivers, a frame that holds just its pixels goes on
/// doing so.
pub proof fn frames_stay_valid(
    frame: FrameView,
    id: u32,
    format_id: u32,
    width: u32,
    height: u32,
    datas: Seq<Option<&[u8]>>,
)
    requires
        frame.valid(),
        pixel_bytes(width, height) <= u32::MAX,
    ensures
        frame.after_param(id, format_id, Some((width, height))).valid(),
        frame.after_param(id, format_id, None).valid(),
        frame.after_buffer(datas).valid(),
{
    assert(0 <= width * height) by (nonlinear_arith)
        requires
            0 <= width,
            0 <= height,
    ;
}

/// A change of size keeps what fits of the frame and fills up with black.
pub proof fn resize_keeps_what_fits(frame: FrameView, width: u32, height: u32, i: int)
    requires
        0 <= i < pixel_bytes(width, height),
    ensures
        frame.with_size(width, height).data[i] == if i < frame.data.len() {
            frame.data[i]
        } else {
            0
        },
{
}

/// After a change of the format to a size that is not empty, the frame has just that size, whatever
/// it had before, with four bytes for each pixel. Bytes that were there stay, and new ones are zero.
pub proof fn format_change_gives_the_size(
    frame: FrameView,
    format_id: u32,
    width: u32,
    height: u32,
    i: int,
)
    requires
        width > 0,
        height > 0,
    ensures
        ({
            let now = frame.after_param(format_id, format_id, Some((width, height)));
            &&& now.width == width
            &&& now.height == height
            &&& now.data.len() == width * height * 4
            &&& 0 <= i < now.data.len() ==> now.data[i] == if i < frame.data.len() {
                frame.data[i]
            } else {
                0
            }
        }),
{
    assert(0 <= width * height) by (nonlinear_arith)
        requires
            0 <= width,
            0 <= height,
    ;
}

/// Changes of other parameters, and formats without a size or with an empty one, change nothing.
pub proof fn other_changes_are_ignored(
    frame: FrameView,
    id: u32,
    format_id: u32,
    size: Option<(u32, u32)>,
)
    requires
        size matches Some((width, height)) ==> id != format_id || width == 0 || height == 0,
    ensures
        frame.after_param(id, format_id, size) == frame,
{
}

/// A later change of the format makes an earlier one irrelevant for the size.
pub proof fn last_format_counts(
    frame: FrameView,
    format_id: u32,
    first: (u32, u32),
    second: (u32, u32),
)
    requires
        second.0 > 0,
        second.1 > 0,
    ensures
        ({
            let now = frame.after_param(format_id, format_id, Some(first)).after_param(
                format_id,
                format_id,
                Some(second),
            );
            (now.width, now.height) == second
        }),
{
}

/// A buffer that is taken over is taken over from its first byte on, in full frames: as many bytes
/// as the frame has pixels, times four. The frame keeps its size.
pub proof fn full_buffer_is_taken_over(
    frame: FrameView,
    datas: Seq<Option<&[u8]>>,
    bytes: &[u8],
    i: int,
)
    requires
        datas.len() > 0,
        datas[0] == Some(bytes),
        bytes@.len() >= frame.width * frame.height * 4,
    ensures
        ({
            let now = frame.after_buffer(datas);
            &&& now.width == frame.width
            &&& now.height == frame.height
            &&& now.data.len() == frame.width * frame.height * 4
            &&& 0 <= i < now.data.len() ==> now.data[i] == bytes@[i]
        }),
{
    assert(0 <= frame.width * frame.height) by (nonlinear_arith)
        requires
            0 <= frame.width,
            0 <= frame.height,
    ;
}

/// A buffer without parts, or whose first part is not mapped or holds less than a frame, changes
/// nothing, whatever its other parts hold.
pub proof fn other_buffers_are_dropped(frame: FrameView, datas: Seq<Option<&[u8]>>)
    requires
        datas.len() > 0 ==> (datas[0] matches Some(bytes) ==> bytes@.len() < frame.width
            * frame.height * 4),
    ensures
        frame.after_buffer(datas) == frame,
{
}

/// A capture takes over all of the shared frame if it can look at it, and nothing otherwise.
pub proof fn capture_copies_the_shared_frame(local: FrameView, shared: FrameView)
    ensures
        after_capture(local, Some(shared)).data == shared.data,
        after_capture(local, Some(shared)).width == shared.width,
        after_capture(local, Some(shared)).height == shared.height,
        after_capture(local, None) == local,
{
}

/// New frames and captures are black, of the size asked for, and tell it.
pub proof fn new_frames_are_black(
    width: u32,
    height: u32,
    frame: SharedFrame,
    capture: PipeWireCapture,
    told_width: u32,
    told_height: u32,
    i: int,
)
    requires
        call_ensures(SharedFrame::new, (width, height), frame),
        call_ensures(PipeWireCapture::new, (width, height), capture),
        call_ensures(PipeWireCapture::width, (&capture,), told_width),
        call_ensures(PipeWireCapture::height, (&capture,), told_height),
    ensures
        frame@.width == width && frame@.height == height,
        frame@.data.len() == width * height * 4,
        0 <= i < frame@.data.len() ==> frame@.data[i] == 0,
        capture@ == frame@,
        told_width == width,
        told_height == height,
{
}

/// A size fits if its bytes can be counted in 32 bits.
pub proof fn fitting_frames_can_be_counted(width: u32, height: u32, fits: bool)
    requires
        call_ensures(frame_fits, (width, height), fits),
    ensures
        fits <==> width * height * 4 < 0x1_0000_0000,
{
}

/// Of the streams of a session, the first is captured, at the size it tells, or at 800 by 600
/// pixels if it tells none. A session without streams is an error.
pub proof fn first_stream_is_captured(
    streams: &[PortalStream],
    target: Result<CaptureTarget, String>,
)
    requires
        call_ensures(start_portal_session, (streams,), target),
    ensures
        target is Ok <==> streams@.len() > 0,
        target matches Err(message) ==> message@ == "No streams returned from portal"@,
        target matches Ok(target) ==> {
            &&& target.node_id == streams@[0].node_id
            &&& streams@[0].size is None ==> target.width == 800 && target.height == 600
            &&& streams@[0].size matches Some((width, height)) ==> {
                &&& width >= 0 ==> target.width == width
                &&& height >= 0 ==> target.height == height
                &&& width < 0 ==> target.width - width == 0x1_0000_0000
                &&& height < 0 ==> target.height - height == 0x1_0000_0000
            }
        },
{
}

/// One parameter is asked for, a format that the stream may have: raw video of four bytes per
/// pixel, as three properties without flags.
pub proof fn raw_video_is_requested(
    format: FormatObject,
    serialized: Option<Vec<u8>>,
    params: Vec<Vec<u8>>,
)
    requires
        call_ensures(requested_format, (), format),
        call_ensures(build_video_params, (serialized,), params),
    ensures
        format.object_type == ObjectType::Format,
        format.id == ParameterId::EnumFormat,
        format.properties@.len() == 3,
        format.properties@[0].key == FormatKey::MediaType,
        format.properties@[0].value == FormatValue::Video,
        format.properties@[1].key == FormatKey::MediaSubtype,
        format.properties@[1].value == FormatValue::Raw,
        format.properties@[2].key == FormatKey::VideoFormat,
        format.properties@[2].value == FormatValue::Bgrx,
        forall|i: int| 0 <= i < 3 ==> (#[trigger] format.properties@[i]).flags == 0,
        serialized is None ==> params@.len() == 0,
        serialized matches Some(bytes) ==> params@.len() == 1 && params@[0] == bytes,
{
}

/// The shared frame has the size that the last format told, and the bytes of the last full buffer.
pub proof fn stream_is_followed(
    frame: &mut SharedFrame,
    id: u32,
    format_id: u32,
    size: Option<(u32, u32)>,
)
    requires
        call_ensures(SharedFrame::param_changed, (frame, id, format_id, size), ()),
    ensures
        size matches Some((width, height)) ==> (id == format_id && width > 0 && height > 0 ==> {
            &&& final(frame)@.width == width
            &&& final(frame)@.height == height
            &&& final(frame)@.data.len() == width * height * 4
        }),
        id != format_id || size is None ==> final(frame)@ == old(frame)@,
        size matches Some((width, height)) ==> (width == 0 || height == 0 ==> final(frame)@
            == old(frame)@),
{
}

/// Of a delivered buffer, the first part is taken over byte by byte if it is mapped and holds a full
/// frame, and nothing of it otherwise.
pub proof fn buffers_are_taken_over(
    frame: &mut SharedFrame,
    datas: &[Option<&[u8]>],
    i: int,
)
    requires
        call_ensures(SharedFrame::process, (frame, datas), ()),
    ensures
        final(frame)@.width == old(frame)@.width,
        final(frame)@.height == old(frame)@.height,
        datas@.len() == 0 ==> final(frame)@ == old(frame)@,
        datas@.len() > 0 && datas@[0] is None ==> final(frame)@ == old(frame)@,
        datas@.len() > 0 ==> (datas@[0] matches Some(bytes) ==> {
            let full = old(frame)@.width * old(frame)@.height * 4;
            &&& bytes@.len() < full ==> final(frame)@ == old(frame)@
            &&& bytes@.len() >= full ==> {
                &&& final(frame)@.data.len() == full
                &&& 0 <= i < full ==> final(frame)@.data[i] == bytes@[i]
            }
        }),
{
    let (width, height) = (old(frame)@.width, old(frame)@.height);
    assert(0 <= width * height) by (nonlinear_arith)
        requires
            0 <= width,
            0 <= height,
    ;
}

/// A capture hands out just the bytes of the shared frame, and has its size from then on. Where the
/// frame cannot be looked at, the capture says why and stays as it is.
pub proof fn capture_hands_out_the_shared_frame(
    capture: &mut PipeWireCapture,
    shared: Result<&SharedFrame, String>,
    frame: Result<&[u8], String>,
)
    requires
        call_ensures(PipeWireCapture::capture_frame, (capture, shared), frame),
    ensures
        frame is Ok <==> shared is Ok,
        shared matches Ok(shared) ==> {
            &&& frame matches Ok(data) && data@ == shared@.data
            &&& final(capture)@.width == shared@.width
            &&& final(capture)@.height == shared@.height
            &&& final(capture)@.data == shared@.data
        },
        shared matches Err(message) ==> {
            &&& frame matches Err(said) && said == message
            &&& final(capture)@ == old(capture)@
        },
{
}

} // verus!
