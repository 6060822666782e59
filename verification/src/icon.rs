//! The viewer's icon, for its window and for the system tray.
use vstd::prelude::*;
use winit::window::Icon;

verus! {

/// Makes `winit::window::Icon` known; nothing is said of what is inside.
#[verifier::external_type_specification]
#[verifier::external_body]
pub struct ExIcon(winit::window::Icon);

/// What decoding an image file gives: its width, its height, and its pixels as RGBA bytes, row
/// by row; nothing where it cannot be decoded.
pub uninterp spec fn decoded_rgba8(data: Seq<u8>) -> Option<(u32, u32, Seq<u8>)>;

/// The window icon made of RGBA bytes.
pub uninterp spec fn window_icon(rgba: Seq<u8>, width: u32, height: u32) -> winit::window::Icon;

/// A decoded image.
#[derive(Debug)]
pub struct RgbaImage {
    pub width: u32,
    pub height: u32,
    /// Four bytes per pixel, row by row; more bytes than that may follow.
    pub raw: Vec<u8>,
}

impl RgbaImage {
    /// How many pixels the image has.
    pub open spec fn pixels(self) -> int {
        self.width * self.height
    }

    /// Whether all the pixels are there.
    pub open spec fn valid(self) -> bool {
        self.raw@.len() >= self.pixels() * 4
    }
}

/// Calls `image::load_from_memory`, turns the result into RGBA with `DynamicImage::into_rgba8`
/// and hands out its size and its bytes.
///
/// Trusted: the outcome depends on the bytes alone, and the pixel buffer of a decoded image holds
/// at least four bytes for each of its pixels. The first holds as long as nobody registers a
/// decoding or detection hook in `image::hooks`, which is kept for the whole process; no part of
/// this project does. Which images can be decoded, and to what pixels, is not said.
#[verifier::external_body]
fn load_from_memory(data: &[u8]) -> (image: Option<RgbaImage>)
    ensures
        match image {
            Some(image) => decoded_rgba8(data@) == Some((image.width, image.height, image.raw@))
                && image.valid(),
            None => decoded_rgba8(data@) is None,
        },
{
    match image::load_from_memory(data) {
        Ok(image) => {
            let rgba = image.into_rgba8();
            let (width, height) = rgba.dimensions();
            Some(RgbaImage { width, height, raw: rgba.into_raw() })
        },
        Err(_) => None,
    }
}

/// Calls `winit::window::Icon::from_rgba` and drops the reason of a refusal.
///
/// Trusted: an icon is made just where there are four bytes for each of `width * height` pixels,
/// and it depends on the bytes and the size alone. The product is computed in 32 bits.
#[verifier::external_body]
fn icon_from_rgba(rgba: Vec<u8>, width: u32, height: u32) -> (icon: Option<Icon>)
    requires
        width * height <= u32::MAX,
    ensures
        icon is Some <==> rgba@.len() == width * height * 4,
        icon is Some ==> icon == Some(window_icon(rgba@, width, height)),
{
    Icon::from_rgba(rgba, width, height).ok()
}

/// An icon as the system tray takes it: ARGB bytes, in network byte order.
#[derive(Debug)]
pub struct IconPixmap {
    pub width: i32,
    pub height: i32,
    pub data: Vec<u8>,
}

/// An [`IconPixmap`] by its view.
pub struct PixmapView {
    pub width: i32,
    pub height: i32,
    pub data: Seq<u8>,
}

impl View for IconPixmap {
    type V = PixmapView;

    open spec fn view(&self) -> PixmapView {
        PixmapView { width: self.width, height: self.height, data: self.data@ }
    }
}

impl Clone for IconPixmap {
    fn clone(&self) -> (pixmap: Self)
        ensures
            pixmap@ == self@,
    {
        let data = self.data.clone();
        assert(data@ =~= self.data@);
        IconPixmap { width: self.width, height: self.height, data }
    }
}

/// A list of icons by its view.
pub open spec fn pixmaps_view(pixmaps: Seq<IconPixmap>) -> Seq<PixmapView> {
    pixmaps.map_values(|pixmap: IconPixmap| pixmap@)
}

/// A 32-bit size taken as signed: large ones wrap around.
pub open spec fn as_signed(value: u32) -> int {
    if value <= i32::MAX {
        value as int
    } else {
        value - 0x1_0000_0000
    }
}

/// The first `pixels` RGBA pixels of `rgba`, with the alpha channel moved to the front of each.
pub open spec fn argb(rgba: Seq<u8>, pixels: int) -> Seq<u8> {
    Seq::new((pixels * 4) as nat, |i: int| rgba[i / 4 * 4 + (i + 3) % 4])
}

/// The tray icon for an image of the given size and RGBA bytes.
pub open spec fn argb_pixmap(width: u32, height: u32, rgba: Seq<u8>) -> PixmapView {
    PixmapView {
        width: as_signed(width) as i32,
        height: as_signed(height) as i32,
        data: argb(rgba, width * height),
    }
}

fn to_signed(value: u32) -> (result: i32)
    ensures
        result == as_signed(value),
{
    assert(value <= 0x7fff_ffff ==> (value as i32) == value) by (bit_vector);
    assert(value > 0x7fff_ffff ==> (value as i32) == value - 0x1_0000_0000) by (bit_vector);
    value as i32
}

fn pixel_count(image: &RgbaImage) -> (count: u64)
    ensures
        count == image.pixels(),
{
    let width: u64 = image.width as u64;
    let height: u64 = image.height as u64;
    assert(width * height <= 0xffff_ffff * 0xffff_ffff) by (nonlinear_arith)
        requires
            width <= 0xffff_ffff,
            height <= 0xffff_ffff,
    ;
    width * height
}

/// See [`argb_pixmap`].
pub fn argb_icon(image: &RgbaImage) -> (pixmap: IconPixmap)
    requires
        image.valid(),
        image.pixels() * 4 <= i32::MAX,
    ensures
        pixmap@ == argb_pixmap(image.width, image.height, image.raw@),
{
    assert(0 <= image.pixels()) by (nonlinear_arith)
        requires
            image.pixels() == image.width * image.height,
            0 <= image.width,
            0 <= image.height,
    ;
    let count: usize = image.width as usize * image.height as usize;
    let mut data: Vec<u8> = Vec::with_capacity(count * 4);
    let ghost target = argb(image.raw@, count as int);
    let mut pixel: usize = 0;
    while pixel < count
        invariant
            pixel <= count,
            count * 4 <= i32::MAX,
            count * 4 <= image.raw@.len(),
            target == argb(image.raw@, count as int),
            data@ == target.take(pixel * 4),
        decreases count - pixel,
    {
        let r: u8 = image.raw[pixel * 4];
        let g: u8 = image.raw[pixel * 4 + 1];
        let b: u8 = image.raw[pixel * 4 + 2];
        let a: u8 = image.raw[pixel * 4 + 3];
        data.push(a);
        data.push(r);
        data.push(g);
        data.push(b);
        pixel = pixel + 1;
        assert(data@ =~= target.take(pixel * 4));
    }
    assert(data@ =~= target);
    IconPixmap { width: to_signed(image.width), height: to_signed(image.height), data }
}

/// The tray icons that the image file `data` gives: none where it cannot be decoded.
pub open spec fn tray_icons(data: Seq<u8>) -> Seq<PixmapView> {
    match decoded_rgba8(data) {
        Some((width, height, rgba)) => seq![argb_pixmap(width, height, rgba)],
        None => Seq::empty(),
    }
}

/// Whether the tray icon, if there is one, has no more bytes than 31 bits can count.
pub open spec fn tray_icon_fits(data: Seq<u8>) -> bool {
    decoded_rgba8(data) matches Some((width, height, _)) ==> width * height * 4 <= i32::MAX
}

/// See [`tray_icons`]; nothing where the image is too large, see [`tray_icon_fits`].
pub fn load_icon(data: &[u8]) -> (icons: Option<Vec<IconPixmap>>)
    ensures
        icons is Some <==> tray_icon_fits(data@),
        icons matches Some(icons) ==> pixmaps_view(icons@) == tray_icons(data@),
{
    let mut icons: Vec<IconPixmap> = Vec::new();
    if let Some(image) = load_from_memory(data) {
        if pixel_count(&image) > i32::MAX as u64 / 4 {
            return None;
        }
        icons.push(argb_icon(&image));
    }
    assert(pixmaps_view(icons@) =~= tray_icons(data@));
    Some(icons)
}

/// The window icon that the image file `data` gives, if it can be decoded.
pub open spec fn overlay_icon(data: Seq<u8>) -> Option<Icon> {
    match decoded_rgba8(data) {
        Some((width, height, rgba)) if rgba.len() == width * height * 4 => Some(
            window_icon(rgba, width, height),
        ),
        _ => None,
    }
}

/// Whether the image, if there is one, has no more pixels than 32 bits can count.
pub open spec fn overlay_icon_fits(data: Seq<u8>) -> bool {
    decoded_rgba8(data) matches Some((width, height, _)) ==> width * height <= u32::MAX
}

/// See [`overlay_icon`]; nothing where the image is too large, see [`overlay_icon_fits`].
pub fn load_window_icon(data: &[u8]) -> (icon: Option<Option<Icon>>)
    ensures
        icon is Some <==> overlay_icon_fits(data@),
        icon matches Some(icon) ==> icon == overlay_icon(data@),
{
    match load_from_memory(data) {
        Some(image) => {
            if pixel_count(&image) > u32::MAX as u64 {
                return None;
            }
            Some(icon_from_rgba(image.raw, image.width, image.height))
        },
        None => Some(None),
    }
}

/// Moving the alpha channel to the front loses nothing: each pixel keeps its four channels.
pub proof fn argb_keeps_the_channels(rgba: Seq<u8>, pixels: int, pixel: int)
    requires
        0 <= pixel < pixels,
        rgba.len() >= pixels * 4,
    ensures
        argb(rgba, pixels).len() == pixels * 4,
        argb(rgba, pixels)[4 * pixel] == rgba[4 * pixel + 3],
        argb(rgba, pixels)[4 * pixel + 1] == rgba[4 * pixel],
        argb(rgba, pixels)[4 * pixel + 2] == rgba[4 * pixel + 1],
        argb(rgba, pixels)[4 * pixel + 3] == rgba[4 * pixel + 2],
{
}

/// A tray icon has the size of the image, as far as 31 bits go, and its pixels in order, each with
/// the alpha channel first.
pub proof fn tray_icon_shows_the_image(image: RgbaImage, pixmap: IconPixmap, pixel: int)
    requires
        call_ensures(argb_icon, (&image,), pixmap),
        image.width * image.height * 4 <= i32::MAX,
    ensures
        pixmap.width == image.width || pixmap.width + 0x1_0000_0000 == image.width,
        pixmap.height == image.height || pixmap.height + 0x1_0000_0000 == image.height,
        pixmap.data@.len() == image.width * image.height * 4,
        0 <= pixel < image.width * image.height ==> {
            &&& pixmap.data@[4 * pixel] == image.raw@[4 * pixel + 3]
            &&& pixmap.data@[4 * pixel + 1] == image.raw@[4 * pixel]
            &&& pixmap.data@[4 * pixel + 2] == image.raw@[4 * pixel + 1]
            &&& pixmap.data@[4 * pixel + 3] == image.raw@[4 * pixel + 2]
        },
{
    assert(0 <= image.width * image.height) by (nonlinear_arith)
        requires
            0 <= image.width,
            0 <= image.height,
    ;
}

/// A file that can be decoded gives one tray icon, with the decoded pixels, unless it is too large.
/// One that cannot gives none.
pub proof fn decoded_file_gives_one_tray_icon(
    data: &[u8],
    icons: Option<Vec<IconPixmap>>,
    pixel: int,
)
    requires
        call_ensures(load_icon, (data,), icons),
    ensures
        decoded_rgba8(data@) is None ==> (icons matches Some(icons) && icons@.len() == 0),
        decoded_rgba8(data@) matches Some((width, height, rgba)) ==> {
            &&& icons is None <==> width * height * 4 > i32::MAX
            &&& icons matches Some(icons) ==> {
                &&& icons@.len() == 1
                &&& icons@[0].data@.len() == width * height * 4
                &&& width <= i32::MAX ==> icons@[0].width == width
                &&& height <= i32::MAX ==> icons@[0].height == height
                &&& 0 <= pixel < width * height ==> {
                    &&& icons@[0].data@[4 * pixel] == rgba[4 * pixel + 3]
                    &&& icons@[0].data@[4 * pixel + 1] == rgba[4 * pixel]
                    &&& icons@[0].data@[4 * pixel + 2] == rgba[4 * pixel + 1]
                    &&& icons@[0].data@[4 * pixel + 3] == rgba[4 * pixel + 2]
                }
            }
        },
{
    if let Some(icons) = icons {
        assert(pixmaps_view(icons@).len() == icons@.len());
        if icons@.len() > 0 {
            assert(pixmaps_view(icons@)[0] == icons@[0]@);
        }
    }
    if let Some((width, height, _)) = decoded_rgba8(data@) {
        assert(0 <= width * height) by (nonlinear_arith)
            requires
                0 <= width,
                0 <= height,
        ;
    }
}

/// A file that can be decoded gives the window icon of its pixels and its size, if it has just
/// enough bytes for them and is not too large. One that cannot gives none.
pub proof fn decoded_file_gives_the_window_icon(data: &[u8], icon: Option<Option<Icon>>)
    requires
        call_ensures(load_window_icon, (data,), icon),
    ensures
        decoded_rgba8(data@) is None ==> icon == Some(None::<Icon>),
        decoded_rgba8(data@) matches Some((width, height, rgba)) ==> {
            &&& icon is None <==> width * height > u32::MAX
            &&& icon matches Some(icon) ==> icon == if rgba.len() == width * height * 4 {
                Some(window_icon(rgba, width, height))
            } else {
                None
            }
        },
{
}

} // verus!
