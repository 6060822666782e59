use pip_viewer::icon::{argb_icon, load_icon, load_window_icon, RgbaImage};
use std::io::Cursor;

fn png(width: u32, height: u32, rgba: &[u8]) -> Vec<u8> {
    let image = image::RgbaImage::from_raw(width, height, rgba.to_vec()).unwrap();
    let mut file = Cursor::new(Vec::new());
    image.write_to(&mut file, image::ImageFormat::Png).unwrap();
    file.into_inner()
}

#[test]
fn alpha_moves_to_the_front() {
    let image = RgbaImage { width: 1, height: 2, raw: vec![1, 2, 3, 4, 5, 6, 7, 8, 9] };
    let pixmap = argb_icon(&image);
    assert_eq!((pixmap.width, pixmap.height), (1, 2));
    assert_eq!(pixmap.data, [4, 1, 2, 3, 8, 5, 6, 7]);
    assert_eq!(pixmap.clone().data, pixmap.data);
}

#[test]
fn tray_icon_is_decoded() {
    let file = png(2, 1, &[10, 20, 30, 40, 50, 60, 70, 80]);
    let icons = load_icon(&file).unwrap();
    assert_eq!(icons.len(), 1);
    assert_eq!((icons[0].width, icons[0].height), (2, 1));
    assert_eq!(icons[0].data, [40, 10, 20, 30, 80, 50, 60, 70]);
}

#[test]
fn grey_image_becomes_rgba() {
    let grey = image::GrayImage::from_raw(1, 1, vec![9]).unwrap();
    let mut file = Cursor::new(Vec::new());
    grey.write_to(&mut file, image::ImageFormat::Png).unwrap();
    assert_eq!(load_icon(&file.into_inner()).unwrap()[0].data, [255, 9, 9, 9]);
}

#[test]
fn file_that_is_no_image_gives_no_icon() {
    assert!(load_icon(b"not an image").unwrap().is_empty());
    assert!(load_icon(b"").unwrap().is_empty());
    assert!(load_window_icon(b"not an image").unwrap().is_none());
    assert!(load_window_icon(b"").unwrap().is_none());
}

#[test]
fn window_icon_is_made_of_the_decoded_pixels() {
    let rgba = [10, 20, 30, 40, 50, 60, 70, 80];
    let expected = winit::window::Icon::from_rgba(rgba.to_vec(), 2, 1).unwrap();
    let file = png(2, 1, &rgba);
    let icon = load_window_icon(&file).unwrap().unwrap();
    assert_eq!(format!("{:?}", icon), format!("{:?}", expected));
}
