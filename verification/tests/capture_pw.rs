use pip_viewer::capture_pw::{
    build_video_params, frame_fits, requested_format, start_portal_session, FormatKey,
    FormatProperty, FormatValue, ObjectType, ParameterId, PipeWireCapture, PortalStream,
    SharedFrame,
};

const FORMAT: u32 = 4;

#[test]
fn new_capture_is_black() {
    let shared = SharedFrame::new(3, 2);
    let mut capture = PipeWireCapture::new(1, 1);
    assert_eq!((capture.width(), capture.height()), (1, 1));
    assert_eq!(capture.capture_frame(Ok(&shared)).unwrap(), [0; 24]);
    assert_eq!((capture.width(), capture.height()), (3, 2));
}

#[test]
fn delivered_frame_is_captured() {
    let mut shared = SharedFrame::new(1, 1);
    let mut capture = PipeWireCapture::new(1, 1);
    shared.process(&[Some(&[1, 2, 3, 4, 5]), Some(&[9, 9, 9, 9])]);
    assert_eq!(capture.capture_frame(Ok(&shared)).unwrap(), [1, 2, 3, 4]);
    assert_eq!(capture.capture_frame(Ok(&shared)).unwrap(), [1, 2, 3, 4]);
}

#[test]
fn buffers_without_a_full_frame_are_dropped() {
    let mut shared = SharedFrame::new(1, 1);
    let mut capture = PipeWireCapture::new(1, 1);
    shared.process(&[Some(&[1, 2, 3, 4])]);
    shared.process(&[]);
    shared.process(&[None, Some(&[5, 6, 7, 8])]);
    shared.process(&[Some(&[5, 6, 7])]);
    assert_eq!(capture.capture_frame(Ok(&shared)).unwrap(), [1, 2, 3, 4]);
}

#[test]
fn new_format_changes_the_size() {
    let mut shared = SharedFrame::new(1, 1);
    let mut capture = PipeWireCapture::new(1, 1);
    shared.process(&[Some(&[1, 2, 3, 4])]);
    shared.param_changed(FORMAT, FORMAT, Some((2, 1)));
    assert_eq!(capture.capture_frame(Ok(&shared)).unwrap(), [1, 2, 3, 4, 0, 0, 0, 0]);
    assert_eq!((capture.width(), capture.height()), (2, 1));
    shared.param_changed(FORMAT, FORMAT, Some((1, 1)));
    assert_eq!(capture.capture_frame(Ok(&shared)).unwrap(), [1, 2, 3, 4]);
}

#[test]
fn other_parameters_do_not_matter() {
    let mut shared = SharedFrame::new(1, 1);
    let mut capture = PipeWireCapture::new(1, 1);
    shared.param_changed(FORMAT + 1, FORMAT, Some((2, 2)));
    shared.param_changed(FORMAT, FORMAT, Some((0, 2)));
    shared.param_changed(FORMAT, FORMAT, Some((2, 0)));
    shared.param_changed(FORMAT, FORMAT, None);
    assert_eq!(capture.capture_frame(Ok(&shared)).unwrap().len(), 4);
}

#[test]
fn poisoned_frame_is_reported() {
    let mut capture = PipeWireCapture::new(2, 1);
    assert_eq!(capture.capture_frame(Err("poisoned".to_string())), Err("poisoned".to_string()));
    assert_eq!((capture.width(), capture.height()), (2, 1));
}

fn target(streams: &[PortalStream]) -> (u32, u32, u32) {
    let target = start_portal_session(streams).unwrap();
    (target.node_id, target.width, target.height)
}

#[test]
fn first_stream_is_captured() {
    let first = PortalStream { node_id: 7, size: Some((640, 480)) };
    let second = PortalStream { node_id: 8, size: None };
    assert_eq!(target(&[first, second]), (7, 640, 480));
    assert_eq!(target(&[second, first]), (8, 800, 600));
    let odd = PortalStream { node_id: 9, size: Some((-1, 1)) };
    assert_eq!(target(&[odd]), (9, u32::MAX, 1));
}

#[test]
fn no_stream_is_an_error() {
    assert_eq!(
        start_portal_session(&[]).unwrap_err(),
        "No streams returned from portal"
    );
}

#[test]
fn raw_bgrx_video_is_requested() {
    let format = requested_format();
    assert_eq!(format.object_type, ObjectType::Format);
    assert_eq!(format.id, ParameterId::EnumFormat);
    assert_eq!(
        format.properties,
        [
            FormatProperty { key: FormatKey::MediaType, value: FormatValue::Video, flags: 0 },
            FormatProperty { key: FormatKey::MediaSubtype, value: FormatValue::Raw, flags: 0 },
            FormatProperty { key: FormatKey::VideoFormat, value: FormatValue::Bgrx, flags: 0 },
        ]
    );
    assert_eq!(build_video_params(Some(vec![1, 2])), [vec![1, 2]]);
    assert_eq!(build_video_params(None).len(), 0);
}

#[test]
fn frames_of_up_to_32_bits_fit() {
    assert!(frame_fits(0, u32::MAX));
    assert!(frame_fits(32768, 32767));
    assert!(!frame_fits(32768, 32768));
    assert!(frame_fits(0x3fff_ffff, 1));
    assert!(!frame_fits(0x4000_0000, 1));
    assert!(!frame_fits(u32::MAX, u32::MAX));
}
