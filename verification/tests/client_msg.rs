use plantrig::client_msg::{CaptureResult, DetectResult, OutgoingMessage, ParseError, WaterResult};
use plantrig::detect::Stage;

#[test]
fn parse_name_reads_nine_fields() {
    let r = DetectResult::parse_name("Detected-Young-1-2-3-4-5-6-789").unwrap().unwrap();
    assert_eq!((r.x, r.y), (1, 2));
    assert_eq!((r.top, r.left, r.right, r.bottom), (3, 4, 5, 6));
    assert_eq!(r.timestamp, 789);
    assert_eq!(r.stage, Stage::Young);
    assert!(r.image.is_empty());
}

#[test]
fn parse_name_folds_label_case() {
    let r = DetectResult::parse_name("x-YOUNG-1-2-3-4-5-6-7").unwrap().unwrap();
    assert_eq!(r.stage, Stage::Young);
    let r = DetectResult::parse_name("x-Ready-1-2-3-4-5-6-7").unwrap().unwrap();
    assert_eq!(r.stage, Stage::Ready);
    let r = DetectResult::parse_name("x-old-1-2-3-4-5-6-7").unwrap().unwrap();
    assert_eq!(r.stage, Stage::Old);
    let r = DetectResult::parse_name("x-Empty-1-2-3-4-5-6-7").unwrap().unwrap();
    assert_eq!(r.stage, Stage::Empty);
    let r = DetectResult::parse_name("x-unknown-1-2-3-4-5-6-7").unwrap().unwrap();
    assert_eq!(r.stage, Stage::Unknown);
}

#[test]
fn save_name_spells_the_record() {
    let d = DetectResult {
        x: 1,
        y: 2,
        top: 3,
        left: 4,
        right: 5,
        bottom: 6,
        stage: Stage::Young,
        image: Vec::new(),
        timestamp: 789,
    };
    assert_eq!(d.save_name(), "Detected-Young-1-2-3-4-5-6-789.jpg");
    let d2 = DetectResult {
        x: 0,
        y: 10,
        top: 0,
        left: 0,
        right: 0,
        bottom: 0,
        stage: Stage::Empty,
        image: Vec::new(),
        timestamp: 0,
    };
    assert_eq!(d2.save_name(), "Detected-Empty-0-10-0-0-0-0-0.jpg");
}

#[test]
fn parse_name_ignores_other_shapes() {
    assert!(matches!(DetectResult::parse_name("plain.jpg"), Ok(None)));
    assert!(matches!(DetectResult::parse_name("a-b-c"), Ok(None)));
    assert!(matches!(DetectResult::parse_name(""), Ok(None)));
}

#[test]
fn parse_name_rejects_bad_fields() {
    // A file-extension suffix spoils the timestamp field.
    assert!(matches!(
        DetectResult::parse_name("Detected-Young-1-2-3-4-5-6-789.jpg"),
        Err(ParseError)
    ));
    // An unrecognized stage label.
    assert!(matches!(DetectResult::parse_name("x-frost-1-2-3-4-5-6-7"), Err(ParseError)));
    // A non-numeric coordinate.
    assert!(matches!(DetectResult::parse_name("x-young-one-2-3-4-5-6-7"), Err(ParseError)));
}

#[test]
fn capture_event_encodes_the_image_as_base64() {
    let capture = CaptureResult { x: 1, y: 2, image: vec![0u8, 1, 2], timestamp: 42 };
    match OutgoingMessage::from_capture(&capture) {
        OutgoingMessage::Capture { x, y, image, timestamp } => {
            assert_eq!((x, y, timestamp), (1, 2, 42));
            assert_eq!(image, "AAEC");
        },
        other => panic!("unexpected message: {:?}", other),
    }
}

#[test]
fn capture_event_pads_partial_groups() {
    let capture = CaptureResult { x: 0, y: 0, image: vec![255u8], timestamp: 0 };
    match OutgoingMessage::from_capture(&capture) {
        OutgoingMessage::Capture { image, .. } => {
            assert_eq!(image.len(), 4);
            assert_eq!(image, "/w==");
        },
        other => panic!("unexpected message: {:?}", other),
    }
}

#[test]
fn pre_epoch_capture_timestamps_clamp_to_zero() {
    let capture = CaptureResult { x: 0, y: 0, image: Vec::new(), timestamp: -5 };
    match OutgoingMessage::from_capture(&capture) {
        OutgoingMessage::Capture { image, timestamp, .. } => {
            assert_eq!(timestamp, 0);
            assert_eq!(image, "");
        },
        other => panic!("unexpected message: {:?}", other),
    }
}

#[test]
fn check_event_carries_the_box_and_stage() {
    let det = DetectResult {
        x: 10,
        y: 20,
        top: 1,
        left: 2,
        right: 3,
        bottom: 4,
        stage: Stage::Ready,
        image: vec![0u8, 1, 2],
        timestamp: 7,
    };
    match OutgoingMessage::from_detect(&det) {
        OutgoingMessage::Check { x, y, top, left, bottom, right, stage, image, timestamp } => {
            assert_eq!((x, y), (10, 20));
            assert_eq!((top, left, right, bottom), (1, 2, 3, 4));
            assert_eq!(stage, Stage::Ready);
            assert_eq!(image, "AAEC");
            assert_eq!(timestamp, 7);
        },
        other => panic!("unexpected message: {:?}", other),
    }
}

#[test]
fn water_event_carries_position_and_time() {
    let w = WaterResult { x: 4, y: 5, timestamp: 123, image: Vec::new() };
    match OutgoingMessage::from_water(&w) {
        OutgoingMessage::Water { x, y, timestamp } => {
            assert_eq!((x, y, timestamp), (4, 5, 123));
        },
        other => panic!("unexpected message: {:?}", other),
    }
}
