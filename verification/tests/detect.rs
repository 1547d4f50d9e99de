use plantrig::detect::{best_detection, DetectionResult, Stage, Yolov8Config};
use plantrig::message::Stage as MsgStage;
use plantrig::settings::ModelSize;
use plantrig::show::{latest_check, stage_counts, DashboardDetail};
use plantrig::schedule::{CheckData, PositionData, StageData};

fn boxed(class: &str, x: u32, y: u32, w: u32, h: u32) -> DetectionResult {
    DetectionResult { class: class.to_owned(), x, y, width: w, height: h }
}

#[test]
fn center_and_distance_are_exact() {
    let b = boxed("young", 10, 20, 6, 8);
    assert_eq!(b.center(), (13, 24));
    // Distance from (10, 20): dx = 3, dy = 4.
    assert_eq!(b.distance_from_point((10, 20)), 25);
}

#[test]
fn no_boxes_yields_the_synthetic_unknown() {
    let r = best_detection(&Vec::new(), 640, 360);
    assert_eq!(r.class, "unknown");
    assert_eq!((r.x, r.y, r.width, r.height), (640, 360, 1, 1));
}

#[test]
fn nearest_centre_wins() {
    let far = boxed("old", 0, 0, 10, 10);
    let near = boxed("young", 630, 350, 20, 20);
    let r = best_detection(&vec![far, near], 640, 360);
    assert_eq!(r.class, "young");
}

#[test]
fn ties_keep_the_earliest_box() {
    let a = boxed("first", 100, 100, 10, 10);
    let b = boxed("second", 100, 100, 10, 10);
    let r = best_detection(&vec![a, b], 0, 0);
    assert_eq!(r.class, "first");
}

#[test]
fn class_mapping_looks_up_the_first_match() {
    let cfg = Yolov8Config {
        model_path: "./best.safetensors".to_owned(),
        model_size: ModelSize::N,
        class_mapping: vec![
            ("0".to_owned(), "empty".to_owned()),
            ("1".to_owned(), "young".to_owned()),
        ],
        nms_threshold_permille: 300,
        acc_threshold_permille: 500,
    };
    assert_eq!(cfg.class_for(&"1".to_owned()), "young");
    assert_eq!(cfg.class_for(&"9".to_owned()), "unknown");
}

#[test]
fn class_labels_map_to_stages() {
    assert_eq!(MsgStage::from_class(&"young".to_owned()), MsgStage::Young);
    assert_eq!(MsgStage::from_class(&"ready".to_owned()), MsgStage::Ready);
    assert_eq!(MsgStage::from_class(&"old".to_owned()), MsgStage::Old);
    assert_eq!(MsgStage::from_class(&"empty".to_owned()), MsgStage::Empty);
    assert_eq!(MsgStage::from_class(&"frost".to_owned()), MsgStage::Unknown);
}

#[test]
fn class_labels_fold_case() {
    assert_eq!(MsgStage::from_class(&"YOUNG".to_owned()), MsgStage::Young);
    assert_eq!(MsgStage::from_class(&"Empty".to_owned()), MsgStage::Empty);
}

#[test]
fn object_ids_map_to_stages() {
    assert_eq!(MsgStage::from_object_id(0), MsgStage::Young);
    assert_eq!(MsgStage::from_object_id(1), MsgStage::Ready);
    assert_eq!(MsgStage::from_object_id(2), MsgStage::Old);
    assert_eq!(MsgStage::from_object_id(3), MsgStage::Unknown);
}

#[test]
fn stage_labels_render() {
    assert_eq!(Stage::Young.label(), "Young");
    assert_eq!(Stage::Unknown.label(), "Unknown");
}

fn card(pos_id: i64, ts: i64, label: &str) -> (PositionData, CheckData, StageData) {
    (
        PositionData { id: pos_id, active: true, x: 0, y: 0 },
        CheckData {
            id: pos_id,
            created_ts: ts,
            position_id: pos_id,
            image_id: 0,
            stage_id: 0,
            watered: false,
        },
        StageData {
            id: 0,
            stage: label.to_owned(),
            first_stage: false,
            check_period: 60,
            water_period: 3600,
            water_duration: 2,
        },
    )
}

#[test]
fn dashboard_tallies_by_stage() {
    let cards = vec![card(1, 10, "young"), card(2, 20, "old"), card(3, 30, "young")];
    let detail: Vec<DashboardDetail> = stage_counts(&cards);
    assert_eq!(detail.len(), 2);
    assert_eq!(detail[0].stage, "young");
    assert_eq!(detail[0].quantity, 2);
    assert_eq!(detail[1].stage, "old");
    assert_eq!(detail[1].quantity, 1);
}

#[test]
fn latest_check_picks_the_newest_record() {
    let c = card(1, 10, "young");
    let history = vec![(c.1.clone(), c.2.clone())];
    let newer = CheckData { created_ts: 99, ..c.1.clone() };
    let full = vec![(c.1.clone(), c.2.clone()), (newer, c.2.clone()), (c.1, c.2)];
    assert_eq!(latest_check(&history), Some(0));
    assert_eq!(latest_check(&full), Some(1));
    assert_eq!(latest_check(&Vec::new()), None);
}
