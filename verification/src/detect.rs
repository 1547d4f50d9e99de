//! Detector-facing data: classified bounding boxes and the rule that picks
//! the single best match of a detection run. The model's tensor
//! computation itself is an external collaborator; this module only
//! reasons about its results.

use vstd::prelude::*;

use crate::settings::ModelSize;

verus! {

/// The growth stage a check classifies a position into.
#[derive(Clone, Copy, Debug, PartialEq, Eq, Structural)]
pub enum Stage {
    Young,
    Ready,
    Old,
    Empty,
    Unknown,
}

/// The display label of a stage.
pub open spec fn spec_stage_label(s: Stage) -> Seq<char> {
    match s {
        Stage::Young => "Young"@,
        Stage::Ready => "Ready"@,
        Stage::Old => "Old"@,
        Stage::Empty => "Empty"@,
        Stage::Unknown => "Unknown"@,
    }
}

impl Stage {
    /// The stage's display label.
    pub fn label(&self) -> (s: String)
        ensures
            s@ == spec_stage_label(*self),
    {
        match self {
            Stage::Young => "Young".to_owned(),
            Stage::Ready => "Ready".to_owned(),
            Stage::Old => "Old".to_owned(),
            Stage::Empty => "Empty".to_owned(),
            Stage::Unknown => "Unknown".to_owned(),
        }
    }
}

/// One classified bounding box returned by a detector: a class label and
/// the box position and size in image pixels.
#[derive(Clone, Debug)]
pub struct DetectionResult {
    pub class: String,
    pub x: u32,
    pub y: u32,
    pub width: u32,
    pub height: u32,
}

/// The squared distance between a box's centre and a point.
pub open spec fn spec_distance(b: DetectionResult, px: u32, py: u32) -> int {
    let cx = b.x + b.width / 2;
    let cy = b.y + b.height / 2;
    let dx = if px >= cx {
        px - cx
    } else {
        cx - px
    };
    let dy = if py >= cy {
        py - cy
    } else {
        cy - py
    };
    dx * dx + dy * dy
}

/// A box whose pixel arithmetic stays within the image sizes the rig
/// handles.
pub open spec fn spec_box_wf(b: DetectionResult) -> bool {
    &&& b.x + b.width <= 2_000_000
    &&& b.y + b.height <= 2_000_000
}

impl DetectionResult {
    /// The centre pixel of the box.
    pub fn center(&self) -> (c: (u32, u32))
        requires
            spec_box_wf(*self),
        ensures
            c.0 == self.x + self.width / 2,
            c.1 == self.y + self.height / 2,
    {
        (self.x + self.width / 2, self.y + self.height / 2)
    }

    /// The squared distance between the box centre and `point`.
    pub fn distance_from_point(&self, point: (u32, u32)) -> (d: u64)
        requires
            spec_box_wf(*self),
            point.0 <= 2_000_000,
            point.1 <= 2_000_000,
        ensures
            d == spec_distance(*self, point.0, point.1),
    {
        let c = self.center();
        let dx: u64 = if point.0 >= c.0 {
            (point.0 - c.0) as u64
        } else {
            (c.0 - point.0) as u64
        };
        let dy: u64 = if point.1 >= c.1 {
            (point.1 - c.1) as u64
        } else {
            (c.1 - point.1) as u64
        };
        proof {
            assert(dx * dx <= 4_000_000 * 4_000_000) by (nonlinear_arith)
                requires
                    dx <= 4_000_000,
            ;
            assert(dy * dy <= 4_000_000 * 4_000_000) by (nonlinear_arith)
                requires
                    dy <= 4_000_000,
            ;
        }
        dx * dx + dy * dy
    }

    /// A manual copy; the class string is cloned, everything else is
    /// copied bit for bit.
    pub fn duplicate(&self) -> (r: DetectionResult)
        ensures
            r == *self,
    {
        DetectionResult {
            class: self.class.clone(),
            x: self.x,
            y: self.y,
            width: self.width,
            height: self.height,
        }
    }
}

/// Credentials and model choice of the remote inference service.
#[derive(Clone, Debug)]
pub struct RoboConfig {
    pub project_name: String,
    pub version: usize,
    pub api_key: String,
}

/// The query record sent to the remote inference service.
#[derive(Clone, Debug)]
pub struct Query {
    pub api_key: String,
}

/// Configuration of the locally run model: where its weights live, its
/// size, the mapping from class indices (kept as text keys) to stage
/// labels, and its thresholds in permille.
#[derive(Clone, Debug)]
pub struct Yolov8Config {
    pub model_path: String,
    pub model_size: ModelSize,
    pub class_mapping: Vec<(String, String)>,
    pub nms_threshold_permille: u32,
    pub acc_threshold_permille: u32,
}

impl Yolov8Config {
    /// The stage label the class mapping assigns to a class key: the
    /// label of the first pair carrying the key, or "unknown" when no
    /// pair does.
    pub fn class_for(&self, key: &String) -> (label: String)
        ensures
            (exists|i: int|
                0 <= i < self.class_mapping@.len() && #[trigger] self.class_mapping@[i].0@
                    == key@) ==> (exists|i: int|
                {
                    &&& 0 <= i < self.class_mapping@.len()
                    &&& #[trigger] self.class_mapping@[i].0@ == key@
                    &&& label@ == self.class_mapping@[i].1@
                    &&& (forall|j: int|
                        0 <= j < i ==> #[trigger] self.class_mapping@[j].0@ != key@)
                }),
            (forall|i: int|
                0 <= i < self.class_mapping@.len() ==> #[trigger] self.class_mapping@[i].0@
                    != key@) ==> label@ == "unknown"@,
    {
        let mut i: usize = 0;
        while i < self.class_mapping.len()
            invariant
                i <= self.class_mapping@.len(),
                forall|j: int| 0 <= j < i ==> #[trigger] self.class_mapping@[j].0@ != key@,
            decreases self.class_mapping@.len() - i,
        {
            if self.class_mapping[i].0.eq(key) {
                return self.class_mapping[i].1.clone();
            }
            i = i + 1;
        }
        "unknown".to_owned()
    }
}

/// Which detector implementation a check runs.
#[derive(Clone, Debug)]
pub enum DetectorConfig {
    YoloV8(Yolov8Config),
    Robo(RoboConfig),
}

/// Picks the box a detection run settles on: of all returned boxes, the
/// one whose centre lies nearest the point `(cx, cy)` — the earliest on a
/// tie, matching a left fold that keeps the incumbent — and, when nothing
/// was found, a synthetic one-pixel "unknown" box at that point rather
/// than a failure.
pub fn best_detection(boxes: &Vec<DetectionResult>, cx: u32, cy: u32) -> (r: DetectionResult)
    requires
        forall|i: int| 0 <= i < boxes@.len() ==> spec_box_wf(#[trigger] boxes@[i]),
        cx <= 2_000_000,
        cy <= 2_000_000,
    ensures
        boxes@.len() == 0 ==> r.class@ == "unknown"@ && r.x == cx && r.y == cy && r.width == 1
            && r.height == 1,
        boxes@.len() > 0 ==> exists|i: int|
            {
                &&& 0 <= i < boxes@.len()
                &&& r == boxes@[i]
                &&& (forall|j: int|
                    0 <= j < boxes@.len() ==> spec_distance(#[trigger] boxes@[j], cx, cy)
                        >= spec_distance(r, cx, cy))
                &&& (forall|j: int|
                    0 <= j < i ==> spec_distance(#[trigger] boxes@[j], cx, cy) > spec_distance(
                        r,
                        cx,
                        cy,
                    ))
            },
{
    if boxes.len() == 0 {
        return DetectionResult { class: "unknown".to_owned(), x: cx, y: cy, width: 1, height: 1 };
    }
    let mut best_i: usize = 0;
    let mut best_d: u64 = boxes[0].distance_from_point((cx, cy));
    let mut k: usize = 1;
    while k < boxes.len()
        invariant
            1 <= boxes@.len(),
            0 <= best_i < k <= boxes@.len(),
            forall|i: int| 0 <= i < boxes@.len() ==> spec_box_wf(#[trigger] boxes@[i]),
            cx <= 2_000_000,
            cy <= 2_000_000,
            best_d == spec_distance(boxes@[best_i as int], cx, cy),
            forall|j: int|
                0 <= j < k ==> spec_distance(#[trigger] boxes@[j], cx, cy) >= best_d,
            forall|j: int|
                0 <= j < best_i ==> spec_distance(#[trigger] boxes@[j], cx, cy) > best_d,
        decreases boxes@.len() - k,
    {
        let d = boxes[k].distance_from_point((cx, cy));
        if d < best_d {
            best_i = k;
            best_d = d;
        }
        k = k + 1;
    }
    boxes[best_i].duplicate()
}

} // verus!
