//! The message protocol: every state transition of the control loop,
//! whether operator-requested or scheduler-requested, is expressed as one
//! of these tagged, immutable values.

use vstd::prelude::*;

verus! {

/// Growth stage reported by a check.
#[derive(Clone, Copy, Debug, PartialEq, Eq, Structural)]
pub enum Stage {
    Young,
    Ready,
    Old,
    Empty,
    Unknown,
}

/// The scalar a character folds to when comparing labels: upper-case
/// ASCII letters fold to their lower-case scalar, everything else is
/// itself.
pub open spec fn spec_fold_char(c: char) -> int {
    if 65 <= c as u32 <= 90 {
        c as u32 + 32
    } else {
        c as u32 as int
    }
}

/// Whether a string reads as the given label once ASCII case is folded.
pub open spec fn spec_label_matches(s: Seq<char>, label: Seq<char>) -> bool {
    s.len() == label.len() && (forall|i: int|
        0 <= i < s.len() ==> spec_fold_char(#[trigger] s[i]) == spec_fold_char(label[i]))
}

/// Compares a string against a label, folding ASCII case.
pub(crate) fn str_matches(s: &str, label: &str) -> (r: bool)
    ensures
        r == spec_label_matches(s@, label@),
{
    let n = label.unicode_len();
    if s.unicode_len() != n {
        return false;
    }
    let mut i: usize = 0;
    while i < n
        invariant
            i <= n,
            n == label@.len(),
            s@.len() == n,
            forall|j: int|
                0 <= j < i ==> spec_fold_char(#[trigger] s@[j]) == spec_fold_char(label@[j]),
        decreases n - i,
    {
        let a = s.get_char(i) as u32;
        let b = label.get_char(i) as u32;
        let fa = if 65 <= a && a <= 90 {
            a + 32
        } else {
            a
        };
        let fb = if 65 <= b && b <= 90 {
            b + 32
        } else {
            b
        };
        if fa != fb {
            return false;
        }
        proof {
            assert(spec_fold_char(s@[i as int]) == spec_fold_char(label@[i as int]));
        }
        i = i + 1;
    }
    true
}

impl Stage {
    /// The stage an object class index of the detector stands for.
    pub fn from_object_id(object_id: u32) -> (s: Stage)
        ensures
            s == spec_stage_of_object_id(object_id),
    {
        match object_id {
            0 => Stage::Young,
            1 => Stage::Ready,
            2 => Stage::Old,
            _ => Stage::Unknown,
        }
    }
}

/// The stage a detector class label maps to, folding ASCII case; labels
/// outside the known set fall back to `Unknown`.
pub open spec fn spec_stage_of_class(c: Seq<char>) -> Stage {
    if spec_label_matches(c, "young"@) {
        Stage::Young
    } else if spec_label_matches(c, "ready"@) {
        Stage::Ready
    } else if spec_label_matches(c, "old"@) {
        Stage::Old
    } else if spec_label_matches(c, "empty"@) {
        Stage::Empty
    } else {
        Stage::Unknown
    }
}

impl Stage {
    /// The stage a detector class label stands for, whatever its case.
    pub fn from_class(class: &String) -> (s: Stage)
        ensures
            s == spec_stage_of_class(class@),
    {
        let c = class.as_str();
        if str_matches(c, "young") {
            Stage::Young
        } else if str_matches(c, "ready") {
            Stage::Ready
        } else if str_matches(c, "old") {
            Stage::Old
        } else if str_matches(c, "empty") {
            Stage::Empty
        } else {
            Stage::Unknown
        }
    }
}

/// The stage an object class index maps to.
pub open spec fn spec_stage_of_object_id(object_id: u32) -> Stage {
    if object_id == 0 {
        Stage::Young
    } else if object_id == 1 {
        Stage::Ready
    } else if object_id == 2 {
        Stage::Old
    } else {
        Stage::Unknown
    }
}

/// Commands and queries the control loop consumes, whether they came from
/// the external transport or were re-injected by the loop itself.
#[derive(Clone, Copy, Debug, PartialEq, Eq, Structural)]
pub enum InMsg {
    GetReport,
    GetListPot,
    GetMovingState,
    GetWateringState,
    GetCapturingState,
    GetAutoWater,
    GetAutoCheck,
    SetAutoWater(bool),
    SetAutoCheck(bool),
    Goto { x: u32, y: u32 },
    SetPot { x: u32, y: u32 },
    RemovePot { x: u32, y: u32 },
    Water { x: u32, y: u32 },
    Check { x: u32, y: u32 },
    Shutdown,
}

/// Events and query responses the control loop emits.
#[derive(Clone, Debug)]
pub enum OutMsg {
    ReportMoving(bool),
    ReportWatering(bool),
    ReportCapturing(bool),
    ReportAutoWater(bool),
    ReportAutoCheck(bool),
    ReportPot { x: u32, y: u32 },
    ReportWater { x: u32, y: u32, timestamp: u64 },
    ReportCheck {
        x: u32,
        y: u32,
        top: u32,
        left: u32,
        bottom: u32,
        right: u32,
        stage: Stage,
        timestamp: u64,
        image: String,
    },
    Status(String),
    Error(String),
}

} // verus!
