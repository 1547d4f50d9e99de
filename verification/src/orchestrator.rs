//! Automation orchestrator: the set of monitored positions, the auto
//! check/water switches, the bounded job queues of the scan loop, and the
//! command handler that consumes gateway messages — operator-issued or
//! re-injected — and drives every state transition of the control loop.

use std::collections::VecDeque;

use vstd::prelude::*;

use crate::actuator::ActuatorProfile;
use crate::gateway::{spec_bounded_push, spec_enqueue, Gateway, GatewayModel};
use crate::gpio::HwError;
use crate::detect::{spec_box_wf, DetectionResult};
use crate::message::{spec_stage_of_class, InMsg, OutMsg, Stage};

verus! {

/// Capacity of the position set and of each scan job queue.
pub const JOB_CAP: usize = 1000;

/// Strict lexicographic order on grid positions: the stable order the
/// scan loop visits positions in.
pub open spec fn pair_lt(a: (u32, u32), b: (u32, u32)) -> bool {
    a.0 < b.0 || (a.0 == b.0 && a.1 < b.1)
}

/// A strictly sorted position list: sorted and free of duplicates at once.
pub open spec fn pots_sorted(s: Seq<(u32, u32)>) -> bool {
    forall|i: int, j: int| 0 <= i < j < s.len() ==> pair_lt(#[trigger] s[i], #[trigger] s[j])
}

/// Insertion into a strictly sorted position list; inserting a present
/// position leaves the list as it is.
pub open spec fn spec_insert_sorted(s: Seq<(u32, u32)>, p: (u32, u32)) -> Seq<(u32, u32)>
    decreases s.len(),
{
    if s.len() == 0 {
        seq![p]
    } else if pair_lt(p, s[0]) {
        seq![p] + s
    } else if p == s[0] {
        s
    } else {
        seq![s[0]] + spec_insert_sorted(s.skip(1), p)
    }
}

/// Removal from a strictly sorted position list; removing an absent
/// position leaves the list as it is.
pub open spec fn spec_remove_sorted(s: Seq<(u32, u32)>, p: (u32, u32)) -> Seq<(u32, u32)>
    decreases s.len(),
{
    if s.len() == 0 {
        s
    } else if s[0] == p {
        s.skip(1)
    } else {
        seq![s[0]] + spec_remove_sorted(s.skip(1), p)
    }
}

/// The mathematical state of the orchestrator.
#[verifier::ext_equal]
pub struct OrchModel {
    pub auto_water: bool,
    pub auto_check: bool,
    pub capturing: bool,
    pub watering: bool,
    pub moving: bool,
    pub shutdown: bool,
    pub pots: Seq<(u32, u32)>,
    pub water_queue: Seq<(u32, u32)>,
    pub check_queue: Seq<(u32, u32)>,
}

/// Orchestrator state: the monitored positions in stable scan order, the
/// automation switches, the activity flags the status queries report, and
/// the two bounded job queues the scan loop works through.
pub struct Orchestrator {
    auto_water: bool,
    auto_check: bool,
    capturing: bool,
    watering: bool,
    moving: bool,
    shutdown: bool,
    pots: Vec<(u32, u32)>,
    water_queue: VecDeque<(u32, u32)>,
    check_queue: VecDeque<(u32, u32)>,
}

impl View for Orchestrator {
    type V = OrchModel;

    closed spec fn view(&self) -> OrchModel {
        OrchModel {
            auto_water: self.auto_water,
            auto_check: self.auto_check,
            capturing: self.capturing,
            watering: self.watering,
            moving: self.moving,
            shutdown: self.shutdown,
            pots: self.pots@,
            water_queue: self.water_queue@,
            check_queue: self.check_queue@,
        }
    }
}

impl Orchestrator {
    /// Positions in stable order and everything within its bound.
    pub open spec fn wf(&self) -> bool {
        &&& pots_sorted(self@.pots)
        &&& self@.pots.len() <= JOB_CAP
        &&& self@.water_queue.len() <= JOB_CAP
        &&& self@.check_queue.len() <= JOB_CAP
    }

    /// A fresh orchestrator: no positions, automatic checking on,
    /// automatic watering off, nothing in flight.
    pub fn new() -> (o: Orchestrator)
        ensures
            o.wf(),
            o@.auto_water == false,
            o@.auto_check == true,
            o@.capturing == false,
            o@.watering == false,
            o@.moving == false,
            o@.shutdown == false,
            o@.pots.len() == 0,
            o@.water_queue.len() == 0,
            o@.check_queue.len() == 0,
    {
        Orchestrator {
            auto_water: false,
            auto_check: true,
            capturing: false,
            watering: false,
            moving: false,
            shutdown: false,
            pots: Vec::new(),
            water_queue: VecDeque::new(),
            check_queue: VecDeque::new(),
        }
    }

    /// Whether the orchestrator was told to shut down.
    pub fn is_shutdown(&self) -> (b: bool)
        ensures
            b == self@.shutdown,
    {
        self.shutdown
    }

    /// The monitored positions, in stable scan order.
    pub fn list_pots(&self) -> (v: Vec<(u32, u32)>)
        ensures
            v@ == self@.pots,
    {
        let mut v: Vec<(u32, u32)> = Vec::new();
        let mut i: usize = 0;
        while i < self.pots.len()
            invariant
                i <= self.pots@.len(),
                v@ == self.pots@.take(i as int),
            decreases self.pots@.len() - i,
        {
            v.push(self.pots[i]);
            proof {
                assert(v@ =~= self.pots@.take(i + 1));
            }
            i = i + 1;
        }
        proof {
            assert(v@ =~= self.pots@);
        }
        v
    }

    /// Adds a position to the monitored set, keeping the stable order.
    /// A position already present, or one past the set's capacity, is not
    /// added.
    pub fn add_pot(&mut self, x: u32, y: u32) -> (added: bool)
        requires
            old(self).wf(),
        ensures
            final(self).wf(),
            final(self)@ == (OrchModel {
                pots: spec_add_pot(old(self)@.pots, (x, y)),
                ..old(self)@
            }),
            added == (!old(self)@.pots.contains((x, y)) && old(self)@.pots.len() < JOB_CAP),
    {
        let p = (x, y);
        let mut idx: usize = 0;
        while idx < self.pots.len() && pot_lt(self.pots[idx], p)
            invariant
                idx <= self.pots@.len(),
                forall|j: int| 0 <= j < idx ==> pair_lt(#[trigger] self.pots@[j], p),
            decreases self.pots@.len() - idx,
        {
            idx = idx + 1;
        }
        if idx < self.pots.len() && self.pots[idx].0 == x && self.pots[idx].1 == y {
            proof {
                lemma_insert_present(self.pots@, p, idx as int);
                assert(self@ =~= OrchModel { pots: spec_add_pot(old(self)@.pots, p), ..old(self)@ });
            }
            return false;
        }
        if self.pots.len() >= JOB_CAP {
            proof {
                lemma_absent_means_no_contains(self.pots@, p, idx as int);
                assert(self@ =~= OrchModel { pots: spec_add_pot(old(self)@.pots, p), ..old(self)@ });
            }
            return false;
        }
        proof {
            lemma_absent_means_no_contains(self.pots@, p, idx as int);
            lemma_insert_absent(self.pots@, p, idx as int);
            lemma_insert_sorted_keeps_sorted(self.pots@, p, idx as int);
        }
        let ghost before = self.pots@;
        self.pots.insert(idx, p);
        proof {
            assert(self.pots@ =~= before.take(idx as int) + seq![p] + before.skip(idx as int));
            assert(self@ =~= OrchModel { pots: spec_add_pot(old(self)@.pots, p), ..old(self)@ });
        }
        true
    }

    /// Removes a position from the monitored set; removing an absent one
    /// changes nothing.
    pub fn remove_pot(&mut self, x: u32, y: u32) -> (removed: bool)
        requires
            old(self).wf(),
        ensures
            final(self).wf(),
            final(self)@ == (OrchModel {
                pots: spec_remove_sorted(old(self)@.pots, (x, y)),
                ..old(self)@
            }),
            removed == old(self)@.pots.contains((x, y)),
    {
        let p = (x, y);
        let mut idx: usize = 0;
        while idx < self.pots.len() && !pot_eq(self.pots[idx], p)
            invariant
                idx <= self.pots@.len(),
                forall|j: int| 0 <= j < idx ==> #[trigger] self.pots@[j] != p,
            decreases self.pots@.len() - idx,
        {
            idx = idx + 1;
        }
        if idx < self.pots.len() {
            proof {
                lemma_remove_at(self.pots@, p, idx as int);
                lemma_sorted_remove_keeps_sorted(self.pots@, idx as int);
                assert(self.pots@.contains(p));
            }
            let ghost before = self.pots@;
            self.pots.remove(idx);
            proof {
                assert(self.pots@ =~= before.take(idx as int) + before.skip(idx as int + 1));
                assert(self@ =~= OrchModel {
                    pots: spec_remove_sorted(old(self)@.pots, p),
                    ..old(self)@
                });
            }
            true
        } else {
            proof {
                lemma_remove_absent(self.pots@, p);
                if self.pots@.contains(p) {
                    let k = choose|k: int| 0 <= k < self.pots@.len() && self.pots@[k] == p;
                    assert(self.pots@[k] != p);
                }
                assert(self@ =~= OrchModel {
                    pots: spec_remove_sorted(old(self)@.pots, p),
                    ..old(self)@
                });
            }
            false
        }
    }
}

/// The outbound queue after one position report per monitored position,
/// in stable scan order.
pub open spec fn spec_report_pots(q: Seq<OutMsg>, cap: int, pots: Seq<(u32, u32)>) -> Seq<OutMsg>
    decreases pots.len(),
{
    if pots.len() == 0 {
        q
    } else {
        spec_report_pots(
            spec_bounded_push(q, cap, OutMsg::ReportPot { x: pots[0].0, y: pots[0].1 }),
            cap,
            pots.skip(1),
        )
    }
}

/// Unfolds one position report.
proof fn lemma_report_pots_unfold(q: Seq<OutMsg>, cap: int, pots: Seq<(u32, u32)>)
    requires
        pots.len() > 0,
    ensures
        spec_report_pots(q, cap, pots) == spec_report_pots(
            spec_bounded_push(q, cap, OutMsg::ReportPot { x: pots[0].0, y: pots[0].1 }),
            cap,
            pots.skip(1),
        ),
{
}

/// The inbound queue after the six loopback queries a full report expands
/// into.
pub open spec fn spec_report_queries(q: Seq<InMsg>, cap: int) -> Seq<InMsg> {
    let q1 = spec_enqueue(q, cap, InMsg::GetListPot);
    let q2 = spec_enqueue(q1, cap, InMsg::GetMovingState);
    let q3 = spec_enqueue(q2, cap, InMsg::GetWateringState);
    let q4 = spec_enqueue(q3, cap, InMsg::GetCapturingState);
    let q5 = spec_enqueue(q4, cap, InMsg::GetAutoWater);
    spec_enqueue(q5, cap, InMsg::GetAutoCheck)
}

/// What one command does: the orchestrator state after it, the gateway
/// queues after it, and the move it asks the caller to run, if any. This
/// is the single source of truth for every state transition of the
/// command loop; externally and internally originated commands go through
/// it alike.
pub open spec fn spec_step(o: OrchModel, g: GatewayModel, msg: InMsg) -> (
    OrchModel,
    GatewayModel,
    Option<(u32, u32)>,
) {
    match msg {
        InMsg::GetReport => (
            o,
            GatewayModel { queue_in: spec_report_queries(g.queue_in, g.cap_in), ..g },
            Option::None,
        ),
        InMsg::GetListPot => (
            o,
            GatewayModel { queue_out: spec_report_pots(g.queue_out, g.cap_out, o.pots), ..g },
            Option::None,
        ),
        InMsg::GetMovingState => (
            o,
            GatewayModel {
                queue_out: spec_bounded_push(g.queue_out, g.cap_out, OutMsg::ReportMoving(o.moving)),
                ..g
            },
            Option::None,
        ),
        InMsg::GetWateringState => (
            o,
            GatewayModel {
                queue_out: spec_bounded_push(
                    g.queue_out,
                    g.cap_out,
                    OutMsg::ReportWatering(o.watering),
                ),
                ..g
            },
            Option::None,
        ),
        InMsg::GetCapturingState => (
            o,
            GatewayModel {
                queue_out: spec_bounded_push(
                    g.queue_out,
                    g.cap_out,
                    OutMsg::ReportCapturing(o.capturing),
                ),
                ..g
            },
            Option::None,
        ),
        InMsg::GetAutoWater => (
            o,
            GatewayModel {
                queue_out: spec_bounded_push(
                    g.queue_out,
                    g.cap_out,
                    OutMsg::ReportAutoWater(o.auto_water),
                ),
                ..g
            },
            Option::None,
        ),
        InMsg::GetAutoCheck => (
            o,
            GatewayModel {
                queue_out: spec_bounded_push(
                    g.queue_out,
                    g.cap_out,
                    OutMsg::ReportAutoCheck(o.auto_check),
                ),
                ..g
            },
            Option::None,
        ),
        InMsg::SetAutoWater(state) => (
            OrchModel { auto_water: state, ..o },
            GatewayModel {
                queue_out: spec_bounded_push(g.queue_out, g.cap_out, OutMsg::ReportAutoWater(state)),
                ..g
            },
            Option::None,
        ),
        InMsg::SetAutoCheck(state) => (
            OrchModel { auto_check: state, ..o },
            GatewayModel {
                queue_out: spec_bounded_push(g.queue_out, g.cap_out, OutMsg::ReportAutoCheck(state)),
                ..g
            },
            Option::None,
        ),
        InMsg::Goto { x, y } => (o, g, Option::Some((x, y))),
        InMsg::SetPot { x, y } => (
            OrchModel { pots: spec_add_pot(o.pots, (x, y)), ..o },
            g,
            Option::None,
        ),
        InMsg::RemovePot { x, y } => (
            OrchModel { pots: spec_remove_sorted(o.pots, (x, y)), ..o },
            g,
            Option::None,
        ),
        InMsg::Water { x, y } => (
            OrchModel { water_queue: spec_enqueue(o.water_queue, JOB_CAP as int, (x, y)), ..o },
            g,
            Option::None,
        ),
        InMsg::Check { x, y } => (
            OrchModel { check_queue: spec_enqueue(o.check_queue, JOB_CAP as int, (x, y)), ..o },
            g,
            Option::None,
        ),
        InMsg::Shutdown => (OrchModel { shutdown: true, ..o }, g, Option::None),
    }
}

impl Orchestrator {
    /// Handles one command, mutating the orchestrator state, emitting
    /// whatever events and loopback queries the command calls for, and
    /// handing back the move a `Goto` asks for. Behaves exactly as
    /// `spec_step` says.
    pub fn handle_msg(&mut self, gw: &mut Gateway, msg: InMsg) -> (act: Option<(u32, u32)>)
        requires
            old(self).wf(),
            old(gw).wf(),
        ensures
            final(self).wf(),
            final(gw).wf(),
            ({
                let (om, gm, a) = spec_step(old(self)@, old(gw)@, msg);
                final(self)@ == om && final(gw)@ == gm && act == a
            }),
    {
        let ghost o0 = self@;
        let ghost g0 = gw@;
        match msg {
            InMsg::GetReport => {
                gw.send_myself(InMsg::GetListPot);
                gw.send_myself(InMsg::GetMovingState);
                gw.send_myself(InMsg::GetWateringState);
                gw.send_myself(InMsg::GetCapturingState);
                gw.send_myself(InMsg::GetAutoWater);
                gw.send_myself(InMsg::GetAutoCheck);
                proof {
                    assert(gw@ =~= (GatewayModel {
                        queue_in: spec_report_queries(g0.queue_in, g0.cap_in),
                        ..g0
                    }));
                }
                None
            },
            InMsg::GetListPot => {
                let mut i: usize = 0;
                let ghost total = self.pots@;
                proof {
                    assert(total.skip(0) =~= total);
                }
                while i < self.pots.len()
                    invariant
                        i <= self.pots@.len(),
                        self@ == o0,
                        total == self.pots@,
                        gw.wf(),
                        gw@.queue_in == g0.queue_in,
                        gw@.cap_in == g0.cap_in,
                        gw@.cap_out == g0.cap_out,
                        spec_report_pots(gw@.queue_out, g0.cap_out, total.skip(i as int))
                            == spec_report_pots(g0.queue_out, g0.cap_out, total),
                    decreases self.pots@.len() - i,
                {
                    proof {
                        lemma_report_pots_unfold(gw@.queue_out, g0.cap_out, total.skip(i as int));
                        assert(total.skip(i as int)[0] == total[i as int]);
                        assert(total.skip(i as int).skip(1) =~= total.skip(i as int + 1));
                    }
                    let pot = self.pots[i];
                    gw.send(OutMsg::ReportPot { x: pot.0, y: pot.1 });
                    i = i + 1;
                }
                proof {
                    assert(total.skip(total.len() as int) =~= Seq::<(u32, u32)>::empty());
                    assert(gw@ =~= (GatewayModel {
                        queue_out: spec_report_pots(g0.queue_out, g0.cap_out, total),
                        ..g0
                    }));
                }
                None
            },
            InMsg::GetMovingState => {
                gw.send(OutMsg::ReportMoving(self.moving));
                proof {
                    lemma_same_gateway_fields(g0, gw@);
                }
                None
            },
            InMsg::GetWateringState => {
                gw.send(OutMsg::ReportWatering(self.watering));
                proof {
                    lemma_same_gateway_fields(g0, gw@);
                }
                None
            },
            InMsg::GetCapturingState => {
                gw.send(OutMsg::ReportCapturing(self.capturing));
                proof {
                    lemma_same_gateway_fields(g0, gw@);
                }
                None
            },
            InMsg::GetAutoWater => {
                gw.send(OutMsg::ReportAutoWater(self.auto_water));
                proof {
                    lemma_same_gateway_fields(g0, gw@);
                }
                None
            },
            InMsg::GetAutoCheck => {
                gw.send(OutMsg::ReportAutoCheck(self.auto_check));
                proof {
                    lemma_same_gateway_fields(g0, gw@);
                }
                None
            },
            InMsg::SetAutoWater(state) => {
                self.auto_water = state;
                gw.send(OutMsg::ReportAutoWater(state));
                proof {
                    assert(self@ =~= (OrchModel { auto_water: state, ..o0 }));
                    lemma_same_gateway_fields(g0, gw@);
                }
                None
            },
            InMsg::SetAutoCheck(state) => {
                self.auto_check = state;
                gw.send(OutMsg::ReportAutoCheck(state));
                proof {
                    assert(self@ =~= (OrchModel { auto_check: state, ..o0 }));
                    lemma_same_gateway_fields(g0, gw@);
                }
                None
            },
            InMsg::Goto { x, y } => Some((x, y)),
            InMsg::SetPot { x, y } => {
                let _ = self.add_pot(x, y);
                None
            },
            InMsg::RemovePot { x, y } => {
                let _ = self.remove_pot(x, y);
                None
            },
            InMsg::Water { x, y } => {
                if self.water_queue.len() < JOB_CAP {
                    self.water_queue.push_back((x, y));
                }
                proof {
                    assert(self@ =~= (OrchModel {
                        water_queue: spec_enqueue(o0.water_queue, JOB_CAP as int, (x, y)),
                        ..o0
                    }));
                }
                None
            },
            InMsg::Check { x, y } => {
                if self.check_queue.len() < JOB_CAP {
                    self.check_queue.push_back((x, y));
                }
                proof {
                    assert(self@ =~= (OrchModel {
                        check_queue: spec_enqueue(o0.check_queue, JOB_CAP as int, (x, y)),
                        ..o0
                    }));
                }
                None
            },
            InMsg::Shutdown => {
                self.shutdown = true;
                proof {
                    assert(self@ =~= (OrchModel { shutdown: true, ..o0 }));
                }
                None
            },
        }
    }

    /// Takes the next water job, first in first out. When the queue is
    /// empty and automatic watering is on, it is refilled with every
    /// monitored position in stable order (to be worked through on later
    /// polls); with automatic watering off an empty queue stays empty, so
    /// no watering is ever dispatched.
    pub fn poll_water(&mut self) -> (job: Option<(u32, u32)>)
        requires
            old(self).wf(),
        ensures
            final(self).wf(),
            final(self)@ == (OrchModel { water_queue: final(self)@.water_queue, ..old(self)@ }),
            old(self)@.water_queue.len() > 0 ==> job == Some(old(self)@.water_queue[0]) && final(self)@.water_queue == old(self)@.water_queue.skip(1),
            old(self)@.water_queue.len() == 0 && old(self)@.auto_water ==> job is None && final(self)@.water_queue == old(self)@.pots,
            old(self)@.water_queue.len() == 0 && !old(self)@.auto_water ==> job is None && final(self)@.water_queue == old(self)@.water_queue,
    {
        let ghost o0 = self@;
        match self.water_queue.pop_front() {
            Some(job) => {
                proof {
                    assert(self.water_queue@ =~= o0.water_queue.skip(1));
                    assert(self@ =~= (OrchModel { water_queue: self.water_queue@, ..o0 }));
                }
                Some(job)
            },
            None => {
                if self.auto_water {
                    let mut i: usize = 0;
                    while i < self.pots.len()
                        invariant
                            i <= self.pots@.len(),
                            self.pots@.len() <= JOB_CAP,
                            self.pots@ == o0.pots,
                            self.water_queue@ == o0.pots.take(i as int),
                            self.auto_water == o0.auto_water,
                            self.auto_check == o0.auto_check,
                            self.capturing == o0.capturing,
                            self.watering == o0.watering,
                            self.moving == o0.moving,
                            self.shutdown == o0.shutdown,
                            self.check_queue@ == o0.check_queue,
                        decreases self.pots@.len() - i,
                    {
                        let pot = self.pots[i];
                        self.water_queue.push_back(pot);
                        proof {
                            assert(self.water_queue@ =~= o0.pots.take(i as int + 1));
                        }
                        i = i + 1;
                    }
                    proof {
                        assert(o0.pots.take(o0.pots.len() as int) =~= o0.pots);
                        assert(self@ =~= (OrchModel { water_queue: self.water_queue@, ..o0 }));
                    }
                } else {
                    proof {
                        assert(self@ =~= (OrchModel { water_queue: self.water_queue@, ..o0 }));
                    }
                }
                None
            },
        }
    }

    /// Takes the next check job, first in first out, refilling from the
    /// monitored positions when empty and automatic checking is on, in
    /// the same way the water queue is refilled.
    pub fn poll_check(&mut self) -> (job: Option<(u32, u32)>)
        requires
            old(self).wf(),
        ensures
            final(self).wf(),
            final(self)@ == (OrchModel { check_queue: final(self)@.check_queue, ..old(self)@ }),
            old(self)@.check_queue.len() > 0 ==> job == Some(old(self)@.check_queue[0]) && final(self)@.check_queue == old(self)@.check_queue.skip(1),
            old(self)@.check_queue.len() == 0 && old(self)@.auto_check ==> job is None && final(self)@.check_queue == old(self)@.pots,
            old(self)@.check_queue.len() == 0 && !old(self)@.auto_check ==> job is None && final(self)@.check_queue == old(self)@.check_queue,
    {
        let ghost o0 = self@;
        match self.check_queue.pop_front() {
            Some(job) => {
                proof {
                    assert(self.check_queue@ =~= o0.check_queue.skip(1));
                    assert(self@ =~= (OrchModel { check_queue: self.check_queue@, ..o0 }));
                }
                Some(job)
            },
            None => {
                if self.auto_check {
                    let mut i: usize = 0;
                    while i < self.pots.len()
                        invariant
                            i <= self.pots@.len(),
                            self.pots@.len() <= JOB_CAP,
                            self.pots@ == o0.pots,
                            self.check_queue@ == o0.pots.take(i as int),
                            self.auto_water == o0.auto_water,
                            self.auto_check == o0.auto_check,
                            self.capturing == o0.capturing,
                            self.watering == o0.watering,
                            self.moving == o0.moving,
                            self.shutdown == o0.shutdown,
                            self.water_queue@ == o0.water_queue,
                        decreases self.pots@.len() - i,
                    {
                        let pot = self.pots[i];
                        self.check_queue.push_back(pot);
                        proof {
                            assert(self.check_queue@ =~= o0.pots.take(i as int + 1));
                        }
                        i = i + 1;
                    }
                    proof {
                        assert(o0.pots.take(o0.pots.len() as int) =~= o0.pots);
                        assert(self@ =~= (OrchModel { check_queue: self.check_queue@, ..o0 }));
                    }
                } else {
                    proof {
                        assert(self@ =~= (OrchModel { check_queue: self.check_queue@, ..o0 }));
                    }
                }
                None
            },
        }
    }
}

/// The outbound events of one completed water job, in send order.
pub open spec fn spec_water_job_reports(q: Seq<OutMsg>, cap: int, x: u32, y: u32, now: u64) -> Seq<
    OutMsg,
> {
    let q1 = spec_bounded_push(q, cap, OutMsg::ReportMoving(true));
    let q2 = spec_bounded_push(q1, cap, OutMsg::ReportMoving(false));
    let q3 = spec_bounded_push(q2, cap, OutMsg::ReportWatering(true));
    let q4 = spec_bounded_push(q3, cap, OutMsg::ReportWatering(false));
    spec_bounded_push(q4, cap, OutMsg::ReportWater { x, y, timestamp: now })
}

/// The outbound events of the move-and-capture half of a check job, in
/// send order.
pub open spec fn spec_check_move_reports(q: Seq<OutMsg>, cap: int) -> Seq<OutMsg> {
    let q1 = spec_bounded_push(q, cap, OutMsg::ReportMoving(true));
    let q2 = spec_bounded_push(q1, cap, OutMsg::ReportMoving(false));
    spec_bounded_push(q2, cap, OutMsg::ReportCapturing(true))
}

impl Orchestrator {
    /// Runs one water job: reports the move, drives the head to `(x, y)`,
    /// reports the watering, opens the valve for `dur_secs` seconds, and
    /// reports completion with the given timestamp. A hardware fault
    /// aborts the job, surfaces one `Error` event, and leaves the activity
    /// flags cleared; it is not retried here.
    pub fn run_water_job(
        &mut self,
        actuator: &mut ActuatorProfile,
        gw: &mut Gateway,
        x: u32,
        y: u32,
        dur_secs: u64,
        now: u64,
    ) -> (r: Result<(), HwError>)
        requires
            old(self).wf(),
            old(gw).wf(),
            old(actuator).wf(),
            old(actuator).headroom(),
            x <= 1_000,
            y <= 1_000,
            dur_secs <= 1_000_000,
        ensures
            old(actuator).all_motion_stub() && old(actuator).watering.pin.port is Stub ==> r is Ok,
            final(self).wf(),
            final(gw).wf(),
            final(actuator).wf(),
            final(actuator).same_config(*old(actuator)),
            final(self)@ == (OrchModel { moving: false, watering: false, ..old(self)@ }),
            final(gw)@.queue_in == old(gw)@.queue_in,
            final(gw)@.cap_in == old(gw)@.cap_in,
            final(gw)@.cap_out == old(gw)@.cap_out,
            r is Ok ==> final(actuator).linear_x.position == x as i32 && final(actuator).linear_y.position == y as i32 && final(actuator).watering.pin.level == false,
            r is Ok ==> final(actuator).watering.pin.rises == old(actuator).watering.pin.rises + (
            if old(actuator).watering.pin.level {
                0int
            } else {
                1int
            }),
            r is Ok ==> final(gw)@.queue_out == spec_water_job_reports(
                old(gw)@.queue_out,
                old(gw)@.cap_out,
                x,
                y,
                now,
            ),
            r is Err ==> final(gw)@.queue_out.len() > 0 && final(gw)@.queue_out.last() is Error,
    {
        let ghost o0 = self@;
        self.moving = true;
        gw.send(OutMsg::ReportMoving(true));
        match actuator.goto(x, y) {
            Ok(_) => {},
            Err(e) => {
                self.moving = false;
                self.watering = false;
                gw.send(OutMsg::Error("hardware fault while moving".to_owned()));
                proof {
                    assert(self@ =~= (OrchModel { moving: false, watering: false, ..o0 }));
                }
                return Err(e);
            },
        }
        gw.send(OutMsg::ReportMoving(false));
        self.moving = false;
        self.watering = true;
        gw.send(OutMsg::ReportWatering(true));
        match actuator.watering.water(dur_secs) {
            Ok(_) => {},
            Err(e) => {
                self.watering = false;
                gw.send(OutMsg::Error("hardware fault while watering".to_owned()));
                proof {
                    assert(self@ =~= (OrchModel { moving: false, watering: false, ..o0 }));
                }
                return Err(e);
            },
        }
        gw.send(OutMsg::ReportWatering(false));
        self.watering = false;
        gw.send(OutMsg::ReportWater { x, y, timestamp: now });
        proof {
            assert(self@ =~= (OrchModel { moving: false, watering: false, ..o0 }));
        }
        Ok(())
    }

    /// Runs the move-and-capture half of a check job: reports the move,
    /// drives the head to `(x, y)`, and reports that capturing began. The
    /// caller then takes the image with the camera collaborator and hands
    /// the detector's answer to `finish_check`. A hardware fault aborts
    /// with one `Error` event and cleared flags.
    pub fn begin_check(
        &mut self,
        actuator: &mut ActuatorProfile,
        gw: &mut Gateway,
        x: u32,
        y: u32,
    ) -> (r: Result<(), HwError>)
        requires
            old(self).wf(),
            old(gw).wf(),
            old(actuator).wf(),
            old(actuator).headroom(),
            x <= 1_000,
            y <= 1_000,
        ensures
            old(actuator).all_motion_stub() ==> r is Ok,
            final(self).wf(),
            final(gw).wf(),
            final(actuator).wf(),
            final(actuator).same_config(*old(actuator)),
            final(actuator).watering == old(actuator).watering,
            final(gw)@.queue_in == old(gw)@.queue_in,
            final(gw)@.cap_in == old(gw)@.cap_in,
            final(gw)@.cap_out == old(gw)@.cap_out,
            r is Ok ==> final(self)@ == (OrchModel {
                moving: false,
                capturing: true,
                ..old(self)@
            }),
            r is Ok ==> final(actuator).linear_x.position == x as i32 && final(actuator).linear_y.position == y as i32,
            r is Ok ==> final(gw)@.queue_out == spec_check_move_reports(
                old(gw)@.queue_out,
                old(gw)@.cap_out,
            ),
            r is Err ==> final(self)@ == (OrchModel { moving: false, ..old(self)@ }),
            r is Err ==> final(gw)@.queue_out.len() > 0 && final(gw)@.queue_out.last() is Error,
    {
        let ghost o0 = self@;
        self.moving = true;
        gw.send(OutMsg::ReportMoving(true));
        match actuator.goto(x, y) {
            Ok(_) => {},
            Err(e) => {
                self.moving = false;
                gw.send(OutMsg::Error("hardware fault while moving".to_owned()));
                proof {
                    assert(self@ =~= (OrchModel { moving: false, ..o0 }));
                }
                return Err(e);
            },
        }
        gw.send(OutMsg::ReportMoving(false));
        self.moving = false;
        self.capturing = true;
        gw.send(OutMsg::ReportCapturing(true));
        proof {
            assert(self@ =~= (OrchModel { moving: false, capturing: true, ..o0 }));
        }
        Ok(())
    }

    /// Finishes a check job from the detector's answer: reports that
    /// capturing ended and emits the check event, classifying the box's
    /// class label into a stage and carrying the box edges, the timestamp
    /// and the image reference.
    pub fn finish_check(
        &mut self,
        gw: &mut Gateway,
        det: &DetectionResult,
        x: u32,
        y: u32,
        now: u64,
        image_ref: String,
    )
        requires
            old(self).wf(),
            old(gw).wf(),
            spec_box_wf(*det),
        ensures
            final(self).wf(),
            final(gw).wf(),
            final(self)@ == (OrchModel { capturing: false, ..old(self)@ }),
            final(gw)@.queue_in == old(gw)@.queue_in,
            final(gw)@.cap_in == old(gw)@.cap_in,
            final(gw)@.cap_out == old(gw)@.cap_out,
            final(gw)@.queue_out == spec_bounded_push(
                spec_bounded_push(
                    old(gw)@.queue_out,
                    old(gw)@.cap_out,
                    OutMsg::ReportCapturing(false),
                ),
                old(gw)@.cap_out,
                OutMsg::ReportCheck {
                    x,
                    y,
                    top: det.y,
                    left: det.x,
                    bottom: (det.y + det.height) as u32,
                    right: (det.x + det.width) as u32,
                    stage: spec_stage_of_class(det.class@),
                    timestamp: now,
                    image: image_ref,
                },
            ),
    {
        let ghost o0 = self@;
        self.capturing = false;
        gw.send(OutMsg::ReportCapturing(false));
        let stage = Stage::from_class(&det.class);
        gw.send(
            OutMsg::ReportCheck {
                x,
                y,
                top: det.y,
                left: det.x,
                bottom: det.y + det.height,
                right: det.x + det.width,
                stage,
                timestamp: now,
                image: image_ref,
            },
        );
        proof {
            assert(self@ =~= (OrchModel { capturing: false, ..o0 }));
        }
    }
}

/// Two gateway models that differ at most in their outbound queue.
proof fn lemma_same_gateway_fields(a: GatewayModel, b: GatewayModel)
    requires
        b.queue_in == a.queue_in,
        b.cap_in == a.cap_in,
        b.cap_out == a.cap_out,
    ensures
        b == (GatewayModel { queue_out: b.queue_out, ..a }),
{
    assert(b =~= (GatewayModel { queue_out: b.queue_out, ..a }));
}

/// The position list after an add: unchanged when the position is present
/// or the set is full, the sorted insertion otherwise.
pub open spec fn spec_add_pot(s: Seq<(u32, u32)>, p: (u32, u32)) -> Seq<(u32, u32)> {
    if s.contains(p) || s.len() >= JOB_CAP {
        s
    } else {
        spec_insert_sorted(s, p)
    }
}

/// Exec equality on grid positions.
fn pot_eq(a: (u32, u32), b: (u32, u32)) -> (r: bool)
    ensures
        r == (a == b),
{
    a.0 == b.0 && a.1 == b.1
}

/// Exec comparison mirroring `pair_lt`.
fn pot_lt(a: (u32, u32), b: (u32, u32)) -> (r: bool)
    ensures
        r == pair_lt(a, b),
{
    a.0 < b.0 || (a.0 == b.0 && a.1 < b.1)
}

/// Inserting the element found at `idx` of a sorted list changes nothing.
proof fn lemma_insert_present(s: Seq<(u32, u32)>, p: (u32, u32), idx: int)
    requires
        pots_sorted(s),
        0 <= idx < s.len(),
        s[idx] == p,
        forall|j: int| 0 <= j < idx ==> pair_lt(#[trigger] s[j], p),
    ensures
        spec_insert_sorted(s, p) == s,
        s.contains(p),
    decreases idx,
{
    assert(s.contains(p));
    if idx == 0 {
        assert(!pair_lt(p, s[0])) by {
            assert(s[0] == p);
        }
    } else {
        assert(pair_lt(s[0], p));
        assert(!pair_lt(p, s[0]));
        assert(p != s[0]);
        lemma_insert_present(s.skip(1), p, idx - 1);
        assert(spec_insert_sorted(s, p) == seq![s[0]] + s.skip(1));
        assert(seq![s[0]] + s.skip(1) =~= s);
    }
}

/// When the scan stopped at `idx` without finding `p`, the list does not
/// contain `p` at all.
proof fn lemma_absent_means_no_contains(s: Seq<(u32, u32)>, p: (u32, u32), idx: int)
    requires
        pots_sorted(s),
        0 <= idx <= s.len(),
        forall|j: int| 0 <= j < idx ==> pair_lt(#[trigger] s[j], p),
        idx < s.len() ==> !pair_lt(s[idx], p) && s[idx] != p,
    ensures
        !s.contains(p),
{
    assert forall|k: int| 0 <= k < s.len() implies s[k] != p by {
        if k < idx {
            assert(pair_lt(s[k], p));
        } else if k == idx {
        } else {
            assert(pair_lt(s[idx], s[k]));
            assert(!pair_lt(s[idx], p));
        }
    }
    if s.contains(p) {
        let k = choose|k: int| 0 <= k < s.len() && s[k] == p;
        assert(s[k] != p);
    }
}

/// The sorted insertion of an absent element lands exactly at the first
/// index whose element is not below it.
proof fn lemma_insert_absent(s: Seq<(u32, u32)>, p: (u32, u32), idx: int)
    requires
        pots_sorted(s),
        0 <= idx <= s.len(),
        forall|j: int| 0 <= j < idx ==> pair_lt(#[trigger] s[j], p),
        idx < s.len() ==> !pair_lt(s[idx], p) && s[idx] != p,
    ensures
        spec_insert_sorted(s, p) == s.take(idx) + seq![p] + s.skip(idx),
    decreases idx,
{
    if s.len() == 0 {
        assert(spec_insert_sorted(s, p) =~= s.take(0) + seq![p] + s.skip(0));
    } else if idx == 0 {
        if !pair_lt(p, s[0]) {
            assert(!pair_lt(s[0], p));
            assert(s[0] != p);
            assert(pair_lt(p, s[0])) by {
                let a = p;
                let b = s[0];
                assert(a.0 != b.0 || a.1 != b.1);
            }
        }
        assert(spec_insert_sorted(s, p) == seq![p] + s);
        assert(seq![p] + s =~= s.take(0) + seq![p] + s.skip(0));
    } else {
        assert(pair_lt(s[0], p));
        assert(!pair_lt(p, s[0]));
        assert(p != s[0]);
        lemma_insert_absent(s.skip(1), p, idx - 1);
        assert(spec_insert_sorted(s, p) == seq![s[0]] + (s.skip(1).take(idx - 1) + seq![p]
            + s.skip(1).skip(idx - 1)));
        assert(seq![s[0]] + (s.skip(1).take(idx - 1) + seq![p] + s.skip(1).skip(idx - 1)) =~= s.take(
            idx,
        ) + seq![p] + s.skip(idx));
    }
}

/// Inserting at the found index keeps the list strictly sorted.
proof fn lemma_insert_sorted_keeps_sorted(s: Seq<(u32, u32)>, p: (u32, u32), idx: int)
    requires
        pots_sorted(s),
        0 <= idx <= s.len(),
        forall|j: int| 0 <= j < idx ==> pair_lt(#[trigger] s[j], p),
        idx < s.len() ==> !pair_lt(s[idx], p) && s[idx] != p,
    ensures
        pots_sorted(s.take(idx) + seq![p] + s.skip(idx)),
{
    let t = s.take(idx) + seq![p] + s.skip(idx);
    assert forall|i: int, j: int| 0 <= i < j < t.len() implies pair_lt(t[i], t[j]) by {
        if j < idx {
            assert(t[i] == s[i] && t[j] == s[j]);
        } else if j == idx {
            assert(t[i] == s[i] && t[j] == p);
        } else if i < idx {
            assert(t[i] == s[i] && t[j] == s[j - 1]);
            if j - 1 == idx {
                assert(t[j] == s[idx]);
                assert(!pair_lt(s[idx], p) && s[idx] != p);
                assert(pair_lt(p, s[idx])) by {
                    let a = p;
                    let b = s[idx];
                    assert(a.0 != b.0 || a.1 != b.1);
                }
                assert(pair_lt(s[i], p));
                lemma_pair_lt_trans(s[i], p, s[idx]);
            }
        } else if i == idx {
            assert(t[i] == p && t[j] == s[j - 1]);
            assert(!pair_lt(s[idx], p) && s[idx] != p);
            assert(pair_lt(p, s[idx])) by {
                let a = p;
                let b = s[idx];
                assert(a.0 != b.0 || a.1 != b.1);
            }
            if j - 1 > idx {
                lemma_pair_lt_trans(p, s[idx], s[j - 1]);
            }
        } else {
            assert(t[i] == s[i - 1] && t[j] == s[j - 1]);
        }
    }
}

/// The strict pair order is transitive.
proof fn lemma_pair_lt_trans(a: (u32, u32), b: (u32, u32), c: (u32, u32))
    requires
        pair_lt(a, b),
        pair_lt(b, c),
    ensures
        pair_lt(a, c),
{
}

/// Removing the element found at `idx` of a sorted list removes exactly
/// that index.
proof fn lemma_remove_at(s: Seq<(u32, u32)>, p: (u32, u32), idx: int)
    requires
        pots_sorted(s),
        0 <= idx < s.len(),
        s[idx] == p,
        forall|j: int| 0 <= j < idx ==> #[trigger] s[j] != p,
    ensures
        spec_remove_sorted(s, p) == s.take(idx) + s.skip(idx + 1),
    decreases idx,
{
    if idx == 0 {
        assert(spec_remove_sorted(s, p) == s.skip(1));
        assert(s.skip(1) =~= s.take(0) + s.skip(1));
    } else {
        assert(s[0] != p);
        lemma_remove_at(s.skip(1), p, idx - 1);
        assert(spec_remove_sorted(s, p) == seq![s[0]] + (s.skip(1).take(idx - 1) + s.skip(1).skip(
            idx,
        )));
        assert(seq![s[0]] + (s.skip(1).take(idx - 1) + s.skip(1).skip(idx)) =~= s.take(idx) + s.skip(
            idx + 1,
        ));
    }
}

/// Removing an absent element changes nothing.
proof fn lemma_remove_absent(s: Seq<(u32, u32)>, p: (u32, u32))
    requires
        forall|j: int| 0 <= j < s.len() ==> #[trigger] s[j] != p,
    ensures
        spec_remove_sorted(s, p) == s,
    decreases s.len(),
{
    if s.len() > 0 {
        assert(s[0] != p);
        assert(forall|j: int| 0 <= j < s.skip(1).len() ==> #[trigger] s.skip(1)[j] != p);
        lemma_remove_absent(s.skip(1), p);
        assert(seq![s[0]] + s.skip(1) =~= s);
    }
}

/// Removing one index of a strictly sorted list keeps it strictly sorted.
proof fn lemma_sorted_remove_keeps_sorted(s: Seq<(u32, u32)>, idx: int)
    requires
        pots_sorted(s),
        0 <= idx < s.len(),
    ensures
        pots_sorted(s.take(idx) + s.skip(idx + 1)),
{
    let t = s.take(idx) + s.skip(idx + 1);
    assert forall|i: int, j: int| 0 <= i < j < t.len() implies pair_lt(t[i], t[j]) by {
        let si = if i < idx {
            i
        } else {
            i + 1
        };
        let sj = if j < idx {
            j
        } else {
            j + 1
        };
        assert(t[i] == s[si] && t[j] == s[sj]);
        assert(pair_lt(s[si], s[sj]));
    }
}

} // verus!
