use plantrig::actuator::{ActuatorProfile, WateringConfig};
use plantrig::detect::DetectionResult;
use plantrig::gateway::Gateway;
use plantrig::gpio::OutputLine;
use plantrig::message::{InMsg, OutMsg, Stage};
use plantrig::motion::StepperLinear;
use plantrig::orchestrator::Orchestrator;

fn stub_actuator() -> ActuatorProfile {
    let x = StepperLinear::new(OutputLine::stub(), OutputLine::stub(), false, 100, 200, 50, 2);
    let y = StepperLinear::new(OutputLine::stub(), OutputLine::stub(), false, 100, 200, 50, 2);
    ActuatorProfile::new(
        OutputLine::stub(),
        x,
        y,
        WateringConfig { pin: OutputLine::stub() },
    )
}

#[test]
fn get_report_expands_into_loopback_queries() {
    let mut o = Orchestrator::new();
    let mut g = Gateway::new(100, 100);
    assert_eq!(o.handle_msg(&mut g, InMsg::GetReport), None);
    assert_eq!(g.recv(), Some(InMsg::GetListPot));
    assert_eq!(g.recv(), Some(InMsg::GetMovingState));
    assert_eq!(g.recv(), Some(InMsg::GetWateringState));
    assert_eq!(g.recv(), Some(InMsg::GetCapturingState));
    assert_eq!(g.recv(), Some(InMsg::GetAutoWater));
    assert_eq!(g.recv(), Some(InMsg::GetAutoCheck));
    assert_eq!(g.recv(), None);
}

#[test]
fn pots_stay_sorted_and_unique() {
    let mut o = Orchestrator::new();
    assert!(o.add_pot(2, 1));
    assert!(o.add_pot(1, 2));
    assert!(o.add_pot(1, 1));
    assert!(!o.add_pot(1, 2));
    assert_eq!(o.list_pots(), vec![(1, 1), (1, 2), (2, 1)]);
    assert!(o.remove_pot(1, 2));
    assert!(!o.remove_pot(9, 9));
    assert_eq!(o.list_pots(), vec![(1, 1), (2, 1)]);
}

#[test]
fn get_list_pot_reports_each_position_in_order() {
    let mut o = Orchestrator::new();
    let mut g = Gateway::new(100, 100);
    o.handle_msg(&mut g, InMsg::SetPot { x: 5, y: 6 });
    o.handle_msg(&mut g, InMsg::SetPot { x: 1, y: 2 });
    o.handle_msg(&mut g, InMsg::GetListPot);
    assert!(matches!(g.take_outgoing(), Some(OutMsg::ReportPot { x: 1, y: 2 })));
    assert!(matches!(g.take_outgoing(), Some(OutMsg::ReportPot { x: 5, y: 6 })));
    assert!(g.take_outgoing().is_none());
}

#[test]
fn auto_water_off_dispatches_no_water_jobs() {
    let mut o = Orchestrator::new();
    let mut g = Gateway::new(100, 100);
    o.handle_msg(&mut g, InMsg::SetPot { x: 10, y: 20 });
    o.handle_msg(&mut g, InMsg::SetAutoWater(false));
    // Drain the acknowledgement.
    assert!(matches!(g.take_outgoing(), Some(OutMsg::ReportAutoWater(false))));
    // A scan tick finds no water job and queues none.
    assert_eq!(o.poll_water(), None);
    assert_eq!(o.poll_water(), None);
    // The auto-water query reports the switch as off.
    o.handle_msg(&mut g, InMsg::GetAutoWater);
    assert!(matches!(g.take_outgoing(), Some(OutMsg::ReportAutoWater(false))));
}

#[test]
fn auto_water_on_refills_from_the_positions() {
    let mut o = Orchestrator::new();
    let mut g = Gateway::new(100, 100);
    o.handle_msg(&mut g, InMsg::SetPot { x: 10, y: 20 });
    o.handle_msg(&mut g, InMsg::SetPot { x: 1, y: 1 });
    o.handle_msg(&mut g, InMsg::SetAutoWater(true));
    // First poll refills, later polls hand the jobs out in stable order.
    assert_eq!(o.poll_water(), None);
    assert_eq!(o.poll_water(), Some((1, 1)));
    assert_eq!(o.poll_water(), Some((10, 20)));
    assert_eq!(o.poll_water(), None);
}

#[test]
fn auto_check_is_on_by_default() {
    let mut o = Orchestrator::new();
    let mut g = Gateway::new(100, 100);
    o.handle_msg(&mut g, InMsg::SetPot { x: 4, y: 4 });
    assert_eq!(o.poll_check(), None);
    assert_eq!(o.poll_check(), Some((4, 4)));
}

#[test]
fn position_set_is_capped() {
    let mut o = Orchestrator::new();
    // 1000 positions fit; one more is refused.
    for x in 0..1000u32 {
        assert!(o.add_pot(x, 0));
    }
    assert!(!o.add_pot(1000, 1000));
    assert_eq!(o.list_pots().len(), 1000);
    assert!(o.remove_pot(0, 0));
    assert!(o.add_pot(1000, 1000));
}

#[test]
fn manual_water_command_is_queued() {
    let mut o = Orchestrator::new();
    let mut g = Gateway::new(100, 100);
    o.handle_msg(&mut g, InMsg::Water { x: 7, y: 8 });
    assert_eq!(o.poll_water(), Some((7, 8)));
}

#[test]
fn goto_command_hands_back_a_move() {
    let mut o = Orchestrator::new();
    let mut g = Gateway::new(100, 100);
    assert_eq!(o.handle_msg(&mut g, InMsg::Goto { x: 3, y: 9 }), Some((3, 9)));
}

#[test]
fn shutdown_sets_the_stop_flag() {
    let mut o = Orchestrator::new();
    let mut g = Gateway::new(100, 100);
    assert!(!o.is_shutdown());
    o.handle_msg(&mut g, InMsg::Shutdown);
    assert!(o.is_shutdown());
}

#[test]
fn water_job_reports_and_waters() {
    let mut o = Orchestrator::new();
    let mut g = Gateway::new(100, 100);
    let mut a = stub_actuator();
    assert_eq!(o.run_water_job(&mut a, &mut g, 10, 20, 0, 777), Ok(()));
    assert_eq!(a.linear_x.position, 10);
    assert_eq!(a.linear_y.position, 20);
    assert_eq!(a.watering.pin.rises, 1);
    assert!(matches!(g.take_outgoing(), Some(OutMsg::ReportMoving(true))));
    assert!(matches!(g.take_outgoing(), Some(OutMsg::ReportMoving(false))));
    assert!(matches!(g.take_outgoing(), Some(OutMsg::ReportWatering(true))));
    assert!(matches!(g.take_outgoing(), Some(OutMsg::ReportWatering(false))));
    assert!(matches!(
        g.take_outgoing(),
        Some(OutMsg::ReportWater { x: 10, y: 20, timestamp: 777 })
    ));
    assert!(g.take_outgoing().is_none());
}

#[test]
fn check_job_reports_and_classifies() {
    let mut o = Orchestrator::new();
    let mut g = Gateway::new(100, 100);
    let mut a = stub_actuator();
    assert_eq!(o.begin_check(&mut a, &mut g, 10, 20), Ok(()));
    assert_eq!(a.linear_x.position, 10);
    assert_eq!(a.linear_y.position, 20);
    assert!(matches!(g.take_outgoing(), Some(OutMsg::ReportMoving(true))));
    assert!(matches!(g.take_outgoing(), Some(OutMsg::ReportMoving(false))));
    assert!(matches!(g.take_outgoing(), Some(OutMsg::ReportCapturing(true))));

    let det = DetectionResult {
        class: "young".to_owned(),
        x: 100,
        y: 50,
        width: 60,
        height: 40,
    };
    o.finish_check(&mut g, &det, 10, 20, 999, "img-10-20".to_owned());
    assert!(matches!(g.take_outgoing(), Some(OutMsg::ReportCapturing(false))));
    match g.take_outgoing() {
        Some(OutMsg::ReportCheck { x, y, top, left, bottom, right, stage, timestamp, image }) => {
            assert_eq!((x, y), (10, 20));
            assert_eq!((top, left, bottom, right), (50, 100, 90, 160));
            assert_eq!(stage, Stage::Young);
            assert_eq!(timestamp, 999);
            assert_eq!(image, "img-10-20");
        },
        other => panic!("unexpected message: {:?}", other),
    }
}
