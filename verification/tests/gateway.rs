use plantrig::gateway::Gateway;
use plantrig::message::{InMsg, OutMsg};

#[test]
fn inbound_is_first_in_first_out() {
    let mut g = Gateway::new(10, 10);
    g.send_myself(InMsg::GetAutoWater);
    g.send_myself(InMsg::Shutdown);
    assert_eq!(g.recv(), Some(InMsg::GetAutoWater));
    assert_eq!(g.recv(), Some(InMsg::Shutdown));
    assert_eq!(g.recv(), None);
}

#[test]
fn outbound_preserves_send_order() {
    let mut g = Gateway::new(10, 10);
    g.send(OutMsg::ReportMoving(true));
    g.send(OutMsg::ReportMoving(false));
    assert!(matches!(g.take_outgoing(), Some(OutMsg::ReportMoving(true))));
    assert!(matches!(g.take_outgoing(), Some(OutMsg::ReportMoving(false))));
    assert!(g.take_outgoing().is_none());
}

#[test]
fn outbound_overflow_drops_the_oldest() {
    let mut g = Gateway::new(10, 2);
    g.send(OutMsg::ReportAutoWater(true));
    g.send(OutMsg::ReportAutoCheck(true));
    g.send(OutMsg::ReportWatering(false));
    assert!(matches!(g.take_outgoing(), Some(OutMsg::ReportAutoCheck(true))));
    assert!(matches!(g.take_outgoing(), Some(OutMsg::ReportWatering(false))));
    assert!(g.take_outgoing().is_none());
}

#[test]
fn inbound_overflow_drops_the_newcomer() {
    let mut g = Gateway::new(2, 10);
    g.send_myself(InMsg::GetAutoWater);
    g.send_myself(InMsg::GetAutoCheck);
    g.send_myself(InMsg::Shutdown);
    assert_eq!(g.recv(), Some(InMsg::GetAutoWater));
    assert_eq!(g.recv(), Some(InMsg::GetAutoCheck));
    assert_eq!(g.recv(), None);
}

#[test]
fn has_msg_sees_pending_commands() {
    let mut g = Gateway::new(4, 4);
    assert!(!g.has_msg());
    g.send_myself(InMsg::GetReport);
    assert!(g.has_msg());
    let _ = g.recv();
    assert!(!g.has_msg());
}
