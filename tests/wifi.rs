use netspeed::bus::WiFiConnectStatus;
use netspeed::wifi::{
    association_action, connect_backoff_ms, AssociationAction, Ipv4Lease, LinkMonitor, LinkStep,
};

fn lease() -> Ipv4Lease {
    Ipv4Lease { address: [192, 168, 31, 40], prefix_len: 24, gateway: Some([192, 168, 31, 1]) }
}

#[test]
fn address_acquired_then_link_down() {
    let mut m = LinkMonitor::new();
    assert_eq!(m.status(), WiFiConnectStatus::Connecting);
    let step = m.observe(true, Some(lease()));
    assert_eq!(step, LinkStep { publish: Some(WiFiConnectStatus::Connected), wait_ms: 100 });
    assert_eq!(m.status(), WiFiConnectStatus::Connected);
    assert_eq!(m.lease(), Some(lease()));
    for _ in 0..3 {
        let step = m.observe(true, Some(lease()));
        assert_eq!(step, LinkStep { publish: None, wait_ms: 100 });
    }
    let step = m.observe(false, None);
    assert_eq!(step, LinkStep { publish: Some(WiFiConnectStatus::Connecting), wait_ms: 100 });
    assert_eq!(m.lease(), None);
    assert_eq!(m.status(), WiFiConnectStatus::Connecting);
}

#[test]
fn link_up_without_lease_keeps_waiting() {
    let mut m = LinkMonitor::new();
    let step = m.observe(true, None);
    assert_eq!(step, LinkStep { publish: None, wait_ms: 500 });
    assert_eq!(m.status(), WiFiConnectStatus::Connecting);
}

#[test]
fn link_down_without_lease_republishes_connecting() {
    let mut m = LinkMonitor::new();
    let step = m.observe(false, Some(lease()));
    assert_eq!(step, LinkStep { publish: Some(WiFiConnectStatus::Connecting), wait_ms: 100 });
    assert_eq!(m.lease(), None);
}

#[test]
fn association_decisions() {
    assert_eq!(association_action(true, true), AssociationAction::AwaitDisconnect);
    assert_eq!(association_action(false, false), AssociationAction::Start);
    assert_eq!(association_action(false, true), AssociationAction::Connect);
    assert_eq!(connect_backoff_ms(true), 0);
    assert_eq!(connect_backoff_ms(false), 5000);
}
