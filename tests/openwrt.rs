use netspeed::bus::{NetDataTrafficSpeed, Slot, WiFiConnectStatus};
use netspeed::openwrt::{complete_poll, latest_sample, poll_gate, stats_url, NextPoll, StatsReading};

#[test]
fn url_for_wan_chart() {
    assert_eq!(
        stats_url("http://192.168.31.1:19990", "net.pppoe-wan"),
        "http://192.168.31.1:19990/api/v1/data?after=-1&chart=net.pppoe-wan&dimensions=received|sent&format=json&group=average&gtime=0&options=absolute|jsonwrap|nonzero&points=1&timeout=100"
    );
}

#[test]
fn latest_values_map_to_down_and_up() {
    assert_eq!(latest_sample(&[300, 40]), Some(NetDataTrafficSpeed { up: 40, down: 300 }));
    assert_eq!(latest_sample(&[300]), None);
    assert_eq!(latest_sample(&[]), None);
}

#[test]
fn successful_poll_publishes_and_waits_server_period() {
    let mut slot = Slot::new(NetDataTrafficSpeed::default());
    let reading = StatsReading { update_every: 2, latest_values: vec![1000, 20] };
    let next = complete_poll(&mut slot, 5000, Some(reading));
    assert_eq!(next, NextPoll::At(7000));
    assert_eq!(slot.read(), NetDataTrafficSpeed { up: 20, down: 1000 });
}

#[test]
fn failed_poll_publishes_nothing() {
    let mut slot = Slot::new(NetDataTrafficSpeed { up: 1, down: 2 });
    assert_eq!(complete_poll(&mut slot, 5000, None), NextPoll::After(100));
    let short = StatsReading { update_every: 1, latest_values: vec![7] };
    assert_eq!(complete_poll(&mut slot, 5000, Some(short)), NextPoll::After(100));
    assert_eq!(slot.read(), NetDataTrafficSpeed { up: 1, down: 2 });
}

#[test]
fn poll_schedule_saturates() {
    let mut slot = Slot::new(NetDataTrafficSpeed::default());
    let reading = StatsReading { update_every: u32::MAX, latest_values: vec![1, 2] };
    assert_eq!(complete_poll(&mut slot, u64::MAX - 10, Some(reading)), NextPoll::At(u64::MAX));
}

#[test]
fn polls_only_when_connected() {
    assert!(poll_gate(WiFiConnectStatus::Connected));
    assert!(!poll_gate(WiFiConnectStatus::Connecting));
    assert!(!poll_gate(WiFiConnectStatus::Failed));
}
