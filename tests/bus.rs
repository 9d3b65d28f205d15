use netspeed::bus::{NetDataTrafficSpeed, NetSpeed, Slot, SpeedField, WiFiConnectStatus};

fn sample(k: u64) -> NetSpeed {
    NetSpeed {
        direct_up_bps: k,
        direct_down_bps: k + 1,
        proxy_up_bps: k + 2,
        proxy_down_bps: k + 3,
        bypass_up_bps: k + 4,
        bypass_down_bps: k + 5,
    }
}

#[test]
fn latest_write_wins_after_many_writes() {
    let mut slot = Slot::new(NetSpeed::default());
    for k in 1..=10u64 {
        slot.write(sample(k * 100));
    }
    assert_eq!(slot.read(), sample(1000));
}

#[test]
fn read_returns_whole_sample_before_and_after_write() {
    let old = sample(7);
    let new = sample(9000);
    let mut slot = Slot::new(old);
    let before = slot.read();
    slot.write(new);
    let after = slot.read();
    assert_eq!(before, old);
    assert_eq!(after, new);
}

#[test]
fn status_slot_starts_connecting() {
    let slot = Slot::new(WiFiConnectStatus::Connecting);
    assert_eq!(slot.read(), WiFiConnectStatus::Connecting);
}

#[test]
fn human_readable_zero() {
    assert_eq!(NetSpeed::to_human_readable_str(0), "0B");
}

#[test]
fn human_readable_2047_bytes() {
    assert_eq!(NetSpeed::to_human_readable_str(2047), "2047B");
}

#[test]
fn human_readable_2048_stays_bytes() {
    assert_eq!(NetSpeed::to_human_readable_str(2048), "2048B");
}

#[test]
fn human_readable_2049_is_kilo() {
    assert_eq!(NetSpeed::to_human_readable_str(2049), "2K");
}

#[test]
fn human_readable_three_mebi_is_mega() {
    assert_eq!(NetSpeed::to_human_readable_str(3_145_728), "3M");
}

#[test]
fn human_readable_two_mebi_boundary_stays_kilo() {
    assert_eq!(NetSpeed::to_human_readable_str(2 * 1024 * 1024), "2048K");
    assert_eq!(NetSpeed::to_human_readable_str(2 * 1024 * 1024 + 1), "2M");
}

#[test]
fn human_readable_giga_and_tera() {
    assert_eq!(NetSpeed::to_human_readable(5 * 1024 * 1024 * 1024), (5, "G"));
    assert_eq!(NetSpeed::to_human_readable(u64::MAX), (16_777_215, "T"));
    assert_eq!(NetSpeed::to_human_readable_str(u64::MAX), "16777215T");
}

#[test]
fn human_readable_many_digits() {
    assert_eq!(NetSpeed::to_human_readable_str(1234), "1234B");
    assert_eq!(NetSpeed::to_human_readable_str(1_999_999), "1953K");
}

#[test]
fn field_labels_follow_fields() {
    let s = NetSpeed {
        direct_up_bps: 10,
        direct_down_bps: 3000,
        proxy_up_bps: 3_145_728,
        proxy_down_bps: 0,
        bypass_up_bps: 2049,
        bypass_down_bps: 5 * 1024 * 1024 * 1024,
    };
    assert_eq!(s.get_bps_str(SpeedField::DirectUp), "10B");
    assert_eq!(s.get_bps_str(SpeedField::DirectDown), "2K");
    assert_eq!(s.get_bps_str(SpeedField::ProxyUp), "3M");
    assert_eq!(s.get_bps_str(SpeedField::ProxyDown), "0B");
    assert_eq!(s.get_bps_str(SpeedField::BypassUp), "2K");
    assert_eq!(s.get_bps_str(SpeedField::BypassDown), "5G");
    assert_eq!(s.field(SpeedField::ProxyUp), 3_145_728);
}

#[test]
fn describe_texts() {
    let t = NetDataTrafficSpeed { up: 12, down: 3456 };
    assert_eq!(t.describe(), "up: 12B, down: 3456B");
    assert_eq!(NetDataTrafficSpeed::default(), NetDataTrafficSpeed { up: 0, down: 0 });
    assert_eq!(
        sample(1).describe(),
        "direct_bps: (1, 2), proxy_bps: (3, 4), bypass_bps: (5, 6)"
    );
    assert_eq!(WiFiConnectStatus::Connecting.name(), "Connecting");
    assert_eq!(WiFiConnectStatus::Connected.name(), "Connected");
    assert_eq!(WiFiConnectStatus::Failed.name(), "Failed");
}
