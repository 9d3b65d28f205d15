use netspeed::bus::{NetSpeed, Slot, WiFiConnectStatus};
use netspeed::udp_client::{decode_net_speed, heartbeat, keep_alive, receive_msg, KeepAliveStep};

fn packet(words: &[u64]) -> Vec<u8> {
    let mut p = Vec::new();
    for w in words {
        p.extend_from_slice(&w.to_le_bytes());
    }
    p
}

#[test]
fn decode_32_bytes_leaves_bypass_zero() {
    let p = packet(&[1, 2, 3, 0x0102_0304_0506_0708]);
    let s = decode_net_speed(&p);
    assert_eq!(
        s,
        NetSpeed {
            direct_up_bps: 1,
            direct_down_bps: 2,
            proxy_up_bps: 3,
            proxy_down_bps: 0x0102_0304_0506_0708,
            bypass_up_bps: 0,
            bypass_down_bps: 0,
        }
    );
}

#[test]
fn decode_48_bytes_reads_all_six() {
    let p = packet(&[10, 20, 30, 40, 50, u64::MAX]);
    let s = decode_net_speed(&p);
    assert_eq!(
        s,
        NetSpeed {
            direct_up_bps: 10,
            direct_down_bps: 20,
            proxy_up_bps: 30,
            proxy_down_bps: 40,
            bypass_up_bps: 50,
            bypass_down_bps: u64::MAX,
        }
    );
}

#[test]
fn decode_other_lengths_give_zeros() {
    assert_eq!(decode_net_speed(&[0xffu8; 10]), NetSpeed::default());
    assert_eq!(decode_net_speed(&[]), NetSpeed::default());
    assert_eq!(decode_net_speed(&[0xffu8; 31]), NetSpeed::default());
}

#[test]
fn decode_40_bytes_reads_first_four_only() {
    let p = packet(&[5, 6, 7, 8, 9]);
    let s = decode_net_speed(&p);
    assert_eq!(s.proxy_down_bps, 8);
    assert_eq!(s.bypass_up_bps, 0);
    assert_eq!(s.bypass_down_bps, 0);
}

#[test]
fn received_datagram_is_published() {
    let mut slot = Slot::new(NetSpeed::default());
    receive_msg(&mut slot, &packet(&[1, 2, 3, 4, 5, 6]));
    assert_eq!(slot.read().bypass_down_bps, 6);
    receive_msg(&mut slot, &[1u8, 2, 3]);
    assert_eq!(slot.read(), NetSpeed::default());
}

#[test]
fn heartbeat_is_two_bytes() {
    assert_eq!(heartbeat(), [0x01, 0x00]);
}

#[test]
fn keep_alive_sends_only_when_connected() {
    assert_eq!(
        keep_alive(WiFiConnectStatus::Connected),
        KeepAliveStep { send: true, wait_ms: 5000 }
    );
    assert_eq!(
        keep_alive(WiFiConnectStatus::Connecting),
        KeepAliveStep { send: false, wait_ms: 10 }
    );
    assert_eq!(
        keep_alive(WiFiConnectStatus::Failed),
        KeepAliveStep { send: false, wait_ms: 10 }
    );
}
