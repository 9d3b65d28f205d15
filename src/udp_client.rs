use crate::bus::{NetSpeed, Slot, WiFiConnectStatus};
use vstd::prelude::*;

verus! {

/// Length of a datagram that carries the direct and proxy rates.
pub const V1_LEN: usize = 32;

/// Length of a datagram that also carries the bypass rates.
pub const V2_LEN: usize = 48;

/// Pause after each heartbeat while connected, in milliseconds.
pub const HEARTBEAT_INTERVAL_MS: u64 = 5000;

/// Pause before looking at the connection again while not connected.
pub const STATUS_RETRY_MS: u64 = 10;

/// The unsigned integer whose little-endian bytes are `b`.
pub open spec fn le_value(b: Seq<u8>) -> nat
    decreases b.len(),
{
    if b.len() == 0 {
        0
    } else {
        b[0] as nat + 256 * le_value(b.drop_first())
    }
}

pub open spec fn pow256(n: nat) -> nat
    decreases n,
{
    if n == 0 {
        1
    } else {
        256 * pow256((n - 1) as nat)
    }
}

/// The `k`-th little-endian 8-byte word of `p`.
pub open spec fn word_at(p: Seq<u8>, k: int) -> u64 {
    le_value(p.subrange(8 * k, 8 * k + 8)) as u64
}

/// The rates that a datagram carries: the direct and proxy rates when it
/// holds at least 32 bytes, the bypass rates too when it holds exactly 48.
/// Every rate that the datagram does not cover is zero.
pub open spec fn decoded(p: Seq<u8>) -> NetSpeed {
    let v1 = p.len() >= V1_LEN;
    let v2 = p.len() == V2_LEN;
    NetSpeed {
        direct_up_bps: if v1 { word_at(p, 0) } else { 0 },
        direct_down_bps: if v1 { word_at(p, 1) } else { 0 },
        proxy_up_bps: if v1 { word_at(p, 2) } else { 0 },
        proxy_down_bps: if v1 { word_at(p, 3) } else { 0 },
        bypass_up_bps: if v2 { word_at(p, 4) } else { 0 },
        bypass_down_bps: if v2 { word_at(p, 5) } else { 0 },
    }
}

proof fn pow256_monotonic(m: nat, n: nat)
    requires
        m <= n,
    ensures
        pow256(m) <= pow256(n),
    decreases n,
{
    if m < n {
        pow256_monotonic(m, (n - 1) as nat);
    }
}

/// Reads the little-endian `u64` that starts at `at`.
fn read_le_u64(buf: &[u8], at: usize) -> (r: u64)
    requires
        at + 8 <= buf@.len(),
    ensures
        r as nat == le_value(buf@.subrange(at as int, at + 8)),
{
    let len = buf.len();
    let mut acc: u64 = 0;
    let mut k: usize = 8;
    proof {
        reveal_with_fuel(pow256, 9);
        assert(pow256(8) == 0x1_0000_0000_0000_0000);
    }
    while k > 0
        invariant
            k <= 8,
            at + 8 <= buf@.len(),
            len == buf@.len(),
            acc as nat == le_value(buf@.subrange(at + k, at + 8)),
            acc < pow256((8 - k) as nat),
            pow256(8) == 0x1_0000_0000_0000_0000,
        decreases k,
    {
        let ghost old_acc = acc;
        k = k - 1;
        let b = buf[at + k];
        proof {
            pow256_monotonic((9 - k - 1) as nat, 8);
            assert(pow256((8 - k) as nat) == 256 * pow256((7 - k) as nat));
            assert(old_acc * 256 + b < 256 * pow256((7 - k) as nat)) by (nonlinear_arith)
                requires
                    old_acc < pow256((7 - k) as nat),
                    b < 256,
            ;
            assert(buf@.subrange(at + k, at + 8).drop_first() == buf@.subrange(at + k + 1, at + 8));
        }
        acc = acc * 256 + b as u64;
    }
    acc
}

/// Decodes a telemetry datagram. A length other than 32 or 48 is no error:
/// the rates that it does not cover stay zero.
pub fn decode_net_speed(packet: &[u8]) -> (r: NetSpeed)
    ensures
        r == decoded(packet@),
{
    let mut speed = NetSpeed::default();
    if packet.len() >= V1_LEN {
        speed.direct_up_bps = read_le_u64(packet, 0);
        speed.direct_down_bps = read_le_u64(packet, 8);
        speed.proxy_up_bps = read_le_u64(packet, 16);
        speed.proxy_down_bps = read_le_u64(packet, 24);
    }
    if packet.len() == V2_LEN {
        speed.bypass_up_bps = read_le_u64(packet, 32);
        speed.bypass_down_bps = read_le_u64(packet, 40);
    }
    speed
}

/// Decodes a received datagram and publishes it, whatever its length.
pub fn receive_msg(slot: &mut Slot<NetSpeed>, packet: &[u8])
    ensures
        final(slot)@ == decoded(packet@),
{
    let speed = decode_net_speed(packet);
    slot.write(speed);
}

/// The datagram that keeps the peer's session alive.
pub fn heartbeat() -> (r: [u8; 2])
    ensures
        r@ == seq![1u8, 0u8],
{
    [0x01, 0x00]
}

/// What the keep-alive task does next.
#[derive(Debug, Clone, Copy, PartialEq, Eq, Structural)]
pub struct KeepAliveStep {
    /// Whether to send the heartbeat now.
    pub send: bool,
    /// How long to pause afterwards, in milliseconds.
    pub wait_ms: u64,
}

/// Decides the keep-alive task's next step from the connection status: a
/// heartbeat and a long pause while connected, a short pause otherwise.
pub fn keep_alive(status: WiFiConnectStatus) -> (r: KeepAliveStep)
    ensures
        r.send == (status == WiFiConnectStatus::Connected),
        r.wait_ms == if r.send { HEARTBEAT_INTERVAL_MS } else { STATUS_RETRY_MS },
{
    match status {
        WiFiConnectStatus::Connected => KeepAliveStep { send: true, wait_ms: HEARTBEAT_INTERVAL_MS },
        _ => KeepAliveStep { send: false, wait_ms: STATUS_RETRY_MS },
    }
}

} // verus!
