use crate::bus::{NetDataTrafficSpeed, Slot, WiFiConnectStatus};
use vstd::prelude::*;
use vstd::string::StringExecFns;

verus! {

/// Pause before trying again while not connected or after a failed poll.
pub const POLL_IDLE_MS: u64 = 100;

/// What one poll of the statistics endpoint brought back, with the rates
/// already made non-negative whole numbers.
#[derive(Debug, Clone, PartialEq, Eq)]
pub struct StatsReading {
    /// The server's sampling period, in seconds.
    pub update_every: u32,
    /// The latest rates: received first, then sent.
    pub latest_values: Vec<u32>,
}

/// When to poll next.
#[derive(Debug, Clone, Copy, PartialEq, Eq, Structural)]
pub enum NextPoll {
    /// At this absolute time, in milliseconds.
    At(u64),
    /// After this pause, in milliseconds.
    After(u64),
}

/// The path and query that ask the statistics API for the latest received and
/// sent rates of `chart`.
pub open spec fn stats_url_spec(base: Seq<char>, chart: Seq<char>) -> Seq<char> {
    base + "/api/v1/data?after=-1&chart="@ + chart
        + "&dimensions=received|sent&format=json&group=average&gtime=0&options=absolute|jsonwrap|nonzero&points=1&timeout=100"@
}

/// The sample that the latest values give: sent is up, received is down.
pub open spec fn sample_of(latest: Seq<u32>) -> Option<NetDataTrafficSpeed> {
    if latest.len() >= 2 {
        Some(NetDataTrafficSpeed { up: latest[1], down: latest[0] })
    } else {
        None
    }
}

/// When the next poll is due after one that started at `started` and
/// succeeded: one server period later, or as late as the clock goes.
pub open spec fn due_after(started: u64, update_every: u32) -> u64 {
    if started + update_every * 1000 <= u64::MAX {
        (started + update_every * 1000) as u64
    } else {
        u64::MAX
    }
}

/// The URL that asks the statistics server at `base` (such as
/// `http://host:port`) for the latest rates of `chart`.
pub fn stats_url(base: &str, chart: &str) -> (r: String)
    ensures
        r@ == stats_url_spec(base@, chart@),
{
    let mut url = String::from_str(base);
    url.append("/api/v1/data?after=-1&chart=");
    url.append(chart);
    url.append(
        "&dimensions=received|sent&format=json&group=average&gtime=0&options=absolute|jsonwrap|nonzero&points=1&timeout=100",
    );
    url
}

/// A producer polls only while connected.
pub fn poll_gate(status: WiFiConnectStatus) -> (r: bool)
    ensures
        r == (status == WiFiConnectStatus::Connected),
{
    match status {
        WiFiConnectStatus::Connected => true,
        _ => false,
    }
}

/// The sample that the latest values give, if there are two of them.
pub fn latest_sample(latest: &[u32]) -> (r: Option<NetDataTrafficSpeed>)
    ensures
        r == sample_of(latest@),
{
    if latest.len() >= 2 {
        Some(NetDataTrafficSpeed { up: latest[1], down: latest[0] })
    } else {
        None
    }
}

/// Ends a poll that started at `started`. A reading with a whole sample is
/// published and the next poll waits for the server's period; anything else
/// (a transport or parse failure, or too few values) publishes nothing and
/// retries after the short pause.
pub fn complete_poll(slot: &mut Slot<NetDataTrafficSpeed>, started: u64, reading: Option<StatsReading>) -> (r:
    NextPoll)
    ensures
        match reading {
            Some(rd) if sample_of(rd.latest_values@) is Some => {
                &&& final(slot)@ == sample_of(rd.latest_values@).unwrap()
                &&& r == NextPoll::At(due_after(started, rd.update_every))
            },
            _ => {
                &&& final(slot)@ == old(slot)@
                &&& r == NextPoll::After(POLL_IDLE_MS)
            },
        },
{
    match reading {
        Some(rd) => match latest_sample(rd.latest_values.as_slice()) {
            Some(sample) => {
                slot.write(sample);
                let period: u64 = rd.update_every as u64 * 1000;
                if started <= u64::MAX - period {
                    NextPoll::At(started + period)
                } else {
                    NextPoll::At(u64::MAX)
                }
            },
            None => NextPoll::After(POLL_IDLE_MS),
        },
        None => NextPoll::After(POLL_IDLE_MS),
    }
}

} // verus!
