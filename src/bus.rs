use crate::text::{decimal, decimal_string};
use vstd::prelude::*;
use vstd::string::StringExecFns;

verus! {

pub const KIB: u64 = 1024;

pub const MIB: u64 = 1048576;

pub const GIB: u64 = 1073741824;

pub const TIB: u64 = 1099511627776;

/// Upstream and downstream rate of a single link, in bytes per second.
#[derive(Debug, Clone, Copy, PartialEq, Eq, Structural)]
pub struct NetDataTrafficSpeed {
    pub up: u32,
    pub down: u32,
}

impl Default for NetDataTrafficSpeed {
    fn default() -> (r: Self)
        ensures
            r.up == 0,
            r.down == 0,
    {
        NetDataTrafficSpeed { up: 0, down: 0 }
    }
}

impl NetDataTrafficSpeed {
    /// The text `up: <up>B, down: <down>B`.
    pub open spec fn text(self) -> Seq<char> {
        "up: "@ + decimal(self.up as nat) + "B, down: "@ + decimal(self.down as nat) + "B"@
    }

    pub fn describe(&self) -> (r: String)
        ensures
            r@ == self.text(),
    {
        let mut s = String::from_str("up: ");
        let up = decimal_string(self.up as u64);
        s.append(up.as_str());
        s.append("B, down: ");
        let down = decimal_string(self.down as u64);
        s.append(down.as_str());
        s.append("B");
        s
    }
}

/// Coarse state of the network connection.
#[derive(Debug, Clone, Copy, PartialEq, Eq, Structural)]
pub enum WiFiConnectStatus {
    Connecting,
    Connected,
    Failed,
}

impl WiFiConnectStatus {
    pub open spec fn text(self) -> Seq<char> {
        match self {
            WiFiConnectStatus::Connecting => "Connecting"@,
            WiFiConnectStatus::Connected => "Connected"@,
            WiFiConnectStatus::Failed => "Failed"@,
        }
    }

    /// The name of the state.
    pub fn name(&self) -> (r: &'static str)
        ensures
            r@ == self.text(),
    {
        match self {
            WiFiConnectStatus::Connecting => "Connecting",
            WiFiConnectStatus::Connected => "Connected",
            WiFiConnectStatus::Failed => "Failed",
        }
    }
}

/// Rates of the three traffic classes, each up and down, in bytes per second.
#[derive(Debug, Clone, Copy, PartialEq, Eq, Structural)]
pub struct NetSpeed {
    pub direct_up_bps: u64,
    pub direct_down_bps: u64,
    pub proxy_up_bps: u64,
    pub proxy_down_bps: u64,
    pub bypass_up_bps: u64,
    pub bypass_down_bps: u64,
}

/// One of the six rates of a `NetSpeed`.
#[derive(Debug, Clone, Copy, PartialEq, Eq, Structural)]
pub enum SpeedField {
    DirectUp,
    DirectDown,
    ProxyUp,
    ProxyDown,
    BypassUp,
    BypassDown,
}

impl Default for NetSpeed {
    fn default() -> (r: Self)
        ensures
            r == NetSpeed::zero(),
    {
        NetSpeed {
            direct_up_bps: 0,
            direct_down_bps: 0,
            proxy_up_bps: 0,
            proxy_down_bps: 0,
            bypass_up_bps: 0,
            bypass_down_bps: 0,
        }
    }
}

/// A rate scaled to its unit: the number shown and the unit's letter. A rate
/// moves up to the next unit only when it is more than twice that unit, so a
/// label does not flap between "1023B" and "1K".
pub open spec fn human_readable(v: nat) -> (nat, Seq<char>) {
    if v > 2 * TIB {
        (v / (TIB as nat), "T"@)
    } else if v > 2 * GIB {
        (v / (GIB as nat), "G"@)
    } else if v > 2 * MIB {
        (v / (MIB as nat), "M"@)
    } else if v > 2 * KIB {
        (v / (KIB as nat), "K"@)
    } else {
        (v, "B"@)
    }
}

/// The label of a rate: the scaled number in decimal, then the unit's letter.
pub open spec fn human_readable_text(v: nat) -> Seq<char> {
    decimal(human_readable(v).0) + human_readable(v).1
}

impl NetSpeed {
    pub open spec fn zero() -> NetSpeed {
        NetSpeed {
            direct_up_bps: 0,
            direct_down_bps: 0,
            proxy_up_bps: 0,
            proxy_down_bps: 0,
            bypass_up_bps: 0,
            bypass_down_bps: 0,
        }
    }

    pub open spec fn field_spec(self, field: SpeedField) -> u64 {
        match field {
            SpeedField::DirectUp => self.direct_up_bps,
            SpeedField::DirectDown => self.direct_down_bps,
            SpeedField::ProxyUp => self.proxy_up_bps,
            SpeedField::ProxyDown => self.proxy_down_bps,
            SpeedField::BypassUp => self.bypass_up_bps,
            SpeedField::BypassDown => self.bypass_down_bps,
        }
    }

    /// The text `direct_bps: (a, b), proxy_bps: (c, d), bypass_bps: (e, f)`.
    pub open spec fn text(self) -> Seq<char> {
        "direct_bps: ("@ + decimal(self.direct_up_bps as nat) + ", "@ + decimal(
            self.direct_down_bps as nat,
        ) + "), proxy_bps: ("@ + decimal(self.proxy_up_bps as nat) + ", "@ + decimal(
            self.proxy_down_bps as nat,
        ) + "), bypass_bps: ("@ + decimal(self.bypass_up_bps as nat) + ", "@ + decimal(
            self.bypass_down_bps as nat,
        ) + ")"@
    }

    /// The rate that `field` names.
    pub fn field(&self, field: SpeedField) -> (r: u64)
        ensures
            r == self.field_spec(field),
    {
        match field {
            SpeedField::DirectUp => self.direct_up_bps,
            SpeedField::DirectDown => self.direct_down_bps,
            SpeedField::ProxyUp => self.proxy_up_bps,
            SpeedField::ProxyDown => self.proxy_down_bps,
            SpeedField::BypassUp => self.bypass_up_bps,
            SpeedField::BypassDown => self.bypass_down_bps,
        }
    }

    /// Scales a rate to the largest unit that it exceeds twice over.
    pub fn to_human_readable(value: u64) -> (r: (u64, &'static str))
        ensures
            r.0 as nat == human_readable(value as nat).0,
            r.1@ == human_readable(value as nat).1,
    {
        if value > 2 * TIB {
            (value / TIB, "T")
        } else if value > 2 * GIB {
            (value / GIB, "G")
        } else if value > 2 * MIB {
            (value / MIB, "M")
        } else if value > 2 * KIB {
            (value / KIB, "K")
        } else {
            (value, "B")
        }
    }

    /// The label of a rate, such as "2047B" or "2K".
    pub fn to_human_readable_str(value: u64) -> (r: String)
        ensures
            r@ == human_readable_text(value as nat),
    {
        let (num, unit) = Self::to_human_readable(value);
        let mut s = decimal_string(num);
        s.append(unit);
        s
    }

    /// The label of the rate that `field` names.
    pub fn get_bps_str(&self, field: SpeedField) -> (r: String)
        ensures
            r@ == human_readable_text(self.field_spec(field) as nat),
    {
        Self::to_human_readable_str(self.field(field))
    }

    pub fn describe(&self) -> (r: String)
        ensures
            r@ == self.text(),
    {
        let mut s = String::from_str("direct_bps: (");
        s.append(decimal_string(self.direct_up_bps).as_str());
        s.append(", ");
        s.append(decimal_string(self.direct_down_bps).as_str());
        s.append("), proxy_bps: (");
        s.append(decimal_string(self.proxy_up_bps).as_str());
        s.append(", ");
        s.append(decimal_string(self.proxy_down_bps).as_str());
        s.append("), bypass_bps: (");
        s.append(decimal_string(self.bypass_up_bps).as_str());
        s.append(", ");
        s.append(decimal_string(self.bypass_down_bps).as_str());
        s.append(")");
        s
    }
}

/// A shared cell that holds the latest value written to it. In a running
/// system it sits behind a lock held only for the copy in or out.
pub struct Slot<T> {
    value: T,
}

impl<T> View for Slot<T> {
    type V = T;

    closed spec fn view(&self) -> T {
        self.value
    }
}

impl<T: Copy> Slot<T> {
    pub fn new(value: T) -> (r: Self)
        ensures
            r@ == value,
    {
        Slot { value }
    }

    /// Replaces whatever the slot held.
    pub fn write(&mut self, value: T)
        ensures
            final(self)@ == value,
    {
        self.value = value;
    }

    /// The value of the latest write.
    pub fn read(&self) -> (r: T)
        ensures
            r == self@,
    {
        self.value
    }
}

/// One access to a slot, as the lock orders them.
pub enum SlotAccess<T> {
    Write(T),
    Read,
}

/// What a slot holds after `accesses`, starting from `init`, as `write` states it.
pub open spec fn slot_after<T>(init: T, accesses: Seq<SlotAccess<T>>) -> T
    decreases accesses.len(),
{
    if accesses.len() == 0 {
        init
    } else {
        let held = slot_after(init, accesses.drop_last());
        match accesses.last() {
            SlotAccess::Write(v) => v,
            SlotAccess::Read => held,
        }
    }
}

/// What each read among `accesses` returns, in order, as `read` states it.
pub open spec fn slot_reads<T>(init: T, accesses: Seq<SlotAccess<T>>) -> Seq<T>
    decreases accesses.len(),
{
    if accesses.len() == 0 {
        Seq::empty()
    } else {
        let earlier = slot_reads(init, accesses.drop_last());
        match accesses.last() {
            SlotAccess::Write(v) => earlier,
            SlotAccess::Read => earlier.push(slot_after(init, accesses.drop_last())),
        }
    }
}

pub open spec fn writes_of<T>(values: Seq<T>) -> Seq<SlotAccess<T>> {
    Seq::new(values.len(), |i: int| SlotAccess::Write(values[i]))
}

/// Latest write wins: after any non-empty run of writes with no read between
/// them, a read returns exactly the last value written.
pub proof fn latest_write_wins<T>(init: T, values: Seq<T>)
    requires
        values.len() > 0,
    ensures
        slot_reads(init, writes_of(values).push(SlotAccess::Read)) == seq![values.last()],
{
    let ws = writes_of(values);
    assert(ws.push(SlotAccess::Read).drop_last() == ws);
    assert(ws.drop_last() == writes_of(values.drop_last()));
    reads_of_writes_are_empty(init, values);
    assert(ws.last() == SlotAccess::Write(values.last()));
}

proof fn reads_of_writes_are_empty<T>(init: T, values: Seq<T>)
    ensures
        slot_reads(init, writes_of(values)) == Seq::<T>::empty(),
    decreases values.len(),
{
    if values.len() > 0 {
        assert(writes_of(values).drop_last() == writes_of(values.drop_last()));
        reads_of_writes_are_empty(init, values.drop_last());
    }
}

/// No tearing: however reads and writes of a slot interleave, every read
/// returns a whole value, either the initial one or one that a single write
/// put there, never a mixture of the fields of two values.
pub proof fn reads_are_whole<T>(init: T, accesses: Seq<SlotAccess<T>>, i: int)
    requires
        0 <= i < slot_reads(init, accesses).len(),
    ensures
        slot_reads(init, accesses)[i] == init || exists|j: int|
            0 <= j < accesses.len() && accesses[j] == SlotAccess::Write(
                #[trigger] slot_reads(init, accesses)[i],
            ),
    decreases accesses.len(),
{
    let prefix = accesses.drop_last();
    held_is_whole(init, prefix);
    if i < slot_reads(init, prefix).len() {
        reads_are_whole(init, prefix, i);
        if slot_reads(init, accesses)[i] != init {
            let j = choose|j: int|
                0 <= j < prefix.len() && prefix[j] == SlotAccess::Write(
                    #[trigger] slot_reads(init, prefix)[i],
                );
            assert(accesses[j] == prefix[j]);
        }
    } else if slot_reads(init, accesses)[i] != init {
        let j = choose|j: int|
            0 <= j < prefix.len() && prefix[j] == SlotAccess::Write(slot_after(init, prefix));
        assert(accesses[j] == prefix[j]);
    }
}

proof fn held_is_whole<T>(init: T, accesses: Seq<SlotAccess<T>>)
    ensures
        slot_after(init, accesses) == init || exists|j: int|
            0 <= j < accesses.len() && accesses[j] == SlotAccess::Write(slot_after(init, accesses)),
    decreases accesses.len(),
{
    if accesses.len() > 0 {
        let prefix = accesses.drop_last();
        held_is_whole(init, prefix);
        match accesses.last() {
            SlotAccess::Write(v) => {
                assert(accesses[accesses.len() - 1] == SlotAccess::Write(v));
            },
            SlotAccess::Read => {
                if slot_after(init, accesses) != init {
                    let j = choose|j: int|
                        0 <= j < prefix.len() && prefix[j] == SlotAccess::Write(
                            slot_after(init, prefix),
                        );
                    assert(accesses[j] == prefix[j]);
                }
            },
        }
    }
}

} // verus!
