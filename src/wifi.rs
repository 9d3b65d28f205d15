use crate::bus::WiFiConnectStatus;
use vstd::prelude::*;

verus! {

/// Pause between two looks at the link, in milliseconds.
pub const LINK_POLL_MS: u64 = 100;

/// Pause while the link is up and no address has been handed out yet.
pub const ADDRESS_POLL_MS: u64 = 500;

/// Pause before associating again after a disconnection or a failed attempt.
pub const RECONNECT_BACKOFF_MS: u64 = 5000;

/// An IPv4 address lease: the address, its prefix length and the gateway.
#[derive(Debug, Clone, Copy, PartialEq, Eq)]
pub struct Ipv4Lease {
    pub address: [u8; 4],
    pub prefix_len: u8,
    pub gateway: Option<[u8; 4]>,
}

/// What the link monitor does after one look at the link.
#[derive(Debug, Clone, Copy, PartialEq, Eq, Structural)]
pub struct LinkStep {
    /// The status to publish, if any.
    pub publish: Option<WiFiConnectStatus>,
    /// How long to pause before the next look, in milliseconds.
    pub wait_ms: u64,
}

/// The status that a cached lease stands for.
pub open spec fn status_of(lease: Option<Ipv4Lease>) -> WiFiConnectStatus {
    if lease is Some {
        WiFiConnectStatus::Connected
    } else {
        WiFiConnectStatus::Connecting
    }
}

/// One look at the link: whether it is up, and the lease the network stack
/// offers. Gives the cached lease afterwards and the step to take.
/// - Link up, nothing cached, a lease offered: cache it, publish `Connected`.
/// - Link up, nothing cached, none offered: keep waiting for one, quietly.
/// - Link down: drop any cached lease and publish `Connecting`.
/// - Link up with a lease cached: nothing to do.
pub open spec fn link_step(lease: Option<Ipv4Lease>, link_up: bool, offered: Option<Ipv4Lease>) -> (
    Option<Ipv4Lease>,
    LinkStep,
) {
    if link_up && lease is None {
        if offered is Some {
            (offered, LinkStep { publish: Some(WiFiConnectStatus::Connected), wait_ms: LINK_POLL_MS })
        } else {
            (None, LinkStep { publish: None, wait_ms: ADDRESS_POLL_MS })
        }
    } else if !link_up {
        (None, LinkStep { publish: Some(WiFiConnectStatus::Connecting), wait_ms: LINK_POLL_MS })
    } else {
        (lease, LinkStep { publish: None, wait_ms: LINK_POLL_MS })
    }
}

/// Follows the link and the address lease and decides when the connection
/// status changes.
pub struct LinkMonitor {
    lease: Option<Ipv4Lease>,
}

impl View for LinkMonitor {
    type V = Option<Ipv4Lease>;

    closed spec fn view(&self) -> Option<Ipv4Lease> {
        self.lease
    }
}

impl LinkMonitor {
    /// A monitor with no lease, in the `Connecting` state.
    pub fn new() -> (r: Self)
        ensures
            r@ is None,
    {
        LinkMonitor { lease: None }
    }

    /// The lease cached now.
    pub fn lease(&self) -> (r: Option<Ipv4Lease>)
        ensures
            r == self@,
    {
        self.lease
    }

    /// The connection status: `Connected` exactly while a lease is cached.
    pub fn status(&self) -> (r: WiFiConnectStatus)
        ensures
            r == status_of(self@),
    {
        if self.lease.is_some() {
            WiFiConnectStatus::Connected
        } else {
            WiFiConnectStatus::Connecting
        }
    }

    /// Takes one look at the link and says what to publish and how long to
    /// pause.
    pub fn observe(&mut self, link_up: bool, offered: Option<Ipv4Lease>) -> (r: LinkStep)
        ensures
            (final(self)@, r) == link_step(old(self)@, link_up, offered),
    {
        if link_up && self.lease.is_none() {
            match offered {
                Some(lease) => {
                    self.lease = Some(lease);
                    LinkStep { publish: Some(WiFiConnectStatus::Connected), wait_ms: LINK_POLL_MS }
                },
                None => LinkStep { publish: None, wait_ms: ADDRESS_POLL_MS },
            }
        } else if !link_up {
            self.lease = None;
            LinkStep { publish: Some(WiFiConnectStatus::Connecting), wait_ms: LINK_POLL_MS }
        } else {
            LinkStep { publish: None, wait_ms: LINK_POLL_MS }
        }
    }
}

/// The lease cached after a run of looks at the link.
pub open spec fn lease_after(lease: Option<Ipv4Lease>, looks: Seq<(bool, Option<Ipv4Lease>)>) -> Option<
    Ipv4Lease,
>
    decreases looks.len(),
{
    if looks.len() == 0 {
        lease
    } else {
        let before = lease_after(lease, looks.drop_last());
        link_step(before, looks.last().0, looks.last().1).0
    }
}

/// What a run of looks at the link publishes, one entry per look.
pub open spec fn published_by(lease: Option<Ipv4Lease>, looks: Seq<(bool, Option<Ipv4Lease>)>) -> Seq<
    Option<WiFiConnectStatus>,
>
    decreases looks.len(),
{
    if looks.len() == 0 {
        Seq::empty()
    } else {
        let before = lease_after(lease, looks.drop_last());
        published_by(lease, looks.drop_last()).push(
            link_step(before, looks.last().0, looks.last().1).1.publish,
        )
    }
}

/// Looks at a link that stays up, with whatever the stack offers.
pub open spec fn link_up_looks(offers: Seq<Option<Ipv4Lease>>) -> Seq<(bool, Option<Ipv4Lease>)> {
    Seq::new(offers.len(), |i: int| (true, offers[i]))
}

proof fn quiet_while_up(lease: Ipv4Lease, offers: Seq<Option<Ipv4Lease>>)
    ensures
        lease_after(Some(lease), link_up_looks(offers)) == Some(lease),
        published_by(Some(lease), link_up_looks(offers)) == Seq::new(
            offers.len(),
            |i: int| None::<WiFiConnectStatus>,
        ),
    decreases offers.len(),
{
    let looks = link_up_looks(offers);
    if offers.len() == 0 {
        assert(published_by(Some(lease), looks) =~= Seq::new(0, |i: int| None::<WiFiConnectStatus>));
    } else {
        assert(looks.drop_last() =~= link_up_looks(offers.drop_last()));
        quiet_while_up(lease, offers.drop_last());
        assert(published_by(Some(lease), looks) =~= Seq::new(
            offers.len(),
            |i: int| None::<WiFiConnectStatus>,
        ));
    }
}

proof fn published_by_append(
    lease: Option<Ipv4Lease>,
    a: Seq<(bool, Option<Ipv4Lease>)>,
    b: Seq<(bool, Option<Ipv4Lease>)>,
)
    ensures
        lease_after(lease, a + b) == lease_after(lease_after(lease, a), b),
        published_by(lease, a + b) == published_by(lease, a) + published_by(
            lease_after(lease, a),
            b,
        ),
    decreases b.len(),
{
    if b.len() == 0 {
        assert(a + b =~= a);
        assert(published_by(lease, a) + published_by(lease_after(lease, a), b) =~= published_by(
            lease,
            a,
        ));
    } else {
        assert((a + b).drop_last() =~= a + b.drop_last());
        assert((a + b).last() == b.last());
        published_by_append(lease, a, b.drop_last());
        assert(published_by(lease, a + b) =~= published_by(lease, a) + published_by(
            lease_after(lease, a),
            b,
        ));
    }
}

/// One connection cycle: starting without a lease (`Connecting`), the look
/// at which the link is up and a lease is offered publishes `Connected`,
/// and it is published only that once while the link stays up, whatever is
/// offered then; the look at which the link goes down publishes `Connecting`
/// and drops the cached lease.
pub proof fn connection_cycle(lease: Ipv4Lease, offers: Seq<Option<Ipv4Lease>>)
    ensures
        ({
            let looks = seq![(true, Some(lease))] + link_up_looks(offers) + seq![
                (false, None::<Ipv4Lease>),
            ];
            &&& published_by(None, looks) == seq![Some(WiFiConnectStatus::Connected)] + Seq::new(
                offers.len(),
                |i: int| None::<WiFiConnectStatus>,
            ) + seq![Some(WiFiConnectStatus::Connecting)]
            &&& lease_after(None, looks) is None
        }),
{
    let first = seq![(true, Some(lease))];
    let last = seq![(false, None::<Ipv4Lease>)];
    let mid = link_up_looks(offers);
    reveal_with_fuel(published_by, 2);
    reveal_with_fuel(lease_after, 2);
    assert(first.drop_last() =~= Seq::<(bool, Option<Ipv4Lease>)>::empty());
    assert(last.drop_last() =~= Seq::<(bool, Option<Ipv4Lease>)>::empty());
    assert(lease_after(None, first) == Some(lease));
    assert(published_by(None, first) =~= seq![Some(WiFiConnectStatus::Connected)]);
    quiet_while_up(lease, offers);
    published_by_append(None, first, mid);
    published_by_append(None, first + mid, last);
    assert(published_by(Some(lease), last) =~= seq![Some(WiFiConnectStatus::Connecting)]);
}

/// What the association task does next.
#[derive(Debug, Clone, Copy, PartialEq, Eq, Structural)]
pub enum AssociationAction {
    /// Associated: wait for the disconnection, then pause and try again.
    AwaitDisconnect,
    /// The radio is not started: configure it and start it.
    Start,
    /// Try to associate.
    Connect,
}

/// Decides the association task's next action from whether the station is
/// associated and whether the radio is started.
pub fn association_action(associated: bool, started: bool) -> (r: AssociationAction)
    ensures
        r == if associated {
            AssociationAction::AwaitDisconnect
        } else if !started {
            AssociationAction::Start
        } else {
            AssociationAction::Connect
        },
{
    if associated {
        AssociationAction::AwaitDisconnect
    } else if !started {
        AssociationAction::Start
    } else {
        AssociationAction::Connect
    }
}

/// The pause after an attempt to associate: none after a success, the fixed
/// backoff after a failure, which is retried rather than reported as fatal.
pub fn connect_backoff_ms(succeeded: bool) -> (r: u64)
    ensures
        r == if succeeded { 0 } else { RECONNECT_BACKOFF_MS },
{
    if succeeded {
        0
    } else {
        RECONNECT_BACKOFF_MS
    }
}

} // verus!
