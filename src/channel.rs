use vstd::prelude::*;

verus! {

/// How many messages the channel keeps.
pub const CHANNEL_DEPTH: usize = 4;

/// How many subscribers the channel serves at once.
pub const MAX_SUBSCRIBERS: usize = 4;

/// What a subscriber gets when it asks for its next message.
#[derive(Debug, Clone, Copy, PartialEq, Eq)]
pub enum Received<T> {
    /// This many messages were dropped before the subscriber read them.
    Lagged(u64),
    Message(T),
    /// Nothing new: the subscriber waits for the next publication.
    Empty,
}

/// The abstract state of a channel. Messages are numbered in the order of
/// publication; `queue` holds those from number `first` on, and each
/// subscriber's cursor is the number of the next message it reads.
pub struct ChannelState<T> {
    pub queue: Seq<T>,
    pub first: u64,
    pub cursors: Seq<Option<u64>>,
    pub evicted: u64,
}

impl<T> ChannelState<T> {
    /// The number that the next message published gets.
    pub open spec fn end(self) -> int {
        self.first + self.queue.len()
    }

    pub open spec fn wf(self) -> bool {
        &&& self.queue.len() <= CHANNEL_DEPTH
        &&& self.cursors.len() == MAX_SUBSCRIBERS
        &&& self.end() <= u64::MAX
        &&& self.evicted <= self.first
        &&& forall|i: int|
            0 <= i < MAX_SUBSCRIBERS && (#[trigger] self.cursors[i]) is Some ==> self.cursors[i].unwrap()
                <= self.end()
    }

    pub open spec fn subscribed(self, id: int) -> bool {
        0 <= id < MAX_SUBSCRIBERS && self.cursors[id] is Some
    }

    /// The same state with the cursor of place `id` set to `c`.
    pub open spec fn with_cursor(self, id: int, c: Option<u64>) -> ChannelState<T> {
        ChannelState { cursors: self.cursors.update(id, c), ..self }
    }

    /// Some subscriber has not read the oldest message kept.
    pub open spec fn oldest_unread(self) -> bool {
        exists|i: int|
            0 <= i < MAX_SUBSCRIBERS && (#[trigger] self.cursors[i]) is Some
                && self.cursors[i].unwrap() <= self.first
    }
}

/// The state after publishing `v`: when the channel is full its oldest message
/// is dropped, and counted as evicted if a subscriber had not read it.
pub open spec fn published<T>(s: ChannelState<T>, v: T) -> ChannelState<T> {
    if s.queue.len() == CHANNEL_DEPTH {
        ChannelState {
            queue: s.queue.drop_first().push(v),
            first: (s.first + 1) as u64,
            cursors: s.cursors,
            evicted: if s.oldest_unread() { (s.evicted + 1) as u64 } else { s.evicted },
        }
    } else {
        ChannelState { queue: s.queue.push(v), ..s }
    }
}

/// The state after publishing each of `vs` in turn.
pub open spec fn published_all<T>(s: ChannelState<T>, vs: Seq<T>) -> ChannelState<T>
    decreases vs.len(),
{
    if vs.len() == 0 {
        s
    } else {
        published(published_all(s, vs.drop_last()), vs.last())
    }
}

/// Subscriber `id` asks for its next message: a lag notice if messages it had
/// not read were dropped (its cursor then moves to the oldest kept), else the
/// next message, else nothing.
pub open spec fn next_message_spec<T>(s: ChannelState<T>, id: int) -> (ChannelState<T>, Received<T>) {
    let c = s.cursors[id].unwrap();
    if c < s.first {
        (
            ChannelState { cursors: s.cursors.update(id, Some(s.first)), ..s },
            Received::Lagged((s.first - c) as u64),
        )
    } else if c < s.end() {
        (
            ChannelState { cursors: s.cursors.update(id, Some((c + 1) as u64)), ..s },
            Received::Message(s.queue[c - s.first]),
        )
    } else {
        (s, Received::Empty)
    }
}

/// What subscriber `id` gets from `k` requests in a row.
pub open spec fn received_n<T>(s: ChannelState<T>, id: int, k: nat) -> Seq<Received<T>>
    decreases k,
{
    if k == 0 {
        Seq::empty()
    } else {
        let (t, r) = next_message_spec(s, id);
        seq![r] + received_n(t, id, (k - 1) as nat)
    }
}

/// A bounded broadcast channel that never blocks its publisher: when full it
/// drops its oldest message, and a subscriber that missed messages is told
/// how many on its next request.
pub struct Broadcast<T> {
    queue: Vec<T>,
    first: u64,
    cursors: Vec<Option<u64>>,
    evicted: u64,
}

impl<T> View for Broadcast<T> {
    type V = ChannelState<T>;

    closed spec fn view(&self) -> ChannelState<T> {
        ChannelState {
            queue: self.queue@,
            first: self.first,
            cursors: self.cursors@,
            evicted: self.evicted,
        }
    }
}

impl<T: Copy> Broadcast<T> {
    /// An empty channel with no subscriber.
    pub fn new() -> (r: Self)
        ensures
            r@.wf(),
            r@.queue.len() == 0,
            r@.first == 0,
            r@.evicted == 0,
            forall|i: int| 0 <= i < MAX_SUBSCRIBERS ==> r@.cursors[i] is None,
    {
        let mut cursors: Vec<Option<u64>> = Vec::new();
        let mut i: usize = 0;
        while i < MAX_SUBSCRIBERS
            invariant
                i <= MAX_SUBSCRIBERS,
                cursors@.len() == i,
                forall|j: int| 0 <= j < i ==> cursors@[j] is None,
            decreases MAX_SUBSCRIBERS - i,
        {
            cursors.push(None);
            i = i + 1;
        }
        Broadcast { queue: Vec::new(), first: 0, cursors, evicted: 0 }
    }

    /// Messages dropped so far before every subscriber had read them.
    pub fn evicted(&self) -> (r: u64)
        ensures
            r == self@.evicted,
    {
        self.evicted
    }

    /// Messages published so far.
    pub fn published_count(&self) -> (r: u64)
        requires
            self@.wf(),
        ensures
            r == self@.end(),
    {
        self.first + self.queue.len() as u64
    }

    pub fn is_subscribed(&self, id: usize) -> (r: bool)
        requires
            self@.wf(),
        ensures
            r == self@.subscribed(id as int),
    {
        id < MAX_SUBSCRIBERS && self.cursors[id].is_some()
    }

    fn oldest_unread(&self) -> (r: bool)
        requires
            self@.wf(),
        ensures
            r == self@.oldest_unread(),
    {
        let mut i: usize = 0;
        while i < MAX_SUBSCRIBERS
            invariant
                self@.wf(),
                i <= MAX_SUBSCRIBERS,
                forall|j: int|
                    0 <= j < i ==> !((#[trigger] self@.cursors[j]) is Some
                        && self@.cursors[j].unwrap() <= self@.first),
            decreases MAX_SUBSCRIBERS - i,
        {
            match self.cursors[i] {
                Some(c) => {
                    if c <= self.first {
                        return true;
                    }
                },
                None => {},
            }
            i = i + 1;
        }
        false
    }

    /// Adds a subscriber, which sees the messages published from now on. Gives
    /// the first free place, or `None` when all are taken.
    pub fn subscribe(&mut self) -> (r: Option<usize>)
        requires
            old(self)@.wf(),
        ensures
            final(self)@.wf(),
            match r {
                Some(id) => {
                    &&& id < MAX_SUBSCRIBERS
                    &&& old(self)@.cursors[id as int] is None
                    &&& forall|j: int| 0 <= j < id ==> old(self)@.cursors[j] is Some
                    &&& final(self)@ == old(self)@.with_cursor(id as int, Some(old(self)@.end() as u64))
                },
                None => {
                    &&& forall|j: int| 0 <= j < MAX_SUBSCRIBERS ==> old(self)@.cursors[j] is Some
                    &&& final(self)@ == old(self)@
                },
            },
    {
        let end = self.first + self.queue.len() as u64;
        let mut i: usize = 0;
        while i < MAX_SUBSCRIBERS
            invariant
                self@.wf(),
                self@ == old(self)@,
                i <= MAX_SUBSCRIBERS,
                end == self@.end(),
                forall|j: int| 0 <= j < i ==> self@.cursors[j] is Some,
            decreases MAX_SUBSCRIBERS - i,
        {
            if self.cursors[i].is_none() {
                self.cursors.set(i, Some(end));
                proof {
                    assert(self@ == old(self)@.with_cursor(i as int, Some(end)));
                }
                return Some(i);
            }
            i = i + 1;
        }
        None
    }

    /// Frees the place of subscriber `id`.
    pub fn unsubscribe(&mut self, id: usize)
        requires
            old(self)@.wf(),
            id < MAX_SUBSCRIBERS,
        ensures
            final(self)@.wf(),
            final(self)@ == old(self)@.with_cursor(id as int, None),
    {
        self.cursors.set(id, None);
    }

    /// Publishes `v` to every subscriber, dropping the oldest message when full.
    pub fn publish(&mut self, v: T)
        requires
            old(self)@.wf(),
            old(self)@.end() < u64::MAX,
        ensures
            final(self)@.wf(),
            final(self)@ == published(old(self)@, v),
    {
        if self.queue.len() == CHANNEL_DEPTH {
            let unread = self.oldest_unread();
            self.queue.remove(0);
            self.first = self.first + 1;
            if unread {
                self.evicted = self.evicted + 1;
            }
        }
        self.queue.push(v);
        proof {
            assert(self@.queue =~= published(old(self)@, v).queue);
        }
    }

    /// The next thing subscriber `id` gets.
    pub fn next_message(&mut self, id: usize) -> (r: Received<T>)
        requires
            old(self)@.wf(),
            old(self)@.subscribed(id as int),
        ensures
            final(self)@.wf(),
            (final(self)@, r) == next_message_spec(old(self)@, id as int),
    {
        let c = match self.cursors[id] {
            Some(c) => c,
            None => 0,
        };
        if c < self.first {
            self.cursors.set(id, Some(self.first));
            Received::Lagged(self.first - c)
        } else if c - self.first < self.queue.len() as u64 {
            self.cursors.set(id, Some(c + 1));
            Received::Message(self.queue[(c - self.first) as usize])
        } else {
            Received::Empty
        }
    }
}

proof fn published_all_shape<T>(s: ChannelState<T>, vs: Seq<T>)
    requires
        s.wf(),
        s.end() + vs.len() <= u64::MAX,
    ensures
        ({
            let t = published_all(s, vs);
            let all = s.queue + vs;
            let kept = if all.len() < CHANNEL_DEPTH { all.len() as int } else { CHANNEL_DEPTH as int };
            &&& t.wf()
            &&& t.queue == all.subrange(all.len() - kept, all.len() as int)
            &&& t.first == s.first + all.len() - kept
            &&& t.cursors == s.cursors
        }),
    decreases vs.len(),
{
    let all = s.queue + vs;
    if vs.len() == 0 {
        assert(all.subrange(0, all.len() as int) =~= s.queue);
    } else {
        let prev = vs.drop_last();
        published_all_shape(s, prev);
        let p = published_all(s, prev);
        let prev_all = s.queue + prev;
        assert(all =~= prev_all.push(vs.last()));
        let t = published(p, vs.last());
        if p.queue.len() == CHANNEL_DEPTH {
            assert(t.queue =~= all.subrange(all.len() - CHANNEL_DEPTH, all.len() as int));
        } else {
            assert(t.queue =~= all.subrange(0, all.len() as int));
        }
        assert forall|i: int|
            0 <= i < MAX_SUBSCRIBERS && (#[trigger] t.cursors[i]) is Some implies t.cursors[i].unwrap()
                <= t.end() by {
            assert(p.cursors[i] == t.cursors[i]);
        }
    }
}

/// Lag accounting: when a subscriber that has read everything sees more
/// messages published than the channel keeps, its next request reports that
/// exactly the surplus was dropped; then it receives the most recent messages
/// in order, and then nothing. Five publications into the four-deep channel
/// give one notice of one dropped message followed by the last four.
pub proof fn lag_accounting<T>(s: ChannelState<T>, id: int, vs: Seq<T>)
    requires
        s.wf(),
        s.subscribed(id),
        s.cursors[id] == Some(s.end() as u64),
        vs.len() > CHANNEL_DEPTH,
        s.end() + vs.len() <= u64::MAX,
    ensures
        received_n(published_all(s, vs), id, 6) == seq![
            Received::Lagged((vs.len() - CHANNEL_DEPTH) as u64),
            Received::Message(vs[vs.len() - 4]),
            Received::Message(vs[vs.len() - 3]),
            Received::Message(vs[vs.len() - 2]),
            Received::Message(vs[vs.len() - 1]),
            Received::<T>::Empty,
        ],
{
    published_all_shape(s, vs);
    let t = published_all(s, vs);
    let all = s.queue + vs;
    let n = vs.len() as int;
    assert(t.queue[0] == vs[n - 4]);
    assert(t.queue[1] == vs[n - 3]);
    assert(t.queue[2] == vs[n - 2]);
    assert(t.queue[3] == vs[n - 1]);
    reveal_with_fuel(received_n, 7);
    let (t1, r1) = next_message_spec(t, id);
    let (t2, r2) = next_message_spec(t1, id);
    let (t3, r3) = next_message_spec(t2, id);
    let (t4, r4) = next_message_spec(t3, id);
    let (t5, r5) = next_message_spec(t4, id);
    let (t6, r6) = next_message_spec(t5, id);
    assert(r1 == Received::<T>::Lagged((n - 4) as u64));
    assert(t1.cursors[id] == Some(t.first));
    assert(r2 == Received::Message(vs[n - 4]));
    assert(r3 == Received::Message(vs[n - 3]));
    assert(r4 == Received::Message(vs[n - 2]));
    assert(r5 == Received::Message(vs[n - 1]));
    assert(r6 == Received::<T>::Empty);
    assert(received_n(t5, id, 1) =~= seq![r6]);
    assert(received_n(t4, id, 2) =~= seq![r5, r6]);
    assert(received_n(t3, id, 3) =~= seq![r4, r5, r6]);
    assert(received_n(t2, id, 4) =~= seq![r3, r4, r5, r6]);
    assert(received_n(t1, id, 5) =~= seq![r2, r3, r4, r5, r6]);
    assert(received_n(t, id, 6) =~= seq![r1, r2, r3, r4, r5, r6]);
}

} // verus!
