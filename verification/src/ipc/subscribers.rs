//! Long-lived connections that receive a status whenever it changes, and a
//! heartbeat in between.

#[allow(unused_imports)]
use vstd::prelude::*;

verus! {

/// A reconnecting client can briefly overlap with its previous connection;
/// beyond this many the newest subscription is refused.
pub const MAX_SUBSCRIBERS: usize = 4;

/// The subscribed connections, in the order in which they subscribed.
pub struct Subscribers {
    streams: Vec<i32>,
}

impl View for Subscribers {
    type V = Seq<i32>;

    closed spec fn view(&self) -> Seq<i32> {
        self.streams@
    }
}

/// The connections that took a whole pushed line.
pub open spec fn reached(streams: Seq<i32>, written: Seq<Option<usize>>, length: nat) -> Seq<i32>
    decreases streams.len(),
{
    if streams.len() == 0 {
        Seq::empty()
    } else {
        let before = reached(streams.drop_last(), written, length);
        if written[streams.len() - 1] matches Some(count) && count == length {
            before.push(streams.last())
        } else {
            before
        }
    }
}

/// The connections other than `fd`.
pub open spec fn without(streams: Seq<i32>, fd: i32) -> Seq<i32>
    decreases streams.len(),
{
    if streams.len() == 0 {
        Seq::empty()
    } else if streams.last() == fd {
        without(streams.drop_last(), fd)
    } else {
        without(streams.drop_last(), fd).push(streams.last())
    }
}

proof fn pushes_never_add(streams: Seq<i32>, written: Seq<Option<usize>>, length: nat)
    ensures
        reached(streams, written, length).len() <= streams.len(),
    decreases streams.len(),
{
    if streams.len() > 0 {
        pushes_never_add(streams.drop_last(), written, length);
    }
}

proof fn endings_never_add(streams: Seq<i32>, fd: i32)
    ensures
        without(streams, fd).len() <= streams.len(),
    decreases streams.len(),
{
    if streams.len() > 0 {
        endings_never_add(streams.drop_last(), fd);
    }
}

impl Subscribers {
    /// No subscribers.
    pub fn new() -> (subscribers: Subscribers)
        ensures
            subscribers@ == Seq::<i32>::empty(),
    {
        Subscribers { streams: Vec::new() }
    }

    /// Adds a completed subscription. Returns whether there was room for it;
    /// a connection that is refused is closed.
    pub fn add(&mut self, fd: i32) -> (kept: bool)
        ensures
            kept == (old(self)@.len() < MAX_SUBSCRIBERS),
            final(self)@ == (if old(self)@.len() < MAX_SUBSCRIBERS {
                old(self)@.push(fd)
            } else {
                old(self)@
            }),
            old(self)@.len() <= MAX_SUBSCRIBERS ==> final(self)@.len() <= MAX_SUBSCRIBERS,
    {
        if self.streams.len() >= MAX_SUBSCRIBERS {
            return false;
        }
        self.streams.push(fd);
        true
    }

    /// How many subscriptions there are.
    pub fn len(&self) -> (count: usize)
        ensures
            count == self@.len(),
    {
        self.streams.len()
    }

    /// Whether there is no subscription.
    pub fn is_empty(&self) -> (empty: bool)
        ensures
            empty == (self@.len() == 0),
    {
        self.streams.len() == 0
    }

    /// The subscribed connection at `index`.
    pub fn stream(&self, index: usize) -> (fd: i32)
        requires
            index < self@.len(),
        ensures
            fd == self@[index as int],
    {
        self.streams[index]
    }

    /// Keeps the connections that took the whole line of `length` bytes.
    /// `written` holds what each of them took in a single attempt, or nothing
    /// where the attempt failed.
    pub fn broadcast(&mut self, length: usize, written: &Vec<Option<usize>>)
        requires
            written@.len() == old(self)@.len(),
        ensures
            final(self)@ == reached(old(self)@, written@, length as nat),
            final(self)@.len() <= old(self)@.len(),
    {
        let mut kept: Vec<i32> = Vec::new();
        let mut index: usize = 0;
        while index < self.streams.len()
            invariant
                index <= self.streams@.len(),
                written@.len() == self.streams@.len(),
                kept@ == reached(self.streams@.take(index as int), written@, length as nat),
            decreases self.streams@.len() - index,
        {
            assert(self.streams@.take(index as int + 1).drop_last() =~= self.streams@.take(
                index as int,
            ));
            match written[index] {
                Some(count) => {
                    if count == length {
                        kept.push(self.streams[index]);
                    }
                },
                None => {},
            }
            index = index + 1;
        }
        proof {
            assert(self.streams@.take(index as int) =~= self.streams@);
            pushes_never_add(self.streams@, written@, length as nat);
        }
        self.streams = kept;
    }

    /// Ends the subscription of a readable connection, unless reading it would
    /// have blocked: subscribers never send anything.
    pub fn handle_readable(&mut self, fd: i32, would_block: bool)
        ensures
            final(self)@ == (if would_block {
                old(self)@
            } else {
                without(old(self)@, fd)
            }),
            final(self)@.len() <= old(self)@.len(),
    {
        if would_block {
            return;
        }
        let mut kept: Vec<i32> = Vec::new();
        let mut index: usize = 0;
        while index < self.streams.len()
            invariant
                index <= self.streams@.len(),
                kept@ == without(self.streams@.take(index as int), fd),
            decreases self.streams@.len() - index,
        {
            assert(self.streams@.take(index as int + 1).drop_last() =~= self.streams@.take(
                index as int,
            ));
            if self.streams[index] != fd {
                kept.push(self.streams[index]);
            }
            index = index + 1;
        }
        proof {
            assert(self.streams@.take(index as int) =~= self.streams@);
            endings_never_add(self.streams@, fd);
        }
        self.streams = kept;
    }
}

/// A subscriber that fails to take a push is dropped, and no other is.
pub proof fn slow_subscribers_are_dropped(
    streams: Seq<i32>,
    written: Seq<Option<usize>>,
    length: nat,
    fd: i32,
)
    ensures
        reached(streams, written, length).contains(fd) <==> exists|i: int|
            0 <= i < streams.len() && #[trigger] streams[i] == fd && (written[i] matches Some(
                count,
            ) && count == length),
    decreases streams.len(),
{
    if streams.len() > 0 {
        let last = streams.len() - 1;
        let init = streams.drop_last();
        let before = reached(init, written, length);
        let after = reached(streams, written, length);
        slow_subscribers_are_dropped(init, written, length, fd);
        if before.contains(fd) {
            let i = choose|i: int|
                0 <= i < init.len() && #[trigger] init[i] == fd && (written[i] matches Some(count)
                    && count == length);
            assert(streams[i] == fd);
            let at = before.index_of(fd);
            assert(after[at] == fd);
        }
        if written[last] matches Some(count) && count == length && streams[last] == fd {
            assert(after[before.len() as int] == fd);
        }
        if after.contains(fd) && !before.contains(fd) {
            let at = after.index_of(fd);
            assert(after[at] == fd);
            assert(at == before.len());
            assert(streams[last] == fd);
        }
        if exists|i: int|
            0 <= i < streams.len() && #[trigger] streams[i] == fd && (written[i] matches Some(count)
                && count == length) {
            let i = choose|i: int|
                0 <= i < streams.len() && #[trigger] streams[i] == fd && (written[i] matches Some(
                    count,
                ) && count == length);
            if i < last {
                assert(init[i] == fd);
            }
        }
    }
}

/// A subscriber that ends is dropped, and no other is.
pub proof fn ended_subscribers_are_dropped(streams: Seq<i32>, fd: i32, other: i32)
    ensures
        !without(streams, fd).contains(fd),
        other != fd ==> (without(streams, fd).contains(other) <==> streams.contains(other)),
    decreases streams.len(),
{
    if streams.len() > 0 {
        let front = streams.drop_last();
        let before = without(front, fd);
        ended_subscribers_are_dropped(front, fd, other);
        let last = streams.last();
        if other != fd {
            if streams.contains(other) {
                let i = choose|i: int| 0 <= i < streams.len() && streams[i] == other;
                if i < front.len() {
                    assert(front[i] == other);
                }
            }
            if front.contains(other) {
                let i = choose|i: int| 0 <= i < front.len() && front[i] == other;
                assert(streams[i] == other);
            }
            assert(streams[streams.len() - 1] == last);
        }
        if last != fd {
            let all = before.push(last);
            assert(all[all.len() - 1] == last);
            if before.contains(other) {
                let i = choose|i: int| 0 <= i < before.len() && before[i] == other;
                assert(all[i] == other);
            }
            if all.contains(fd) {
                let i = choose|i: int| 0 <= i < all.len() && all[i] == fd;
                if i < before.len() {
                    assert(before[i] == fd);
                }
            }
            if all.contains(other) {
                let i = choose|i: int| 0 <= i < all.len() && all[i] == other;
                if i < before.len() {
                    assert(before[i] == other);
                }
            }
        }
    }
}

} // verus!
