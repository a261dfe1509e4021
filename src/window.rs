//! The active-speaker window: a bounded queue of recently active users,
//! oldest first, that drops its oldest entry to make room.
use vstd::prelude::*;

verus! {

/// The capacity the window is built with by default.
pub const DEFAULT_WINDOW_CAPACITY: usize = 10;

/// `s` after `x` is pushed at the newest end of a window holding at most
/// `cap` entries.
pub open spec fn pushed(s: Seq<u64>, cap: nat, x: u64) -> Seq<u64> {
    if cap == 0 {
        s
    } else if s.len() >= cap {
        s.subrange(s.len() - cap + 1, s.len() as int).push(x)
    } else {
        s.push(x)
    }
}

/// `s` with every occurrence of `x` taken out, order kept.
pub open spec fn without(s: Seq<u64>, x: u64) -> Seq<u64>
    decreases s.len(),
{
    if s.len() == 0 {
        s
    } else if s.last() == x {
        without(s.drop_last(), x)
    } else {
        without(s.drop_last(), x).push(s.last())
    }
}

pub struct ActiveSpeakerWindow {
    entries: Vec<u64>,
    capacity: usize,
}

impl View for ActiveSpeakerWindow {
    type V = Seq<u64>;

    closed spec fn view(&self) -> Seq<u64> {
        self.entries@
    }
}

impl ActiveSpeakerWindow {
    pub closed spec fn spec_capacity(&self) -> nat {
        self.capacity as nat
    }

    /// The window never holds more than its capacity.
    pub open spec fn wf(&self) -> bool {
        self@.len() <= self.spec_capacity()
    }

    /// An empty window for at most `capacity` users.
    pub fn with_capacity(capacity: usize) -> (r: Self)
        ensures
            r@ == Seq::<u64>::empty(),
            r.spec_capacity() == capacity,
            r.wf(),
    {
        ActiveSpeakerWindow { entries: Vec::new(), capacity }
    }

    /// An empty window of the default capacity.
    pub fn new() -> (r: Self)
        ensures
            r@ == Seq::<u64>::empty(),
            r.spec_capacity() == DEFAULT_WINDOW_CAPACITY,
            r.wf(),
    {
        Self::with_capacity(DEFAULT_WINDOW_CAPACITY)
    }

    pub fn capacity(&self) -> (r: usize)
        ensures
            r == self.spec_capacity(),
    {
        self.capacity
    }

    pub fn len(&self) -> (r: usize)
        ensures
            r == self@.len(),
    {
        self.entries.len()
    }

    /// Whether `user` is in the window.
    pub fn contains(&self, user: u64) -> (r: bool)
        ensures
            r == self@.contains(user),
    {
        let mut i: usize = 0;
        while i < self.entries.len()
            invariant
                i <= self.entries@.len(),
                forall|j: int| 0 <= j < i ==> self.entries@[j] != user,
            decreases self.entries.len() - i,
        {
            if self.entries[i] == user {
                return true;
            }
            i = i + 1;
        }
        false
    }

    /// Records `user` as the newest entry, dropping the oldest one when the
    /// window is full.
    pub fn push(&mut self, user: u64)
        requires
            old(self).wf(),
        ensures
            final(self)@ == pushed(old(self)@, old(self).spec_capacity(), user),
            final(self).spec_capacity() == old(self).spec_capacity(),
            final(self).wf(),
    {
        if self.capacity == 0 {
            return;
        }
        if self.entries.len() >= self.capacity {
            self.entries.remove(0);
            assert(self.entries@ =~= old(self).entries@.subrange(
                old(self).entries@.len() - old(self).capacity + 1,
                old(self).entries@.len() as int,
            ));
        }
        self.entries.push(user);
    }

    /// Takes every entry of `user` out of the window.
    pub fn remove(&mut self, user: u64)
        requires
            old(self).wf(),
        ensures
            final(self)@ == without(old(self)@, user),
            final(self).spec_capacity() == old(self).spec_capacity(),
            final(self).wf(),
    {
        let mut kept: Vec<u64> = Vec::new();
        let mut i: usize = 0;
        while i < self.entries.len()
            invariant
                i <= self.entries@.len(),
                kept@ == without(self.entries@.subrange(0, i as int), user),
                kept@.len() <= i,
            decreases self.entries.len() - i,
        {
            let ghost prefix = self.entries@.subrange(0, i as int);
            let x = self.entries[i];
            assert(self.entries@.subrange(0, i + 1).drop_last() =~= prefix);
            if x != user {
                kept.push(x);
            }
            i = i + 1;
        }
        assert(self.entries@.subrange(0, self.entries@.len() as int) =~= self.entries@);
        self.entries = kept;
    }
}

} // verus!
