//! A ring of samples with a reading place and a writing place that keep
//! their distance: the store behind every delay line.

use vstd::prelude::*;

verus! {

/// The longest interval that a ring can hold, in seconds.
pub const MAX_INTERVAL_SEC: usize = 4;

/// A ring as plain values.
pub struct RingView<T> {
    /// The place that is read.
    pub ri: int,
    /// The place that is written.
    pub wi: int,
    /// The samples.
    pub buf: Seq<T>,
}

impl<T> RingView<T> {
    /// The number of samples that the ring holds.
    pub open spec fn capacity(self) -> int {
        self.buf.len() as int
    }

    /// Both places lie inside a ring that holds a sample.
    pub open spec fn wf(self) -> bool {
        &&& self.capacity() > 0
        &&& 0 <= self.ri < self.capacity()
        &&& 0 <= self.wi < self.capacity()
    }

    /// How far the writing place lies ahead of the reading place, going
    /// round the ring.
    pub open spec fn distance(self) -> int {
        (self.wi - self.ri) % self.capacity()
    }

    /// The ring after its interval was set: the interval is cut to the
    /// capacity and is at least one.
    pub open spec fn set_interval(self, interval: int) -> Self {
        RingView {
            wi: (self.ri + kept_interval(interval, self.capacity())) % self.capacity(),
            ..self
        }
    }

    /// The ring after one step: both places move on by one.
    pub open spec fn next(self) -> Self {
        RingView {
            ri: (self.ri + 1) % self.capacity(),
            wi: (self.wi + 1) % self.capacity(),
            ..self
        }
    }

    /// The ring after `n` steps.
    pub open spec fn advance(self, n: nat) -> Self
        decreases n,
    {
        if n == 0 {
            self
        } else {
            self.advance((n - 1) as nat).next()
        }
    }

    /// The ring after a sample was written.
    pub open spec fn write(self, smpl: T) -> Self {
        RingView { buf: self.buf.update(self.wi, smpl), ..self }
    }

    /// The sample that lies `i` places behind the reading place.
    pub open spec fn read(self, i: int) -> T {
        self.buf[(self.ri + i) % self.capacity()]
    }
}

/// The interval that a ring of `capacity` samples keeps when `interval` is
/// asked for.
pub open spec fn kept_interval(interval: int, capacity: int) -> int {
    if interval % capacity < 1 {
        1
    } else {
        interval % capacity
    }
}

/// A ring of samples.
pub struct RingBuffer<T> {
    ri: usize,
    wi: usize,
    buf: Vec<T>,
    buf_length: usize,
}

impl<T> RingBuffer<T> {
    pub closed spec fn view(&self) -> RingView<T> {
        RingView { ri: self.ri as int, wi: self.wi as int, buf: self.buf@ }
    }

    #[verifier::type_invariant]
    pub closed spec fn inv(&self) -> bool {
        &&& self.buf@.len() == self.buf_length
        &&& self.buf_length == 0 ==> self.ri == 0 && self.wi == 0
        &&& self.buf_length > 0 ==> self.ri < self.buf_length && self.wi < self.buf_length
    }
}

impl<T: Copy> RingBuffer<T> {
    /// A ring for `sample_rate` samples a second, filled with `silence`:
    /// it holds four seconds, is read at its start and written in its
    /// middle.
    pub fn new(sample_rate: usize, silence: T) -> (res: Self)
        requires
            sample_rate * MAX_INTERVAL_SEC <= usize::MAX,
        ensures
            res@.capacity() == sample_rate * MAX_INTERVAL_SEC,
            res@.ri == 0,
            res@.wi == res@.capacity() / 2,
            forall|i: int| 0 <= i < res@.capacity() ==> res@.buf[i] == silence,
            sample_rate > 0 ==> res@.wf(),
    {
        let length: usize = sample_rate * MAX_INTERVAL_SEC;
        let mut buf: Vec<T> = Vec::new();
        let mut i: usize = 0;
        while i < length
            invariant
                i <= length,
                buf@.len() == i,
                forall|k: int| 0 <= k < i ==> buf@[k] == silence,
            decreases length - i,
        {
            buf.push(silence);
            i += 1;
        }
        Self { ri: 0, wi: length / 2, buf, buf_length: length }
    }

    /// The number of samples that the ring holds.
    pub fn capacity(&self) -> (res: usize)
        ensures
            res == self@.capacity(),
    {
        proof {
            use_type_invariant(self);
        }
        self.buf_length
    }

    /// The place that is read.
    pub fn read_index(&self) -> (res: usize)
        ensures
            res == self@.ri,
    {
        self.ri
    }

    /// The place that is written.
    pub fn write_index(&self) -> (res: usize)
        ensures
            res == self@.wi,
    {
        self.wi
    }

    /// Sets how far the writing place lies ahead of the reading place.
    pub fn set_interval(&mut self, interval: usize)
        requires
            old(self)@.capacity() > 0,
        ensures
            final(self)@ == old(self)@.set_interval(interval as int),
            final(self)@.wf(),
    {
        proof {
            use_type_invariant(&*self);
        }
        let mut interval: usize = interval % self.buf_length;
        if interval < 1 {
            interval = 1;
        }
        // The sum cannot be formed directly where the ring fills the
        // address space, so the wrap is taken by hand.
        let room: usize = self.buf_length - self.ri;
        proof {
            lemma_wrap(self.ri + interval, self.buf_length as int);
        }
        if interval >= room {
            self.wi = interval - room;
        } else {
            self.wi = self.ri + interval;
        }
    }

    /// The sample that lies `i` places behind the reading place.
    pub fn read(&self, i: usize) -> (res: T)
        requires
            self@.capacity() > 0,
        ensures
            res == self@.read(i as int),
    {
        proof {
            use_type_invariant(self);
        }
        // The sum of place and offset may not fit, so the offset is cut to
        // the ring first and the wrap is taken by hand.
        let step: usize = i % self.buf_length;
        let room: usize = self.buf_length - self.ri;
        proof {
            vstd::arithmetic::div_mod::lemma_add_mod_noop_right(
                self.ri as int,
                i as int,
                self.buf_length as int,
            );
            lemma_wrap(self.ri + step, self.buf_length as int);
        }
        let tmpi: usize = if step >= room {
            step - room
        } else {
            self.ri + step
        };
        self.buf[tmpi]
    }

    /// Writes a sample at the writing place.
    pub fn write(&mut self, smpl: T)
        requires
            old(self)@.capacity() > 0,
        ensures
            final(self)@ == old(self)@.write(smpl),
    {
        proof {
            use_type_invariant(&*self);
        }
        let wi: usize = self.wi;
        self.buf[wi] = smpl;
    }

    /// Moves both places on by one. At the end of the ring a place goes
    /// back to its start.
    pub fn next(&mut self)
        requires
            old(self)@.capacity() > 0,
        ensures
            final(self)@ == old(self)@.next(),
            final(self)@.wf(),
    {
        proof {
            use_type_invariant(&*self);
            lemma_wrap(self.ri + 1, self.buf_length as int);
            lemma_wrap(self.wi + 1, self.buf_length as int);
        }
        self.ri = if self.ri == self.buf_length - 1 {
            0
        } else {
            self.ri + 1
        };
        self.wi = if self.wi == self.buf_length - 1 {
            0
        } else {
            self.wi + 1
        };
    }
}

/// A number less than one round off the ring is brought inside it by at
/// most one step of the capacity.
pub proof fn lemma_wrap(x: int, capacity: int)
    requires
        capacity > 0,
        -capacity <= x < 2 * capacity,
    ensures
        x % capacity == (if x < 0 {
            x + capacity
        } else if x < capacity {
            x
        } else {
            x - capacity
        }),
{
    if x < 0 {
        vstd::arithmetic::div_mod::lemma_fundamental_div_mod_converse(x, capacity, -1, x + capacity);
    } else if x < capacity {
        vstd::arithmetic::div_mod::lemma_fundamental_div_mod_converse(x, capacity, 0, x);
    } else {
        vstd::arithmetic::div_mod::lemma_fundamental_div_mod_converse(x, capacity, 1, x - capacity);
    }
}

/// The interval that is kept lies inside the ring, and is the remainder of
/// the one asked for wherever that remainder is not zero.
pub proof fn lemma_kept_interval(interval: int, capacity: int)
    requires
        capacity > 0,
        interval >= 0,
    ensures
        1 <= kept_interval(interval, capacity) <= capacity,
        interval % capacity != 0 ==> kept_interval(interval, capacity) == interval % capacity,
        kept_interval(interval, capacity) < capacity || capacity == 1,
{
    vstd::arithmetic::div_mod::lemma_mod_bound(interval, capacity);
}

/// Setting the interval puts the writing place that far ahead of the
/// reading place, going round the ring.
pub proof fn lemma_set_interval_distance<T>(ring: RingView<T>, interval: int)
    requires
        ring.wf(),
        interval >= 0,
    ensures
        ring.set_interval(interval).wf(),
        ring.set_interval(interval).distance() == kept_interval(interval, ring.capacity())
            % ring.capacity(),
{
    let cap = ring.capacity();
    let kept = kept_interval(interval, cap);
    lemma_kept_interval(interval, cap);
    lemma_wrap(ring.ri + kept, cap);
    let wi = (ring.ri + kept) % cap;
    lemma_wrap(wi - ring.ri, cap);
    lemma_wrap(kept, cap);
}

/// A step keeps the distance between the two places.
pub proof fn lemma_next_keeps_distance<T>(ring: RingView<T>)
    requires
        ring.wf(),
    ensures
        ring.next().wf(),
        ring.next().distance() == ring.distance(),
{
    let cap = ring.capacity();
    lemma_wrap(ring.ri + 1, cap);
    lemma_wrap(ring.wi + 1, cap);
    lemma_wrap(ring.wi - ring.ri, cap);
    lemma_wrap(ring.next().wi - ring.next().ri, cap);
}

/// Any number of steps keeps the distance between the two places.
pub proof fn lemma_advance_keeps_distance<T>(ring: RingView<T>, n: nat)
    requires
        ring.wf(),
    ensures
        ring.advance(n).wf(),
        ring.advance(n).distance() == ring.distance(),
    decreases n,
{
    if n > 0 {
        lemma_advance_keeps_distance(ring, (n - 1) as nat);
        lemma_next_keeps_distance(ring.advance((n - 1) as nat));
    }
}

/// After the interval was set to `k`, where `k` is no multiple of the
/// capacity, the writing place stays `k` places ahead of the reading place,
/// counted round the ring, whatever the number of steps.
pub proof fn lemma_interval_is_kept<T>(ring: RingView<T>, k: nat, n: nat)
    requires
        ring.wf(),
        k as int % ring.capacity() != 0,
    ensures
        ring.set_interval(k as int).advance(n).wf(),
        ring.set_interval(k as int).advance(n).distance() == k as int % ring.capacity(),
{
    let cap = ring.capacity();
    lemma_set_interval_distance(ring, k as int);
    lemma_advance_keeps_distance(ring.set_interval(k as int), n);
    lemma_kept_interval(k as int, cap);
    lemma_wrap(k as int % cap, cap);
}

/// After the interval was set to a multiple of the capacity, the writing
/// place stays one place ahead of the reading place, whatever the number of
/// steps.
pub proof fn lemma_zero_interval_is_one<T>(ring: RingView<T>, k: nat, n: nat)
    requires
        ring.wf(),
        k as int % ring.capacity() == 0,
    ensures
        ring.set_interval(k as int).advance(n).distance() == 1int % ring.capacity(),
{
    lemma_set_interval_distance(ring, k as int);
    lemma_advance_keeps_distance(ring.set_interval(k as int), n);
}

} // verus!
