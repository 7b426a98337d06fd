//! The dashboard's state and the decisions of its render loop.

use std::sync::mpsc::Receiver;
use vstd::prelude::*;
use crate::channel::receive_pending;
use crate::history::{History, HISTORY_CAPACITY};
use crate::reading::{window, AccelReading};
use crate::ring::MAX_RING_CAPACITY;

verus! {

/// The period of one tick of the render loop, in microseconds (about thirty
/// redraws a second).
pub const TICK_PERIOD_US: u64 = 33000;

/// The key that ends the render loop.
pub const QUIT_KEY: char = 'q';

/// Time passed from `since` to `now`, zero when the clock reads earlier.
pub open spec fn elapsed_spec(since: u64, now: u64) -> u64 {
    if now >= since {
        (now - since) as u64
    } else {
        0
    }
}

/// How long the loop may wait for input before the tick that began at
/// `last_tick` is over; zero once it is over.
pub open spec fn timeout_spec(last_tick: u64, now: u64) -> u64 {
    if elapsed_spec(last_tick, now) >= TICK_PERIOD_US {
        0
    } else {
        (TICK_PERIOD_US - elapsed_spec(last_tick, now)) as u64
    }
}

/// Time passed from `since` to `now`, zero when the clock reads earlier.
pub fn elapsed(since: u64, now: u64) -> (r: u64)
    ensures
        r == elapsed_spec(since, now),
{
    if now >= since {
        now - since
    } else {
        0
    }
}

/// The render loop's state: the receiving end of the channel, the history it
/// drains into, whether the quit key was seen, and when the current tick began.
pub struct App {
    rx: Receiver<AccelReading>,
    readings: History,
    should_quit: bool,
    last_tick: u64,
}

impl App {
    /// The history's capacity is positive and fits a ring, and the history
    /// never holds more readings than that.
    pub open spec fn wf(&self) -> bool {
        &&& 0 < self.capacity_spec() <= MAX_RING_CAPACITY
        &&& self.readings_spec().len() <= self.capacity_spec()
    }

    /// The receiving end of the channel this App drains.
    pub closed spec fn receiver(&self) -> Receiver<AccelReading> {
        self.rx
    }

    /// The readings held, oldest first.
    pub closed spec fn readings_spec(&self) -> Seq<AccelReading> {
        self.readings@
    }

    /// The most readings held at once.
    pub closed spec fn capacity_spec(&self) -> nat {
        self.readings.capacity_spec()
    }

    /// Whether the quit key has been seen.
    pub closed spec fn quitting(&self) -> bool {
        self.should_quit
    }

    /// The clock reading at which the current tick began.
    pub closed spec fn last_tick_spec(&self) -> u64 {
        self.last_tick
    }

    /// A running dashboard that keeps the last hundred readings from `rx`.
    pub fn new(rx: Receiver<AccelReading>) -> (a: App)
        ensures
            a.wf(),
            a.readings_spec() == Seq::<AccelReading>::empty(),
            a.capacity_spec() == HISTORY_CAPACITY,
            !a.quitting(),
            a.last_tick_spec() == 0,
            a.receiver() == rx,
    {
        App::with_capacity(rx, HISTORY_CAPACITY)
    }

    /// A running dashboard that keeps the last `capacity` readings from `rx`.
    pub fn with_capacity(rx: Receiver<AccelReading>, capacity: usize) -> (a: App)
        requires
            0 < capacity <= MAX_RING_CAPACITY,
        ensures
            a.wf(),
            a.readings_spec() == Seq::<AccelReading>::empty(),
            a.capacity_spec() == capacity,
            !a.quitting(),
            a.last_tick_spec() == 0,
            a.receiver() == rx,
    {
        App { rx, readings: History::new(capacity), should_quit: false, last_tick: 0 }
    }

    /// The history of readings.
    pub fn readings(&self) -> (h: &History)
        ensures
            h@ == self.readings_spec(),
            h.capacity_spec() == self.capacity_spec(),
            self.wf() ==> h.wf(),
    {
        &self.readings
    }

    /// Whether the quit key has been seen.
    pub fn should_quit(&self) -> (q: bool)
        ensures
            q == self.quitting(),
    {
        self.should_quit
    }

    /// Removes and returns every reading pending on the channel, in arrival
    /// order, without waiting.
    pub fn try_receive_all(&self) -> (v: Vec<AccelReading>) {
        receive_pending(&self.rx)
    }

    /// Moves the given readings into the history, in order.
    pub fn ingest(&mut self, batch: &Vec<AccelReading>)
        requires
            old(self).wf(),
        ensures
            final(self).wf(),
            final(self).capacity_spec() == old(self).capacity_spec(),
            final(self).readings_spec() == window(
                old(self).readings_spec() + batch@,
                old(self).capacity_spec(),
            ),
            final(self).quitting() == old(self).quitting(),
            final(self).last_tick_spec() == old(self).last_tick_spec(),
            final(self).receiver() == old(self).receiver(),
    {
        self.readings.push_all(batch);
    }

    /// Drains the channel into the history: whatever batch was pending is
    /// appended in arrival order, and the oldest readings beyond the capacity
    /// are dropped.
    pub fn update(&mut self)
        requires
            old(self).wf(),
        ensures
            final(self).wf(),
            final(self).capacity_spec() == old(self).capacity_spec(),
            exists|batch: Seq<AccelReading>|
                final(self).readings_spec() == window(
                    old(self).readings_spec() + batch,
                    old(self).capacity_spec(),
                ),
            final(self).quitting() == old(self).quitting(),
            final(self).last_tick_spec() == old(self).last_tick_spec(),
            final(self).receiver() == old(self).receiver(),
    {
        let batch = self.try_receive_all();
        self.ingest(&batch);
    }

    /// Starts the tick clock at `now`.
    pub fn start_ticks(&mut self, now: u64)
        ensures
            final(self).last_tick_spec() == now,
            final(self).readings_spec() == old(self).readings_spec(),
            final(self).capacity_spec() == old(self).capacity_spec(),
            final(self).quitting() == old(self).quitting(),
            final(self).wf() == old(self).wf(),
            final(self).receiver() == old(self).receiver(),
    {
        self.last_tick = now;
    }

    /// How long the loop may wait for input at `now` before the current tick
    /// is over; zero when it is already over.
    pub fn poll_timeout(&self, now: u64) -> (t: u64)
        ensures
            t == timeout_spec(self.last_tick_spec(), now),
            t <= TICK_PERIOD_US,
    {
        let e = elapsed(self.last_tick, now);
        if e >= TICK_PERIOD_US {
            0
        } else {
            TICK_PERIOD_US - e
        }
    }

    /// One step of the render loop after it waited for input: a quit key
    /// moves the loop to quitting; when the tick period has passed at `now`,
    /// the channel is drained and a new tick begins at `now`. Returns whether
    /// the loop ends.
    pub fn step(&mut self, key: Option<char>, now: u64) -> (exit: bool)
        requires
            old(self).wf(),
        ensures
            final(self).wf(),
            final(self).capacity_spec() == old(self).capacity_spec(),
            final(self).quitting() == (old(self).quitting() || key == Some(QUIT_KEY)),
            exit == final(self).quitting(),
            final(self).receiver() == old(self).receiver(),
            elapsed_spec(old(self).last_tick_spec(), now) >= TICK_PERIOD_US ==> {
                &&& final(self).last_tick_spec() == now
                &&& exists|batch: Seq<AccelReading>|
                    final(self).readings_spec() == window(
                        old(self).readings_spec() + batch,
                        old(self).capacity_spec(),
                    )
            },
            elapsed_spec(old(self).last_tick_spec(), now) < TICK_PERIOD_US ==> {
                &&& final(self).last_tick_spec() == old(self).last_tick_spec()
                &&& final(self).readings_spec() == old(self).readings_spec()
            },
    {
        match key {
            Some(c) => {
                if c == QUIT_KEY {
                    self.should_quit = true;
                }
            },
            None => {},
        }
        if elapsed(self.last_tick, now) >= TICK_PERIOD_US {
            let batch = self.try_receive_all();
            self.ingest(&batch);
            self.last_tick = now;
            assert(self.readings_spec() == window(
                old(self).readings_spec() + batch@,
                old(self).capacity_spec(),
            ));
        }
        self.should_quit
    }
}

} // verus!
