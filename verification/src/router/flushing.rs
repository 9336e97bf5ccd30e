//! How ticks that wait are written in batches.
use crate::protocol;
use crate::protocol::TickRecord;
use crate::router::state::RouterState;
use crate::router::OrderRouter;
use vstd::prelude::*;

verus! {

/// The most ticks of one batch.
pub const MAX_BATCH: usize = 1000;

/// What the writer of ticks is to do.
#[derive(Debug)]
pub enum FlushTurn<T = Vec<TickRecord>> {
    /// Nothing waits.
    Idle,
    /// Write a batch; where that fails, it is to be put back.
    Write(T),
    /// Write a batch of what is left at the end; it is not to be put back.
    Drain(T),
    /// Nothing is left: stop.
    Stop,
}

impl View for FlushTurn {
    type V = FlushTurn<Seq<TickRecord<Seq<char>>>>;

    open spec fn view(&self) -> FlushTurn<Seq<TickRecord<Seq<char>>>> {
        match self {
            FlushTurn::Idle => FlushTurn::Idle,
            FlushTurn::Write(v) => FlushTurn::Write(protocol::ticks_view(v@)),
            FlushTurn::Drain(v) => FlushTurn::Drain(protocol::ticks_view(v@)),
            FlushTurn::Stop => FlushTurn::Stop,
        }
    }
}

/// The size of the next batch.
pub open spec fn batch_size(waiting: nat) -> nat {
    if waiting <= MAX_BATCH {
        waiting
    } else {
        MAX_BATCH as nat
    }
}

/// The state and what the writer of ticks is to do next: to write the oldest
/// ticks, at most a batch of them, or nothing where none waits. A writer that is
/// to stop does so when none is left.
pub open spec fn flushed(s: RouterState) -> (RouterState, FlushTurn<Seq<TickRecord<Seq<char>>>>) {
    let n = batch_size(s.ticks.len()) as int;
    let rest = RouterState { ticks: s.ticks.skip(n), ..s };
    if s.ticks.len() == 0 {
        (
            s,
            if s.flush_stopped {
                FlushTurn::Stop
            } else {
                FlushTurn::Idle
            },
        )
    } else if s.flush_stopped {
        (rest, FlushTurn::Drain(s.ticks.take(n)))
    } else {
        (rest, FlushTurn::Write(s.ticks.take(n)))
    }
}

/// The state after a batch was put back before all ticks that wait.
pub open spec fn put_back(s: RouterState, batch: Seq<TickRecord<Seq<char>>>) -> RouterState {
    RouterState { ticks: batch + s.ticks, ..s }
}

impl OrderRouter {
    /// Lets the writing of ticks start; there must be a storage for that.
    pub fn start_batch_flush_worker(&mut self) -> (r: bool)
        ensures
            r == old(self)@.storage,
            final(self)@ == (if r {
                RouterState { flush_stopped: false, ..old(self)@ }
            } else {
                old(self)@
            }),
    {
        if self.storage {
            self.flush_stop_signal = false;
        }
        self.storage
    }

    /// Lets the writing of ticks stop.
    pub fn stop_batch_flush_worker(&mut self)
        ensures
            final(self)@ == (RouterState { flush_stopped: true, ..old(self)@ }),
    {
        self.flush_stop_signal = true;
    }

    /// Says what the writer of ticks is to do next.
    pub fn next_flush(&mut self) -> (r: FlushTurn)
        ensures
            (final(self)@, r@) == flushed(old(self)@),
    {
        let waiting: usize = self.tick_buffer.len();
        if waiting == 0 {
            return if self.flush_stop_signal {
                FlushTurn::Stop
            } else {
                FlushTurn::Idle
            };
        }
        let n: usize = if waiting <= MAX_BATCH {
            waiting
        } else {
            MAX_BATCH
        };
        let mut batch: Vec<TickRecord> = self.tick_buffer.split_off(n);
        core::mem::swap(&mut batch, &mut self.tick_buffer);
        assert(protocol::ticks_view(batch@) =~= old(self)@.ticks.take(n as int));
        assert(self@.ticks =~= old(self)@.ticks.skip(n as int));
        if self.flush_stop_signal {
            FlushTurn::Drain(batch)
        } else {
            FlushTurn::Write(batch)
        }
    }

    /// Puts a batch back that could not be written.
    pub fn requeue(&mut self, batch: Vec<TickRecord>)
        ensures
            final(self)@ == put_back(old(self)@, protocol::ticks_view(batch@)),
    {
        let mut front: Vec<TickRecord> = batch;
        front.append(&mut self.tick_buffer);
        self.tick_buffer = front;
        assert(self@.ticks =~= protocol::ticks_view(batch@) + old(self)@.ticks);
    }
}

} // verus!
