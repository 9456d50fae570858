//! Epoch arithmetic of the priority limiter.
//!
//! Time is cut into epochs of [`DEFAULT_REFILL_PERIOD_MILLIS`]. Each priority
//! has a byte budget per epoch. A refill ends an epoch: bytes that waiting
//! callers booked are carried into the new epoch, and on every
//! [`UPDATE_BUDGETS_EVERY_N_EPOCHS`]-th refill the budget of each lower
//! priority is set to what the priority above it left unused on average.
//!
//! Nothing in this module touches shared counters. What was read from them is
//! an argument, what is to be written to them is a result.

use vstd::prelude::*;

use crate::IOPriority;

verus! {

/// Length of an epoch in milliseconds.
pub const DEFAULT_REFILL_PERIOD_MILLIS: u64 = 50;

/// Budgets of the lower priorities are recomputed on every refill that
/// completes a window of this many epochs.
pub const UPDATE_BUDGETS_EVERY_N_EPOCHS: usize = 5;

/// The sum `a + b`, held at `usize::MAX`.
pub open spec fn saturating_sum(a: int, b: int) -> usize {
    if a + b > usize::MAX {
        usize::MAX
    } else {
        (a + b) as usize
    }
}

/// The value `t`, held at `u64::MAX`.
pub open spec fn saturating_millis(t: int) -> u64 {
    if t > u64::MAX {
        u64::MAX
    } else {
        t as u64
    }
}

/// Bytes that one epoch may carry at `bytes_per_sec`: the rate times the
/// length of an epoch, rounded down, but at least one byte at any rate above
/// 0. A budget of 0 stands for no limit, and only the rate 0 asks for that.
pub open spec fn epoch_budget_spec(bytes_per_sec: usize) -> usize {
    if bytes_per_sec == 0 {
        0
    } else if bytes_per_sec * DEFAULT_REFILL_PERIOD_MILLIS < 1000 {
        1
    } else {
        (bytes_per_sec * DEFAULT_REFILL_PERIOD_MILLIS / 1000) as usize
    }
}

/// Bytes that one epoch may carry at `bytes_per_sec`.
pub fn epoch_budget(bytes_per_sec: usize) -> (budget: usize)
    ensures
        budget == epoch_budget_spec(bytes_per_sec),
{
    let period: usize = DEFAULT_REFILL_PERIOD_MILLIS as usize;
    let whole: usize = bytes_per_sec / 1000;
    let rest: usize = bytes_per_sec % 1000;
    assert(period == 50);
    assert(bytes_per_sec * 50 / 1000 == whole * 50 + rest * 50 / 1000);
    let budget: usize = whole * period + rest * period / 1000;
    if bytes_per_sec > 0 && budget == 0 {
        1
    } else {
        budget
    }
}

/// Whether a change of the budget of `High` from `before` to `now` turns the
/// limiter on or off. The budgets of the lower priorities follow at once
/// then; otherwise they are left to the next refill that closes a window.
pub open spec fn toggles_spec(before: usize, now: usize) -> bool {
    before == 0 || now == 0
}

/// Whether a change of the budget of `High` from `before` to `now` turns the
/// limiter on or off.
pub fn toggles(before: usize, now: usize) -> (toggle: bool)
    ensures
        toggle == toggles_spec(before, now),
{
    before == 0 || now == 0
}

/// Bytes charged for a request of `amount` bytes against `budget`: all of it
/// when the budget is 0, which stands for no limit, and otherwise no more than
/// one whole epoch's budget.
pub open spec fn charge_spec(amount: usize, budget: usize) -> usize {
    if budget == 0 || amount <= budget {
        amount
    } else {
        budget
    }
}

/// Bytes charged for a request of `amount` bytes against `budget`.
pub fn charge(amount: usize, budget: usize) -> (charged: usize)
    ensures
        charged == charge_spec(amount, budget),
{
    if budget == 0 || amount <= budget {
        amount
    } else {
        budget
    }
}

/// Whether a charge of `charged` bytes, made when the epoch had `before`
/// bytes through, stays within `budget`.
pub open spec fn fits_spec(before: usize, charged: usize, budget: usize) -> bool {
    before + charged <= budget
}

/// Whether a charge of `charged` bytes, made when the epoch had `before`
/// bytes through, stays within `budget`.
pub fn fits_in_epoch(before: usize, charged: usize, budget: usize) -> (fits: bool)
    ensures
        fits == fits_spec(before, charged, budget),
{
    before <= budget && charged <= budget - before
}

/// Budget of the next lower priority: what `estimate` leaves of `limit`, and
/// never less than one byte.
pub open spec fn residual_budget_spec(limit: usize, estimate: usize) -> usize {
    if limit > estimate {
        (limit - estimate) as usize
    } else {
        1
    }
}

/// Budget of the next lower priority.
pub fn residual_budget(limit: usize, estimate: usize) -> (budget: usize)
    ensures
        budget == residual_budget_spec(limit, estimate),
{
    if limit > estimate {
        limit - estimate
    } else {
        1
    }
}

/// Time a queued caller waits: `base` until the coming refill, then one
/// epoch for each whole budget that is booked up to and including its own
/// bytes.
pub open spec fn queue_wait_spec(base: u64, pending: usize, budget: usize) -> u64 {
    saturating_millis(base + DEFAULT_REFILL_PERIOD_MILLIS * (pending / budget))
}

/// Time a queued caller waits, in milliseconds.
pub fn queue_wait(base: u64, pending: usize, budget: usize) -> (wait: u64)
    requires
        budget > 0,
    ensures
        wait == queue_wait_spec(base, pending, budget),
{
    let epochs: u64 = (pending / budget) as u64;
    if epochs > (u64::MAX - base) / DEFAULT_REFILL_PERIOD_MILLIS {
        u64::MAX
    } else {
        base + DEFAULT_REFILL_PERIOD_MILLIS * epochs
    }
}

/// The bookkeeping of a limiter as plain values: what only the holder of the
/// limiter's lock reads and writes. Tables are indexed by
/// [`IOPriority::ordinal`].
pub struct Books {
    /// Instant of the next scheduled refill.
    pub next_refill_time: u64,
    /// Bytes that waiting callers have booked against coming epochs.
    pub pending_bytes: Seq<usize>,
    /// Epochs that the current budget window has seen.
    pub history_epoch_count: usize,
    /// Bytes that went through in the current budget window.
    pub history_bytes: Seq<usize>,
}

impl Books {
    /// Both tables have a slot for each priority, and the window counter is
    /// within the window.
    pub open spec fn wf(self) -> bool {
        &&& self.pending_bytes.len() == IOPriority::COUNT
        &&& self.history_bytes.len() == IOPriority::COUNT
        &&& self.history_epoch_count < UPDATE_BUDGETS_EVERY_N_EPOCHS
    }

    /// Books with nothing booked and nothing recorded, whose first refill is
    /// one period after `now`.
    pub open spec fn fresh(now: u64) -> Books {
        Books {
            next_refill_time: saturating_millis(now + DEFAULT_REFILL_PERIOD_MILLIS),
            pending_bytes: Seq::new(IOPriority::COUNT as nat, |i: int| 0usize),
            history_epoch_count: 0,
            history_bytes: Seq::new(IOPriority::COUNT as nat, |i: int| 0usize),
        }
    }

    /// Whether the scheduled refill has come at `now`.
    pub open spec fn refill_due(self, now: u64) -> bool {
        self.next_refill_time <= now
    }

    /// Time from `now` to the scheduled refill, 0 when it is due.
    pub open spec fn time_to_refill(self, now: u64) -> u64 {
        if self.next_refill_time > now {
            (self.next_refill_time - now) as u64
        } else {
            0
        }
    }

    /// The books with the next refill scheduled one period after `now`.
    pub open spec fn scheduled(self, now: u64) -> Books {
        Books {
            next_refill_time: saturating_millis(now + DEFAULT_REFILL_PERIOD_MILLIS),
            ..self
        }
    }

    /// Whether the coming refill completes the budget window.
    pub open spec fn window_closes(self) -> bool {
        self.history_epoch_count == UPDATE_BUDGETS_EVERY_N_EPOCHS - 1
    }

    /// The books after one more epoch of the budget window.
    pub open spec fn advanced(self) -> Books {
        Books {
            history_epoch_count: if self.window_closes() {
                0
            } else {
                (self.history_epoch_count + 1) as usize
            },
            ..self
        }
    }

    /// Booked bytes of `priority` that an epoch with budget `limit` carries.
    pub open spec fn satisfied(self, priority: IOPriority, limit: usize) -> usize {
        let pending = self.pending_bytes[priority.ordinal()];
        if pending > limit {
            limit
        } else {
            pending
        }
    }

    /// The books after the coming epoch took its share of the booked bytes of
    /// `priority`.
    pub open spec fn settled(self, priority: IOPriority, limit: usize) -> Books {
        let pending = self.pending_bytes[priority.ordinal()];
        Books {
            pending_bytes: self.pending_bytes.update(
                priority.ordinal(),
                (pending - self.satisfied(priority, limit)) as usize,
            ),
            ..self
        }
    }

    /// The books after a caller booked `amount` more bytes of `priority`.
    pub open spec fn enqueued(self, priority: IOPriority, amount: usize) -> Books {
        Books {
            pending_bytes: self.pending_bytes.update(
                priority.ordinal(),
                saturating_sum(self.pending_bytes[priority.ordinal()] as int, amount as int),
            ),
            ..self
        }
    }

    /// Bytes of `priority` in the budget window once the epoch that ends is
    /// added: it had `previous` bytes through, of which at most `limit` count.
    pub open spec fn window_bytes(self, priority: IOPriority, previous: usize, limit: usize)
        -> usize {
        saturating_sum(
            self.history_bytes[priority.ordinal()] as int,
            if previous < limit {
                previous as int
            } else {
                limit as int
            },
        )
    }

    /// Average bytes per epoch of `priority` over the window that closes.
    pub open spec fn estimate(self, priority: IOPriority, previous: usize, limit: usize) -> usize {
        self.window_bytes(priority, previous, limit) / UPDATE_BUDGETS_EVERY_N_EPOCHS
    }

    /// Budget that the priority below `priority` gets when the window closes.
    pub open spec fn next_budget(self, priority: IOPriority, previous: usize, limit: usize)
        -> usize {
        residual_budget_spec(limit, self.estimate(priority, previous, limit))
    }

    /// The books after the epoch of `priority` that ends is added to the
    /// window, which starts anew when `update` is set.
    pub open spec fn accounted(
        self,
        priority: IOPriority,
        previous: usize,
        limit: usize,
        update: bool,
    ) -> Books {
        Books {
            history_bytes: self.history_bytes.update(
                priority.ordinal(),
                if update {
                    0
                } else {
                    self.window_bytes(priority, previous, limit)
                },
            ),
            ..self
        }
    }
}

/// What one refill read from the shared counters of a limiter.
#[derive(Clone, Copy, Debug, PartialEq, Eq, Structural)]
pub struct Readings {
    /// Budget of `High`, which is the rate of the limiter as a whole. 0 when
    /// the limiter is off; nothing else is read then.
    pub high_budget: usize,
    /// Bytes of `High` that went through in the epoch that ends.
    pub high_through: usize,
    /// Bytes of `Medium` that went through in the epoch that ends.
    pub medium_through: usize,
    /// Budget of `Medium`. Read only while the budget window stays open.
    pub medium_budget: usize,
    /// Budget of `Low`. Read only while the budget window stays open.
    pub low_budget: usize,
}

/// How one priority starts an epoch.
#[derive(Clone, Copy, Debug, PartialEq, Eq, Structural)]
pub struct Tier {
    /// Bytes that the priority may pass in the epoch.
    pub budget: usize,
    /// Bytes with which the epoch starts charged: those that callers booked
    /// in earlier epochs and that fall to this one.
    pub carried: usize,
}

/// How the three active priorities start an epoch.
#[derive(Clone, Copy, Debug, PartialEq, Eq, Structural)]
pub struct EpochStart {
    /// Whether the refill closed a budget window and set the budgets of
    /// `Medium` and `Low` anew.
    pub update: bool,
    pub high: Tier,
    pub medium: Tier,
    pub low: Tier,
}

impl EpochStart {
    /// The start of an epoch in which the limiter is off.
    pub open spec fn off() -> EpochStart {
        EpochStart {
            update: false,
            high: Tier { budget: 0, carried: 0 },
            medium: Tier { budget: 0, carried: 0 },
            low: Tier { budget: 0, carried: 0 },
        }
    }
}

impl Books {
    /// Budget of `Medium` in the epoch that a refill starts: what `High` left
    /// unused over the window if the window closes, else the budget read.
    pub open spec fn medium_limit(self, r: Readings) -> usize {
        if self.window_closes() {
            self.next_budget(IOPriority::High, r.high_through, r.high_budget)
        } else {
            r.medium_budget
        }
    }

    /// Budget of `Low` in the epoch that a refill starts: what `Medium` left
    /// unused over the window if the window closes, else the budget read.
    pub open spec fn low_limit(self, r: Readings) -> usize {
        if self.window_closes() {
            self.next_budget(IOPriority::Medium, r.medium_through, self.medium_limit(r))
        } else {
            r.low_budget
        }
    }

    /// How the epoch starts that a refill with readings `r` begins.
    pub open spec fn refill_start(self, r: Readings) -> EpochStart {
        if r.high_budget == 0 {
            EpochStart::off()
        } else {
            EpochStart {
                update: self.window_closes(),
                high: Tier {
                    budget: r.high_budget,
                    carried: self.satisfied(IOPriority::High, r.high_budget),
                },
                medium: Tier {
                    budget: self.medium_limit(r),
                    carried: self.satisfied(IOPriority::Medium, self.medium_limit(r)),
                },
                low: Tier {
                    budget: self.low_limit(r),
                    carried: self.satisfied(IOPriority::Low, self.low_limit(r)),
                },
            }
        }
    }

    /// The books after a refill at `now` with readings `r`: the next refill is
    /// scheduled; unless the limiter is off, the window has one epoch more,
    /// each priority has handed the new epoch its share of the booked bytes,
    /// and the epoch that ends is added to the window of `High` and `Medium`.
    pub open spec fn refilled(self, now: u64, r: Readings) -> Books {
        if r.high_budget == 0 {
            self.scheduled(now)
        } else {
            let update = self.window_closes();
            self.scheduled(now).advanced().settled(IOPriority::High, r.high_budget).accounted(
                IOPriority::High,
                r.high_through,
                r.high_budget,
                update,
            ).settled(IOPriority::Medium, self.medium_limit(r)).accounted(
                IOPriority::Medium,
                r.medium_through,
                self.medium_limit(r),
                update,
            ).settled(IOPriority::Low, self.low_limit(r))
        }
    }
}

/// The answer to a request: the bytes that the caller may pass, once it has
/// waited for `wait_millis`.
#[derive(Clone, Copy, Debug, PartialEq, Eq, Structural)]
pub struct Grant {
    pub bytes: usize,
    pub wait_millis: u64,
}

/// The part of a priority limiter that its lock protects.
#[derive(Debug)]
pub struct PriorityBasedIORateLimiterProtected {
    next_refill_time: u64,
    // IOs that can't be fulfilled in the current epoch
    pending_bytes: [usize; IOPriority::COUNT],
    // Used to smoothly update IO budgets
    history_epoch_count: usize,
    history_bytes: [usize; IOPriority::COUNT],
}

impl View for PriorityBasedIORateLimiterProtected {
    type V = Books;

    closed spec fn view(&self) -> Books {
        Books {
            next_refill_time: self.next_refill_time,
            pending_bytes: self.pending_bytes@,
            history_epoch_count: self.history_epoch_count,
            history_bytes: self.history_bytes@,
        }
    }
}

impl PriorityBasedIORateLimiterProtected {
    #[verifier::type_invariant]
    spec fn window_counter_in_range(self) -> bool {
        self.history_epoch_count < UPDATE_BUDGETS_EVERY_N_EPOCHS
    }

    /// Empty books whose first refill is one period after `now_millis`.
    pub fn new(now_millis: u64) -> (books: Self)
        ensures
            books@ == Books::fresh(now_millis),
            books@.wf(),
    {
        let books = PriorityBasedIORateLimiterProtected {
            next_refill_time: now_millis.saturating_add(DEFAULT_REFILL_PERIOD_MILLIS),
            pending_bytes: [0; IOPriority::COUNT],
            history_epoch_count: 0,
            history_bytes: [0; IOPriority::COUNT],
        };
        assert(books@.pending_bytes =~= Books::fresh(now_millis).pending_bytes);
        assert(books@.history_bytes =~= Books::fresh(now_millis).history_bytes);
        books
    }

    /// Instant of the next scheduled refill.
    pub fn next_refill_time(&self) -> (t: u64)
        ensures
            t == self@.next_refill_time,
    {
        self.next_refill_time
    }

    /// Bytes of `priority` that waiting callers have booked.
    pub fn pending_bytes(&self, priority: IOPriority) -> (bytes: usize)
        ensures
            self@.wf(),
            bytes == self@.pending_bytes[priority.ordinal()],
    {
        proof {
            use_type_invariant(self);
        }
        self.pending_bytes[priority.index()]
    }

    /// Epochs that the current budget window has seen.
    pub fn history_epoch_count(&self) -> (count: usize)
        ensures
            self@.wf(),
            count == self@.history_epoch_count,
    {
        proof {
            use_type_invariant(self);
        }
        self.history_epoch_count
    }

    /// Bytes of `priority` that went through in the current budget window.
    pub fn history_bytes(&self, priority: IOPriority) -> (bytes: usize)
        ensures
            self@.wf(),
            bytes == self@.history_bytes[priority.ordinal()],
    {
        proof {
            use_type_invariant(self);
        }
        self.history_bytes[priority.index()]
    }

    /// Whether the scheduled refill has come at `now_millis`.
    pub fn refill_due(&self, now_millis: u64) -> (due: bool)
        ensures
            due == self@.refill_due(now_millis),
    {
        self.next_refill_time <= now_millis
    }

    /// Time from `now_millis` to the scheduled refill, 0 when it is due.
    pub fn time_to_refill(&self, now_millis: u64) -> (wait: u64)
        ensures
            wait == self@.time_to_refill(now_millis),
    {
        if self.next_refill_time > now_millis {
            self.next_refill_time - now_millis
        } else {
            0
        }
    }

    /// Schedules the next refill one period after `now_millis`.
    pub fn schedule(&mut self, now_millis: u64)
        ensures
            final(self)@ == old(self)@.scheduled(now_millis),
            final(self)@.wf(),
    {
        proof {
            use_type_invariant(&*self);
        }
        self.next_refill_time = now_millis.saturating_add(DEFAULT_REFILL_PERIOD_MILLIS);
    }

    /// Counts one more epoch of the budget window and says whether it was the
    /// window's last, on which budgets are recomputed.
    pub fn advance_window(&mut self) -> (update: bool)
        ensures
            update == old(self)@.window_closes(),
            final(self)@ == old(self)@.advanced(),
            final(self)@.wf(),
    {
        proof {
            use_type_invariant(&*self);
        }
        if self.history_epoch_count == UPDATE_BUDGETS_EVERY_N_EPOCHS - 1 {
            self.history_epoch_count = 0;
            true
        } else {
            self.history_epoch_count += 1;
            false
        }
    }

    /// Takes from the booked bytes of `priority` what an epoch with budget
    /// `limit` carries, and returns it: the new epoch starts charged with it.
    pub fn settle(&mut self, priority: IOPriority, limit: usize) -> (satisfied: usize)
        ensures
            satisfied == old(self)@.satisfied(priority, limit),
            final(self)@ == old(self)@.settled(priority, limit),
            final(self)@.wf(),
    {
        proof {
            use_type_invariant(&*self);
        }
        let p: usize = priority.index();
        let pending: usize = self.pending_bytes[p];
        if pending > limit {
            // preserve pending IOs that still can't be satisfied
            self.pending_bytes[p] = pending - limit;
            limit
        } else {
            self.pending_bytes[p] = 0;
            pending
        }
    }

    /// Books `amount` more bytes of `priority` for a caller that has to wait,
    /// and returns the bytes then booked: the caller's place in the queue.
    pub fn enqueue(&mut self, priority: IOPriority, amount: usize) -> (pending: usize)
        ensures
            final(self)@ == old(self)@.enqueued(priority, amount),
            pending == final(self)@.pending_bytes[priority.ordinal()],
            final(self)@.wf(),
    {
        proof {
            use_type_invariant(&*self);
        }
        let p: usize = priority.index();
        let pending: usize = self.pending_bytes[p].saturating_add(amount);
        self.pending_bytes[p] = pending;
        pending
    }

    /// Adds the epoch of `priority` that ends to the budget window: it had
    /// `previous` bytes through under budget `limit`. When `update` is set the
    /// window closes: it starts anew, and the result is the budget of the next
    /// lower priority.
    pub fn account(&mut self, priority: IOPriority, previous: usize, limit: usize, update: bool)
        -> (budget: Option<usize>)
        ensures
            final(self)@ == old(self)@.accounted(priority, previous, limit, update),
            budget == if update {
                Some(old(self)@.next_budget(priority, previous, limit))
            } else {
                None
            },
            final(self)@.wf(),
    {
        proof {
            use_type_invariant(&*self);
        }
        let p: usize = priority.index();
        let through: usize = if previous < limit {
            previous
        } else {
            limit
        };
        let window: usize = self.history_bytes[p].saturating_add(through);
        if update {
            self.history_bytes[p] = 0;
            let estimated_bytes_through: usize = window / UPDATE_BUDGETS_EVERY_N_EPOCHS;
            Some(residual_budget(limit, estimated_bytes_through))
        } else {
            self.history_bytes[p] = window;
            None
        }
    }
}

} // verus!
