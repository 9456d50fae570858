//! The rate limiter and its statistics.

use crossbeam_utils::CachePadded;
use parking_lot::Mutex;
use std::sync::atomic::AtomicUsize;
use std::sync::Arc;
use vstd::prelude::*;

use crate::epoch::{
    charge, charge_spec, epoch_budget, epoch_budget_spec, fits_in_epoch, fits_spec, queue_wait,
    queue_wait_spec, toggles, toggles_spec, Books, EpochStart, Grant,
    PriorityBasedIORateLimiterProtected, Readings, Tier,
};
use crate::shared_state::{
    fetch_add_acq_rel, fetch_add_relaxed, load_relaxed, lock, new_counter, new_mutex, protected,
    share, store_relaxed, store_release, swap_relaxed, swap_release,
};
use crate::{IOOp, IOPriority, IOType};

verus! {

/// Record accumulated bytes through of different types.
/// Used for testing and metrics.
pub struct IORateLimiterStatistics {
    read_bytes: [CachePadded<AtomicUsize>; IOType::COUNT],
    write_bytes: [CachePadded<AtomicUsize>; IOType::COUNT],
}

impl IORateLimiterStatistics {
    /// Statistics with every counter at 0.
    pub fn new() -> Self {
        IORateLimiterStatistics {
            read_bytes: [
                new_counter(0),
                new_counter(0),
                new_counter(0),
                new_counter(0),
                new_counter(0),
                new_counter(0),
                new_counter(0),
                new_counter(0),
                new_counter(0),
            ],
            write_bytes: [
                new_counter(0),
                new_counter(0),
                new_counter(0),
                new_counter(0),
                new_counter(0),
                new_counter(0),
                new_counter(0),
                new_counter(0),
                new_counter(0),
            ],
        }
    }

    /// Bytes granted so far to `io_type` in direction `io_op`.
    pub fn fetch(&self, io_type: IOType, io_op: IOOp) -> usize {
        let io_type_idx: usize = io_type.index();
        match io_op {
            IOOp::Read => load_relaxed(&self.read_bytes[io_type_idx]),
            IOOp::Write => load_relaxed(&self.write_bytes[io_type_idx]),
        }
    }

    /// Adds `bytes` to the counter of `io_type` in direction `io_op`.
    pub fn record(&self, io_type: IOType, io_op: IOOp, bytes: usize) {
        let io_type_idx: usize = io_type.index();
        match io_op {
            IOOp::Read => {
                fetch_add_relaxed(&self.read_bytes[io_type_idx], bytes);
            },
            IOOp::Write => {
                fetch_add_relaxed(&self.write_bytes[io_type_idx], bytes);
            },
        }
    }

    /// Sets every counter back to 0.
    pub fn reset(&self) {
        let mut i: usize = 0;
        while i < IOType::COUNT
            invariant
                i <= IOType::COUNT,
            decreases IOType::COUNT - i,
        {
            store_relaxed(&self.read_bytes[i], 0);
            store_relaxed(&self.write_bytes[i], 0);
            i += 1;
        }
    }
}

/// A request whose priority is `Stop` is told to wait this long, in
/// milliseconds.
pub const STOP_WAIT_MILLIS: u64 = 1_000_000;

/// What a refill read from the shared counters and how the epoch starts that
/// it began.
#[derive(Clone, Copy, Debug, PartialEq, Eq, Structural)]
pub struct Refill {
    pub readings: Readings,
    pub start: EpochStart,
}

impl Refill {
    /// Whether this is the refill at `now` that finds the books as `before`
    /// and leaves them as `after`: with what it read, the books end and the
    /// epoch starts as they must.
    pub open spec fn made_on(self, before: Books, after: Books, now: u64) -> bool {
        &&& after == before.refilled(now, self.readings)
        &&& self.start == before.refill_start(self.readings)
    }

    /// What holds of a refill whatever the books held: an epoch starts
    /// charged with no more than its budget; a refill that closes a window
    /// hands each lower priority a byte at least and no more than the
    /// priority above it has, one that does not leaves the budgets as it finds
    /// them; and while the limiter is off, nothing starts.
    pub open spec fn in_order(self) -> bool {
        let r = self.readings;
        let s = self.start;
        if r.high_budget == 0 {
            s == EpochStart::off()
        } else {
            &&& s.high.budget == r.high_budget
            &&& s.high.carried <= s.high.budget
            &&& s.medium.carried <= s.medium.budget
            &&& s.low.carried <= s.low.budget
            &&& if s.update {
                1 <= s.low.budget <= s.medium.budget <= s.high.budget
            } else {
                s.medium.budget == r.medium_budget && s.low.budget == r.low_budget
            }
        }
    }
}

/// What became of a request that did not fit into the current epoch.
#[derive(Clone, Copy, Debug, PartialEq, Eq, Structural)]
pub struct Booking {
    /// Time that the caller has to wait for its turn, in milliseconds.
    pub wait_millis: u64,
    /// The refill that was made on the way, if one was due.
    pub refill: Option<Refill>,
}

impl Booking {
    /// Whether this is the booking of `amount` bytes at `priority` under
    /// `budget`, made at `now`, that finds the books as `before` and leaves
    /// them as `after`. The bytes are booked; a refill is made if and only if
    /// one is due; and the caller waits for the coming refill, if none was
    /// made, and for one epoch more for each whole budget that is then booked.
    pub open spec fn made_on(
        self,
        before: Books,
        after: Books,
        priority: IOPriority,
        amount: usize,
        budget: usize,
        now: u64,
    ) -> bool {
        match self.refill {
            Some(done) => {
                &&& before.refill_due(now)
                &&& done.made_on(before.enqueued(priority, amount), after, now)
                &&& self.wait_millis == queue_wait_spec(
                    0,
                    after.pending_bytes[priority.ordinal()],
                    budget,
                )
            },
            None => {
                &&& !before.refill_due(now)
                &&& after == before.enqueued(priority, amount)
                &&& self.wait_millis == queue_wait_spec(
                    before.time_to_refill(now),
                    after.pending_bytes[priority.ordinal()],
                    budget,
                )
            },
        }
    }
}

/// What a change of rate read from the shared counters and stored in them.
#[derive(Clone, Copy, Debug, PartialEq, Eq, Structural)]
pub struct RateChange {
    /// Budget of `High` that the change found.
    pub before: usize,
    /// Budget of `High` that the change put in its place.
    pub now: usize,
}

impl RateChange {
    /// Whether the change turned the limiter on or off, and so gave `Medium`
    /// and `Low` the new budget too.
    pub open spec fn toggled(self) -> bool {
        toggles_spec(self.before, self.now)
    }
}

/// The answer to a request, with what the request read from the shared
/// counters on its way.
#[derive(Clone, Copy, Debug, PartialEq, Eq, Structural)]
pub struct Admission {
    /// The bytes that the caller may pass and the time it has to wait first.
    pub grant: Grant,
    /// Budget of the priority as the request found it. 0 where there is no
    /// limit.
    pub budget: usize,
    /// Bytes of the priority that were through in the epoch before the
    /// request was charged. Not read, and 0 here, where there is no limit.
    pub through: usize,
    /// What became of the request if it did not fit into the epoch.
    pub booking: Option<Booking>,
}

impl Admission {
    /// The admission of a request that is not admitted: nothing is granted,
    /// after a wait of [`STOP_WAIT_MILLIS`].
    pub open spec fn stopped() -> Admission {
        Admission {
            grant: Grant { bytes: 0, wait_millis: STOP_WAIT_MILLIS },
            budget: 0,
            through: 0,
            booking: None,
        }
    }

    /// The admission of `bytes` bytes where nothing is limited.
    pub open spec fn unlimited(bytes: usize) -> Admission {
        Admission {
            grant: Grant { bytes, wait_millis: 0 },
            budget: 0,
            through: 0,
            booking: None,
        }
    }

    /// Whether the request was granted at once: there is no limit, or what it
    /// is charged fits into the epoch as the request found it.
    pub open spec fn at_once(self) -> bool {
        self.budget == 0 || fits_spec(self.through, self.grant.bytes, self.budget)
    }

    /// What holds of the admission of a request of `amount` bytes whatever
    /// the books held: it is granted what it is charged under the budget it
    /// found; it does not wait if that fits into the epoch; and if not, it is
    /// booked and waits as long as the booking says.
    pub open spec fn in_order(self, amount: usize) -> bool {
        &&& self.grant.bytes == charge_spec(amount, self.budget)
        &&& if self.at_once() {
            self.grant.wait_millis == 0 && self.booking is None
        } else {
            &&& self.booking matches Some(booking)
            &&& self.grant.wait_millis == booking.wait_millis
            &&& booking.refill matches Some(done) ==> done.in_order()
        }
    }
}

/// What the refill of one priority read and set.
struct TierRefill {
    // bytes with which the new epoch of the priority starts charged
    carried: usize,
    // bytes of the priority that went through in the epoch that ends
    previous: usize,
    // budget of the next lower priority, as set or as found
    below: usize,
}

/// Limit total IO flow below provided threshold by throttling lower-priority IOs.
/// Rate limit is disabled when total IO threshold is set to zero.
pub struct PriorityBasedIORateLimiter {
    // IO amount passed through within current epoch
    bytes_through: [CachePadded<AtomicUsize>; IOPriority::COUNT],
    // Maximum IOs permitted within current epoch
    bytes_per_epoch: [CachePadded<AtomicUsize>; IOPriority::COUNT],
    protected: Mutex<PriorityBasedIORateLimiterProtected>,
}

impl PriorityBasedIORateLimiter {
    /// A limiter that is off, with empty books whose first refill is one
    /// period after `now_millis`.
    pub fn new(now_millis: u64) -> Self {
        PriorityBasedIORateLimiter {
            bytes_through: [new_counter(0), new_counter(0), new_counter(0), new_counter(0)],
            bytes_per_epoch: [new_counter(0), new_counter(0), new_counter(0), new_counter(0)],
            protected: new_mutex(PriorityBasedIORateLimiterProtected::new(now_millis)),
        }
    }

    /// Dynamically changes the total IO flow threshold. The budget of `High`
    /// becomes what an epoch may carry at `bytes_per_sec`; the result tells
    /// that budget and the one it replaced.
    pub fn set_bytes_per_sec(&self, bytes_per_sec: usize) -> (change: RateChange)
        ensures
            change.now == epoch_budget_spec(bytes_per_sec),
    {
        let now: usize = epoch_budget(bytes_per_sec);
        let before: usize = swap_relaxed(&self.bytes_per_epoch[IOPriority::High.index()], now);
        if toggles(before, now) {
            // toggle on/off rate limit.
            // we hold this lock so a concurrent refill can't negate our effort.
            let _locked = lock(&self.protected);
            store_relaxed(&self.bytes_per_epoch[IOPriority::Medium.index()], now);
            store_relaxed(&self.bytes_per_epoch[IOPriority::Low.index()], now);
        }
        RateChange { before, now }
    }

    /// Requests `amount` bytes at `priority`, at the instant `now_millis`.
    ///
    /// The attempt is recorded first. If the attempted amount exceeds the
    /// available quota of the current epoch, the request is booked and the
    /// grant tells how long the requester has to wait for its turn.
    pub fn request(&self, priority: IOPriority, amount: usize, now_millis: u64) -> (admission:
        Admission)
        ensures
            admission.in_order(amount),
            admission.grant.bytes <= amount,
            amount > 0 ==> admission.grant.bytes > 0,
    {
        let priority_idx: usize = priority.index();
        let cached_bytes_per_refill: usize = load_relaxed(&self.bytes_per_epoch[priority_idx]);
        let amount: usize = charge(amount, cached_bytes_per_refill);
        if cached_bytes_per_refill == 0 {
            return Admission {
                grant: Grant { bytes: amount, wait_millis: 0 },
                budget: 0,
                through: 0,
                booking: None,
            };
        }
        let before: usize = fetch_add_acq_rel(&self.bytes_through[priority_idx], amount);
        if fits_in_epoch(before, amount, cached_bytes_per_refill) {
            return Admission {
                grant: Grant { bytes: amount, wait_millis: 0 },
                budget: cached_bytes_per_refill,
                through: before,
                booking: None,
            };
        }
        let mut held = lock(&self.protected);
        let booking = self.book(
            protected(&mut held),
            priority,
            amount,
            cached_bytes_per_refill,
            now_millis,
        );
        Admission {
            grant: Grant { bytes: amount, wait_millis: booking.wait_millis },
            budget: cached_bytes_per_refill,
            through: before,
            booking: Some(booking),
        }
    }

    /// Books `amount` bytes at `priority` for a caller that found the current
    /// epoch full under the budget `budget`, at the instant `now_millis`.
    ///
    /// `locked` is what the lock of this limiter protects. A refill that is
    /// due is made first, so that a stopped ticker cannot let the caller
    /// sleep across epochs that were missed. The caller then waits for the
    /// coming refill and for one epoch more for each whole budget that is
    /// booked up to and including its own bytes.
    pub fn book(
        &self,
        locked: &mut PriorityBasedIORateLimiterProtected,
        priority: IOPriority,
        amount: usize,
        budget: usize,
        now_millis: u64,
    ) -> (booking: Booking)
        requires
            budget > 0,
        ensures
            booking.made_on(old(locked)@, final(locked)@, priority, amount, budget, now_millis),
            booking.refill matches Some(done) ==> done.in_order(),
    {
        locked.enqueue(priority, amount);
        let (until_refill, refill): (u64, Option<Refill>) = if locked.refill_due(now_millis) {
            let done = self.refill(locked, now_millis);
            (0, Some(done))
        } else {
            (locked.time_to_refill(now_millis), None)
        };
        // hold a snapshot ticket of pending bytes
        let pending: usize = locked.pending_bytes(priority);
        // wait until our ticket can actually be served
        let wait: u64 = queue_wait(until_refill, pending, budget);
        Booking { wait_millis: wait, refill }
    }

    /// Ends the epoch of `priority`, which is `High` or `Medium`, under the
    /// budget `limit`, and finds the budget of the priority below.
    fn refill_tier(
        &self,
        locked: &mut PriorityBasedIORateLimiterProtected,
        priority: IOPriority,
        limit: usize,
        update: bool,
    ) -> (tier: TierRefill)
        requires
            priority == IOPriority::High || priority == IOPriority::Medium,
        ensures
            tier.carried == old(locked)@.satisfied(priority, limit),
            final(locked)@ == old(locked)@.settled(priority, limit).accounted(
                priority,
                tier.previous,
                limit,
                update,
            ),
            update ==> tier.below == old(locked)@.next_budget(priority, tier.previous, limit),
    {
        // calculate budgets from next epoch used to satisfy pending IOs
        let satisfied: usize = locked.settle(priority, limit);
        let previous: usize = swap_release(&self.bytes_through[priority.index()], satisfied);
        let lower: usize = priority.lower().index();
        let below: usize = match locked.account(priority, previous, limit, update) {
            Some(budget) => {
                store_relaxed(&self.bytes_per_epoch[lower], budget);
                budget
            },
            None => load_relaxed(&self.bytes_per_epoch[lower]),
        };
        TierRefill { carried: satisfied, previous, below }
    }

    /// Update and refill IO budgets for next epoch.
    ///
    /// `locked` is what the lock of this limiter protects. The result tells
    /// what was read from the shared counters and how the new epoch starts;
    /// the books end as they must for those readings.
    pub fn refill(&self, locked: &mut PriorityBasedIORateLimiterProtected, now_millis: u64) -> (done:
        Refill)
        ensures
            done.made_on(old(locked)@, final(locked)@, now_millis),
            done.in_order(),
    {
        // keep in sync with a potentially skewed clock
        locked.schedule(now_millis);
        let limit: usize = load_relaxed(&self.bytes_per_epoch[IOPriority::High.index()]);
        if limit == 0 {
            return Refill {
                readings: Readings {
                    high_budget: 0,
                    high_through: 0,
                    medium_through: 0,
                    medium_budget: 0,
                    low_budget: 0,
                },
                start: EpochStart {
                    update: false,
                    high: Tier { budget: 0, carried: 0 },
                    medium: Tier { budget: 0, carried: 0 },
                    low: Tier { budget: 0, carried: 0 },
                },
            };
        }
        let should_update_budgets: bool = locked.advance_window();
        let high = self.refill_tier(locked, IOPriority::High, limit, should_update_budgets);
        let medium = self.refill_tier(locked, IOPriority::Medium, high.below, should_update_budgets);
        let satisfied: usize = locked.settle(IOPriority::Low, medium.below);
        store_release(&self.bytes_through[IOPriority::Low.index()], satisfied);
        Refill {
            readings: Readings {
                high_budget: limit,
                high_through: high.previous,
                medium_through: medium.previous,
                medium_budget: if should_update_budgets {
                    0
                } else {
                    high.below
                },
                low_budget: if should_update_budgets {
                    0
                } else {
                    medium.below
                },
            },
            start: EpochStart {
                update: should_update_budgets,
                high: Tier { budget: limit, carried: high.carried },
                medium: Tier { budget: high.below, carried: medium.carried },
                low: Tier { budget: medium.below, carried: satisfied },
            },
        }
    }

    /// Takes the lock and refills at `now_millis`.
    pub fn critical_section(&self, now_millis: u64) -> (done: Refill)
        ensures
            done.in_order(),
    {
        let mut held = lock(&self.protected);
        let locked = protected(&mut held);
        self.refill(locked, now_millis)
    }
}

/// An instance of `IORateLimiter` should be safely shared between threads.
///
/// Instants are milliseconds on a monotonic clock, the same for every call.
pub struct IORateLimiter {
    priority_map: [IOPriority; IOType::COUNT],
    throughput_limiter: Arc<PriorityBasedIORateLimiter>,
    stats: Option<Arc<IORateLimiterStatistics>>,
}

impl IORateLimiter {
    /// Priority at which writes of `io_type` are limited.
    pub closed spec fn priority(&self, io_type: IOType) -> IOPriority {
        self.priority_map@[io_type.ordinal()]
    }

    /// The handle to the limiter of the byte flow.
    pub closed spec fn limiter_handle(&self) -> Arc<PriorityBasedIORateLimiter> {
        self.throughput_limiter
    }

    /// The handle to the statistics, if the limiter records what it grants.
    pub closed spec fn statistics_handle(&self) -> Option<Arc<IORateLimiterStatistics>> {
        self.stats
    }

    /// Whether the limiter records what it grants.
    pub open spec fn has_statistics(&self) -> bool {
        self.statistics_handle() is Some
    }

    /// A limiter that is off, with every type at `High`, made at the instant
    /// `now_millis`: its first refill is scheduled one period after that.
    pub fn new(enable_statistics: bool, now_millis: u64) -> (limiter: IORateLimiter)
        ensures
            forall|io_type: IOType| limiter.priority(io_type) == IOPriority::High,
            limiter.has_statistics() == enable_statistics,
    {
        IORateLimiter {
            priority_map: [IOPriority::High;IOType::COUNT],
            throughput_limiter: Arc::new(PriorityBasedIORateLimiter::new(now_millis)),
            stats: if enable_statistics {
                Some(Arc::new(IORateLimiterStatistics::new()))
            } else {
                None
            },
        }
    }

    /// Limits writes of `io_type` at `io_priority` from now on. Nothing else
    /// changes: the limiter of the byte flow and the statistics are the same.
    pub fn set_io_priority(&mut self, io_type: IOType, io_priority: IOPriority)
        ensures
            final(self).priority(io_type) == io_priority,
            forall|other: IOType|
                other != io_type ==> final(self).priority(other) == old(self).priority(other),
            final(self).limiter_handle() == old(self).limiter_handle(),
            final(self).statistics_handle() == old(self).statistics_handle(),
    {
        self.priority_map[io_type.index()] = io_priority;
    }

    /// Priority at which writes of `io_type` are limited.
    pub fn io_priority(&self, io_type: IOType) -> (io_priority: IOPriority)
        ensures
            io_priority == self.priority(io_type),
    {
        self.priority_map[io_type.index()]
    }

    /// A handle to the statistics, if the limiter records any.
    pub fn statistics(&self) -> (stats: Option<Arc<IORateLimiterStatistics>>)
        ensures
            stats == self.statistics_handle(),
    {
        match &self.stats {
            Some(stats) => Some(share(stats)),
            None => None,
        }
    }

    /// Sets the total rate in bytes per second. 0 turns the limiter off, any
    /// rate above 0 turns it on. The result tells the budget per epoch that
    /// the rate gives and the one it replaced.
    pub fn set_io_rate_limit(&self, rate: usize) -> (change: RateChange)
        ensures
            change.now == epoch_budget_spec(rate),
    {
        self.throughput_limiter.set_bytes_per_sec(rate)
    }

    /// Requests for token for bytes at the instant `now_millis`. The grant
    /// tells how long the caller has to wait before it uses the token; when
    /// it has waited, it calls [`record`](Self::record). Granted token can be
    /// less than the requested bytes, but must be greater than zero.
    ///
    /// Only writes are limited. A write whose type is at `Stop` is not
    /// admitted: it is told to wait for [`STOP_WAIT_MILLIS`] and is granted
    /// nothing, and the limiter of the byte flow is not asked.
    pub fn request(&self, io_type: IOType, io_op: IOOp, bytes: usize, now_millis: u64) -> (admission:
        Admission)
        ensures
            admission.grant.bytes <= bytes,
            io_op == IOOp::Read ==> admission == Admission::unlimited(bytes),
            io_op == IOOp::Write && self.priority(io_type) == IOPriority::Stop ==> admission
                == Admission::stopped(),
            io_op == IOOp::Write && self.priority(io_type) != IOPriority::Stop
                ==> admission.in_order(bytes),
            bytes > 0 && !(io_op == IOOp::Write && self.priority(io_type) == IOPriority::Stop)
                ==> admission.grant.bytes > 0,
    {
        if io_op == IOOp::Write {
            let priority: IOPriority = self.priority_map[io_type.index()];
            if priority == IOPriority::Stop {
                return Admission {
                    grant: Grant { bytes: 0, wait_millis: STOP_WAIT_MILLIS },
                    budget: 0,
                    through: 0,
                    booking: None,
                };
            }
            self.throughput_limiter.request(priority, bytes, now_millis)
        } else {
            Admission {
                grant: Grant { bytes, wait_millis: 0 },
                budget: 0,
                through: 0,
                booking: None,
            }
        }
    }

    /// Adds `bytes` to the statistics of `io_type` in direction `io_op`, if
    /// the limiter records any. The caller of [`request`](Self::request) does
    /// this with the bytes it was granted, once it has waited.
    pub fn record(&self, io_type: IOType, io_op: IOOp, bytes: usize) {
        if let Some(stats) = &self.stats {
            stats.record(io_type, io_op, bytes);
        }
    }

    /// Ends the current epoch at the instant `now_millis`. A ticker calls
    /// this once in every refill period, so that budgets stay fresh while no
    /// request comes.
    pub fn refill(&self, now_millis: u64) -> (done: Refill)
        ensures
            done.in_order(),
    {
        self.throughput_limiter.critical_section(now_millis)
    }
}

/// A place for the limiter that a process shares: empty, or holding a handle
/// to one.
pub struct Registry {
    slot: Mutex<Option<Arc<IORateLimiter>>>,
}

impl Registry {
    /// An empty registry.
    pub fn new() -> Self {
        Registry { slot: new_mutex(None) }
    }

    /// Puts `limiter` in place of what the registry holds. Requests under way
    /// keep the limiter that they found.
    pub fn set(&self, limiter: Option<Arc<IORateLimiter>>) {
        let mut held = lock(&self.slot);
        *protected(&mut held) = limiter;
    }

    /// A handle to the limiter in the registry, if there is one.
    pub fn get(&self) -> Option<Arc<IORateLimiter>> {
        let mut held = lock(&self.slot);
        match protected(&mut held) {
            Some(limiter) => Some(share(limiter)),
            None => None,
        }
    }
}

} // verus!
