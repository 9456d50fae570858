//! A limiter at rest.
//!
//! While no other thread touches a limiter, its counters hold definite values.
//! [`Limiter`] is a limiter in that state, and its operations are those of
//! [`PriorityBasedIORateLimiter`](crate::rate_limiter::PriorityBasedIORateLimiter)
//! with every counter read and written in place.
//!
//! The real limiter tells with each result what it read from its counters.
//! Where those readings are what the counters of a [`Limiter`] hold and the
//! books are its books, the real limiter does what the [`Limiter`] does:
//! [`rate_change_at_rest`], [`refill_at_rest`] and [`admission_at_rest`] prove
//! that from the contracts of `set_bytes_per_sec`, `refill`, `book` and
//! `request`. What is proved below of a [`Limiter`] holds of the real limiter
//! that far.

use vstd::prelude::*;

use crate::epoch::{
    charge_spec, epoch_budget_spec, fits_spec, queue_wait_spec, toggles_spec, Books, Grant,
    Readings, DEFAULT_REFILL_PERIOD_MILLIS, UPDATE_BUDGETS_EVERY_N_EPOCHS,
};
use crate::rate_limiter::{Admission, Booking, RateChange, Refill};
use crate::IOPriority;

verus! {

/// The sum `a + b` as a counter holds it after an addition that wraps around.
pub open spec fn wrapping_sum(a: usize, b: usize) -> usize {
    if a + b > usize::MAX {
        (a + b - usize::MAX - 1) as usize
    } else {
        (a + b) as usize
    }
}

/// A limiter at rest: its counters and its books.
pub struct Limiter {
    /// Bytes passed through within the current epoch, by priority.
    pub bytes_through: Seq<usize>,
    /// Bytes permitted within the current epoch, by priority. 0: no limit.
    pub bytes_per_epoch: Seq<usize>,
    /// What the lock protects.
    pub books: Books,
}

impl Limiter {
    /// Bytes of `priority` that went through in the current epoch.
    pub open spec fn through(self, priority: IOPriority) -> usize {
        self.bytes_through[priority.ordinal()]
    }

    /// Budget of `priority` in the current epoch.
    pub open spec fn budget(self, priority: IOPriority) -> usize {
        self.bytes_per_epoch[priority.ordinal()]
    }

    /// Bytes of `priority` that waiting callers have booked.
    pub open spec fn pending(self, priority: IOPriority) -> usize {
        self.books.pending_bytes[priority.ordinal()]
    }

    /// Every table has a slot for each priority.
    pub open spec fn wf(self) -> bool {
        &&& self.bytes_through.len() == IOPriority::COUNT
        &&& self.bytes_per_epoch.len() == IOPriority::COUNT
        &&& self.books.wf()
    }

    /// What holds of a limiter however it was used: `Stop` has no budget, and
    /// the three active priorities are limited together or not at all.
    pub open spec fn inv(self) -> bool {
        &&& self.wf()
        &&& self.budget(IOPriority::Stop) == 0
        &&& if self.budget(IOPriority::High) == 0 {
            self.budget(IOPriority::Medium) == 0 && self.budget(IOPriority::Low) == 0
        } else {
            self.budget(IOPriority::Medium) > 0 && self.budget(IOPriority::Low) > 0
        }
    }

    /// The limiter as it is made at `now`: off, with empty books whose first
    /// refill is one period after `now`.
    pub open spec fn fresh(now: u64) -> Limiter {
        Limiter {
            bytes_through: Seq::new(IOPriority::COUNT as nat, |i: int| 0usize),
            bytes_per_epoch: Seq::new(IOPriority::COUNT as nat, |i: int| 0usize),
            books: Books::fresh(now),
        }
    }

    /// Whether `r` is what a refill reads from the counters of this limiter.
    /// What a refill does not read is not looked at: nothing but the budget
    /// of `High` while the limiter is off, and the budgets of `Medium` and
    /// `Low` only while the budget window stays open.
    pub open spec fn shows(self, r: Readings) -> bool {
        &&& r.high_budget == self.budget(IOPriority::High)
        &&& r.high_budget > 0 ==> {
            &&& r.high_through == self.through(IOPriority::High)
            &&& r.medium_through == self.through(IOPriority::Medium)
            &&& !self.books.window_closes() ==> {
                &&& r.medium_budget == self.budget(IOPriority::Medium)
                &&& r.low_budget == self.budget(IOPriority::Low)
            }
        }
    }

    /// What a refill reads from the counters.
    pub open spec fn readings(self) -> Readings {
        Readings {
            high_budget: self.budget(IOPriority::High),
            high_through: self.through(IOPriority::High),
            medium_through: self.through(IOPriority::Medium),
            medium_budget: self.budget(IOPriority::Medium),
            low_budget: self.budget(IOPriority::Low),
        }
    }

    /// The limiter after a refill at `now`.
    pub open spec fn refilled(self, now: u64) -> Limiter {
        let start = self.books.refill_start(self.readings());
        Limiter {
            bytes_through: if self.budget(IOPriority::High) == 0 {
                self.bytes_through
            } else {
                self.bytes_through.update(IOPriority::High.ordinal(), start.high.carried).update(
                    IOPriority::Medium.ordinal(),
                    start.medium.carried,
                ).update(IOPriority::Low.ordinal(), start.low.carried)
            },
            bytes_per_epoch: if start.update {
                self.bytes_per_epoch.update(IOPriority::Medium.ordinal(), start.medium.budget).update(
                    IOPriority::Low.ordinal(),
                    start.low.budget,
                )
            } else {
                self.bytes_per_epoch
            },
            books: self.books.refilled(now, self.readings()),
        }
    }

    /// The limiter after its rate was set to `bytes_per_sec`.
    pub open spec fn rate_set(self, bytes_per_sec: usize) -> Limiter {
        let now = epoch_budget_spec(bytes_per_sec);
        Limiter {
            bytes_per_epoch: if toggles_spec(self.budget(IOPriority::High), now) {
                self.bytes_per_epoch.update(IOPriority::High.ordinal(), now).update(
                    IOPriority::Medium.ordinal(),
                    now,
                ).update(IOPriority::Low.ordinal(), now)
            } else {
                self.bytes_per_epoch.update(IOPriority::High.ordinal(), now)
            },
            ..self
        }
    }

    /// The limiter with `charged` more bytes of `priority` through.
    pub open spec fn charged(self, priority: IOPriority, charged: usize) -> Limiter {
        Limiter {
            bytes_through: self.bytes_through.update(
                priority.ordinal(),
                wrapping_sum(self.through(priority), charged),
            ),
            ..self
        }
    }

    /// The limiter with `charged` more bytes of `priority` through and
    /// booked.
    pub open spec fn booked(self, priority: IOPriority, charged: usize) -> Limiter {
        Limiter {
            books: self.books.enqueued(priority, charged),
            ..self.charged(priority, charged)
        }
    }

    /// Whether a request of `amount` bytes at `priority` is granted at once.
    pub open spec fn admits(self, priority: IOPriority, amount: usize) -> bool {
        let budget = self.budget(priority);
        budget == 0 || fits_spec(self.through(priority), charge_spec(amount, budget), budget)
    }

    /// The limiter after a request of `amount` bytes at `priority`, made at
    /// `now`.
    pub open spec fn requested(self, priority: IOPriority, amount: usize, now: u64) -> Limiter {
        let budget = self.budget(priority);
        let charged = charge_spec(amount, budget);
        if budget == 0 {
            self
        } else if self.admits(priority, amount) {
            self.charged(priority, charged)
        } else {
            let booked = self.booked(priority, charged);
            if booked.books.refill_due(now) {
                booked.refilled(now)
            } else {
                booked
            }
        }
    }

    /// The answer to a request of `amount` bytes at `priority`, made at `now`.
    pub open spec fn grant(self, priority: IOPriority, amount: usize, now: u64) -> Grant {
        let budget = self.budget(priority);
        let charged = charge_spec(amount, budget);
        let after = self.requested(priority, amount, now);
        Grant {
            bytes: charged,
            wait_millis: if self.admits(priority, amount) {
                0
            } else if self.books.refill_due(now) {
                queue_wait_spec(0, after.pending(priority), budget)
            } else {
                queue_wait_spec(self.books.time_to_refill(now), after.pending(priority), budget)
            },
        }
    }
}

/// A refill keeps the books in order.
pub proof fn refill_keeps_books_in_order(books: Books, now: u64, r: Readings)
    requires
        books.wf(),
    ensures
        books.refilled(now, r).wf(),
{
    if r.high_budget != 0 {
        let update = books.window_closes();
        let b1 = books.scheduled(now).advanced();
        let b2 = b1.settled(IOPriority::High, r.high_budget);
        let b3 = b2.accounted(IOPriority::High, r.high_through, r.high_budget, update);
        let b4 = b3.settled(IOPriority::Medium, books.medium_limit(r));
        let b5 = b4.accounted(IOPriority::Medium, r.medium_through, books.medium_limit(r), update);
        assert(b1.wf());
        assert(b2.wf());
        assert(b3.wf());
        assert(b4.wf());
        assert(b5.wf());
    }
}

/// A new limiter is in order, and a refill and a change of rate keep a
/// limiter in order.
pub proof fn limiter_stays_in_order(m: Limiter, bytes_per_sec: usize, now: u64)
    requires
        m.inv(),
    ensures
        Limiter::fresh(now).inv(),
        m.refilled(now).inv(),
        m.rate_set(bytes_per_sec).inv(),
{
    refill_keeps_books_in_order(m.books, now, m.readings());
}

/// A request keeps a limiter in order.
pub proof fn request_keeps_limiter_in_order(
    m: Limiter,
    priority: IOPriority,
    amount: usize,
    now: u64,
)
    requires
        m.inv(),
    ensures
        m.requested(priority, amount, now).inv(),
{
    let charged = charge_spec(amount, m.budget(priority));
    let booked = m.booked(priority, charged);
    assert(m.charged(priority, charged).inv());
    assert(booked.inv());
    limiter_stays_in_order(booked, 0, now);
}

/// A change of rate of the real limiter is the model's: where the budget that
/// the change replaced is the one that `High` has in the model, the budget
/// that it stored is the one that `High` has in the model after the change,
/// and the model gives `Medium` and `Low` the same if and only if the change
/// toggled the limiter.
pub proof fn rate_change_at_rest(m: Limiter, bytes_per_sec: usize, change: RateChange)
    requires
        m.inv(),
        change.before == m.budget(IOPriority::High),
        change.now == epoch_budget_spec(bytes_per_sec),
    ensures
        m.rate_set(bytes_per_sec).budget(IOPriority::High) == change.now,
        m.rate_set(bytes_per_sec).budget(IOPriority::Medium) == if change.toggled() {
            change.now
        } else {
            m.budget(IOPriority::Medium)
        },
        m.rate_set(bytes_per_sec).budget(IOPriority::Low) == if change.toggled() {
            change.now
        } else {
            m.budget(IOPriority::Low)
        },
{
}

/// A refill of the real limiter is the model's: where the refill read what
/// the counters of the model hold and found the books of the model, it
/// leaves the books as the model's refill does, and the epoch starts for
/// each priority with the bytes through and the budget that the model's
/// counters then hold.
pub proof fn refill_at_rest(m: Limiter, now: u64, done: Refill, after: Books)
    requires
        m.inv(),
        m.shows(done.readings),
        done.made_on(m.books, after, now),
    ensures
        after == m.refilled(now).books,
        done.start == m.books.refill_start(m.readings()),
        m.budget(IOPriority::High) == 0 ==> m.refilled(now).bytes_through == m.bytes_through
            && m.refilled(now).bytes_per_epoch == m.bytes_per_epoch,
        m.budget(IOPriority::High) > 0 ==> {
            &&& m.refilled(now).through(IOPriority::High) == done.start.high.carried
            &&& m.refilled(now).through(IOPriority::Medium) == done.start.medium.carried
            &&& m.refilled(now).through(IOPriority::Low) == done.start.low.carried
            &&& m.refilled(now).budget(IOPriority::High) == done.start.high.budget
            &&& m.refilled(now).budget(IOPriority::Medium) == done.start.medium.budget
            &&& m.refilled(now).budget(IOPriority::Low) == done.start.low.budget
        },
{
    let r = done.readings;
    let own = m.readings();
    if r.high_budget > 0 {
        assert(m.books.medium_limit(r) == m.books.medium_limit(own));
        assert(m.books.low_limit(r) == m.books.low_limit(own));
    }
    assert(m.books.refill_start(r) == m.books.refill_start(own));
    assert(m.books.refilled(now, r) == m.books.refilled(now, own));
}

/// An admission of the real limiter is the model's: where the request read
/// what the counters of the model hold, and the booking, if there was one,
/// found the books of the model and its refill, if there was one, read what
/// the counters hold once the request is charged, the request is granted at
/// once if and only if the model admits it, the grant is the model's grant,
/// and a booking leaves the books as the model's request does.
pub proof fn admission_at_rest(
    m: Limiter,
    priority: IOPriority,
    amount: usize,
    now: u64,
    admission: Admission,
    after: Books,
)
    requires
        m.inv(),
        admission.in_order(amount),
        admission.budget == m.budget(priority),
        admission.budget > 0 ==> admission.through == m.through(priority),
        admission.booking matches Some(booking) ==> {
            &&& booking.made_on(
                m.books,
                after,
                priority,
                admission.grant.bytes,
                admission.budget,
                now,
            )
            &&& booking.refill matches Some(done) ==> m.booked(
                priority,
                admission.grant.bytes,
            ).shows(done.readings)
        },
    ensures
        admission.at_once() == m.admits(priority, amount),
        admission.grant == m.grant(priority, amount, now),
        admission.booking is Some ==> after == m.requested(priority, amount, now).books,
{
    if let Some(booking) = admission.booking {
        let charged = admission.grant.bytes;
        let booked = m.booked(priority, charged);
        assert(m.charged(priority, charged).inv());
        assert(booked.inv());
        if let Some(done) = booking.refill {
            refill_at_rest(booked, now, done, after);
        }
    }
}

/// A limiter whose rate is 0 limits nothing: setting the rate to 0 takes the
/// budget from every priority, and a request for which there is no budget is
/// granted in full, at once, and leaves no trace.
pub proof fn disabled_limiter_passes_everything(
    m: Limiter,
    priority: IOPriority,
    amount: usize,
    now: u64,
)
    requires
        m.inv(),
    ensures
        m.rate_set(0).budget(priority) == 0,
        m.budget(priority) == 0 ==> m.grant(priority, amount, now) == (Grant {
            bytes: amount,
            wait_millis: 0,
        }) && m.requested(priority, amount, now) == m,
{
}

/// The limiter is off exactly when its rate is 0: any rate above 0 gives each
/// active priority a budget.
pub proof fn positive_rate_limits(m: Limiter, bytes_per_sec: usize, priority: IOPriority)
    requires
        m.inv(),
        priority != IOPriority::Stop,
    ensures
        m.rate_set(bytes_per_sec).budget(priority) == 0 <==> bytes_per_sec == 0,
        m.rate_set(bytes_per_sec).budget(IOPriority::High) == epoch_budget_spec(bytes_per_sec),
{
}

/// A change from one rate to another is in force at once for `High`, whose
/// budget is the rate of the limiter, and leaves the lower priorities what
/// they have until a refill closes the budget window.
pub proof fn rate_change_takes_effect(m: Limiter, bytes_per_sec: usize, priority: IOPriority)
    requires
        m.inv(),
        m.budget(IOPriority::High) > 0,
        bytes_per_sec > 0,
        priority != IOPriority::High,
    ensures
        m.rate_set(bytes_per_sec).budget(IOPriority::High) == epoch_budget_spec(bytes_per_sec),
        m.rate_set(bytes_per_sec).budget(priority) == m.budget(priority),
        m.rate_set(bytes_per_sec).bytes_through == m.bytes_through,
        m.rate_set(bytes_per_sec).books == m.books,
{
}

/// A request that fits into what is left of its priority's budget is not
/// throttled: it is granted in full and at once, and only the bytes through
/// change.
pub proof fn light_flow_is_not_throttled(m: Limiter, priority: IOPriority, amount: usize, now: u64)
    requires
        m.inv(),
        m.through(priority) + amount <= m.budget(priority),
    ensures
        m.grant(priority, amount, now) == (Grant { bytes: amount, wait_millis: 0 }),
        m.requested(priority, amount, now).books == m.books,
        m.requested(priority, amount, now).bytes_per_epoch == m.bytes_per_epoch,
        m.budget(priority) > 0 ==> m.requested(priority, amount, now).through(priority)
            == m.through(priority) + amount,
{
}

/// No request is granted more than it asked for or more than one epoch's
/// budget, and none that asks for a byte is left without one.
pub proof fn grant_is_bounded(m: Limiter, priority: IOPriority, amount: usize, now: u64)
    requires
        m.inv(),
    ensures
        m.grant(priority, amount, now).bytes <= amount,
        m.budget(priority) > 0 ==> m.grant(priority, amount, now).bytes <= m.budget(priority),
        amount > 0 ==> m.grant(priority, amount, now).bytes > 0,
{
}

/// A refill starts no epoch over budget: each active priority starts with at
/// most its budget through, and no refill adds to what is booked.
pub proof fn refill_keeps_within_budget(m: Limiter, priority: IOPriority, now: u64)
    requires
        m.inv(),
        priority != IOPriority::Stop,
    ensures
        m.budget(IOPriority::High) > 0 ==> m.refilled(now).through(priority) <= m.refilled(
            now,
        ).budget(priority),
        m.refilled(now).pending(priority) <= m.pending(priority),
        m.budget(IOPriority::High) > 0 ==> m.refilled(now).through(priority) + m.refilled(
            now,
        ).pending(priority) == m.pending(priority),
        m.refilled(now).budget(IOPriority::High) == m.budget(IOPriority::High),
{
}

/// On a refill that closes the budget window, each lower priority gets what
/// the priority above it left of its own budget on average over the window,
/// and a byte at least. Both windows then start anew.
pub proof fn lower_budgets_are_residuals(m: Limiter, now: u64)
    requires
        m.inv(),
        m.budget(IOPriority::High) > 0,
        m.books.window_closes(),
    ensures
        ({
            let after = m.refilled(now);
            let high = m.budget(IOPriority::High);
            let high_used = m.books.estimate(IOPriority::High, m.through(IOPriority::High), high);
            let medium = after.budget(IOPriority::Medium);
            let medium_used = m.books.estimate(
                IOPriority::Medium,
                m.through(IOPriority::Medium),
                medium,
            );
            &&& medium == if high - high_used > 1 {
                high - high_used
            } else {
                1
            }
            &&& after.budget(IOPriority::Low) == if medium - medium_used > 1 {
                medium - medium_used
            } else {
                1
            }
            &&& after.books.history_bytes[IOPriority::High.ordinal()] == 0
            &&& after.books.history_bytes[IOPriority::Medium.ordinal()] == 0
        }),
{
}

/// An idle priority hands its whole budget down: when `High` passed nothing
/// during a window, the refill that closes the window gives `Medium` the
/// budget of `High`, and when `Medium` passed nothing either, `Low` gets it
/// too.
pub proof fn idle_priority_donates_budget(m: Limiter, now: u64)
    requires
        m.inv(),
        m.budget(IOPriority::High) > 0,
        m.books.window_closes(),
        m.books.history_bytes[IOPriority::High.ordinal()] == 0,
        m.through(IOPriority::High) == 0,
    ensures
        m.refilled(now).budget(IOPriority::Medium) == m.budget(IOPriority::High),
        m.books.history_bytes[IOPriority::Medium.ordinal()] == 0 && m.through(IOPriority::Medium)
            == 0 ==> m.refilled(now).budget(IOPriority::Low) == m.budget(IOPriority::High),
{
}

/// No priority starves: while the limiter is on, `Medium` and `Low` have a
/// budget of a byte at least, whatever `High` takes, so a request for a byte
/// or more is granted a byte or more.
pub proof fn lower_priorities_never_starve(
    m: Limiter,
    priority: IOPriority,
    amount: usize,
    now: u64,
)
    requires
        m.inv(),
        m.budget(IOPriority::High) > 0,
        priority != IOPriority::Stop,
        amount > 0,
    ensures
        m.refilled(now).budget(priority) >= 1,
        m.budget(priority) >= 1,
        m.grant(priority, amount, now).bytes >= 1,
{
}

/// The books after `n` more epochs of the budget window.
pub open spec fn advanced_by(books: Books, n: nat) -> Books
    decreases n,
{
    if n == 0 {
        books
    } else {
        advanced_by(books, (n - 1) as nat).advanced()
    }
}

/// Budgets follow a change within one window: from any state of the books,
/// the window closes on one of the next `UPDATE_BUDGETS_EVERY_N_EPOCHS`
/// refills, and from there on every `UPDATE_BUDGETS_EVERY_N_EPOCHS`-th.
pub proof fn budgets_update_every_window(books: Books, n: nat)
    requires
        books.wf(),
    ensures
        advanced_by(books, n).wf(),
        advanced_by(books, n).history_epoch_count == (books.history_epoch_count + n)
            % (UPDATE_BUDGETS_EVERY_N_EPOCHS as int),
        advanced_by(
            books,
            (UPDATE_BUDGETS_EVERY_N_EPOCHS - 1 - books.history_epoch_count) as nat,
        ).window_closes(),
        advanced_by(books, n).window_closes() ==> advanced_by(
            books,
            n + UPDATE_BUDGETS_EVERY_N_EPOCHS as nat,
        ).window_closes(),
    decreases n,
{
    if n > 0 {
        budgets_update_every_window(books, (n - 1) as nat);
    }
    let first = (UPDATE_BUDGETS_EVERY_N_EPOCHS - 1 - books.history_epoch_count) as nat;
    window_counter_after(books, first);
    window_counter_after(books, n + UPDATE_BUDGETS_EVERY_N_EPOCHS as nat);
}

/// The window counter after `n` more epochs.
proof fn window_counter_after(books: Books, n: nat)
    requires
        books.wf(),
    ensures
        advanced_by(books, n).wf(),
        advanced_by(books, n).history_epoch_count == (books.history_epoch_count + n)
            % (UPDATE_BUDGETS_EVERY_N_EPOCHS as int),
    decreases n,
{
    if n > 0 {
        window_counter_after(books, (n - 1) as nat);
    }
}

/// A refill advances the budget window by one epoch while the limiter is on.
pub proof fn refill_advances_window(m: Limiter, now: u64)
    requires
        m.inv(),
        m.budget(IOPriority::High) > 0,
    ensures
        m.refilled(now).books.history_epoch_count == m.books.advanced().history_epoch_count,
        m.books.refill_start(m.readings()).update == m.books.window_closes(),
{
}

/// Refilling again at the same instant does no harm: the next refill stays
/// scheduled where the first one put it, no epoch counter goes over its
/// budget, and nothing is added to what is booked. A second refill finds no
/// booked bytes that the first one could have carried.
pub proof fn refill_twice_at_one_instant(m: Limiter, priority: IOPriority, now: u64)
    requires
        m.inv(),
        priority != IOPriority::Stop,
    ensures
        ({
            let once = m.refilled(now);
            let twice = once.refilled(now);
            &&& twice.books.next_refill_time == once.books.next_refill_time
            &&& once.books.next_refill_time >= now
            &&& !once.books.refill_due(now) || now > u64::MAX - DEFAULT_REFILL_PERIOD_MILLIS
            &&& twice.pending(priority) <= once.pending(priority) <= m.pending(priority)
            &&& m.budget(IOPriority::High) > 0 ==> twice.through(priority) <= twice.budget(
                priority,
            )
            &&& twice.budget(IOPriority::High) == m.budget(IOPriority::High)
        }),
{
    limiter_stays_in_order(m, 0, now);
    refill_keeps_within_budget(m, priority, now);
    refill_keeps_within_budget(m.refilled(now), priority, now);
}

impl Limiter {
    /// The limiter after one refill at each of the instants `nows`.
    pub open spec fn refilled_at(self, nows: Seq<u64>) -> Limiter
        decreases nows.len(),
    {
        if nows.len() == 0 {
            self
        } else {
            self.refilled(nows[0]).refilled_at(nows.drop_first())
        }
    }
}

/// What is booked is carried in turn: each refill takes one budget of `High`
/// from the bytes that are booked at `High`, so of `pending` bytes that are
/// booked all are carried into an epoch after one refill and one more for
/// each whole budget in `pending`. A caller that booked while no refill was
/// due is told to wait for as many refills as that, counting its own bytes
/// in, which is why it need not ask again when it wakes.
pub proof fn booked_bytes_are_carried_in_turn(m: Limiter, nows: Seq<u64>)
    requires
        m.inv(),
        m.budget(IOPriority::High) > 0,
    ensures
        m.refilled_at(nows).inv(),
        m.refilled_at(nows).budget(IOPriority::High) == m.budget(IOPriority::High),
        m.refilled_at(nows).pending(IOPriority::High) == if m.pending(IOPriority::High)
            > nows.len() * m.budget(IOPriority::High) {
            m.pending(IOPriority::High) - nows.len() * m.budget(IOPriority::High)
        } else {
            0
        },
        nows.len() == 1 + m.pending(IOPriority::High) / m.budget(IOPriority::High)
            ==> m.refilled_at(nows).pending(IOPriority::High) == 0,
    decreases nows.len(),
{
    let pending = m.pending(IOPriority::High) as int;
    let budget = m.budget(IOPriority::High) as int;
    let n = nows.len() as int;
    if nows.len() > 0 {
        let next = m.refilled(nows[0]);
        limiter_stays_in_order(m, 0, nows[0]);
        refill_keeps_within_budget(m, IOPriority::High, nows[0]);
        booked_bytes_are_carried_in_turn(next, nows.drop_first());
        assert(n * budget == (n - 1) * budget + budget) by (nonlinear_arith);
    } else {
        assert(n * budget == 0) by (nonlinear_arith)
            requires
                n == 0,
        ;
    }
    assert((1 + pending / budget) * budget > pending) by (nonlinear_arith)
        requires
            budget > 0,
            pending >= 0,
    ;
}

/// Callers of one priority are served in the order in which they booked: who
/// finds more bytes booked waits at least as long.
pub proof fn later_ticket_waits_longer(base: u64, earlier: usize, later: usize, budget: usize)
    requires
        budget > 0,
        earlier <= later,
    ensures
        queue_wait_spec(base, earlier, budget) <= queue_wait_spec(base, later, budget),
        earlier + budget <= later && queue_wait_spec(base, later, budget) < u64::MAX
            ==> queue_wait_spec(base, earlier, budget) + DEFAULT_REFILL_PERIOD_MILLIS
            <= queue_wait_spec(base, later, budget),
{
    assert(earlier / budget <= later / budget) by (nonlinear_arith)
        requires
            budget > 0,
            earlier <= later,
    ;
    assert(earlier + budget <= later ==> earlier / budget + 1 <= later / budget)
        by (nonlinear_arith)
        requires
            budget > 0,
            earlier <= later,
    ;
    assert(DEFAULT_REFILL_PERIOD_MILLIS == 50);
}

/// Something that happens to a limiter.
pub enum Event {
    /// A request of `amount` bytes, made at `now`.
    Request { amount: usize, now: u64 },
    /// A refill at `now`.
    Refill { now: u64 },
}

impl Limiter {
    /// The limiter after `event`, requests being made at `priority`.
    pub open spec fn after(self, priority: IOPriority, event: Event) -> Limiter {
        match event {
            Event::Request { amount, now } => self.requested(priority, amount, now),
            Event::Refill { now } => self.refilled(now),
        }
    }
}

/// Whether the requests among `events` ask for no more than `budget` bytes
/// between one refill and the next, `used` bytes being taken of the epoch in
/// which the events begin.
pub open spec fn offered_within(events: Seq<Event>, budget: usize, used: int) -> bool
    decreases events.len(),
{
    if events.len() == 0 {
        true
    } else {
        match events[0] {
            Event::Request { amount, now } => used + amount <= budget && offered_within(
                events.drop_first(),
                budget,
                used + amount,
            ),
            Event::Refill { now } => offered_within(events.drop_first(), budget, 0),
        }
    }
}

/// Whether every request among `events`, made at `priority`, is granted in
/// full and at once.
pub open spec fn never_throttled(m: Limiter, priority: IOPriority, events: Seq<Event>) -> bool
    decreases events.len(),
{
    if events.len() == 0 {
        true
    } else {
        &&& match events[0] {
            Event::Request { amount, now } => m.grant(priority, amount, now) == (Grant {
                bytes: amount,
                wait_millis: 0,
            }),
            Event::Refill { now } => true,
        }
        &&& never_throttled(m.after(priority, events[0]), priority, events.drop_first())
    }
}

/// A flow below the rate is never throttled: while the requests at `High`
/// ask in no epoch for more than the budget of `High`, which is the rate of
/// the limiter, each of them is granted in full and at once, however the
/// refills fall between them.
pub proof fn flow_below_rate_is_never_throttled(m: Limiter, events: Seq<Event>)
    requires
        m.inv(),
        m.budget(IOPriority::High) > 0,
        m.pending(IOPriority::High) == 0,
        offered_within(events, m.budget(IOPriority::High), m.through(IOPriority::High) as int),
    ensures
        never_throttled(m, IOPriority::High, events),
    decreases events.len(),
{
    if events.len() > 0 {
        let next = m.after(IOPriority::High, events[0]);
        match events[0] {
            Event::Request { amount, now } => {
                light_flow_is_not_throttled(m, IOPriority::High, amount, now);
                request_keeps_limiter_in_order(m, IOPriority::High, amount, now);
            },
            Event::Refill { now } => {
                limiter_stays_in_order(m, 0, now);
                refill_keeps_within_budget(m, IOPriority::High, now);
            },
        }
        flow_below_rate_is_never_throttled(next, events.drop_first());
    }
}

/// Bytes that requests of `amounts` bytes are charged under `budget`, taken
/// together.
pub open spec fn charged_bytes(amounts: Seq<usize>, budget: usize) -> nat
    decreases amounts.len(),
{
    if amounts.len() == 0 {
        0
    } else {
        charge_spec(amounts[0], budget) as nat + charged_bytes(amounts.drop_first(), budget)
    }
}

/// Bytes that requests of `amounts` bytes, made at `priority` one after the
/// other at `now`, are granted at once, taken together.
pub open spec fn admitted_bytes(m: Limiter, priority: IOPriority, amounts: Seq<usize>, now: u64)
    -> int
    decreases amounts.len(),
{
    if amounts.len() == 0 {
        0
    } else {
        (if m.admits(priority, amounts[0]) {
            charge_spec(amounts[0], m.budget(priority)) as int
        } else {
            0
        }) + admitted_bytes(
            m.requested(priority, amounts[0], now),
            priority,
            amounts.drop_first(),
            now,
        )
    }
}

/// An epoch passes no more than its budget: whatever is requested of a
/// priority while an epoch lasts, what is granted at once is no more than the
/// budget less the bytes with which the epoch is charged already. So long as
/// the counter of the epoch does not wrap around, that is.
pub proof fn epoch_passes_at_most_its_budget(
    m: Limiter,
    priority: IOPriority,
    amounts: Seq<usize>,
    now: u64,
)
    requires
        m.inv(),
        m.budget(priority) > 0,
        !m.books.refill_due(now),
        m.through(priority) + charged_bytes(amounts, m.budget(priority)) <= usize::MAX,
    ensures
        m.through(priority) <= m.budget(priority) ==> m.through(priority) + admitted_bytes(
            m,
            priority,
            amounts,
            now,
        ) <= m.budget(priority),
        m.through(priority) > m.budget(priority) ==> admitted_bytes(m, priority, amounts, now)
            == 0,
    decreases amounts.len(),
{
    if amounts.len() > 0 {
        let next = m.requested(priority, amounts[0], now);
        request_keeps_limiter_in_order(m, priority, amounts[0], now);
        assert(next.budget(priority) == m.budget(priority));
        assert(next.through(priority) == m.through(priority) + charge_spec(
            amounts[0],
            m.budget(priority),
        ));
        assert(!next.books.refill_due(now));
        epoch_passes_at_most_its_budget(next, priority, amounts.drop_first(), now);
    }
}

/// Whether `admissions` are those of requests of `amounts` bytes that one
/// priority saw one after the other within one epoch: each is in order, each
/// found the budget `budget`, and each found through what the one before it
/// left, which is `through` for the first. The counter of the epoch does not
/// wrap around.
pub open spec fn of_one_epoch(
    admissions: Seq<Admission>,
    amounts: Seq<usize>,
    budget: usize,
    through: usize,
) -> bool
    decreases admissions.len(),
{
    &&& admissions.len() == amounts.len()
    &&& admissions.len() > 0 ==> {
        &&& admissions[0].in_order(amounts[0])
        &&& admissions[0].budget == budget
        &&& admissions[0].through == through
        &&& through + admissions[0].grant.bytes <= usize::MAX
        &&& of_one_epoch(
            admissions.drop_first(),
            amounts.drop_first(),
            budget,
            (through + admissions[0].grant.bytes) as usize,
        )
    }
}

/// Bytes that `admissions` grant at once, taken together.
pub open spec fn granted_at_once(admissions: Seq<Admission>) -> nat
    decreases admissions.len(),
{
    if admissions.len() == 0 {
        0
    } else {
        (if admissions[0].at_once() {
            admissions[0].grant.bytes as nat
        } else {
            0
        }) + granted_at_once(admissions.drop_first())
    }
}

/// The requests of one epoch are granted at once no more than the epoch has
/// left: whatever is asked of a priority between two refills, the bytes of
/// the requests that do not wait are together no more than the budget less
/// the bytes with which the epoch started, and every other request is
/// booked.
pub proof fn epoch_grants_at_most_its_budget(
    admissions: Seq<Admission>,
    amounts: Seq<usize>,
    budget: usize,
    through: usize,
)
    requires
        budget > 0,
        of_one_epoch(admissions, amounts, budget, through),
    ensures
        through <= budget ==> through + granted_at_once(admissions) <= budget,
        through > budget ==> granted_at_once(admissions) == 0,
        forall|i: int|
            0 <= i < admissions.len() && !admissions[i].at_once()
                ==> (#[trigger] admissions[i]).booking is Some,
    decreases admissions.len(),
{
    if admissions.len() > 0 {
        let rest = admissions.drop_first();
        epoch_grants_at_most_its_budget(
            rest,
            amounts.drop_first(),
            budget,
            (through + admissions[0].grant.bytes) as usize,
        );
        assert forall|i: int|
            0 <= i < admissions.len() && !admissions[i].at_once() implies (
        #[trigger] admissions[i]).booking is Some by {
            if i > 0 {
                assert(admissions[i] == rest[i - 1]);
            }
        }
    }
}

/// A request that is booked while no refill is due does not go on before the
/// coming refill, and its bytes are then booked: they are not lost.
pub proof fn booking_waits_for_refill(
    booking: Booking,
    before: Books,
    after: Books,
    priority: IOPriority,
    amount: usize,
    budget: usize,
    now: u64,
)
    requires
        before.wf(),
        budget > 0,
        booking.made_on(before, after, priority, amount, budget, now),
    ensures
        booking.refill is None <==> !before.refill_due(now),
        booking.refill is None ==> {
            &&& booking.wait_millis >= before.time_to_refill(now) > 0
            &&& after.pending_bytes[priority.ordinal()] >= amount
            &&& after == before.enqueued(priority, amount)
        },
{
    let pending = after.pending_bytes[priority.ordinal()] as int;
    let whole = budget as int;
    assert(pending / whole >= 0) by (nonlinear_arith)
        requires
            pending >= 0,
            whole > 0,
    ;
}

} // verus!
