use vstd::prelude::*;
use crate::report::{
    describe_report, report_kind, report_text, classify_report, Report,
    REPORT_LEN,
};

verus! {

/// How long a status request waits for its reply, in nanoseconds.
pub const REPLY_TIMEOUT_NS: u64 = 1_000_000_000;
/// Nanoseconds in a millisecond, the unit of wait timeouts.
pub const NANOS_PER_MILLI: u64 = 1_000_000;
/// Wait without a time limit.
pub const INFINITE: u32 = 0xFFFF_FFFF;
/// Wait result of the first handle; the index of the signalled handle is added to it.
pub const WAIT_OBJECT_0: u32 = 0;
/// Wait result of a failed wait.
pub const WAIT_FAILED: u32 = 0xFFFF_FFFF;
/// Error code of an overlapped operation that is still in progress.
pub const ERROR_IO_PENDING: u32 = 997;

/// What the event loop does after a wait on the device read events and then the poll event.
#[derive(PartialEq, Eq, Structural, Clone, Copy, Debug)]
pub enum WaitOutcome {
    /// The wait itself failed: the program stops.
    Failed,
    /// The read of the device at this index completed.
    DeviceReady(usize),
    /// Enter was pressed: every device is polled.
    PollRequested,
    /// Nothing was signalled (the timeout ran out): only overdue polls are checked.
    Nothing,
}

/// The outcome of a wait result with `device_count` device events ahead of the poll event.
pub open spec fn wait_outcome(result: u32, device_count: usize) -> WaitOutcome {
    if result == WAIT_FAILED {
        WaitOutcome::Failed
    } else if result - WAIT_OBJECT_0 < device_count {
        WaitOutcome::DeviceReady((result - WAIT_OBJECT_0) as usize)
    } else if result - WAIT_OBJECT_0 == device_count {
        WaitOutcome::PollRequested
    } else {
        WaitOutcome::Nothing
    }
}

/// Decides what a wait result means for the event loop.
pub fn classify_wait(result: u32, device_count: usize) -> (r: WaitOutcome)
    ensures
        r == wait_outcome(result, device_count),
{
    if result == WAIT_FAILED {
        return WaitOutcome::Failed;
    }
    let index = (result - WAIT_OBJECT_0) as usize;
    if index < device_count {
        WaitOutcome::DeviceReady(index)
    } else if index == device_count {
        WaitOutcome::PollRequested
    } else {
        WaitOutcome::Nothing
    }
}

/// Whether an overlapped read or write is under way: it completed at once, or it is
/// pending.
pub fn io_started(call_ok: bool, last_error: u32) -> (r: bool)
    ensures
        r == (call_ok || last_error == ERROR_IO_PENDING),
{
    call_ok || last_error == ERROR_IO_PENDING
}

/// Whether a report was written: the write completed and wrote the whole report.
pub fn report_written(completed: bool, written: u32) -> (r: bool)
    ensures
        r == (completed && written == REPORT_LEN),
{
    completed && written as usize == REPORT_LEN
}

/// The poll state of one device: when the pending status request was written, if one is
/// pending. Times are nanoseconds of a monotonic clock.
#[derive(PartialEq, Eq, Structural, Clone, Copy, Debug)]
pub struct PollState {
    pub awaiting_since: Option<u64>,
}

/// Whether a request written at `sent` is overdue at `now`: a full reply timeout has
/// elapsed (no time has elapsed when the clock reads earlier than `sent`).
pub open spec fn overdue(sent: u64, now: u64) -> bool {
    now as int - sent as int >= REPLY_TIMEOUT_NS as int
}

impl PollState {
    /// A device with no pending request.
    pub fn new() -> (r: Self)
        ensures
            r.awaiting_since is None,
    {
        PollState { awaiting_since: None }
    }

    /// A status request was written at `now`: its reply is awaited from then on.
    pub fn request_written(&mut self, now: u64)
        ensures
            final(self).awaiting_since == Some(now),
    {
        self.awaiting_since = Some(now);
    }

    /// A report arrived: a status reply ends the wait, any other report leaves it.
    pub fn report_received(&mut self, report: Report)
        ensures
            final(self).awaiting_since == if report is StatusReply {
                None
            } else {
                old(self).awaiting_since
            },
    {
        if let Report::StatusReply { .. } = report {
            self.awaiting_since = None;
        }
    }

    /// Handles a report read from the channel named `name`: a status reply ends the wait
    /// for it; returns the line that describes the report.
    pub fn handle_report(&mut self, name: &str, report: &[u8]) -> (line: String)
        ensures
            line@ == report_text(name@, report@),
            final(self).awaiting_since == if report_kind(report@) is StatusReply {
                None
            } else {
                old(self).awaiting_since
            },
    {
        let kind = classify_report(report);
        self.report_received(kind);
        describe_report(name, report)
    }

    /// Whether the pending request, if any, is overdue at `now`.
    pub fn reply_overdue(&self, now: u64) -> (r: bool)
        ensures
            r == match self.awaiting_since {
                Some(sent) => overdue(sent, now),
                None => false,
            },
    {
        match self.awaiting_since {
            Some(sent) => now >= sent && now - sent >= REPLY_TIMEOUT_NS,
            None => false,
        }
    }

    /// Gives up on an overdue request: returns whether it was overdue, and then no
    /// request is pending; otherwise the state is unchanged.
    pub fn expire(&mut self, now: u64) -> (expired: bool)
        ensures
            expired == match old(self).awaiting_since {
                Some(sent) => overdue(sent, now),
                None => false,
            },
            final(self).awaiting_since == if expired {
                None
            } else {
                old(self).awaiting_since
            },
            !(match final(self).awaiting_since {
                Some(sent) => overdue(sent, now),
                None => false,
            }),
    {
        let expired = self.reply_overdue(now);
        if expired {
            self.awaiting_since = None;
        }
        expired
    }
}

/// The earlier of two optional times.
pub open spec fn earlier(a: Option<u64>, b: Option<u64>) -> Option<u64> {
    match (a, b) {
        (None, _) => b,
        (_, None) => a,
        (Some(x), Some(y)) => Some(if x <= y { x } else { y }),
    }
}

/// When the earliest pending request of the devices was written, if any is pending.
pub open spec fn earliest_pending(pending: Seq<Option<u64>>) -> Option<u64>
    decreases pending.len(),
{
    if pending.len() == 0 {
        None
    } else {
        earlier(earliest_pending(pending.drop_last()), pending.last())
    }
}

/// Nanoseconds until a request written at `sent` is overdue, none when it already is.
pub open spec fn remaining_ns(sent: u64, now: u64) -> int {
    if sent as int + REPLY_TIMEOUT_NS as int > now as int {
        sent as int + REPLY_TIMEOUT_NS as int - now as int
    } else {
        0
    }
}

/// Whole milliseconds until a request written at `sent` is overdue.
pub open spec fn remaining_ms(sent: u64, now: u64) -> int {
    remaining_ns(sent, now) / NANOS_PER_MILLI as int
}

/// The wait timeout: until the earliest pending request is overdue (capped just below
/// `INFINITE` when it does not fit), or `INFINITE` when no request is pending.
pub open spec fn wait_timeout_spec(now: u64, pending: Seq<Option<u64>>) -> u32 {
    match earliest_pending(pending) {
        None => INFINITE,
        Some(sent) => if remaining_ms(sent, now) > u32::MAX as int {
            (INFINITE - 1) as u32
        } else {
            remaining_ms(sent, now) as u32
        },
    }
}

/// Computes how long the event loop may wait at `now`, given when each device's pending
/// request was written.
pub fn wait_timeout(now: u64, pending: &[Option<u64>]) -> (r: u32)
    ensures
        r == wait_timeout_spec(now, pending@),
{
    let mut best: Option<u64> = None;
    let mut i: usize = 0;
    while i < pending.len()
        invariant
            i <= pending@.len(),
            best == earliest_pending(pending@.take(i as int)),
        decreases pending.len() - i,
    {
        assert(pending@.take(i + 1).drop_last() =~= pending@.take(i as int));
        let next = pending[i];
        best = match (best, next) {
            (None, _) => next,
            (_, None) => best,
            (Some(x), Some(y)) => Some(if x <= y { x } else { y }),
        };
        i = i + 1;
    }
    assert(pending@.take(pending@.len() as int) =~= pending@);
    match best {
        None => INFINITE,
        Some(sent) => {
            let deadline: u128 = sent as u128 + REPLY_TIMEOUT_NS as u128;
            let remaining: u128 = if deadline > now as u128 {
                (deadline - now as u128) / NANOS_PER_MILLI as u128
            } else {
                0
            };
            if remaining > u32::MAX as u128 {
                INFINITE - 1
            } else {
                remaining as u32
            }
        },
    }
}

/// The earliest pending time is pending and no later than any pending time.
proof fn lemma_earliest_pending(pending: Seq<Option<u64>>)
    ensures
        earliest_pending(pending) is None <==> forall|i: int|
            0 <= i < pending.len() ==> #[trigger] pending[i] is None,
        forall|i: int|
            #![trigger pending[i]]
            0 <= i < pending.len() && pending[i] is Some ==> earliest_pending(pending) is Some
                && earliest_pending(pending)->0 <= pending[i]->0,
    decreases pending.len(),
{
    if pending.len() > 0 {
        let prev = pending.drop_last();
        lemma_earliest_pending(prev);
        assert forall|i: int| 0 <= i < prev.len() implies #[trigger] prev[i] == pending[i] by {}
        assert forall|i: int|
            #![trigger pending[i]]
            0 <= i < pending.len() && pending[i] is Some implies earliest_pending(pending) is Some
                && earliest_pending(pending)->0 <= pending[i]->0 by {
            if i < prev.len() {
                assert(prev[i] == pending[i]);
            } else {
                assert(pending[i] == pending.last());
            }
        }
        if earliest_pending(pending) is None {
            assert forall|i: int| 0 <= i < pending.len() implies #[trigger] pending[i] is None by {
                if i < prev.len() {
                    assert(prev[i] == pending[i]);
                }
            }
        }
    }
}

/// The event loop never oversleeps a reply timeout: with no request pending it waits
/// without limit, and otherwise its timeout ends no later than the moment any pending
/// request becomes overdue.
pub proof fn lemma_wait_timeout_bounds(now: u64, pending: Seq<Option<u64>>)
    ensures
        (forall|i: int| 0 <= i < pending.len() ==> #[trigger] pending[i] is None)
            ==> wait_timeout_spec(now, pending) == INFINITE,
        forall|i: int|
            0 <= i < pending.len() && #[trigger] pending[i] is Some ==> wait_timeout_spec(
                now,
                pending,
            ) as int <= remaining_ms(pending[i]->0, now),
{
    lemma_earliest_pending(pending);
    assert forall|i: int|
        0 <= i < pending.len() && #[trigger] pending[i] is Some implies wait_timeout_spec(
            now,
            pending,
        ) as int <= remaining_ms(pending[i]->0, now) by {
        let e = earliest_pending(pending)->0;
        vstd::arithmetic::div_mod::lemma_div_is_ordered(
            remaining_ns(e, now),
            remaining_ns(pending[i]->0, now),
            NANOS_PER_MILLI as int,
        );
    }
}

/// When each poll state's pending request was written.
pub open spec fn pending_times(polls: Seq<PollState>) -> Seq<Option<u64>> {
    polls.map_values(|p: PollState| p.awaiting_since)
}

/// Whether a poll state's pending request is overdue at `now`.
pub open spec fn poll_overdue(p: PollState, now: u64) -> bool {
    match p.awaiting_since {
        Some(sent) => overdue(sent, now),
        None => false,
    }
}

/// The poll states of the open devices, one per device, in the order of the wait handles.
pub struct Session {
    pub polls: Vec<PollState>,
}

impl Session {
    /// `count` devices, none with a pending request.
    pub fn new(count: usize) -> (r: Self)
        ensures
            r.polls@.len() == count,
            forall|i: int| 0 <= i < count ==> #[trigger] r.polls@[i].awaiting_since is None,
    {
        let mut polls: Vec<PollState> = Vec::new();
        let mut i: usize = 0;
        while i < count
            invariant
                i <= count,
                polls@.len() == i,
                forall|j: int| 0 <= j < i ==> #[trigger] polls@[j].awaiting_since is None,
            decreases count - i,
        {
            polls.push(PollState::new());
            i = i + 1;
        }
        Session { polls }
    }

    /// How long the event loop may wait at `now`: until the earliest pending request of
    /// any device is overdue.
    pub fn timeout(&self, now: u64) -> (r: u32)
        ensures
            r == wait_timeout_spec(now, pending_times(self.polls@)),
    {
        let mut pending: Vec<Option<u64>> = Vec::new();
        let mut i: usize = 0;
        while i < self.polls.len()
            invariant
                i <= self.polls@.len(),
                pending@ == pending_times(self.polls@.take(i as int)),
            decreases self.polls.len() - i,
        {
            pending.push(self.polls[i].awaiting_since);
            assert(pending_times(self.polls@.take(i + 1)) =~= pending_times(
                self.polls@.take(i as int),
            ).push(self.polls@[i as int].awaiting_since));
            i = i + 1;
        }
        assert(self.polls@.take(self.polls@.len() as int) =~= self.polls@);
        wait_timeout(now, pending.as_slice())
    }

    /// The status request of device `index` was written at `now`.
    pub fn request_written(&mut self, index: usize, now: u64)
        requires
            index < old(self).polls@.len(),
        ensures
            final(self).polls@ == old(self).polls@.update(
                index as int,
                PollState { awaiting_since: Some(now) },
            ),
    {
        let mut p = self.polls[index];
        p.request_written(now);
        self.polls.set(index, p);
    }

    /// Device `index` read a report from its channel named `name`: a status reply ends its
    /// wait; returns the line that describes the report.
    pub fn handle_report(&mut self, index: usize, name: &str, report: &[u8]) -> (line: String)
        requires
            index < old(self).polls@.len(),
        ensures
            line@ == report_text(name@, report@),
            final(self).polls@ == old(self).polls@.update(
                index as int,
                PollState {
                    awaiting_since: if report_kind(report@) is StatusReply {
                        None
                    } else {
                        old(self).polls@[index as int].awaiting_since
                    },
                },
            ),
    {
        let mut p = self.polls[index];
        let line = p.handle_report(name, report);
        self.polls.set(index, p);
        line
    }

    /// The read of device `index` finished; `alive` tells whether the device can go on
    /// (its read completed and the next one started). A device that cannot is dropped;
    /// returns whether it was.
    pub fn read_finished(&mut self, index: usize, alive: bool) -> (dropped: bool)
        requires
            index < old(self).polls@.len(),
        ensures
            dropped == !alive,
            final(self).polls@ == if alive {
                old(self).polls@
            } else {
                old(self).polls@.remove(index as int)
            },
    {
        if !alive {
            self.polls.remove(index);
        }
        !alive
    }

    /// Gives up on every request that is overdue at `now`; returns, per device, whether its
    /// request was given up.
    pub fn expire_all(&mut self, now: u64) -> (expired: Vec<bool>)
        ensures
            final(self).polls@.len() == old(self).polls@.len(),
            expired@.len() == old(self).polls@.len(),
            forall|i: int|
                0 <= i < expired@.len() ==> #[trigger] expired@[i] == poll_overdue(
                    old(self).polls@[i],
                    now,
                ),
            forall|i: int|
                0 <= i < expired@.len() ==> #[trigger] final(self).polls@[i].awaiting_since == if expired@[i] {
                    None
                } else {
                    old(self).polls@[i].awaiting_since
                },
    {
        let mut expired: Vec<bool> = Vec::new();
        let mut i: usize = 0;
        while i < self.polls.len()
            invariant
                i <= self.polls@.len(),
                self.polls@.len() == old(self).polls@.len(),
                expired@.len() == i,
                forall|j: int|
                    0 <= j < i ==> #[trigger] expired@[j] == poll_overdue(old(self).polls@[j], now),
                forall|j: int|
                    0 <= j < i ==> #[trigger] self.polls@[j].awaiting_since == if expired@[j] {
                        None
                    } else {
                        old(self).polls@[j].awaiting_since
                    },
                forall|j: int| i <= j < self.polls@.len() ==> #[trigger] self.polls@[j] == old(
                    self,
                ).polls@[j],
            decreases self.polls.len() - i,
        {
            let mut p = self.polls[i];
            let e = p.expire(now);
            self.polls.set(i, p);
            expired.push(e);
            i = i + 1;
        }
        expired
    }
}


/// A wait result means: `0xFFFF_FFFF` a failed wait; an index below the device count that
/// device's completed read; exactly the device count the poll event, which follows the
/// device events whatever their number; anything larger nothing signalled.
pub proof fn lemma_wait_dispatch(result: u32, device_count: usize)
    ensures
        result == 0xFFFF_FFFFu32 ==> wait_outcome(result, device_count) == WaitOutcome::Failed,
        result != 0xFFFF_FFFFu32 && (result as int) < device_count ==> wait_outcome(
            result,
            device_count,
        ) == WaitOutcome::DeviceReady(result as usize),
        result != 0xFFFF_FFFFu32 && result as int == device_count ==> wait_outcome(
            result,
            device_count,
        ) == WaitOutcome::PollRequested,
        result != 0xFFFF_FFFFu32 && (result as int) > device_count ==> wait_outcome(
            result,
            device_count,
        ) == WaitOutcome::Nothing,
{
}

/// The poll event after any number of device events is always dispatched as a poll.
pub proof fn lemma_poll_event_follows_devices(device_count: u32)
    requires
        device_count < 0xFFFF_FFFFu32,
    ensures
        wait_outcome(device_count, device_count as usize) == WaitOutcome::PollRequested,
{
}

/// A request is given up only once a full second (10^9 ns) has passed since it was
/// written: before that it stays pending, from then on it is overdue. The same holds of
/// each device's poll state, whose request is overdue exactly when it has one and that
/// request is.
pub proof fn lemma_reply_timeout_is_one_second(p: PollState, sent: u64, now: u64)
    ensures
        overdue(sent, now) <==> now as int >= sent as int + 1_000_000_000,
        poll_overdue(p, now) <==> (p.awaiting_since is Some && now as int
            >= p.awaiting_since->0 as int + 1_000_000_000),
{
}

} // verus!
