use std::collections::VecDeque;
use vstd::prelude::*;
use crate::status::Status;

verus! {

/// Where a session's connection came from.
pub enum PeerAddr {
    /// A network peer, written as address and port.
    Network(String),
    /// A local-domain peer, which carries no address.
    Local,
}

impl PeerAddr {
    /// The address as shown to people: address and port, or `unix`.
    pub fn describe(&self) -> (r: String)
        ensures
            r@ == match self {
                PeerAddr::Network(a) => a@,
                PeerAddr::Local => "unix"@,
            },
    {
        match self {
            PeerAddr::Network(a) => a.clone(),
            PeerAddr::Local => "unix".to_owned(),
        }
    }
}

/// The record of one finished session.
pub struct TestResult {
    /// When the session finished, in seconds since the Unix epoch.
    pub time: i64,
    pub addr: PeerAddr,
    pub status: Status,
    pub log: String,
}

/// Most sessions the store keeps.
pub const MAX_RESULTS: usize = 40;

/// Seconds after which a record is stale.
pub const MAX_AGE_SECS: i64 = 300;

/// Whether a record is still fresh at time `now`.
pub open spec fn is_fresh(r: TestResult, now: int) -> bool {
    r.time + MAX_AGE_SECS > now
}

/// The last `MAX_RESULTS` records of `s`, dropping the oldest first.
pub open spec fn keep_newest(s: Seq<TestResult>) -> Seq<TestResult> {
    if s.len() > MAX_RESULTS {
        s.subrange(s.len() - MAX_RESULTS, s.len() as int)
    } else {
        s
    }
}

/// The records of `s` that are fresh at `now`, in their order.
pub open spec fn fresh_only(s: Seq<TestResult>, now: int) -> Seq<TestResult>
    decreases s.len(),
{
    if s.len() == 0 {
        s
    } else if is_fresh(s.last(), now) {
        fresh_only(s.drop_last(), now).push(s.last())
    } else {
        fresh_only(s.drop_last(), now)
    }
}

/// Whether a reaper pass that leaves `remaining` stops the process: only in
/// idle-shutdown mode, and only when nothing is left.
pub open spec fn reap_stops(remaining: Seq<TestResult>, idle_shutdown: bool) -> bool {
    idle_shutdown && remaining.len() == 0
}

proof fn lemma_fresh_only(s: Seq<TestResult>, now: int)
    ensures
        fresh_only(s, now).len() <= s.len(),
        forall|i: int|
            0 <= i < fresh_only(s, now).len() ==> is_fresh(#[trigger] fresh_only(s, now)[i], now),
    decreases s.len(),
{
    if s.len() > 0 {
        lemma_fresh_only(s.drop_last(), now);
    }
}

/// An append keeps at most `MAX_RESULTS` records and drops only the oldest
/// ones; after a reaper pass no record is stale, and none was added.
pub proof fn lemma_store_bounds(s: Seq<TestResult>, r: TestResult, now: int)
    ensures
        keep_newest(s.push(r)).len() <= MAX_RESULTS,
        keep_newest(s.push(r)) == s.push(r).subrange(
            s.len() + 1 - keep_newest(s.push(r)).len(),
            (s.len() + 1) as int,
        ),
        keep_newest(s.push(r)).last() == r,
        fresh_only(s, now).len() <= s.len(),
        forall|i: int|
            0 <= i < fresh_only(s, now).len() ==> is_fresh(#[trigger] fresh_only(s, now)[i], now),
{
    lemma_fresh_only(s, now);
    assert(s.push(r).subrange(0, (s.len() + 1) as int) =~= s.push(r));
}

/// In idle-shutdown mode a pass that empties a store that held records stops
/// the process; in always-on mode no pass does, empty or not.
pub proof fn lemma_idle_shutdown(s: Seq<TestResult>, now: int)
    ensures
        s.len() > 0 && fresh_only(s, now).len() == 0 ==> reap_stops(fresh_only(s, now), true),
        !reap_stops(fresh_only(s, now), false),
{
}

/// The records of recent sessions, oldest first.
pub struct ResultStore {
    entries: VecDeque<TestResult>,
}

impl View for ResultStore {
    type V = Seq<TestResult>;

    closed spec fn view(&self) -> Seq<TestResult> {
        self.entries@
    }
}

/// Relies on time's `OffsetDateTime::now_utc` and `unix_timestamp`: the
/// current time in seconds since the Unix epoch; nothing is known of its value.
#[verifier::external_body]
fn now_unix() -> (r: i64) {
    time::OffsetDateTime::now_utc().unix_timestamp()
}

/// Seconds between reaper passes when the process stops itself once idle.
pub const IDLE_SHUTDOWN_INTERVAL_SECS: u64 = 1200;

/// Seconds between reaper passes when the process runs for good.
pub const ALWAYS_ON_INTERVAL_SECS: u64 = 300;

/// How long the reaper sleeps between passes: twenty minutes in
/// idle-shutdown mode, five minutes otherwise.
pub fn reap_interval_secs(idle_shutdown: bool) -> (r: u64)
    ensures
        r == (if idle_shutdown { IDLE_SHUTDOWN_INTERVAL_SECS } else { ALWAYS_ON_INTERVAL_SECS }),
{
    if idle_shutdown {
        IDLE_SHUTDOWN_INTERVAL_SECS
    } else {
        ALWAYS_ON_INTERVAL_SECS
    }
}

impl ResultStore {
    /// The store's invariant: it never holds more than `MAX_RESULTS` records.
    pub open spec fn wf(&self) -> bool {
        self@.len() <= MAX_RESULTS
    }

    /// An empty store.
    pub fn new() -> (r: ResultStore)
        ensures
            r@ == Seq::<TestResult>::empty(),
            r.wf(),
    {
        ResultStore { entries: VecDeque::new() }
    }

    /// The number of records held.
    pub fn len(&self) -> (r: usize)
        ensures
            r == self@.len(),
    {
        self.entries.len()
    }

    /// The records, newest first.
    pub fn snapshot(&self) -> (r: Vec<&TestResult>)
        ensures
            r@.len() == self@.len(),
            forall|i: int| 0 <= i < r@.len() ==> *r@[i] == self@[self@.len() - 1 - i],
    {
        let n = self.entries.len();
        let mut out: Vec<&TestResult> = Vec::new();
        let mut i: usize = 0;
        while i < n
            invariant
                n == self@.len(),
                i <= n,
                out@.len() == i,
                forall|j: int| 0 <= j < i ==> *out@[j] == self@[n - 1 - j],
            decreases n - i,
        {
            out.push(&self.entries[n - 1 - i]);
            i = i + 1;
        }
        out
    }

    /// The `i`-th record, oldest first.
    pub fn get(&self, i: usize) -> (r: &TestResult)
        requires
            i < self@.len(),
        ensures
            *r == self@[i as int],
    {
        &self.entries[i]
    }

    /// Appends a record, then drops the oldest while more than `MAX_RESULTS` remain.
    pub fn push(&mut self, r: TestResult)
        ensures
            final(self)@ == keep_newest(old(self)@.push(r)),
            final(self).wf(),
    {
        let ghost pushed = old(self)@.push(r);
        self.entries.push_back(r);
        assert(self.entries@ =~= pushed.subrange(0, pushed.len() as int));
        while self.entries.len() > MAX_RESULTS
            invariant
                pushed.len() >= self.entries@.len(),
                self.entries@ == pushed.subrange(
                    pushed.len() - self.entries@.len(),
                    pushed.len() as int,
                ),
                pushed.len() > MAX_RESULTS ==> self.entries@.len() >= MAX_RESULTS,
                pushed.len() <= MAX_RESULTS ==> self.entries@.len() == pushed.len(),
            decreases self.entries@.len(),
        {
            let _ = self.entries.pop_front();
            assert(self.entries@ =~= pushed.subrange(
                pushed.len() - self.entries@.len(),
                pushed.len() as int,
            ));
        }
        assert(self@ =~= keep_newest(pushed));
    }

    /// Records a finished session, stamped with the current time.
    pub fn record(&mut self, addr: PeerAddr, status: Status, log: String)
        ensures
            exists|t: i64|
                final(self)@ == keep_newest(
                    old(self)@.push(TestResult { time: t, addr, status, log }),
                ),
            final(self).wf(),
    {
        let time = now_unix();
        self.push(TestResult { time, addr, status, log });
    }

    /// Drops every record that is stale at `now`, keeping the order of the rest.
    pub fn evict_stale(&mut self, now: i64)
        requires
            old(self).wf(),
        ensures
            final(self)@ == fresh_only(old(self)@, now as int),
            final(self).wf(),
    {
        proof {
            lemma_fresh_only(old(self)@, now as int);
        }
        let ghost s = old(self)@;
        let mut kept: VecDeque<TestResult> = VecDeque::new();
        let n = self.entries.len();
        let mut i: usize = 0;
        while i < n
            invariant
                n == s.len(),
                i <= n,
                self.entries@ == s.subrange(i as int, n as int),
                kept@ == fresh_only(s.subrange(0, i as int), now as int),
            decreases n - i,
        {
            let e = self.entries.pop_front();
            match e {
                Some(r) => {
                    assert(s.subrange(0, i + 1).drop_last() =~= s.subrange(0, i as int));
                    if (r.time as i128) + (MAX_AGE_SECS as i128) > now as i128 {
                        kept.push_back(r);
                    }
                },
                None => {},
            }
            i = i + 1;
            assert(self.entries@ =~= s.subrange(i as int, n as int));
        }
        assert(s.subrange(0, n as int) =~= s);
        self.entries = kept;
    }

    /// One pass of the reaper at time `now`: drops the stale records and
    /// says whether the process should stop, which it should exactly when
    /// idle shutdown is on and no record is left.
    pub fn reap(&mut self, now: i64, idle_shutdown: bool) -> (stop: bool)
        requires
            old(self).wf(),
        ensures
            final(self).wf(),
            final(self)@ == fresh_only(old(self)@, now as int),
            stop == reap_stops(final(self)@, idle_shutdown),
    {
        self.evict_stale(now);
        idle_shutdown && self.entries.len() == 0
    }

    /// One pass of the reaper at the current time.
    pub fn reap_now(&mut self, idle_shutdown: bool) -> (stop: bool)
        requires
            old(self).wf(),
        ensures
            final(self).wf(),
            exists|now: i64| final(self)@ == fresh_only(old(self)@, now as int),
            stop == reap_stops(final(self)@, idle_shutdown),
    {
        let now = now_unix();
        self.reap(now, idle_shutdown)
    }
}

} // verus!
