use vstd::prelude::*;

verus! {

/// Length of the sliding window over which unexpected disconnects are
/// counted, in milliseconds.
pub const RECONNECT_WINDOW_MS: u64 = 600_000;

/// Number of automatic reconnects allowed within one window.
pub const MAX_RECENT_RECONNECTS: usize = 5;

/// A reconnect recorded at `t` no longer counts at `now`: it lies more than
/// one window in the past. A clock reading before `t` counts as no time
/// having passed.
pub open spec fn expired(now: u64, t: u64) -> bool {
    now as int - t as int > RECONNECT_WINDOW_MS as int
}

/// The ledger once its oldest entries have been dropped for as long as they
/// are expired.
pub open spec fn purged(s: Seq<u64>, now: u64) -> Seq<u64>
    decreases s.len(),
{
    if s.len() > 0 && expired(now, s[0]) {
        purged(s.drop_first(), now)
    } else {
        s
    }
}

/// Whether an automatic reconnect at `now` is permitted.
pub open spec fn admits(s: Seq<u64>, now: u64) -> bool {
    purged(s, now).len() < MAX_RECENT_RECONNECTS
}

/// The ledger after an automatic reconnect has been asked for at `now`.
pub open spec fn after_attempt(s: Seq<u64>, now: u64) -> Seq<u64> {
    if admits(s, now) {
        purged(s, now).push(now)
    } else {
        purged(s, now)
    }
}

/// The ledger after reconnects have been asked for at each of `times`, in
/// order, starting from `s`.
pub open spec fn after_attempts(s: Seq<u64>, times: Seq<u64>) -> Seq<u64>
    decreases times.len(),
{
    if times.len() == 0 {
        s
    } else {
        after_attempt(after_attempts(s, times.drop_last()), times.last())
    }
}

/// Whether the `i`-th of the reconnects asked for at `times` is permitted.
pub open spec fn admitted_at(s: Seq<u64>, times: Seq<u64>, i: int) -> bool {
    admits(after_attempts(s, times.take(i)), times[i])
}

/// `t` is the tail of `l`.
pub open spec fn ends_with(l: Seq<u64>, t: Seq<u64>) -> bool {
    t.len() <= l.len() && l.subrange(l.len() - t.len(), l.len() as int) =~= t
}

/// Consecutive entries lie at least one window apart.
pub open spec fn spaced(s: Seq<u64>) -> bool {
    forall|i: int|
        0 <= i < s.len() - 1 ==> s[i + 1] as int - #[trigger] s[i] as int >= RECONNECT_WINDOW_MS as int
}

/// All readings lie within one window of each other.
pub open spec fn within_one_window(times: Seq<u64>) -> bool {
    forall|i: int, j: int|
        0 <= i < times.len() && 0 <= j < times.len() ==> !expired(times[j], times[i])
}

/// Purging keeps a tail of the ledger.
proof fn lemma_purged_is_tail(s: Seq<u64>, now: u64)
    ensures
        ends_with(s, purged(s, now)),
    decreases s.len(),
{
    if s.len() > 0 && expired(now, s[0]) {
        lemma_purged_is_tail(s.drop_first(), now);
    }
}

/// Purging keeps at least the tail of entries that have not expired.
proof fn lemma_purged_keeps_fresh_tail(s: Seq<u64>, now: u64, k: int)
    requires
        0 <= k <= s.len(),
        forall|i: int| s.len() - k <= i < s.len() ==> !expired(now, #[trigger] s[i]),
    ensures
        purged(s, now).len() >= k,
    decreases s.len(),
{
    if s.len() > 0 && expired(now, s[0]) {
        assert(s.len() - k > 0);
        assert forall|i: int| s.len() - 1 - k <= i < s.len() - 1 implies !expired(
            now,
            #[trigger] s.drop_first()[i],
        ) by {
            assert(s.drop_first()[i] == s[i + 1]);
        }
        lemma_purged_keeps_fresh_tail(s.drop_first(), now, k);
    }
}

proof fn lemma_after_attempts_step(s: Seq<u64>, times: Seq<u64>, n: int)
    requires
        0 <= n < times.len(),
    ensures
        after_attempts(s, times.take(n + 1)) == after_attempt(
            after_attempts(s, times.take(n)),
            times[n],
        ),
{
    assert(times.take(n + 1).drop_last() =~= times.take(n));
}

/// While the first `n` reconnects of a burst are all permitted, they form the
/// tail of the ledger.
proof fn lemma_burst_tail(s: Seq<u64>, times: Seq<u64>, n: int)
    requires
        0 <= n < times.len(),
        within_one_window(times),
        forall|i: int| 0 <= i < n ==> admitted_at(s, times, i),
    ensures
        ends_with(after_attempts(s, times.take(n)), times.take(n)),
    decreases n,
{
    if n == 0 {
        assert(times.take(0) =~= Seq::<u64>::empty());
    } else {
        let k = n - 1;
        lemma_burst_tail(s, times, k);
        let l = after_attempts(s, times.take(k));
        let t = times[k];
        lemma_purged_is_tail(l, t);
        assert forall|i: int| l.len() - k <= i < l.len() implies !expired(t, #[trigger] l[i]) by {
            assert(l[i] == times.take(k)[i - (l.len() - k)]);
        }
        lemma_purged_keeps_fresh_tail(l, t, k);
        lemma_after_attempts_step(s, times, k);
        assert(admitted_at(s, times, k));
        let p = purged(l, t);
        assert(p.subrange(p.len() - k, p.len() as int) =~= l.subrange(
            l.len() - k,
            l.len() as int,
        ));
        assert(p.push(t).subrange(p.len() + 1 - n, p.len() + 1int) =~= times.take(n));
    }
}

/// Among more reconnects than are allowed per window, all asked for within
/// one window, at least one is refused, whatever the ledger held before.
pub proof fn lemma_burst_is_refused(s: Seq<u64>, times: Seq<u64>)
    requires
        times.len() > MAX_RECENT_RECONNECTS,
        within_one_window(times),
    ensures
        exists|i: int| 0 <= i < times.len() && !admitted_at(s, times, i),
{
    let m = MAX_RECENT_RECONNECTS as int;
    if forall|i: int| 0 <= i < m ==> admitted_at(s, times, i) {
        lemma_burst_tail(s, times, m);
        let l = after_attempts(s, times.take(m));
        let t = times[m];
        assert forall|i: int| l.len() - m <= i < l.len() implies !expired(t, #[trigger] l[i]) by {
            assert(l[i] == times.take(m)[i - (l.len() - m)]);
        }
        lemma_purged_keeps_fresh_tail(l, t, m);
        assert(!admitted_at(s, times, m));
    }
}

/// From an empty ledger, a burst within one window leaves its first allowed
/// number of readings in the ledger.
proof fn lemma_burst_from_empty_state(times: Seq<u64>, n: int)
    requires
        0 <= n <= times.len(),
        within_one_window(times),
    ensures
        after_attempts(Seq::empty(), times.take(n)) =~= times.take(
            if n < MAX_RECENT_RECONNECTS { n } else { MAX_RECENT_RECONNECTS as int },
        ),
    decreases n,
{
    let m = MAX_RECENT_RECONNECTS as int;
    let e = Seq::<u64>::empty();
    if n == 0 {
        assert(times.take(0) =~= e);
    } else {
        let k = n - 1;
        lemma_burst_from_empty_state(times, k);
        let l = after_attempts(e, times.take(k));
        let t = times[k];
        if l.len() > 0 {
            assert(l[0] == times[0]);
        }
        assert(purged(l, t) == l);
        lemma_after_attempts_step(e, times, k);
        if k < m {
            assert(l.push(t) =~= times.take(n));
        }
    }
}

/// Starting from an empty ledger, of reconnects asked for within one window
/// exactly the first allowed number are permitted and every later one is
/// refused.
pub proof fn lemma_burst_from_empty(times: Seq<u64>)
    requires
        within_one_window(times),
    ensures
        forall|i: int|
            0 <= i < times.len() ==> (admitted_at(Seq::empty(), times, i) <==> i
                < MAX_RECENT_RECONNECTS),
{
    let e = Seq::<u64>::empty();
    assert forall|i: int| 0 <= i < times.len() implies (admitted_at(e, times, i) <==> i
        < MAX_RECENT_RECONNECTS) by {
        lemma_burst_from_empty_state(times, i);
        let l = after_attempts(e, times.take(i));
        if l.len() > 0 {
            assert(l[0] == times[0]);
        }
        assert(purged(l, times[i]) == l);
    }
}

proof fn lemma_spaced_span(s: Seq<u64>, j: int)
    requires
        spaced(s),
        1 <= j < s.len(),
    ensures
        s[j] as int - s[0] as int >= RECONNECT_WINDOW_MS as int,
    decreases j,
{
    if j > 1 {
        lemma_spaced_span(s, j - 1);
    }
}

/// A spaced ledger whose newest entry is a window old keeps at most one
/// entry when purged.
proof fn lemma_spaced_purge(s: Seq<u64>, now: u64)
    requires
        spaced(s),
        s.len() > 0 ==> now as int - s.last() as int >= RECONNECT_WINDOW_MS as int,
    ensures
        purged(s, now).len() <= 1,
        purged(s, now).len() == 1 ==> purged(s, now) == seq![s.last()],
    decreases s.len(),
{
    if s.len() >= 2 {
        lemma_spaced_span(s, s.len() - 1);
        assert(expired(now, s[0]));
        let d = s.drop_first();
        assert(spaced(d)) by {
            assert forall|i: int| 0 <= i < d.len() - 1 implies d[i + 1] as int - #[trigger] d[i] as int
                >= RECONNECT_WINDOW_MS as int by {
                assert(d[i] == s[i + 1] && d[i + 1] == s[i + 2]);
            }
        }
        lemma_spaced_purge(d, now);
    } else if s.len() == 1 {
        if !expired(now, s[0]) {
            assert(purged(s, now) =~= seq![s.last()]);
        } else {
            assert(purged(s.drop_first(), now) =~= s.drop_first());
        }
    }
}

/// What holds of the ledger after the first `n` of a spaced run of
/// reconnects.
pub(crate) proof fn lemma_spaced_state(s: Seq<u64>, times: Seq<u64>, n: int)
    requires
        0 <= n <= times.len(),
        spaced(s + times),
    ensures
        spaced(after_attempts(s, times.take(n))),
        n == 0 ==> after_attempts(s, times.take(n)) == s,
        n > 0 ==> after_attempts(s, times.take(n)).len() > 0 && after_attempts(
            s,
            times.take(n),
        ).last() == times[n - 1],
        forall|i: int| 0 <= i < n ==> admitted_at(s, times, i),
    decreases n,
{
    if n == 0 {
        assert(times.take(0) =~= Seq::<u64>::empty());
        assert forall|i: int| 0 <= i < s.len() - 1 implies s[i + 1] as int - #[trigger] s[i] as int
            >= RECONNECT_WINDOW_MS as int by {
            assert((s + times)[i] == s[i] && (s + times)[i + 1] == s[i + 1]);
        }
    } else {
        let k = n - 1;
        lemma_spaced_state(s, times, k);
        let l = after_attempts(s, times.take(k));
        let t = times[k];
        if l.len() > 0 {
            if k == 0 {
                assert((s + times)[s.len() - 1] == s.last());
                assert((s + times)[s.len() as int] == t);
            } else {
                assert((s + times)[s.len() + k - 1] == times[k - 1]);
                assert((s + times)[s.len() + k] == t);
            }
        }
        lemma_spaced_purge(l, t);
        lemma_after_attempts_step(s, times, k);
        let p = purged(l, t);
        assert(spaced(p.push(t))) by {
            if p.len() == 1 {
                assert(p.push(t) =~= seq![l.last(), t]);
            }
        }
    }
}

/// Reconnects asked for at least one window apart, and a window after the
/// newest entry of a ledger spaced the same way, are all permitted, for as
/// long as they go on.
pub proof fn lemma_spaced_reconnects_admitted(s: Seq<u64>, times: Seq<u64>)
    requires
        spaced(s + times),
    ensures
        forall|i: int| 0 <= i < times.len() ==> admitted_at(s, times, i),
{
    lemma_spaced_state(s, times, times.len() as int);
}

/// Record of the recent automatic reconnects, oldest first, as clock
/// readings in milliseconds.
#[derive(Debug)]
pub struct ReconnectLedger {
    times: Vec<u64>,
}

impl View for ReconnectLedger {
    type V = Seq<u64>;

    closed spec fn view(&self) -> Seq<u64> {
        self.times@
    }
}

impl ReconnectLedger {
    /// A ledger with no reconnect recorded.
    pub fn new() -> (r: ReconnectLedger)
        ensures
            r@ == Seq::<u64>::empty(),
    {
        ReconnectLedger { times: Vec::new() }
    }

    /// Number of reconnects currently recorded.
    pub fn len(&self) -> (r: usize)
        ensures
            r == self@.len(),
    {
        self.times.len()
    }

    /// Drops the entries that have expired at `now`, oldest first.
    pub fn purge(&mut self, now: u64)
        ensures
            final(self)@ == purged(old(self)@, now),
    {
        while !self.times.is_empty() && now > self.times[0] && now - self.times[0]
            > RECONNECT_WINDOW_MS
            invariant
                purged(self@, now) == purged(old(self)@, now),
            decreases self@.len(),
        {
            let ghost before = self@;
            self.times.remove(0);
            assert(self@ =~= before.drop_first());
        }
    }

    /// Asks for an automatic reconnect at `now`: after purging, it is
    /// permitted while fewer than the allowed number of reconnects remain in
    /// the window, and a permitted one is recorded.
    pub fn try_reconnect(&mut self, now: u64) -> (allowed: bool)
        ensures
            allowed == admits(old(self)@, now),
            final(self)@ == after_attempt(old(self)@, now),
    {
        self.purge(now);
        if self.times.len() >= MAX_RECENT_RECONNECTS {
            false
        } else {
            self.times.push(now);
            true
        }
    }
}

} // verus!
