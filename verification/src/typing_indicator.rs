//! The typing indicator: it counts key releases and, once the player has
//! released more than `TYPING_COUNT_THRESHOLD` keys and no announcement went
//! out in the last `TYPING_DELAY_NANOS`, builds the speech request saying
//! `[typing]` that tells the server the player is typing.
//!
//! The indicator is modelled by its view `(sent, keys)`: whether an
//! announcement has gone out since creation or the last reset, and the
//! number of key releases counted since then (the release that triggers an
//! announcement counts as the first of the next round), together with
//! `sent_at`, the clock reading of the last announcement.

use crate::speech::{send_typing_packet, typing_packet};
use std::time::Instant;
use vstd::prelude::*;

verus! {

/// `std::time::Instant`, a reading of the monotonic clock; opaque here.
#[verifier::external_type_specification]
#[verifier::external_body]
pub struct ExInstant(std::time::Instant);

/// Reads the monotonic clock through `std::time::Instant::now`. The reading
/// depends on the time of the call, so nothing is stated of it.
#[verifier::external_body]
fn clock_now() -> Instant {
    Instant::now()
}

/// Nanoseconds elapsed since `earlier`, through `std::time::Instant::elapsed`
/// and `Duration::as_nanos`. The value depends on the time of the call, so
/// nothing is stated of it.
#[verifier::external_body]
fn nanos_since(earlier: &Instant) -> u128 {
    earlier.elapsed().as_nanos()
}

/// Time that must have passed since the last announcement before the next
/// one may go out: five seconds, in nanoseconds.
pub const TYPING_DELAY_NANOS: u128 = 5_000_000_000;

/// An announcement goes out only once more than this many key releases
/// have been counted.
pub const TYPING_COUNT_THRESHOLD: u32 = 10;

/// The count would overflow: a key release came with the count at its
/// largest value and no announcement due to restart it.
#[derive(Clone, Copy, Debug, PartialEq, Eq, Structural)]
pub enum CountOverflow {
    AtLimit,
}

/// Whether the delay since the last announcement has passed, given the
/// nanoseconds elapsed since it (`None` when none went out: then it has).
/// The comparison is strict.
pub open spec fn overdue(elapsed: Option<u128>) -> bool {
    elapsed matches Some(e) ==> e > TYPING_DELAY_NANOS
}

/// Whether a key release, from model state `s`, triggers an announcement.
/// `overdue` says whether the delay since the last announcement has passed.
pub open spec fn key_up_due(s: (bool, nat), overdue: bool) -> bool {
    overdue && s.1 > TYPING_COUNT_THRESHOLD
}

/// Model state after a key release from `s`.
pub open spec fn key_up_next(s: (bool, nat), overdue: bool) -> (bool, nat) {
    if key_up_due(s, overdue) {
        (true, 1)
    } else {
        (s.0, s.1 + 1)
    }
}

/// Whether the count cannot overflow on this key release: it is restarted
/// when an announcement is due, and else it must have room for one more.
pub open spec fn key_up_fits(s: (bool, nat), overdue: bool) -> bool {
    key_up_due(s, overdue) || s.1 < u32::MAX
}

/// One key release from `before` to `after`, given the nanoseconds elapsed
/// since the last announcement and the clock reading `now`; `sent` tells
/// whether an announcement went out. When one does, `now` becomes its time;
/// else the time of the last one is kept.
pub open spec fn key_up_step(
    before: TypingIndicator,
    after: TypingIndicator,
    sent: bool,
    elapsed: Option<u128>,
    now: Instant,
) -> bool {
    let due = key_up_due(before@, overdue(elapsed));
    &&& after@ == key_up_next(before@, overdue(elapsed))
    &&& sent == due
    &&& after.sent_at() == (if due {
        Some(now)
    } else {
        before.sent_at()
    })
}

/// Whether a packet went out, or the count overflow.
pub open spec fn sent_outcome(r: Result<Option<Vec<u8>>, CountOverflow>) -> Result<
    bool,
    CountOverflow,
> {
    match r {
        Ok(p) => Ok(p is Some),
        Err(e) => Err(e),
    }
}

/// A key release timed by the clock: `elapsed` is the clock's measure of
/// the time since the last announcement (present exactly when one went
/// out), `now` its reading. Either the release is a `key_up_step`, or the
/// count would overflow and nothing changes.
pub open spec fn timed_key_up(
    before: TypingIndicator,
    after: TypingIndicator,
    outcome: Result<bool, CountOverflow>,
    elapsed: Option<u128>,
    now: Instant,
) -> bool {
    &&& (elapsed is None <==> before.sent_at() is None)
    &&& match outcome {
        Ok(sent) => key_up_fits(before@, overdue(elapsed)) && key_up_step(
            before,
            after,
            sent,
            elapsed,
            now,
        ),
        Err(_) => !key_up_fits(before@, overdue(elapsed)) && after == before,
    }
}

/// Model state after a run of key releases from `s`, and the number of
/// announcements the run sends; `overdue[i]` tells whether the delay had
/// passed at the i-th release.
pub open spec fn run_key_ups(s: (bool, nat), overdue: Seq<bool>) -> ((bool, nat), nat)
    decreases overdue.len(),
{
    if overdue.len() == 0 {
        (s, 0)
    } else {
        let rest = run_key_ups(key_up_next(s, overdue[0]), overdue.drop_first());
        (rest.0, rest.1 + if key_up_due(s, overdue[0]) {
            1nat
        } else {
            0nat
        })
    }
}

/// Whether a release at clock time `t` (nanoseconds) comes after the delay
/// since the last announcement at `last` (none yet: it does).
pub open spec fn overdue_at(last: Option<int>, t: int) -> bool {
    last matches Some(l) ==> t - l > TYPING_DELAY_NANOS
}

/// The clock times at which a run of key releases sends announcements: the
/// releases come at `times`, from a state with `count` releases counted and
/// the last announcement at `last`. Each release is a `key_up_next` step
/// whose delay is measured from the last announcement.
pub open spec fn timed_sends(last: Option<int>, count: nat, times: Seq<int>) -> Seq<int>
    decreases times.len(),
{
    if times.len() == 0 {
        seq![]
    } else {
        let t = times[0];
        let s = (last is Some, count);
        if key_up_due(s, overdue_at(last, t)) {
            seq![t] + timed_sends(Some(t), key_up_next(s, overdue_at(last, t)).1, times.drop_first())
        } else {
            timed_sends(last, key_up_next(s, overdue_at(last, t)).1, times.drop_first())
        }
    }
}

/// Each time in `times` comes more than `TYPING_DELAY_NANOS` after the one
/// before it.
pub open spec fn spaced_apart(times: Seq<int>) -> bool {
    forall|k: int|
        #![trigger times[k]]
        0 <= k < times.len() - 1 ==> times[k + 1] - times[k] > TYPING_DELAY_NANOS
}

/// No announcement goes out, whatever the clock says, until more than
/// `TYPING_COUNT_THRESHOLD` key releases have been counted: a run that ends
/// before the count passes the threshold sends nothing and only counts.
pub proof fn lemma_quiet_below_threshold(s: (bool, nat), overdue: Seq<bool>)
    requires
        s.1 + overdue.len() <= TYPING_COUNT_THRESHOLD + 1,
    ensures
        run_key_ups(s, overdue).1 == 0,
        run_key_ups(s, overdue).0 == (s.0, s.1 + overdue.len()),
    decreases overdue.len(),
{
    if overdue.len() > 0 {
        lemma_quiet_below_threshold(key_up_next(s, overdue[0]), overdue.drop_first());
    }
}

/// Every announcement is paid for by `TYPING_COUNT_THRESHOLD` counted key
/// releases: over any run, the threshold times the number of announcements,
/// plus the count at the end, is at most the count at the start plus the
/// number of releases.
pub proof fn lemma_announcements_spaced(s: (bool, nat), overdue: Seq<bool>)
    ensures
        TYPING_COUNT_THRESHOLD * run_key_ups(s, overdue).1 + run_key_ups(s, overdue).0.1 <= s.1
            + overdue.len(),
    decreases overdue.len(),
{
    if overdue.len() > 0 {
        lemma_announcements_spaced(key_up_next(s, overdue[0]), overdue.drop_first());
    }
}

/// Releases that all come after the delay do announce: from any state, a
/// run of at least one release, long enough to bring the count past
/// `TYPING_COUNT_THRESHOLD`, sends at least one announcement. In particular
/// twelve such releases always do.
pub proof fn lemma_due_releases_announce(s: (bool, nat), overdue: Seq<bool>)
    requires
        forall|i: int| 0 <= i < overdue.len() ==> overdue[i],
        overdue.len() >= 1,
        overdue.len() + s.1 >= TYPING_COUNT_THRESHOLD + 2,
    ensures
        run_key_ups(s, overdue).1 >= 1,
    decreases overdue.len(),
{
    assert(overdue[0]);
    if s.1 <= TYPING_COUNT_THRESHOLD {
        let rest = overdue.drop_first();
        assert forall|i: int| 0 <= i < rest.len() implies rest[i] by {
            assert(rest[i] == overdue[i + 1]);
        }
        lemma_due_releases_announce(key_up_next(s, overdue[0]), rest);
    }
}

/// Announcements are more than `TYPING_DELAY_NANOS` apart: in any run of
/// key releases at clock times `times`, each announcement comes more than
/// the delay after the one before it (and after `last`, the one before the
/// run, if any).
pub proof fn lemma_announcements_apart_in_time(last: Option<int>, count: nat, times: Seq<int>)
    ensures
        spaced_apart(timed_sends(last, count, times)),
        last matches Some(l) ==> (timed_sends(last, count, times).len() > 0 ==> timed_sends(
            last,
            count,
            times,
        )[0] - l > TYPING_DELAY_NANOS),
    decreases times.len(),
{
    if times.len() > 0 {
        let t = times[0];
        let s = (last is Some, count);
        let next = key_up_next(s, overdue_at(last, t)).1;
        let rest = times.drop_first();
        if key_up_due(s, overdue_at(last, t)) {
            lemma_announcements_apart_in_time(Some(t), next, rest);
            let tail = timed_sends(Some(t), next, rest);
            let all = timed_sends(last, count, times);
            assert(all =~= seq![t] + tail);
            assert forall|k: int| #![trigger all[k]] 0 <= k < all.len() - 1 implies all[k + 1] - all[k]
                > TYPING_DELAY_NANOS by {
                if k > 0 {
                    assert(all[k] == tail[k - 1] && all[k + 1] == tail[k]);
                }
            }
        } else {
            lemma_announcements_apart_in_time(last, next, rest);
        }
    }
}

/// Counts key releases and decides when the server is told that the player
/// is typing.
pub struct TypingIndicator {
    last_packet: Option<Instant>,
    count: u32,
}

impl View for TypingIndicator {
    type V = (bool, nat);

    /// Whether an announcement went out since creation or the last reset,
    /// and the number of key releases counted.
    closed spec fn view(&self) -> (bool, nat) {
        (self.last_packet is Some, self.count as nat)
    }
}

/// A run of key releases on one indicator, with no other call between
/// them: `states[i]` is the indicator before release `i` and `states[i + 1]`
/// after it, `sent[i]` whether it announced, `elapsed[i]` and `nows[i]` the
/// clock's measure and reading it was taken with. Runs of `on_key_up` calls
/// are such runs, and so are runs of `update` calls that succeed, with the
/// measures and readings their contracts speak of.
pub open spec fn key_up_run(
    states: Seq<TypingIndicator>,
    sent: Seq<bool>,
    elapsed: Seq<Option<u128>>,
    nows: Seq<Instant>,
) -> bool {
    &&& states.len() == sent.len() + 1
    &&& elapsed.len() == sent.len()
    &&& nows.len() == sent.len()
    &&& forall|i: int| 0 <= i < sent.len() ==> #[trigger] run_step(states, sent, elapsed, nows, i)
}

/// Release `i` of a run is a `key_up_step`.
pub open spec fn run_step(
    states: Seq<TypingIndicator>,
    sent: Seq<bool>,
    elapsed: Seq<Option<u128>>,
    nows: Seq<Instant>,
    i: int,
) -> bool {
    key_up_step(states[i], states[i + 1], sent[i], elapsed[i], nows[i])
}

/// Whether each release was late, in the run's order.
pub open spec fn overdue_flags(elapsed: Seq<Option<u128>>) -> Seq<bool> {
    Seq::new(elapsed.len(), |i: int| overdue(elapsed[i]))
}

/// The number of announcements in `sent`.
pub open spec fn num_sent(sent: Seq<bool>) -> nat
    decreases sent.len(),
{
    if sent.len() == 0 {
        0
    } else {
        (if sent[0] {
            1nat
        } else {
            0nat
        }) + num_sent(sent.drop_first())
    }
}

/// The last release before release `k` that announced, if any.
pub open spec fn last_send(sent: Seq<bool>, k: int) -> Option<int>
    decreases k,
{
    if k <= 0 {
        None
    } else if sent[k - 1] {
        Some(k - 1)
    } else {
        last_send(sent, k - 1)
    }
}

/// Whether `e` is the time elapsed since the last announcement of `ind`,
/// measured at reading `now`, on a clock that gives each reading a time in
/// nanoseconds: absent when no announcement went out.
pub open spec fn measured(
    clock: spec_fn(Instant) -> int,
    ind: TypingIndicator,
    e: Option<u128>,
    now: Instant,
) -> bool {
    match ind.sent_at() {
        None => e is None,
        Some(a) => e matches Some(x) && x == clock(now) - clock(a),
    }
}

/// A late release announces: when more than `TYPING_COUNT_THRESHOLD`
/// releases were counted and more than `TYPING_DELAY_NANOS` elapsed since
/// the last announcement (however much more), the release announces, the
/// count restarts at one and the release's reading becomes the time of the
/// last announcement.
pub proof fn lemma_late_release_announces(
    before: TypingIndicator,
    after: TypingIndicator,
    sent: bool,
    e: u128,
    now: Instant,
)
    requires
        key_up_step(before, after, sent, Some(e), now),
        e > TYPING_DELAY_NANOS,
        before@.1 > TYPING_COUNT_THRESHOLD,
    ensures
        sent,
        after@ == (true, 1nat),
        after.sent_at() == Some(now),
{
}

/// The first announcement waits for no delay: with none sent yet and more
/// than `TYPING_COUNT_THRESHOLD` releases counted, the release announces.
pub proof fn lemma_first_release_past_threshold_announces(
    before: TypingIndicator,
    after: TypingIndicator,
    sent: bool,
    now: Instant,
)
    requires
        key_up_step(before, after, sent, None, now),
        before@.1 > TYPING_COUNT_THRESHOLD,
    ensures
        sent,
        after@ == (true, 1nat),
        after.sent_at() == Some(now),
{
}

/// An early release waits: when at most `TYPING_DELAY_NANOS` elapsed since
/// the last announcement, the release announces nothing, only counts, and
/// keeps the time of the last announcement.
pub proof fn lemma_early_release_waits(
    before: TypingIndicator,
    after: TypingIndicator,
    sent: bool,
    e: u128,
    now: Instant,
)
    requires
        key_up_step(before, after, sent, Some(e), now),
        e <= TYPING_DELAY_NANOS,
    ensures
        !sent,
        after@ == (before@.0, before@.1 + 1),
        after.sent_at() == before.sent_at(),
{
}

/// Too few releases wait: with at most `TYPING_COUNT_THRESHOLD` counted, a
/// release announces nothing, whatever the time, and only counts.
pub proof fn lemma_few_releases_wait(
    before: TypingIndicator,
    after: TypingIndicator,
    sent: bool,
    elapsed: Option<u128>,
    now: Instant,
)
    requires
        key_up_step(before, after, sent, elapsed, now),
        before@.1 <= TYPING_COUNT_THRESHOLD,
    ensures
        !sent,
        after@ == (before@.0, before@.1 + 1),
        after.sent_at() == before.sent_at(),
{
}

/// Indicators in the same state take the same step: two indicators with
/// equal view and last announcement time, given the same release at the
/// same time, end equal in view and time and announce alike.
pub proof fn lemma_equal_states_equal_steps(
    a: TypingIndicator,
    b: TypingIndicator,
    a2: TypingIndicator,
    b2: TypingIndicator,
    sent_a: bool,
    sent_b: bool,
    elapsed: Option<u128>,
    now: Instant,
)
    requires
        a@ == b@,
        a.sent_at() == b.sent_at(),
        key_up_step(a, a2, sent_a, elapsed, now),
        key_up_step(b, b2, sent_b, elapsed, now),
    ensures
        a2@ == b2@,
        a2.sent_at() == b2.sent_at(),
        sent_a == sent_b,
{
}

/// A reset indicator acts as a fresh one, over runs of any length: two runs
/// of releases at the same times, from indicators in the same state (such as
/// one just reset and one just created), pass through the same states and
/// announce at the same releases. So the twelfth release after a reset
/// announces however recently an announcement went out before it.
pub proof fn lemma_equal_states_equal_runs(
    sa: Seq<TypingIndicator>,
    sb: Seq<TypingIndicator>,
    sent_a: Seq<bool>,
    sent_b: Seq<bool>,
    elapsed: Seq<Option<u128>>,
    nows: Seq<Instant>,
)
    requires
        key_up_run(sa, sent_a, elapsed, nows),
        key_up_run(sb, sent_b, elapsed, nows),
        sa[0]@ == sb[0]@,
        sa[0].sent_at() == sb[0].sent_at(),
    ensures
        sent_a == sent_b,
        forall|k: int|
            #![trigger sa[k]]
            0 <= k < sa.len() ==> sa[k]@ == sb[k]@ && sa[k].sent_at() == sb[k].sent_at(),
{
    lemma_equal_runs_upto(sa, sb, sent_a, sent_b, elapsed, nows, sent_a.len() as int);
    assert(sent_a =~= sent_b);
}

proof fn lemma_equal_runs_upto(
    sa: Seq<TypingIndicator>,
    sb: Seq<TypingIndicator>,
    sent_a: Seq<bool>,
    sent_b: Seq<bool>,
    elapsed: Seq<Option<u128>>,
    nows: Seq<Instant>,
    n: int,
)
    requires
        key_up_run(sa, sent_a, elapsed, nows),
        key_up_run(sb, sent_b, elapsed, nows),
        sa[0]@ == sb[0]@,
        sa[0].sent_at() == sb[0].sent_at(),
        0 <= n <= sent_a.len(),
    ensures
        forall|k: int|
            #![trigger sa[k]]
            0 <= k <= n ==> sa[k]@ == sb[k]@ && sa[k].sent_at() == sb[k].sent_at(),
        forall|k: int| 0 <= k < n ==> #[trigger] sent_a[k] == sent_b[k],
    decreases n,
{
    if n > 0 {
        lemma_equal_runs_upto(sa, sb, sent_a, sent_b, elapsed, nows, n - 1);
        let i = n - 1;
        assert(run_step(sa, sent_a, elapsed, nows, i));
        assert(run_step(sb, sent_b, elapsed, nows, i));
        assert(sa[i]@ == sb[i]@ && sa[i].sent_at() == sb[i].sent_at());
        lemma_equal_states_equal_steps(
            sa[i],
            sb[i],
            sa[i + 1],
            sb[i + 1],
            sent_a[i],
            sent_b[i],
            elapsed[i],
            nows[i],
        );
    }
}

/// What an indicator holds after any run of releases: if no release of the
/// run announced, the count grew by one per release and the last
/// announcement time is unchanged; else the count is the number of releases
/// since the last announcing one, that one included, and the last
/// announcement time is the reading that release was taken with. From a
/// fresh or just reset indicator, this is the state after any history of
/// calls since the latest `new` or `reset`.
pub proof fn lemma_run_state(
    states: Seq<TypingIndicator>,
    sent: Seq<bool>,
    elapsed: Seq<Option<u128>>,
    nows: Seq<Instant>,
    k: int,
)
    requires
        key_up_run(states, sent, elapsed, nows),
        0 <= k <= sent.len(),
    ensures
        match last_send(sent, k) {
            None => states[k]@ == (states[0]@.0, states[0]@.1 + k as nat) && states[k].sent_at()
                == states[0].sent_at(),
            Some(i) => 0 <= i < k && states[k]@ == (true, (k - i) as nat) && states[k].sent_at()
                == Some(nows[i]),
        },
    decreases k,
{
    if k > 0 {
        lemma_run_state(states, sent, elapsed, nows, k - 1);
        let i = k - 1;
        assert(run_step(states, sent, elapsed, nows, i));
    }
}

/// A run of releases follows the model: the indicator's view at the end is
/// the model state after the run, and the run announces as often as the
/// model says.
pub proof fn lemma_run_follows_model(
    states: Seq<TypingIndicator>,
    sent: Seq<bool>,
    elapsed: Seq<Option<u128>>,
    nows: Seq<Instant>,
)
    requires
        key_up_run(states, sent, elapsed, nows),
    ensures
        states.last()@ == run_key_ups(states[0]@, overdue_flags(elapsed)).0,
        num_sent(sent) == run_key_ups(states[0]@, overdue_flags(elapsed)).1,
    decreases sent.len(),
{
    if sent.len() > 0 {
        let st = states.drop_first();
        let se = sent.drop_first();
        let el = elapsed.drop_first();
        let no = nows.drop_first();
        assert(run_step(states, sent, elapsed, nows, 0));
        assert forall|i: int| 0 <= i < se.len() implies #[trigger] run_step(st, se, el, no, i) by {
            assert(run_step(states, sent, elapsed, nows, i + 1));
        }
        lemma_run_follows_model(st, se, el, no);
        assert(overdue_flags(elapsed).drop_first() =~= overdue_flags(el));
        assert(overdue_flags(elapsed)[0] == overdue(elapsed[0]));
    }
}

/// At most one announcement per `TYPING_DELAY_NANOS`: in a run of releases
/// whose clock measures are taken on one clock (each the time since the
/// last announcement, at the release's reading), any two announcing
/// releases are more than the delay apart, and the first announcement of
/// the run comes more than the delay after the one before the run, if any.
pub proof fn lemma_run_announcements_apart(
    clock: spec_fn(Instant) -> int,
    states: Seq<TypingIndicator>,
    sent: Seq<bool>,
    elapsed: Seq<Option<u128>>,
    nows: Seq<Instant>,
    i: int,
    j: int,
)
    requires
        key_up_run(states, sent, elapsed, nows),
        forall|k: int|
            0 <= k < sent.len() ==> #[trigger] measured(clock, states[k], elapsed[k], nows[k]),
        0 <= i < j < sent.len(),
        sent[i],
        sent[j],
    ensures
        clock(nows[j]) - clock(nows[i]) > TYPING_DELAY_NANOS,
    decreases j - i,
{
    lemma_run_state(states, sent, elapsed, nows, j);
    lemma_last_send_at_least(sent, i, j);
    assert(run_step(states, sent, elapsed, nows, j));
    assert(measured(clock, states[j], elapsed[j], nows[j]));
    let p = last_send(sent, j).unwrap();
    if p != i {
        lemma_last_send_is_send(sent, j);
        lemma_run_announcements_apart(clock, states, sent, elapsed, nows, i, p);
    }
}

/// The first announcement of a run comes more than `TYPING_DELAY_NANOS`
/// after the announcement made before the run, if there was one.
pub proof fn lemma_run_first_announcement_late(
    clock: spec_fn(Instant) -> int,
    states: Seq<TypingIndicator>,
    sent: Seq<bool>,
    elapsed: Seq<Option<u128>>,
    nows: Seq<Instant>,
    j: int,
)
    requires
        key_up_run(states, sent, elapsed, nows),
        forall|k: int|
            0 <= k < sent.len() ==> #[trigger] measured(clock, states[k], elapsed[k], nows[k]),
        0 <= j < sent.len(),
        sent[j],
        last_send(sent, j) is None,
        states[0].sent_at() is Some,
    ensures
        clock(nows[j]) - clock(states[0].sent_at().unwrap()) > TYPING_DELAY_NANOS,
{
    lemma_run_state(states, sent, elapsed, nows, j);
    assert(run_step(states, sent, elapsed, nows, j));
    assert(measured(clock, states[j], elapsed[j], nows[j]));
}

proof fn lemma_last_send_at_least(sent: Seq<bool>, i: int, j: int)
    requires
        0 <= i < j <= sent.len(),
        sent[i],
    ensures
        last_send(sent, j) matches Some(p) && i <= p < j,
    decreases j,
{
    if j - 1 != i && !sent[j - 1] {
        lemma_last_send_at_least(sent, i, j - 1);
    }
}

proof fn lemma_last_send_is_send(sent: Seq<bool>, j: int)
    requires
        0 <= j <= sent.len(),
        last_send(sent, j) is Some,
    ensures
        sent[last_send(sent, j).unwrap()],
    decreases j,
{
    if j > 0 && !sent[j - 1] {
        lemma_last_send_is_send(sent, j - 1);
    }
}

impl TypingIndicator {
    /// When the last announcement went out, if one did since creation or the
    /// last reset.
    pub closed spec fn sent_at(&self) -> Option<Instant> {
        self.last_packet
    }

    /// A fresh indicator: nothing sent, nothing counted.
    pub fn new() -> (ind: Self)
        ensures
            ind@ == (false, 0nat),
            ind.sent_at() is None,
    {
        TypingIndicator { last_packet: None, count: 0 }
    }

    /// Starts over, as when the player submits a line: nothing sent,
    /// nothing counted.
    pub fn reset(&mut self)
        ensures
            final(self)@ == (false, 0nat),
            final(self).sent_at() is None,
    {
        self.count = 0;
        self.last_packet = None;
    }

    /// One key release, given the nanoseconds elapsed since the last
    /// announcement (`None` when none went out) and the current clock
    /// reading. Returns the announcement packet exactly when the delay has
    /// passed (strictly more than `TYPING_DELAY_NANOS`, or no announcement
    /// yet) and more than `TYPING_COUNT_THRESHOLD` releases were counted.
    /// Then `now` becomes the time of the last announcement and the count
    /// restarts at one; else the count grows by one and the time is kept.
    pub fn on_key_up(&mut self, elapsed: Option<u128>, now: Instant) -> (packet: Option<Vec<u8>>)
        requires
            key_up_fits(old(self)@, overdue(elapsed)),
        ensures
            key_up_step(*old(self), *final(self), packet is Some, elapsed, now),
            packet matches Some(p) ==> p@ == typing_packet(),
            (elapsed is None || elapsed.unwrap() > TYPING_DELAY_NANOS) && old(self)@.1
                > TYPING_COUNT_THRESHOLD ==> packet is Some && final(self)@ == (true, 1nat) && final(
                self).sent_at() == Some(now),
            (elapsed matches Some(e) && e <= TYPING_DELAY_NANOS) || old(self)@.1
                <= TYPING_COUNT_THRESHOLD ==> packet is None && final(self)@ == (old(self)@.0, old(
                self)@.1 + 1) && final(self).sent_at() == old(self).sent_at(),
    {
        let overdue = match elapsed {
            None => true,
            Some(e) => e > TYPING_DELAY_NANOS,
        };
        let mut packet: Option<Vec<u8>> = None;
        if overdue && self.count > TYPING_COUNT_THRESHOLD {
            self.last_packet = Some(now);
            self.count = 0;
            packet = Some(send_typing_packet());
        }
        self.count = self.count + 1;
        packet
    }

    /// One key release, timed by the clock: measures the time since the last
    /// announcement, reads the clock, and takes the `on_key_up` step. Fails,
    /// changing nothing, when the count would overflow.
    pub fn update(&mut self) -> (r: Result<Option<Vec<u8>>, CountOverflow>)
        ensures
            exists|elapsed: Option<u128>, now: Instant|
                #[trigger] timed_key_up(*old(self), *final(self), sent_outcome(r), elapsed, now),
            r matches Ok(Some(p)) ==> p@ == typing_packet(),
    {
        let elapsed = match &self.last_packet {
            None => None,
            Some(t) => Some(nanos_since(t)),
        };
        let overdue = match elapsed {
            None => true,
            Some(e) => e > TYPING_DELAY_NANOS,
        };
        if !(overdue && self.count > TYPING_COUNT_THRESHOLD) && self.count == u32::MAX {
            let r: Result<Option<Vec<u8>>, CountOverflow> = Err(CountOverflow::AtLimit);
            assert(timed_key_up(*old(self), *self, sent_outcome(r), elapsed, arbitrary()));
            return r;
        }
        let now = clock_now();
        let packet = self.on_key_up(elapsed, now);
        let r: Result<Option<Vec<u8>>, CountOverflow> = Ok(packet);
        assert(timed_key_up(*old(self), *self, sent_outcome(r), elapsed, now));
        r
    }

    /// Number of key releases counted.
    pub fn count(&self) -> (n: u32)
        ensures
            n == self@.1,
    {
        self.count
    }

    /// Whether an announcement went out since creation or the last reset.
    pub fn has_sent(&self) -> (b: bool)
        ensures
            b == self@.0,
    {
        self.last_packet.is_some()
    }
}

} // verus!
