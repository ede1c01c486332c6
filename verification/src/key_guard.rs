//! Guard of the keyboard hook that runs beside the lock screen: it swallows
//! every key that is not needed to type the password, and it swallows bursts
//! of repeated Shift, Ctrl or Alt presses, which Windows would otherwise turn
//! into the Sticky Keys, Filter Keys or Toggle Keys dialog.

use std::collections::VecDeque;
use std::time::{Duration, Instant};
use vstd::prelude::*;

verus! {

/// Width of the window in which repeated presses are counted: 400 ms.
pub const REPEAT_WINDOW_NANOS: u128 = 400_000_000;

/// Number of presses of one key inside the window that is swallowed.
pub const REQUIRED_REPEATS: usize = 5;

/// `code` of a low-level keyboard hook call that carries a key event.
pub const HC_ACTION: i32 = 0;

/// Window message of a key press.
pub const WM_KEYDOWN: usize = 0x100;

/// Window message of a key press with Alt held.
pub const WM_SYSKEYDOWN: usize = 0x104;

/// Left and right Shift: five presses open the Sticky Keys dialog.
pub open spec fn is_sticky_key(vk: u32) -> bool {
    vk == 0xA0 || vk == 0xA1
}

/// Left and right Ctrl.
pub open spec fn is_filter_key(vk: u32) -> bool {
    vk == 0xA2 || vk == 0xA3
}

/// Left and right Alt.
pub open spec fn is_toggle_key(vk: u32) -> bool {
    vk == 0xA4 || vk == 0xA5
}

/// Keys whose repetition may trigger an accessibility shortcut.
pub open spec fn is_suspect_key(vk: u32) -> bool {
    is_sticky_key(vk) || is_filter_key(vk) || is_toggle_key(vk)
}

/// Keys that the guard lets through: Backspace, Enter, Space, Delete, '.',
/// Esc, Caps Lock, the digits and the letters.
pub open spec fn spec_is_allowed_key(vk: u32) -> bool {
    ||| vk == 0x08 || vk == 0x0D || vk == 0x20 || vk == 0x2E || vk == 0xBE
    ||| vk == 0x1B
    ||| vk == 0x14
    ||| 0x30 <= vk <= 0x39
    ||| 0x41 <= vk <= 0x5A
}

/// A press of `vk`, taken at `at` nanoseconds after the guard was created.
pub type Press = (u32, u128);

/// Time from `then` to `now`, zero if `then` lies after `now`.
pub open spec fn elapsed(now: u128, then: u128) -> int {
    if now >= then {
        now - then
    } else {
        0
    }
}

/// A recorded press that lies more than the window before `now`.
pub open spec fn is_expired(press: Press, now: u128) -> bool {
    elapsed(now, press.1) > REPEAT_WINDOW_NANOS
}

/// The queue without its leading presses that have expired at `now`.
pub open spec fn prune_expired(queue: Seq<Press>, now: u128) -> Seq<Press>
    decreases queue.len(),
{
    if queue.len() > 0 && is_expired(queue[0], now) {
        prune_expired(queue.drop_first(), now)
    } else {
        queue
    }
}

/// The queue once a press of `vk` at `now` has been added: it extends the
/// run when it repeats the last recorded key, and starts a new run otherwise.
pub open spec fn after_press(queue: Seq<Press>, vk: u32, now: u128) -> Seq<Press> {
    let kept = prune_expired(queue, now);
    if kept.len() > 0 && kept.last().0 == vk {
        kept.push((vk, now))
    } else {
        seq![(vk, now)]
    }
}

/// Whether a press of `vk` at `now` is swallowed as part of a burst.
pub open spec fn press_blocks(queue: Seq<Press>, vk: u32, now: u128) -> bool {
    is_suspect_key(vk) && after_press(queue, vk, now).len() >= REQUIRED_REPEATS
}

/// The queue after a press of `vk` at `now` has been judged.
pub open spec fn queue_after(queue: Seq<Press>, vk: u32, now: u128) -> Seq<Press> {
    if !is_suspect_key(vk) {
        queue
    } else if after_press(queue, vk, now).len() >= REQUIRED_REPEATS {
        Seq::empty()
    } else {
        after_press(queue, vk, now)
    }
}

/// The queue holds one run: fewer presses than a burst, all of one key, and
/// that key Shift, Ctrl or Alt.
pub open spec fn queue_well_formed(queue: Seq<Press>) -> bool {
    &&& queue.len() < REQUIRED_REPEATS
    &&& forall|i: int| 0 <= i < queue.len() ==> is_suspect_key(#[trigger] queue[i].0)
    &&& forall|i: int, j: int| 0 <= i < queue.len() && 0 <= j < queue.len()
        ==> #[trigger] queue[i].0 == #[trigger] queue[j].0
}

/// A point in time of the monotonic clock.
#[verifier::external_type_specification]
#[verifier::external_body]
pub struct ExInstant(Instant);

/// Reads the monotonic clock (`Instant::now`); nothing is known of the value.
#[verifier::external_body]
fn instant_now() -> Instant {
    Instant::now()
}

/// Time that has passed since `origin` (`Instant::elapsed`). The value
/// depends on the clock: nothing is stated of it.
#[verifier::external_body]
fn elapsed_since(origin: &Instant) -> Duration {
    origin.elapsed()
}

/// Whole nanoseconds of `span` (`Duration::as_nanos`). `Duration` is opaque
/// here, so nothing is stated of the value.
#[verifier::external_body]
fn duration_nanos(span: &Duration) -> u128 {
    span.as_nanos()
}

/// Recent presses of a possibly dangerous key, with the clock they are
/// measured against.
pub struct AccessibilityGuard {
    origin: Instant,
    queue: VecDeque<Press>,
}

impl AccessibilityGuard {
    /// Every guard holds one run of Shift, Ctrl or Alt presses, fewer than a
    /// burst.
    #[verifier::type_invariant]
    spec fn holds_one_short_run(&self) -> bool {
        queue_well_formed(self.queue@)
    }
}

impl View for AccessibilityGuard {
    type V = Seq<Press>;

    closed spec fn view(&self) -> Seq<Press> {
        self.queue@
    }
}

impl AccessibilityGuard {
    /// A guard with no recorded press, whose clock starts now.
    pub fn new() -> (guard: Self)
        ensures
            guard@ == Seq::<Press>::empty(),
    {
        AccessibilityGuard { origin: instant_now(), queue: VecDeque::new() }
    }

    /// Number of presses recorded in the current run.
    pub fn pending_presses(&self) -> (n: usize)
        ensures
            n == self@.len(),
            n < REQUIRED_REPEATS,
    {
        proof {
            use_type_invariant(self);
        }
        self.queue.len()
    }
}

/// Whether `vk` is Shift, Ctrl or Alt, left or right.
pub fn is_suspect(vk: u32) -> (r: bool)
    ensures
        r == is_suspect_key(vk),
{
    vk == 0xA0 || vk == 0xA1 || vk == 0xA2 || vk == 0xA3 || vk == 0xA4 || vk == 0xA5
}

/// Whether the guard lets a press of `vk_code` through.
pub fn is_allowed_key(vk_code: u32) -> (r: bool)
    ensures
        r == spec_is_allowed_key(vk_code),
{
    match vk_code {
        0x08 | 0x0D | 0x20 | 0x2E | 0xBE => true,
        0x1B => true,
        0x14 => true,
        0x30..=0x39 => true,
        0x41..=0x5A => true,
        _ => false,
    }
}

/// Judges a press of `vk_code` at `now` (nanoseconds on the guard's clock):
/// returns whether it completes a burst, and records it.
pub fn record_key_press(guard: &mut AccessibilityGuard, vk_code: u32, now: u128) -> (blocked: bool)
    ensures
        blocked == press_blocks(old(guard)@, vk_code, now),
        final(guard)@ == queue_after(old(guard)@, vk_code, now),
        queue_well_formed(final(guard)@),
{
    proof {
        use_type_invariant(&*guard);
    }
    if !is_suspect(vk_code) {
        return false;
    }
    let mut queue: VecDeque<Press> = VecDeque::new();
    std::mem::swap(&mut queue, &mut guard.queue);
    let ghost start = queue@;
    loop
        invariant
            prune_expired(queue@, now) == prune_expired(start, now),
            queue_well_formed(queue@),
        ensures
            prune_expired(start, now) == queue@,
        decreases queue@.len(),
    {
        if queue.len() == 0 {
            break;
        }
        let then = queue[0].1;
        let gap: u128 = if now >= then {
            now - then
        } else {
            0
        };
        if gap > REPEAT_WINDOW_NANOS {
            let ghost before = queue@;
            queue.pop_front();
            assert(queue@ =~= before.drop_first());
            assert forall|i: int| 0 <= i < queue@.len() implies is_suspect_key(
                #[trigger] queue@[i].0,
            ) by {
                assert(queue@[i] == before[i + 1]);
            }
            assert forall|i: int, j: int|
                0 <= i < queue@.len() && 0 <= j < queue@.len() implies #[trigger] queue@[i].0
                    == #[trigger] queue@[j].0 by {
                assert(queue@[i] == before[i + 1]);
                assert(queue@[j] == before[j + 1]);
            }
        } else {
            break;
        }
    }
    let len = queue.len();
    let same_as_last = len > 0 && queue[len - 1].0 == vk_code;
    if same_as_last {
        if len + 1 >= REQUIRED_REPEATS {
            queue.clear();
            guard.queue = queue;
            return true;
        }
        let ghost before = queue@;
        queue.push_back((vk_code, now));
        assert forall|i: int, j: int|
            0 <= i < queue@.len() && 0 <= j < queue@.len() implies #[trigger] queue@[i].0
                == #[trigger] queue@[j].0 by {
            if i < before.len() {
                assert(before[i].0 == before[before.len() - 1].0);
            }
            if j < before.len() {
                assert(before[j].0 == before[before.len() - 1].0);
            }
        }
    } else {
        queue.clear();
        queue.push_back((vk_code, now));
        assert(queue@ =~= seq![(vk_code, now)]);
    }
    guard.queue = queue;
    false
}

/// Judges a press of `vk_code` now: returns whether it completes a burst of
/// five presses of one Shift, Ctrl or Alt key within 400 ms, and records it.
/// Whatever the clock reads, the outcome is that of `record_key_press` at
/// some time.
pub fn check_and_block_accessibility(guard: &mut AccessibilityGuard, vk_code: u32) -> (blocked: bool)
    ensures
        !is_suspect_key(vk_code) ==> !blocked && final(guard)@ == old(guard)@,
        exists|now: u128|
            blocked == press_blocks(old(guard)@, vk_code, now) && final(guard)@ == queue_after(
                old(guard)@,
                vk_code,
                now,
            ),
        queue_well_formed(final(guard)@),
{
    proof {
        use_type_invariant(&*guard);
    }
    if !is_suspect(vk_code) {
        assert(!press_blocks(guard@, vk_code, 0) && queue_after(guard@, vk_code, 0) == guard@);
        return false;
    }
    let now = duration_nanos(&elapsed_since(&guard.origin));
    record_key_press(guard, vk_code, now)
}

/// A key event that the guard judges: a key press delivered with `HC_ACTION`.
pub open spec fn is_judged_key_event(code: i32, w_param: usize) -> bool {
    code == HC_ACTION && (w_param == WM_KEYDOWN || w_param == WM_SYSKEYDOWN)
}

/// Decides, for a keyboard hook call at `now`, whether the event is
/// swallowed: a judged press is swallowed when it completes a burst or is not
/// an allowed key; every other event is passed on and leaves the guard as it
/// was.
pub fn keyboard_hook_blocks_at(
    guard: &mut AccessibilityGuard,
    code: i32,
    w_param: usize,
    vk_code: u32,
    now: u128,
) -> (blocked: bool)
    ensures
        is_judged_key_event(code, w_param) ==> {
            &&& blocked == (press_blocks(old(guard)@, vk_code, now) || !spec_is_allowed_key(
                vk_code,
            ))
            &&& final(guard)@ == queue_after(old(guard)@, vk_code, now)
        },
        !is_judged_key_event(code, w_param) ==> !blocked && final(guard)@ == old(guard)@,
{
    if code == HC_ACTION {
        if w_param == WM_KEYDOWN || w_param == WM_SYSKEYDOWN {
            if record_key_press(guard, vk_code, now) {
                return true;
            }
            if !is_allowed_key(vk_code) {
                return true;
            }
        }
    }
    false
}

/// Decides, for a keyboard hook call, whether the event is swallowed, reading
/// the clock only for a press of Shift, Ctrl or Alt. Whatever the clock
/// reads, the outcome is that of `keyboard_hook_blocks_at` at some time.
pub fn keyboard_hook_blocks(guard: &mut AccessibilityGuard, code: i32, w_param: usize, vk_code: u32) -> (blocked: bool)
    ensures
        is_judged_key_event(code, w_param) ==> exists|now: u128|
            {
                &&& blocked == (press_blocks(old(guard)@, vk_code, now) || !spec_is_allowed_key(
                    vk_code,
                ))
                &&& final(guard)@ == queue_after(old(guard)@, vk_code, now)
            },
        is_judged_key_event(code, w_param) && !is_suspect_key(vk_code) ==> blocked
            == !spec_is_allowed_key(vk_code) && final(guard)@ == old(guard)@,
        !is_judged_key_event(code, w_param) ==> !blocked && final(guard)@ == old(guard)@,
{
    if code == HC_ACTION {
        if w_param == WM_KEYDOWN || w_param == WM_SYSKEYDOWN {
            if check_and_block_accessibility(guard, vk_code) {
                return true;
            }
            if !is_allowed_key(vk_code) {
                return true;
            }
        }
    }
    false
}

/// Times that never go back.
pub open spec fn nondecreasing(times: Seq<u128>) -> bool {
    forall|i: int, j: int| 0 <= i <= j < times.len() ==> times[i] <= times[j]
}

/// The queue after presses of `vk` at each of `times`, in order.
pub open spec fn queue_after_presses(queue: Seq<Press>, vk: u32, times: Seq<u128>) -> Seq<Press>
    decreases times.len(),
{
    if times.len() == 0 {
        queue
    } else {
        queue_after(queue_after_presses(queue, vk, times.drop_last()), vk, times.last())
    }
}

/// Whether one of the presses of `vk` at each of `times` is swallowed.
pub open spec fn some_press_blocks(queue: Seq<Press>, vk: u32, times: Seq<u128>) -> bool
    decreases times.len(),
{
    if times.len() == 0 {
        false
    } else {
        some_press_blocks(queue, vk, times.drop_last()) || press_blocks(
            queue_after_presses(queue, vk, times.drop_last()),
            vk,
            times.last(),
        )
    }
}

/// Pruning keeps every recorded press from the first one that has not
/// expired on: if the last `k` presses are still in the window, they stay.
proof fn lemma_prune_keeps_recent(queue: Seq<Press>, now: u128, k: int)
    requires
        0 <= k <= queue.len(),
        forall|i: int| queue.len() - k <= i < queue.len() ==> !is_expired(#[trigger] queue[i], now),
    ensures
        prune_expired(queue, now).len() >= k,
        forall|i: int|
            0 <= i < k ==> #[trigger] prune_expired(queue, now)[prune_expired(queue, now).len() - k + i]
                == queue[queue.len() - k + i],
    decreases queue.len(),
{
    if queue.len() > 0 && is_expired(queue[0], now) {
        assert(queue.len() - k > 0);
        let rest = queue.drop_first();
        assert forall|i: int| rest.len() - k <= i < rest.len() implies !is_expired(
            #[trigger] rest[i],
            now,
        ) by {
            assert(rest[i] == queue[i + 1]);
        }
        lemma_prune_keeps_recent(rest, now, k);
        assert forall|i: int| 0 <= i < k implies #[trigger] prune_expired(queue, now)[prune_expired(
            queue,
            now,
        ).len() - k + i] == queue[queue.len() - k + i] by {
            assert(rest[rest.len() - k + i] == queue[queue.len() - k + i]);
        }
    }
}

/// While none of a series of presses of one suspect key within the window is
/// swallowed, the queue ends with all of them.
proof fn lemma_unblocked_presses_accumulate(queue: Seq<Press>, vk: u32, times: Seq<u128>)
    requires
        is_suspect_key(vk),
        times.len() >= 1,
        nondecreasing(times),
        times.last() - times[0] <= REPEAT_WINDOW_NANOS,
        !some_press_blocks(queue, vk, times),
    ensures
        queue_after_presses(queue, vk, times).len() >= times.len(),
        forall|i: int|
            0 <= i < times.len() ==> #[trigger] queue_after_presses(queue, vk, times)[queue_after_presses(
                queue,
                vk,
                times,
            ).len() - times.len() + i] == (vk, times[i]),
    decreases times.len(),
{
    let prefix = times.drop_last();
    let t = times.last();
    let q = queue_after_presses(queue, vk, prefix);
    if prefix.len() == 0 {
        assert(after_press(q, vk, t).last() == (vk, t));
    } else {
        assert(prefix.last() == times[times.len() - 2]);
        lemma_unblocked_presses_accumulate(queue, vk, prefix);
        let m = prefix.len() as int;
        assert forall|i: int| q.len() - m <= i < q.len() implies !is_expired(#[trigger] q[i], t) by {
            let j = i - (q.len() - m);
            assert(q[q.len() - m + j] == (vk, prefix[j]));
            assert(prefix[j] == times[j]);
            assert(times[0] <= times[j] <= t);
        }
        lemma_prune_keeps_recent(q, t, m);
        let kept = prune_expired(q, t);
        assert(kept[kept.len() - m + (m - 1)] == q[q.len() - m + (m - 1)]);
        assert(kept.last() == (vk, prefix[m - 1]));
        let next = after_press(q, vk, t);
        assert(next == kept.push((vk, t)));
        assert forall|i: int| 0 <= i < times.len() implies #[trigger] next[next.len() - times.len() + i]
            == (vk, times[i]) by {
            if i < m {
                assert(kept[kept.len() - m + i] == q[q.len() - m + i]);
                assert(q[q.len() - m + i] == (vk, prefix[i]));
            }
        }
    }
}

/// Five presses of one Shift, Ctrl or Alt key within 400 ms, whatever the
/// guard recorded before them: at least one of them is swallowed, so the five
/// never all reach Windows.
pub proof fn lemma_rapid_burst_is_blocked(queue: Seq<Press>, vk: u32, times: Seq<u128>)
    requires
        is_suspect_key(vk),
        times.len() == REQUIRED_REPEATS,
        nondecreasing(times),
        times.last() - times[0] <= REPEAT_WINDOW_NANOS,
    ensures
        some_press_blocks(queue, vk, times),
{
    let prefix = times.drop_last();
    if !some_press_blocks(queue, vk, prefix) {
        assert(prefix.last() == times[3]);
        lemma_unblocked_presses_accumulate(queue, vk, prefix);
        let q = queue_after_presses(queue, vk, prefix);
        let t = times.last();
        assert forall|i: int| q.len() - 4 <= i < q.len() implies !is_expired(#[trigger] q[i], t) by {
            let j = i - (q.len() - 4);
            assert(q[q.len() - 4 + j] == (vk, prefix[j]));
            assert(prefix[j] == times[j]);
            assert(times[0] <= times[j] <= t);
        }
        lemma_prune_keeps_recent(q, t, 4);
        let kept = prune_expired(q, t);
        assert(kept[kept.len() - 4 + 3] == q[q.len() - 4 + 3]);
        assert(after_press(q, vk, t).len() >= 5);
    }
}

/// A press of a key other than the last recorded one is never swallowed as a
/// burst: it starts a new run of one.
pub proof fn lemma_new_key_starts_new_run(queue: Seq<Press>, vk: u32, now: u128)
    requires
        prune_expired(queue, now).len() == 0 || prune_expired(queue, now).last().0 != vk,
    ensures
        !press_blocks(queue, vk, now),
        is_suspect_key(vk) ==> queue_after(queue, vk, now) == seq![(vk, now)],
{
}

/// A swallowed press empties the queue, so the press after it starts afresh.
pub proof fn lemma_block_clears_queue(queue: Seq<Press>, vk: u32, now: u128)
    requires
        press_blocks(queue, vk, now),
    ensures
        queue_after(queue, vk, now) == Seq::<Press>::empty(),
{
}

/// Pruning keeps a suffix of the queue.
proof fn lemma_prune_is_suffix(queue: Seq<Press>, now: u128)
    ensures
        prune_expired(queue, now).len() <= queue.len(),
        forall|i: int|
            0 <= i < prune_expired(queue, now).len() ==> #[trigger] prune_expired(queue, now)[i]
                == queue[queue.len() - prune_expired(queue, now).len() + i],
    decreases queue.len(),
{
    if queue.len() > 0 && is_expired(queue[0], now) {
        lemma_prune_is_suffix(queue.drop_first(), now);
    }
}

/// What pruning keeps starts with a press that has not expired.
proof fn lemma_prune_front_is_recent(queue: Seq<Press>, now: u128)
    ensures
        prune_expired(queue, now).len() > 0 ==> !is_expired(prune_expired(queue, now)[0], now),
    decreases queue.len(),
{
    if queue.len() > 0 && is_expired(queue[0], now) {
        lemma_prune_front_is_recent(queue.drop_first(), now);
    }
}

/// Press times of a series of calls that never go back.
pub open spec fn presses_in_time_order(history: Seq<Press>) -> bool {
    forall|i: int, j: int| 0 <= i <= j < history.len() ==> history[i].1 <= history[j].1
}

/// The queue of a guard that started empty and then judged every press of
/// `history`, in order.
pub open spec fn history_queue(history: Seq<Press>) -> Seq<Press>
    decreases history.len(),
{
    if history.len() == 0 {
        Seq::empty()
    } else {
        queue_after(history_queue(history.drop_last()), history.last().0, history.last().1)
    }
}

/// Whether the press at position `n` of `history` was swallowed as part of
/// a burst.
pub open spec fn history_blocks(history: Seq<Press>, n: int) -> bool {
    press_blocks(history_queue(history.take(n)), history[n].0, history[n].1)
}

/// Positions of the Shift, Ctrl and Alt presses among the first `m` presses
/// of `history`, in order.
pub open spec fn suspect_positions(history: Seq<Press>, m: nat) -> Seq<int>
    decreases m,
{
    if m == 0 {
        Seq::empty()
    } else if is_suspect_key(history[m - 1].0) {
        suspect_positions(history, (m - 1) as nat).push(m - 1)
    } else {
        suspect_positions(history, (m - 1) as nat)
    }
}

/// The last `j` Shift, Ctrl or Alt presses among `positions` were let
/// through, repeat the key of the last one, and lie within the window of it.
pub open spec fn recent_run(history: Seq<Press>, positions: Seq<int>, j: int) -> bool {
    &&& forall|k: int|
        positions.len() - j <= k < positions.len() ==> !history_blocks(
            history,
            #[trigger] positions[k],
        ) && history[positions[k]].0 == history[positions.last()].0
    &&& elapsed(history[positions.last()].1, history[positions[positions.len() - j]].1)
        <= REPEAT_WINDOW_NANOS
}

/// The press at position `n` is Shift, Ctrl or Alt, and the four latest such
/// presses before it exist, are of its key, were let through, and the oldest
/// of them lies at most 400 ms before it.
pub open spec fn burst_completed(history: Seq<Press>, n: int) -> bool {
    let positions = suspect_positions(history, n as nat);
    &&& is_suspect_key(history[n].0)
    &&& positions.len() >= REQUIRED_REPEATS - 1
    &&& forall|k: int|
        positions.len() - (REQUIRED_REPEATS - 1) <= k < positions.len() ==> history[#[trigger] positions[k]].0
            == history[n].0 && !history_blocks(history, positions[k])
    &&& elapsed(history[n].1, history[positions[positions.len() - (REQUIRED_REPEATS - 1)]].1)
        <= REPEAT_WINDOW_NANOS
}

/// The queue holds the latest of `positions`, in order, each let through.
pub open spec fn queue_is_latest(history: Seq<Press>, queue: Seq<Press>, positions: Seq<int>) -> bool {
    forall|k: int|
        0 <= k < queue.len() ==> #[trigger] queue[k] == history[positions[positions.len() - queue.len()
            + k]] && !history_blocks(history, positions[positions.len() - queue.len() + k])
}

proof fn lemma_suspect_positions(history: Seq<Press>, m: nat)
    requires
        m <= history.len(),
    ensures
        forall|k: int|
            0 <= k < suspect_positions(history, m).len() ==> 0 <= #[trigger] suspect_positions(
                history,
                m,
            )[k] < m && is_suspect_key(history[suspect_positions(history, m)[k]].0),
        forall|k1: int, k2: int|
            0 <= k1 < k2 < suspect_positions(history, m).len() ==> #[trigger] suspect_positions(
                history,
                m,
            )[k1] < #[trigger] suspect_positions(history, m)[k2],
    decreases m,
{
    if m > 0 {
        let p = (m - 1) as nat;
        lemma_suspect_positions(history, p);
        let prev = suspect_positions(history, p);
        let cur = suspect_positions(history, m);
        if is_suspect_key(history[p as int].0) {
            assert(cur == prev.push(p as int));
            assert forall|k: int| 0 <= k < cur.len() implies 0 <= #[trigger] cur[k] < m
                && is_suspect_key(history[cur[k]].0) by {
                if k < prev.len() {
                    assert(cur[k] == prev[k]);
                }
            }
            assert forall|k1: int, k2: int| 0 <= k1 < k2 < cur.len() implies #[trigger] cur[k1]
                < #[trigger] cur[k2] by {
                assert(cur[k1] == prev[k1]);
                if k2 < prev.len() {
                    assert(cur[k2] == prev[k2]);
                }
            }
        } else {
            assert(cur == prev);
        }
    }
}

/// The queue after the first `m` presses is one short run of Shift, Ctrl or
/// Alt presses, the latest such presses, each let through.
pub open spec fn shape_at(history: Seq<Press>, m: nat) -> bool {
    &&& queue_well_formed(history_queue(history.take(m as int)))
    &&& history_queue(history.take(m as int)).len() <= suspect_positions(history, m).len()
    &&& queue_is_latest(history, history_queue(history.take(m as int)), suspect_positions(history, m))
}

/// The queue after the first `m` presses holds every recent run.
pub open spec fn runs_at(history: Seq<Press>, m: nat) -> bool {
    forall|j: int|
        1 <= j <= suspect_positions(history, m).len() && #[trigger] recent_run(
            history,
            suspect_positions(history, m),
            j,
        ) ==> history_queue(history.take(m as int)).len() >= j
}

/// How the queue and the positions move by one press.
proof fn lemma_step_facts(history: Seq<Press>, p: nat)
    requires
        p < history.len(),
    ensures
        history_queue(history.take(p + 1int)) == queue_after(
            history_queue(history.take(p as int)),
            history[p as int].0,
            history[p as int].1,
        ),
        history_blocks(history, p as int) == press_blocks(
            history_queue(history.take(p as int)),
            history[p as int].0,
            history[p as int].1,
        ),
        is_suspect_key(history[p as int].0) ==> suspect_positions(history, p + 1)
            == suspect_positions(history, p).push(p as int),
        !is_suspect_key(history[p as int].0) ==> suspect_positions(history, p + 1)
            == suspect_positions(history, p),
{
    assert(history.take(p + 1int).drop_last() =~= history.take(p as int));
}

#[verifier::rlimit(40)]
proof fn lemma_step_shape(history: Seq<Press>, p: nat)
    requires
        p < history.len(),
        shape_at(history, p),
    ensures
        shape_at(history, p + 1),
{
    lemma_step_facts(history, p);
    let m = p + 1;
    let q = history_queue(history.take(p as int));
    let s = suspect_positions(history, p);
    let vk = history[p as int].0;
    let t = history[p as int].1;
    let q2 = history_queue(history.take(m as int));
    let s2 = suspect_positions(history, m);
    if !is_suspect_key(vk) || press_blocks(q, vk, t) {
        return;
    }
    lemma_prune_is_suffix(q, t);
    let kept = prune_expired(q, t);
    assert(q2 == after_press(q, vk, t));
    if kept.len() > 0 && kept.last().0 == vk {
        assert(q2 == kept.push((vk, t)));
        assert forall|i: int, j: int|
            0 <= i < q2.len() && 0 <= j < q2.len() implies #[trigger] q2[i].0 == #[trigger] q2[j].0 by {
            if i < kept.len() {
                assert(kept[i] == q[q.len() - kept.len() + i]);
                assert(kept[kept.len() - 1] == q[q.len() - kept.len() + kept.len() - 1]);
            }
            if j < kept.len() {
                assert(kept[j] == q[q.len() - kept.len() + j]);
                assert(kept[kept.len() - 1] == q[q.len() - kept.len() + kept.len() - 1]);
            }
        }
        assert forall|i: int| 0 <= i < q2.len() implies is_suspect_key(#[trigger] q2[i].0) by {
            if i < kept.len() {
                assert(kept[i] == q[q.len() - kept.len() + i]);
            }
        }
        assert forall|k: int| 0 <= k < q2.len() implies #[trigger] q2[k] == history[s2[s2.len()
            - q2.len() + k]] && !history_blocks(history, s2[s2.len() - q2.len() + k]) by {
            if k < kept.len() {
                assert(kept[k] == q[q.len() - kept.len() + k]);
                assert(s2[s2.len() - q2.len() + k] == s[s.len() - q.len() + (q.len() - kept.len()
                    + k)]);
            } else {
                assert(s2[s2.len() - q2.len() + k] == p);
            }
        }
    } else {
        assert(q2 =~= seq![(vk, t)]);
        assert(s2[s2.len() - 1] == p);
    }
}

#[verifier::rlimit(40)]
proof fn lemma_step_runs(history: Seq<Press>, p: nat)
    requires
        p < history.len(),
        presses_in_time_order(history),
        shape_at(history, p),
        runs_at(history, p),
    ensures
        runs_at(history, p + 1),
{
    lemma_step_facts(history, p);
    lemma_suspect_positions(history, p);
    let m = p + 1;
    let q = history_queue(history.take(p as int));
    let s = suspect_positions(history, p);
    let vk = history[p as int].0;
    let t = history[p as int].1;
    let q2 = history_queue(history.take(m as int));
    let s2 = suspect_positions(history, m);
    if !is_suspect_key(vk) {
        return;
    }
    if press_blocks(q, vk, t) {
        assert forall|j: int| 1 <= j <= s2.len() && #[trigger] recent_run(history, s2, j) implies q2.len()
            >= j by {
            assert(!history_blocks(history, s2[s2.len() - 1]));
        }
        return;
    }
    let kept = prune_expired(q, t);
    assert(q2 == after_press(q, vk, t));
    assert forall|j: int| 1 <= j <= s2.len() && #[trigger] recent_run(history, s2, j) implies q2.len()
        >= j by {
        if j >= 2 {
            assert(s2.last() == p);
            assert forall|k: int| s.len() - (j - 1) <= k < s.len() implies !history_blocks(
                history,
                #[trigger] s[k],
            ) && history[s[k]].0 == history[s.last()].0 by {
                assert(s[k] == s2[k]);
                assert(s.last() == s2[s2.len() - 2]);
            }
            assert(s[s.len() - (j - 1)] == s2[s2.len() - j]);
            assert(history[s.last()].1 <= t);
            assert(recent_run(history, s, j - 1));
            assert(q.len() >= j - 1);
            let m1 = j - 1;
            assert forall|i: int| q.len() - m1 <= i < q.len() implies !is_expired(#[trigger] q[i], t) by {
                let k = s.len() - q.len() + i;
                assert(q[i] == history[s[k]]);
                assert(s2[s2.len() - j] <= s[k]);
                assert(history[s2[s2.len() - j]].1 <= history[s[k]].1);
            }
            lemma_prune_keeps_recent(q, t, m1);
            assert(kept[kept.len() - m1 + (m1 - 1)] == q[q.len() - m1 + (m1 - 1)]);
            assert(q[q.len() - 1] == history[s[s.len() - 1]]);
            assert(kept.last().0 == vk);
        }
    }
}

/// The queue after a history: the latest Shift, Ctrl and Alt presses, all
/// let through, one run of one key; and it holds every such recent run.
proof fn lemma_history_shape(history: Seq<Press>, m: nat)
    requires
        m <= history.len(),
        presses_in_time_order(history),
    ensures
        shape_at(history, m),
        runs_at(history, m),
    decreases m,
{
    if m == 0 {
        assert(history.take(0) =~= Seq::<Press>::empty());
        return;
    }
    let p = (m - 1) as nat;
    lemma_history_shape(history, p);
    lemma_step_shape(history, p);
    lemma_step_runs(history, p);
}

/// A press is swallowed as part of a burst exactly when it is Shift, Ctrl or
/// Alt and the four latest Shift, Ctrl or Alt presses before it were of the
/// same key, were let through, and the oldest of them lies at most 400 ms
/// before it (for a guard that started empty and presses in time order).
pub proof fn lemma_burst_blocked_iff(history: Seq<Press>, n: int)
    requires
        0 <= n < history.len(),
        presses_in_time_order(history),
    ensures
        history_blocks(history, n) == burst_completed(history, n),
{
    lemma_history_shape(history, n as nat);
    lemma_suspect_positions(history, n as nat);
    let q = history_queue(history.take(n));
    let s = suspect_positions(history, n as nat);
    let vk = history[n].0;
    let t = history[n].1;
    lemma_prune_is_suffix(q, t);
    lemma_prune_front_is_recent(q, t);
    let kept = prune_expired(q, t);
    if history_blocks(history, n) {
        assert(kept.len() > 0 && kept.last().0 == vk);
        assert(kept.len() == 4);
        assert(q.len() == 4);
        assert forall|k: int| s.len() - 4 <= k < s.len() implies history[#[trigger] s[k]].0 == vk
            && !history_blocks(history, s[k]) by {
            let i = k - (s.len() - 4);
            assert(q[i] == history[s[s.len() - q.len() + i]]);
            assert(kept[i] == q[i]);
            assert(kept[3] == q[3]);
        }
        assert(kept[0] == q[0]);
        assert(q[0] == history[s[s.len() - 4]]);
    }
    if burst_completed(history, n) {
        assert(s.last() < n);
        assert forall|k: int| s.len() - 4 <= k < s.len() implies !history_blocks(
            history,
            #[trigger] s[k],
        ) && history[s[k]].0 == history[s.last()].0 by {}
        assert(history[s.last()].1 <= t);
        assert(recent_run(history, s, 4));
        assert(q.len() == 4);
        assert forall|i: int| q.len() - 4 <= i < q.len() implies !is_expired(#[trigger] q[i], t) by {
            let k = s.len() - 4 + i;
            assert(q[i] == history[s[k]]);
            assert(s[s.len() - 4] <= s[k]);
            assert(history[s[s.len() - 4]].1 <= history[s[k]].1);
            assert(s[k] < n);
        }
        lemma_prune_keeps_recent(q, t, 4);
        assert(kept[kept.len() - 4 + 3] == q[q.len() - 4 + 3]);
        assert(q[3] == history[s[s.len() - 1]]);
        assert(after_press(q, vk, t).len() >= 5);
    }
}

/// Between calls, a guard that started empty and judged presses in time
/// order holds at most four Shift, Ctrl or Alt presses, all of one key, in
/// time order.
pub proof fn lemma_history_queue_invariant(history: Seq<Press>)
    requires
        presses_in_time_order(history),
    ensures
        queue_well_formed(history_queue(history)),
        forall|i: int, j: int|
            0 <= i <= j < history_queue(history).len() ==> history_queue(history)[i].1
                <= history_queue(history)[j].1,
{
    let m = history.len();
    lemma_history_shape(history, m);
    lemma_suspect_positions(history, m);
    assert(history.take(m as int) =~= history);
    let q = history_queue(history);
    let s = suspect_positions(history, m);
    assert forall|i: int, j: int| 0 <= i <= j < q.len() implies q[i].1 <= q[j].1 by {
        assert(q[i] == history[s[s.len() - q.len() + i]]);
        assert(q[j] == history[s[s.len() - q.len() + j]]);
        if i < j {
            assert(s[s.len() - q.len() + i] < s[s.len() - q.len() + j]);
        }
    }
}

/// The keys the guard lets through are exactly the password-typing keys:
/// Backspace (0x08), Enter (0x0D), Space (0x20), Delete (0x2E), '.' (0xBE),
/// Esc (0x1B), Caps Lock (0x14), the digits 0x30..=0x39 and the letters
/// 0x41..=0x5A. In particular the navigation and editing keys between Space
/// and Delete (Page Up, Page Down, End, Home, the arrows, Select, Print,
/// Execute, Print Screen, Insert), Tab, the Windows keys, the function keys
/// and the modifiers are swallowed.
pub proof fn lemma_allowed_keys_are_typing_keys(vk: u32)
    ensures
        spec_is_allowed_key(vk) <==> {
            ||| vk == 0x08
            ||| vk == 0x0D
            ||| vk == 0x14
            ||| vk == 0x1B
            ||| vk == 0x20
            ||| vk == 0x2E
            ||| vk == 0xBE
            ||| 0x30 <= vk && vk <= 0x39
            ||| 0x41 <= vk && vk <= 0x5A
        },
        0x21 <= vk && vk <= 0x2D ==> !spec_is_allowed_key(vk),
        vk == 0x09 || vk == 0x5B || vk == 0x5C || (0x70 <= vk && vk <= 0x87) || (0xA0 <= vk && vk
            <= 0xA5) ==> !spec_is_allowed_key(vk),
{
}

/// A judged press of a key that is not a password-typing key is swallowed,
/// whatever the guard holds and whatever the time; a judged press of a
/// typing key is swallowed only as part of a burst, and typing keys are
/// never part of one.
pub proof fn lemma_hook_swallows_non_typing_keys(queue: Seq<Press>, code: i32, w_param: usize, vk: u32, now: u128)
    requires
        code == 0,
        w_param == 0x100 || w_param == 0x104,
    ensures
        is_judged_key_event(code, w_param),
        0x21 <= vk && vk <= 0x2D ==> (press_blocks(queue, vk, now) || !spec_is_allowed_key(vk)),
        (0x41 <= vk && vk <= 0x5A) || (0x30 <= vk && vk <= 0x39) ==> !(press_blocks(queue, vk, now)
            || !spec_is_allowed_key(vk)),
{
}

} // verus!
