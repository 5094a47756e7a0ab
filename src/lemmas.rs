//! Facts about the channel model and slot registration that hold across
//! several calls.
use vstd::prelude::*;

use crate::model::{
    after_disable, after_enable, disable_result, enable_result, first_free_slot,
    first_free_slot_from, is_period_boundary, on_ticks_for, register_result, register_slots,
    tick_outcome, tick_state, with_duty_cycle, ChannelState,
};
use crate::{ChannelId, SpwmError};

verus! {

/// Enabling twice in a row: a stopped channel accepts the first call and
/// refuses the second with `AlreadyEnabled`; whatever the state, a call that
/// directly follows another `enable` is refused and changes nothing.
pub proof fn lemma_enable_twice(s: ChannelState)
    ensures
        !s.enabled ==> enable_result(s) == Ok::<(), SpwmError>(()),
        enable_result(after_enable(s)) == Err::<(), SpwmError>(SpwmError::AlreadyEnabled),
        after_enable(after_enable(s)) == after_enable(s),
{
}

/// Disabling twice in a row: a running channel accepts the first call and
/// refuses the second with `AlreadyDisabled`; whatever the state, a call that
/// directly follows another `disable` is refused and changes nothing.
pub proof fn lemma_disable_twice(s: ChannelState)
    ensures
        s.enabled ==> disable_result(s) == Ok::<(), SpwmError>(()),
        disable_result(after_disable(s)) == Err::<(), SpwmError>(SpwmError::AlreadyDisabled),
        after_disable(after_disable(s)) == after_disable(s),
{
}

/// The slots and the results after registering `channels` one by one.
pub open spec fn register_all<T>(slots: Seq<Option<T>>, channels: Seq<T>) -> (Seq<Option<T>>, Seq<Result<ChannelId, SpwmError>>)
    decreases channels.len(),
{
    if channels.len() == 0 {
        (slots, Seq::empty())
    } else {
        let (before, results) = register_all(slots, channels.drop_last());
        (register_slots(before, channels.last()), results.push(register_result(before)))
    }
}

/// With every slot before `m` taken and slot `m` empty (or `m` past the
/// end), the first empty slot is `m` (or there is none).
proof fn lemma_first_free_slot_at<T>(slots: Seq<Option<T>>, m: nat)
    requires
        m <= slots.len(),
        forall|j: int| 0 <= j < m ==> slots[j] is Some,
        m < slots.len() ==> slots[m as int] is None,
    ensures
        first_free_slot(slots) == (if m < slots.len() { Some(m) } else { None::<nat> }),
{
    lemma_first_free_slot_from_skips(slots, m, m);
}

/// Slots that are taken are skipped in the search for an empty one.
proof fn lemma_first_free_slot_from_skips<T>(slots: Seq<Option<T>>, m: nat, i: nat)
    requires
        i <= m <= slots.len(),
        forall|j: int| 0 <= j < m ==> slots[j] is Some,
        m < slots.len() ==> slots[m as int] is None,
    ensures
        first_free_slot_from(slots, (m - i) as nat) == (if m < slots.len() { Some(m) } else { None::<nat> }),
    decreases i,
{
    if i > 0 {
        lemma_first_free_slot_from_skips(slots, m, (i - 1) as nat);
    }
}

/// The first `m` channels of `channels` registered into `n` empty slots.
proof fn lemma_register_prefix<T>(n: nat, channels: Seq<T>, m: nat)
    requires
        n <= usize::MAX,
        m <= n,
        m <= channels.len(),
    ensures
        register_all(Seq::new(n, |i: int| None::<T>), channels.take(m as int)).0
            == Seq::new(n, |i: int| if i < m { Some(channels[i]) } else { None::<T> }),
        register_all(Seq::new(n, |i: int| None::<T>), channels.take(m as int)).1
            == Seq::new(m, |k: int| Ok::<ChannelId, SpwmError>(k as ChannelId)),
    decreases m,
{
    let empty = Seq::new(n, |i: int| None::<T>);
    if m == 0 {
        assert(register_all(empty, channels.take(0)).0 =~= Seq::new(n, |i: int| if i < 0 { Some(channels[i]) } else { None::<T> }));
        assert(register_all(empty, channels.take(0)).1 =~= Seq::new(0, |k: int| Ok::<ChannelId, SpwmError>(k as ChannelId)));
    } else {
        let k = (m - 1) as nat;
        lemma_register_prefix(n, channels, k);
        assert(channels.take(m as int).drop_last() =~= channels.take(k as int));
        let before = Seq::new(n, |i: int| if i < k { Some(channels[i]) } else { None::<T> });
        lemma_first_free_slot_at(before, k);
        assert(register_all(empty, channels.take(m as int)).0 =~= Seq::new(n, |i: int| if i < m { Some(channels[i]) } else { None::<T> }));
        assert(register_all(empty, channels.take(m as int)).1 =~= Seq::new(m, |j: int| Ok::<ChannelId, SpwmError>(j as ChannelId)));
    }
}

/// Registering one channel more than there are slots: starting from `n`
/// empty slots, the first `n` registrations take slots `0` to `n - 1` in
/// order, the next one fails with `NoChannelSlotAvailable`, and each earlier
/// channel stays in the slot whose index it was given.
pub proof fn lemma_register_beyond_capacity<T>(n: nat, channels: Seq<T>)
    requires
        n <= usize::MAX,
        channels.len() == n + 1,
    ensures
        ({
            let (slots, results) = register_all(Seq::new(n, |i: int| None::<T>), channels);
            &&& results.len() == n + 1
            &&& forall|k: int| 0 <= k < n ==> #[trigger] results[k] == Ok::<ChannelId, SpwmError>(k as ChannelId)
            &&& results[n as int] == Err::<ChannelId, SpwmError>(SpwmError::NoChannelSlotAvailable)
            &&& slots.len() == n
            &&& forall|k: int| 0 <= k < n ==> #[trigger] slots[k] == Some(channels[k])
        }),
{
    lemma_register_prefix(n, channels, n);
    assert(channels.drop_last() =~= channels.take(n as int));
    let full = Seq::new(n, |i: int| if i < n { Some(channels[i]) } else { None::<T> });
    lemma_first_free_slot_at(full, n);
}

/// The state after `k` timer ticks.
pub open spec fn ticks(s: ChannelState, k: nat) -> ChannelState
    decreases k,
{
    if k == 0 {
        s
    } else {
        tick_state(ticks(s, (k - 1) as nat))
    }
}

/// How many ticks it takes until the current period is over, the boundary
/// tick included.
pub open spec fn ticks_to_boundary(s: ChannelState) -> nat {
    if is_period_boundary(s) {
        1
    } else {
        (s.period_ticks - s.counter) as nat
    }
}

/// Within a period only the counter moves; the boundary tick restarts the
/// counter and applies the staged on-time.
proof fn lemma_ticks_within_period(s: ChannelState, k: nat)
    requires
        s.period_ticks > 0,
        k <= ticks_to_boundary(s),
    ensures
        k < ticks_to_boundary(s) ==> ticks(s, k) == (ChannelState { counter: (s.counter + k) as u32, ..s }),
        k < ticks_to_boundary(s) ==> (is_period_boundary(ticks(s, k)) <==> k + 1 == ticks_to_boundary(s)),
        k == ticks_to_boundary(s) ==> ticks(s, k) == (ChannelState { counter: 0, on_ticks: s.pending_on_ticks, ..s }),
    decreases k,
{
    if k > 0 {
        lemma_ticks_within_period(s, (k - 1) as nat);
    }
}

/// A duty-cycle change on a running channel does not touch the period in
/// flight: until the period's last tick the channel steps and reports
/// exactly as it would have without the change, with the old on-time; the
/// new on-time is in force from the first tick after that boundary.
pub proof fn lemma_duty_change_waits_for_boundary(s: ChannelState, duty_cycle: u8, k: nat)
    requires
        s.enabled,
        s.period_ticks > 0,
        duty_cycle <= 100,
        k <= ticks_to_boundary(s),
    ensures
        ({
            let changed = with_duty_cycle(s, duty_cycle);
            &&& k < ticks_to_boundary(s) ==> ticks(changed, k).on_ticks == ticks(s, k).on_ticks == s.on_ticks
            &&& k < ticks_to_boundary(s) ==> ticks(changed, k).counter == ticks(s, k).counter
            &&& k + 1 < ticks_to_boundary(s) ==> tick_outcome(ticks(changed, k)) == tick_outcome(ticks(s, k))
            &&& k + 1 == ticks_to_boundary(s) ==> tick_outcome(ticks(changed, k)).period_elapsed
            &&& k == ticks_to_boundary(s) ==> ticks(changed, k).on_ticks == on_ticks_for(s.period_ticks, duty_cycle)
        }),
{
    let changed = with_duty_cycle(s, duty_cycle);
    assert(ticks_to_boundary(changed) == ticks_to_boundary(s));
    lemma_ticks_within_period(s, k);
    lemma_ticks_within_period(changed, k);
}

} // verus!
