//! The mathematical model of a channel: its state in whole timer ticks, and
//! the transitions that configuration calls and timer ticks apply to it.
use vstd::prelude::*;

use crate::channel::{FREQUENCY_DIFFERENCE_REQUIRED, MAX_DUTY_CYCLE};
use crate::{ChannelId, SpwmError, SpwmState};

verus! {

/// The observable timing state of one channel.
#[derive(Clone, Copy, Debug, PartialEq, Eq, Structural)]
pub struct ChannelState {
    /// Timer ticks in one PWM period.
    pub period_ticks: u32,
    /// Ticks of the current period during which the output is on.
    pub on_ticks: u32,
    /// On-time that takes effect at the next period boundary.
    pub pending_on_ticks: u32,
    /// Ticks elapsed since the last period boundary.
    pub counter: u32,
    /// Whether timer ticks advance this channel.
    pub enabled: bool,
}

/// What one timer tick reports for one enabled channel.
#[derive(Clone, Copy, Debug, PartialEq, Eq, Structural)]
pub struct TickOutcome {
    /// The tick was the last of a period: the period callback fires.
    pub period_elapsed: bool,
    /// The output edge reported through the on/off callback, if any.
    pub output: Option<SpwmState>,
}

/// A channel frequency is accepted when it is positive and the timer runs at
/// least a hundred times faster.
pub open spec fn frequency_accepted(freq_hz: u32, hardware_freq_hz: u32) -> bool {
    freq_hz > 0 && freq_hz * FREQUENCY_DIFFERENCE_REQUIRED <= hardware_freq_hz
}

/// A duty cycle is accepted when it is a percentage.
pub open spec fn duty_cycle_accepted(duty_cycle: u8) -> bool {
    duty_cycle <= MAX_DUTY_CYCLE
}

/// Timer ticks in one period of a channel running at `freq_hz`.
pub open spec fn period_ticks_for(freq_hz: u32, hardware_freq_hz: u32) -> u32
    recommends
        freq_hz > 0,
{
    (hardware_freq_hz / freq_hz) as u32
}

/// On-time in ticks for a duty cycle in percent, truncated to whole percent steps.
pub open spec fn on_ticks_for(period_ticks: u32, duty_cycle: u8) -> u32
    recommends
        duty_cycle <= MAX_DUTY_CYCLE,
{
    (period_ticks / 100 * duty_cycle) as u32
}

/// The state after a new period length is stored.
pub open spec fn with_period(s: ChannelState, period_ticks: u32) -> ChannelState {
    ChannelState { period_ticks, ..s }
}

/// The state after a new on-time is requested: staged while enabled, applied
/// at once while disabled.
pub open spec fn with_on_ticks(s: ChannelState, on_ticks: u32) -> ChannelState {
    if s.enabled {
        ChannelState { pending_on_ticks: on_ticks, ..s }
    } else {
        ChannelState { on_ticks, pending_on_ticks: on_ticks, ..s }
    }
}

/// The state after an accepted duty-cycle update.
pub open spec fn with_duty_cycle(s: ChannelState, duty_cycle: u8) -> ChannelState {
    with_on_ticks(s, on_ticks_for(s.period_ticks, duty_cycle))
}

/// What `enable` returns: it fails when the channel already runs.
pub open spec fn enable_result(s: ChannelState) -> Result<(), SpwmError> {
    if s.enabled {
        Err(SpwmError::AlreadyEnabled)
    } else {
        Ok(())
    }
}

/// The state after `enable`: enabled, with everything else kept.
pub open spec fn after_enable(s: ChannelState) -> ChannelState {
    ChannelState { enabled: true, ..s }
}

/// What `disable` returns: it fails when the channel is already stopped.
pub open spec fn disable_result(s: ChannelState) -> Result<(), SpwmError> {
    if s.enabled {
        Ok(())
    } else {
        Err(SpwmError::AlreadyDisabled)
    }
}

/// The state after `disable`: a running channel stops and its counter
/// restarts; a stopped one is left as it is.
pub open spec fn after_disable(s: ChannelState) -> ChannelState {
    if s.enabled {
        ChannelState { enabled: false, counter: 0, ..s }
    } else {
        s
    }
}

/// The tick that starts from `s` is the last tick of its period.
pub open spec fn is_period_boundary(s: ChannelState) -> bool {
    s.counter + 1 >= s.period_ticks
}

/// The state after one timer tick: at a period boundary the counter restarts
/// and the staged on-time takes effect; otherwise the counter advances.
pub open spec fn tick_state(s: ChannelState) -> ChannelState {
    if is_period_boundary(s) {
        ChannelState { counter: 0, on_ticks: s.pending_on_ticks, ..s }
    } else {
        ChannelState { counter: (s.counter + 1) as u32, ..s }
    }
}

/// What one timer tick reports: a completed period, followed by "on" when
/// the next period has a non-zero on-time; or "off" on the tick where the
/// on-time of the current period ends; or nothing.
pub open spec fn tick_outcome(s: ChannelState) -> TickOutcome {
    if is_period_boundary(s) {
        TickOutcome {
            period_elapsed: true,
            output: if s.pending_on_ticks != 0 {
                Some(SpwmState::On)
            } else {
                None
            },
        }
    } else if s.counter == s.on_ticks {
        TickOutcome { period_elapsed: false, output: Some(SpwmState::Off) }
    } else {
        TickOutcome { period_elapsed: false, output: None }
    }
}

/// The first empty slot at index `i` or later.
pub open spec fn first_free_slot_from<T>(slots: Seq<Option<T>>, i: nat) -> Option<nat>
    decreases slots.len() - i,
{
    if i >= slots.len() {
        None
    } else if slots[i as int] is None {
        Some(i)
    } else {
        first_free_slot_from(slots, i + 1)
    }
}

/// The first empty slot, if any.
pub open spec fn first_free_slot<T>(slots: Seq<Option<T>>) -> Option<nat> {
    first_free_slot_from(slots, 0)
}

/// The slots after registering `channel`: it takes the first empty slot;
/// when every slot is taken nothing changes.
pub open spec fn register_slots<T>(slots: Seq<Option<T>>, channel: T) -> Seq<Option<T>> {
    match first_free_slot(slots) {
        Some(i) => slots.update(i as int, Some(channel)),
        None => slots,
    }
}

/// What a registration returns: the index of the slot taken, or
/// `NoChannelSlotAvailable` when every slot is taken.
pub open spec fn register_result<T>(slots: Seq<Option<T>>) -> Result<ChannelId, SpwmError> {
    match first_free_slot(slots) {
        Some(i) => Ok(i as ChannelId),
        None => Err(SpwmError::NoChannelSlotAvailable),
    }
}

} // verus!
