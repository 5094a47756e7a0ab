//! Software pulse-width modulation driven by a single periodic timer tick.
//!
//! A [`Spwm`] manager owns a fixed number of channel slots. Each registered
//! [`SpwmChannel`] keeps its period, on-time and tick counter in whole timer
//! ticks; [`Spwm::irq_handler`] advances every enabled channel by one tick and
//! reports output edges and completed periods through the channel's callbacks.
use vstd::prelude::*;

mod channel;
pub mod lemmas;
pub mod model;

pub use channel::{
    SpwmChannel, SpwmChannelBuilder, SpwmChannelDutyCycleBuildState,
    SpwmChannelFinalizedBuildState, SpwmChannelFreqHzBuildState, FREQUENCY_DIFFERENCE_REQUIRED,
    MAX_DUTY_CYCLE,
};
pub use channel::{on_off_callable, outcome_reported, period_callable};
pub use model::{ChannelState, TickOutcome};

use model::{first_free_slot, first_free_slot_from, register_result, register_slots, tick_outcome, tick_state};

verus! {

/// Represents the output state of a PWM channel.
#[derive(Clone, Copy, Debug, PartialEq, Eq, Structural)]
pub enum SpwmState {
    /// Output is in the "on" (high) state
    On,
    /// Output is in the "off" (low) state
    Off,
}

/// Errors that can occur during SPWM operations.
#[derive(Clone, Copy, Debug, PartialEq, Eq, Structural)]
pub enum SpwmError {
    /// The specified hardware timer frequency is not valid
    InvalidHardwareFrequency,
    /// The specified channel index is out of range
    InvalidChannel,
    /// The requested frequency is too high for the configured hardware timer frequency
    InvalidFrequency,
    /// The duty cycle value is greater than 100
    InvalidDutyCycle,
    /// Failed to set a callback (already set or required callback missing)
    CallbackSetError,
    /// A PWM channel already enabled
    AlreadyEnabled,
    /// A PWM channel enable operation lost a race with another caller.
    /// `enable` takes the channel by `&mut`, so no other caller can change it
    /// in between and this is never returned.
    EnableFailed,
    /// A PWM channel already disabled
    AlreadyDisabled,
    /// A PWM channel disable operation lost a race with another caller.
    /// `disable` takes the channel by `&mut`, so no other caller can change it
    /// in between and this is never returned.
    DisableFailed,
    /// No free channel slots available for registration
    NoChannelSlotAvailable,
}

/// Callback invoked when a channel's output state changes.
pub type OnOffCallback = fn(&SpwmState);

/// Callback invoked at the end of each PWM period.
pub type PeriodCallback = fn();

/// Unique identifier for a registered channel: the index of its slot.
pub type ChannelId = usize;

/// One tick of the dispatcher as seen from one slot: an empty slot stays
/// empty; a stopped channel is left as it was; a running channel advances by
/// one tick and the callbacks that the tick makes due are called.
pub open spec fn slot_ticked<F: Fn(&SpwmState), P: Fn()>(
    before: Option<SpwmChannel<F, P>>,
    after: Option<SpwmChannel<F, P>>,
) -> bool {
    match before {
        None => after is None,
        Some(c) => after matches Some(d) && {
            &&& d.spec_on_off_callback() == c.spec_on_off_callback()
            &&& d.spec_period_callback() == c.spec_period_callback()
            &&& if c@.enabled {
                d@ == tick_state(c@) && outcome_reported(c, tick_outcome(c@))
            } else {
                d@ == c@
            }
        },
    }
}

/// Software PWM manager: a fixed number `N` of channel slots driven by one
/// hardware timer running at a known frequency.
///
/// A channel's identifier is the index of its slot. Channels are registered
/// once and stay for the manager's lifetime.
pub struct Spwm<const N: usize, F: Fn(&SpwmState), P: Fn()> {
    channel_slots: Vec<Option<SpwmChannel<F, P>>>,
    freq_hz: u32,
}

impl<const N: usize, F: Fn(&SpwmState), P: Fn()> Spwm<N, F, P> {
    /// The slots, in identifier order.
    pub closed spec fn slots(&self) -> Seq<Option<SpwmChannel<F, P>>> {
        self.channel_slots@
    }

    /// The hardware timer frequency in Hz.
    pub closed spec fn spec_freq_hz(&self) -> u32 {
        self.freq_hz
    }

    /// Creates a manager with `N` empty slots for a hardware timer running at
    /// `freq_hz`.
    #[must_use]
    pub fn new(freq_hz: u32) -> (r: Self)
        ensures
            r.slots() == Seq::new(N as nat, |i: int| None::<SpwmChannel<F, P>>),
            r.spec_freq_hz() == freq_hz,
    {
        let mut channel_slots: Vec<Option<SpwmChannel<F, P>>> = Vec::new();
        let mut i: usize = 0;
        while i < N
            invariant
                i <= N,
                channel_slots@ == Seq::new(i as nat, |j: int| None::<SpwmChannel<F, P>>),
            decreases N - i,
        {
            channel_slots.push(None);
            i += 1;
            assert(channel_slots@ =~= Seq::new(i as nat, |j: int| None::<SpwmChannel<F, P>>));
        }
        Spwm { channel_slots, freq_hz }
    }

    /// Starts a channel builder seeded with the hardware timer frequency.
    ///
    /// Fails with `InvalidHardwareFrequency` when that frequency is 0.
    pub fn create_channel(&self) -> (r: Result<SpwmChannelBuilder<SpwmChannelFreqHzBuildState, F, P>, SpwmError>)
        ensures
            r is Ok <==> self.spec_freq_hz() > 0,
            r is Err ==> r == Err::<SpwmChannelBuilder<SpwmChannelFreqHzBuildState, F, P>, SpwmError>(
                SpwmError::InvalidHardwareFrequency,
            ),
            r matches Ok(b) ==> {
                &&& b.spec_hardware_freq_hz() == self.spec_freq_hz()
                &&& b.spec_channel_freq_hz() == 0
                &&& b.spec_duty_cycle() == 0
                &&& b.spec_on_off_callback() is None
                &&& b.spec_period_callback() is None
            },
    {
        SpwmChannelBuilder::new(self.freq_hz)
    }

    /// Registers a channel in the first empty slot and returns its identifier.
    ///
    /// Fails with `NoChannelSlotAvailable`, changing nothing, when every slot
    /// is taken.
    pub fn register_channel(&mut self, channel: SpwmChannel<F, P>) -> (r: Result<ChannelId, SpwmError>)
        ensures
            r == register_result(old(self).slots()),
            final(self).slots() == register_slots(old(self).slots(), channel),
            final(self).spec_freq_hz() == old(self).spec_freq_hz(),
    {
        let ghost slots = self.channel_slots@;
        let mut i: usize = 0;
        while i < self.channel_slots.len()
            invariant
                self.channel_slots@ == slots,
                self.freq_hz == old(self).freq_hz,
                slots == old(self).channel_slots@,
                i <= slots.len(),
                first_free_slot(slots) == first_free_slot_from(slots, i as nat),
            decreases slots.len() - i,
        {
            if self.channel_slots[i].is_none() {
                assert(first_free_slot_from(slots, i as nat) == Some(i as nat));
                self.channel_slots.set(i, Some(channel));
                return Ok(i);
            }
            i += 1;
        }
        Err(SpwmError::NoChannelSlotAvailable)
    }

    /// The channel registered under `channel_id`, if there is one.
    pub fn get_channel(&self, channel_id: ChannelId) -> (r: Option<&SpwmChannel<F, P>>)
        ensures
            match r {
                Some(c) => channel_id < self.slots().len() && self.slots()[channel_id as int] == Some(*c),
                None => channel_id >= self.slots().len() || self.slots()[channel_id as int] is None,
            },
    {
        if channel_id < self.channel_slots.len() {
            self.channel_slots[channel_id].as_ref()
        } else {
            None
        }
    }

    /// Mutable access to the channel registered under `channel_id`, if
    /// there is one, to enable, disable or reconfigure it.
    pub fn get_channel_mut(&mut self, channel_id: ChannelId) -> (r: Option<&mut SpwmChannel<F, P>>)
        ensures
            match r {
                Some(c) => {
                    &&& channel_id < old(self).slots().len()
                    &&& old(self).slots()[channel_id as int] == Some(*c)
                    &&& final(self).slots() == old(self).slots().update(channel_id as int, Some(*final(c)))
                },
                None => {
                    &&& channel_id >= old(self).slots().len() || old(self).slots()[channel_id as int] is None
                    &&& final(self).slots() == old(self).slots()
                },
            },
            final(self).spec_freq_hz() == old(self).spec_freq_hz(),
    {
        if channel_id < self.channel_slots.len() {
            match &mut self.channel_slots[channel_id] {
                Some(channel) => Some(channel),
                None => None,
            }
        } else {
            None
        }
    }

    /// Handles one hardware timer tick.
    ///
    /// Every enabled channel, in slot order, advances its counter by one. On
    /// the last tick of a period the counter restarts, the period callback
    /// fires, the staged on-time takes effect, and "on" is reported when it
    /// is not zero; on the tick where the on-time ends "off" is reported.
    pub fn irq_handler(&mut self)
        ensures
            final(self).slots().len() == old(self).slots().len(),
            final(self).spec_freq_hz() == old(self).spec_freq_hz(),
            forall|i: int|
                0 <= i < old(self).slots().len() ==> slot_ticked(
                    old(self).slots()[i],
                    #[trigger] final(self).slots()[i],
                ),
    {
        let ghost before = self.channel_slots@;
        let mut i: usize = 0;
        while i < self.channel_slots.len()
            invariant
                self.channel_slots@.len() == before.len(),
                self.freq_hz == old(self).freq_hz,
                before == old(self).channel_slots@,
                i <= before.len(),
                forall|j: int| 0 <= j < i ==> #[trigger] slot_ticked(before[j], self.channel_slots@[j]),
                forall|j: int| i <= j < before.len() ==> self.channel_slots@[j] == before[j],
            decreases before.len() - i,
        {
            match &mut self.channel_slots[i] {
                Some(channel) => {
                    if channel.is_enabled() {
                        let outcome = channel.tick();
                        channel.notify(outcome);
                    }
                },
                None => {},
            }
            i += 1;
        }
    }
}

} // verus!
