//! A single PWM channel and the staged builder that configures it.
use vstd::prelude::*;

use crate::model::{
    after_disable, after_enable, disable_result, duty_cycle_accepted, enable_result,
    frequency_accepted, on_ticks_for, period_ticks_for, tick_outcome, tick_state,
    with_duty_cycle, with_on_ticks, with_period, ChannelState, TickOutcome,
};
use crate::{SpwmError, SpwmState};
use core::marker::PhantomData;

verus! {

/// Maximum allowed duty cycle percentage.
pub const MAX_DUTY_CYCLE: u8 = 100;

/// Minimum ratio between the hardware timer frequency and a channel frequency.
pub const FREQUENCY_DIFFERENCE_REQUIRED: u32 = 100;

/// Builder state indicating frequency needs to be set.
pub struct SpwmChannelFreqHzBuildState {}

/// Builder state indicating duty cycle needs to be set.
pub struct SpwmChannelDutyCycleBuildState {}

/// Builder state indicating channel is ready to build.
pub struct SpwmChannelFinalizedBuildState {}

/// A single PWM channel: its timing state and its two callbacks.
///
/// `F` is told of output edges, `P` of completed periods. Both are called
/// from the tick handler and must accept every input.
#[derive(Debug)]
pub struct SpwmChannel<F: Fn(&SpwmState), P: Fn()> {
    period_ticks: u32,
    on_ticks: u32,
    pending_on_ticks: u32,
    counter: u32,
    enabled: bool,
    on_off_callback: Option<F>,
    period_callback: Option<P>,
}

/// An on/off callback that may be called with either state.
pub open spec fn on_off_callable<F: Fn(&SpwmState)>(cb: F) -> bool {
    forall|s: SpwmState| call_requires(cb, (&s,))
}

/// A period callback that may be called at any time.
pub open spec fn period_callable<P: Fn()>(cb: P) -> bool {
    call_requires(cb, ())
}

/// The callbacks that `outcome` makes due have been called on `channel`.
pub open spec fn outcome_reported<F: Fn(&SpwmState), P: Fn()>(
    channel: SpwmChannel<F, P>,
    outcome: TickOutcome,
) -> bool {
    &&& outcome.period_elapsed ==> (channel.spec_period_callback() matches Some(cb) ==> call_ensures(cb, (), ()))
    &&& outcome.output matches Some(state) ==> (channel.spec_on_off_callback() matches Some(cb)
        ==> call_ensures(cb, (&state,), ()))
}

impl<F: Fn(&SpwmState), P: Fn()> View for SpwmChannel<F, P> {
    type V = ChannelState;

    closed spec fn view(&self) -> ChannelState {
        ChannelState {
            period_ticks: self.period_ticks,
            on_ticks: self.on_ticks,
            pending_on_ticks: self.pending_on_ticks,
            counter: self.counter,
            enabled: self.enabled,
        }
    }
}

impl<F: Fn(&SpwmState), P: Fn()> SpwmChannel<F, P> {
    #[verifier::type_invariant]
    spec fn inv(&self) -> bool {
        &&& self.period_ticks > 0
        &&& self.counter < u32::MAX
        &&& (self.on_off_callback matches Some(cb) ==> on_off_callable(cb))
        &&& (self.period_callback matches Some(cb) ==> period_callable(cb))
    }

    /// The on/off callback bound to this channel, if any.
    pub closed spec fn spec_on_off_callback(&self) -> Option<F> {
        self.on_off_callback
    }

    /// The period callback bound to this channel, if any.
    pub closed spec fn spec_period_callback(&self) -> Option<P> {
        self.period_callback
    }

    /// Advances the tick counter by one and returns its value before the step.
    pub(crate) fn counter_tick(&mut self) -> (r: u32)
        requires
            old(self)@.counter + 1 < old(self)@.period_ticks,
        ensures
            r == old(self)@.counter,
            final(self)@ == (ChannelState { counter: (r + 1) as u32, ..old(self)@ }),
            final(self).spec_on_off_callback() == old(self).spec_on_off_callback(),
            final(self).spec_period_callback() == old(self).spec_period_callback(),
    {
        proof {
            use_type_invariant(&*self);
        }
        let current = self.counter;
        self.counter = current + 1;
        current
    }

    /// Resets the tick counter to zero (called at period boundaries).
    pub(crate) fn counter_reset(&mut self)
        ensures
            final(self)@ == (ChannelState { counter: 0, ..old(self)@ }),
            final(self).spec_on_off_callback() == old(self).spec_on_off_callback(),
            final(self).spec_period_callback() == old(self).spec_period_callback(),
    {
        proof {
            use_type_invariant(&*self);
        }
        self.counter = 0;
    }

    /// The channel's timing state: period, on-time, staged on-time, counter
    /// and whether it is enabled.
    pub fn state(&self) -> (r: ChannelState)
        ensures
            r == self@,
    {
        ChannelState {
            period_ticks: self.period_ticks,
            on_ticks: self.on_ticks,
            pending_on_ticks: self.pending_on_ticks,
            counter: self.counter,
            enabled: self.enabled,
        }
    }

    /// Whether timer ticks currently advance this channel.
    pub fn is_enabled(&self) -> (r: bool)
        ensures
            r == self@.enabled,
    {
        self.enabled
    }

    /// Sets the total number of ticks in one PWM period.
    pub(crate) fn set_period_ticks(&mut self, period_ticks: u32)
        requires
            period_ticks > 0,
        ensures
            final(self)@ == with_period(old(self)@, period_ticks),
            final(self).spec_on_off_callback() == old(self).spec_on_off_callback(),
            final(self).spec_period_callback() == old(self).spec_period_callback(),
    {
        proof {
            use_type_invariant(&*self);
        }
        self.period_ticks = period_ticks;
    }

    /// Updates the on-time: at once while disabled, at the next period
    /// boundary while enabled.
    pub(crate) fn update_on_ticks(&mut self, on_ticks: u32)
        ensures
            final(self)@ == with_on_ticks(old(self)@, on_ticks),
            final(self).spec_on_off_callback() == old(self).spec_on_off_callback(),
            final(self).spec_period_callback() == old(self).spec_period_callback(),
    {
        proof {
            use_type_invariant(&*self);
        }
        if self.enabled {
            self.pending_on_ticks = on_ticks;
        } else {
            self.on_ticks = on_ticks;
            self.pending_on_ticks = on_ticks;
        }
    }

    /// Sets the on-time directly (used by the tick handler at a period boundary).
    pub(crate) fn set_on_ticks(&mut self, on_ticks: u32)
        ensures
            final(self)@ == (ChannelState { on_ticks, ..old(self)@ }),
            final(self).spec_on_off_callback() == old(self).spec_on_off_callback(),
            final(self).spec_period_callback() == old(self).spec_period_callback(),
    {
        proof {
            use_type_invariant(&*self);
        }
        self.on_ticks = on_ticks;
    }

    /// Binds the on/off callback. It can be bound once: a second attempt
    /// hands the new callback back and keeps the first.
    pub(crate) fn set_on_off_callback(&mut self, on_off_callback: F) -> (r: Result<(), F>)
        requires
            on_off_callable(on_off_callback),
        ensures
            final(self)@ == old(self)@,
            final(self).spec_period_callback() == old(self).spec_period_callback(),
            old(self).spec_on_off_callback() is None ==> r is Ok
                && final(self).spec_on_off_callback() == Some(on_off_callback),
            old(self).spec_on_off_callback() is Some ==> r == Err::<(), F>(on_off_callback)
                && final(self).spec_on_off_callback() == old(self).spec_on_off_callback(),
    {
        proof {
            use_type_invariant(&*self);
        }
        if self.on_off_callback.is_some() {
            return Err(on_off_callback);
        }
        self.on_off_callback = Some(on_off_callback);
        Ok(())
    }

    /// Binds the period callback. It can be bound once: a second attempt
    /// hands the new callback back and keeps the first.
    pub(crate) fn set_period_callback(&mut self, period_callback: P) -> (r: Result<(), P>)
        requires
            period_callable(period_callback),
        ensures
            final(self)@ == old(self)@,
            final(self).spec_on_off_callback() == old(self).spec_on_off_callback(),
            old(self).spec_period_callback() is None ==> r is Ok
                && final(self).spec_period_callback() == Some(period_callback),
            old(self).spec_period_callback() is Some ==> r == Err::<(), P>(period_callback)
                && final(self).spec_period_callback() == old(self).spec_period_callback(),
    {
        proof {
            use_type_invariant(&*self);
        }
        if self.period_callback.is_some() {
            return Err(period_callback);
        }
        self.period_callback = Some(period_callback);
        Ok(())
    }

    /// Updates the PWM frequency for this channel.
    ///
    /// Fails with `InvalidFrequency`, changing nothing, when `freq_hz` is 0
    /// or the hardware timer is not at least a hundred times faster.
    pub fn update_frequency(&mut self, freq_hz: u32, hardware_freq_hz: u32) -> (r: Result<(), SpwmError>)
        ensures
            r is Ok <==> frequency_accepted(freq_hz, hardware_freq_hz),
            r is Ok ==> final(self)@ == with_period(old(self)@, period_ticks_for(freq_hz, hardware_freq_hz)),
            r is Err ==> r == Err::<(), SpwmError>(SpwmError::InvalidFrequency) && final(self)@ == old(self)@,
            final(self).spec_on_off_callback() == old(self).spec_on_off_callback(),
            final(self).spec_period_callback() == old(self).spec_period_callback(),
    {
        input_frequency_validate(freq_hz, hardware_freq_hz)?;
        let ticks = hardware_freq_hz / freq_hz;
        proof {
            lemma_period_at_least_hundred(freq_hz, hardware_freq_hz);
        }
        self.set_period_ticks(ticks);
        Ok(())
    }

    /// Updates the duty cycle for this channel.
    ///
    /// Fails with `InvalidDutyCycle`, changing nothing, when `duty_cycle` is
    /// greater than 100.
    pub fn update_duty_cycle(&mut self, duty_cycle: u8) -> (r: Result<(), SpwmError>)
        ensures
            r is Ok <==> duty_cycle_accepted(duty_cycle),
            r is Ok ==> final(self)@ == with_duty_cycle(old(self)@, duty_cycle),
            r is Err ==> r == Err::<(), SpwmError>(SpwmError::InvalidDutyCycle) && final(self)@ == old(self)@,
            final(self).spec_on_off_callback() == old(self).spec_on_off_callback(),
            final(self).spec_period_callback() == old(self).spec_period_callback(),
    {
        if duty_cycle > MAX_DUTY_CYCLE {
            return Err(SpwmError::InvalidDutyCycle);
        }
        let period_ticks = self.period_ticks;
        proof {
            lemma_on_ticks_bounded(period_ticks, duty_cycle);
        }
        self.update_on_ticks(period_ticks / 100 * (duty_cycle as u32));
        Ok(())
    }

    /// Enables the channel.
    ///
    /// Fails with `AlreadyEnabled`, changing nothing, when the channel
    /// already runs. On success the on/off callback is told "on" at once when
    /// the on-time is not zero, since the first tick falls in the on-phase.
    pub fn enable(&mut self) -> (r: Result<(), SpwmError>)
        ensures
            r == enable_result(old(self)@),
            final(self)@ == after_enable(old(self)@),
            final(self).spec_on_off_callback() == old(self).spec_on_off_callback(),
            final(self).spec_period_callback() == old(self).spec_period_callback(),
            r is Ok && old(self)@.on_ticks != 0 ==> (old(self).spec_on_off_callback() matches Some(cb)
                ==> call_ensures(cb, (&SpwmState::On,), ())),
    {
        proof {
            use_type_invariant(&*self);
        }
        if self.enabled {
            return Err(SpwmError::AlreadyEnabled);
        }
        self.enabled = true;
        if self.on_ticks != 0 {
            if let Some(callback) = &self.on_off_callback {
                callback(&SpwmState::On);
            }
        }
        Ok(())
    }

    /// Disables the channel and restarts its tick counter.
    ///
    /// Fails with `AlreadyDisabled`, changing nothing, when the channel is
    /// already stopped. On success the on/off callback is always told "off".
    pub fn disable(&mut self) -> (r: Result<(), SpwmError>)
        ensures
            r == disable_result(old(self)@),
            final(self)@ == after_disable(old(self)@),
            final(self).spec_on_off_callback() == old(self).spec_on_off_callback(),
            final(self).spec_period_callback() == old(self).spec_period_callback(),
            r is Ok ==> (old(self).spec_on_off_callback() matches Some(cb)
                ==> call_ensures(cb, (&SpwmState::Off,), ())),
    {
        proof {
            use_type_invariant(&*self);
        }
        if !self.enabled {
            return Err(SpwmError::AlreadyDisabled);
        }
        self.enabled = false;
        self.counter_reset();
        if let Some(callback) = &self.on_off_callback {
            callback(&SpwmState::Off);
        }
        Ok(())
    }

    /// Advances the channel by one timer tick and says which callbacks are due.
    pub(crate) fn tick(&mut self) -> (r: TickOutcome)
        ensures
            final(self)@ == tick_state(old(self)@),
            r == tick_outcome(old(self)@),
            final(self).spec_on_off_callback() == old(self).spec_on_off_callback(),
            final(self).spec_period_callback() == old(self).spec_period_callback(),
    {
        proof {
            use_type_invariant(&*self);
        }
        let current_ticks = self.counter;
        let period_ticks = self.period_ticks;
        let on_ticks = self.on_ticks;
        if current_ticks >= period_ticks - 1 {
            let update_ticks = self.pending_on_ticks;
            self.counter_reset();
            if update_ticks != on_ticks {
                self.set_on_ticks(update_ticks);
            }
            let output = if self.on_ticks != 0 {
                Some(SpwmState::On)
            } else {
                None
            };
            TickOutcome { period_elapsed: true, output }
        } else {
            self.counter_tick();
            if current_ticks == on_ticks {
                TickOutcome { period_elapsed: false, output: Some(SpwmState::Off) }
            } else {
                TickOutcome { period_elapsed: false, output: None }
            }
        }
    }

    /// Calls the callbacks that a tick made due: the period callback first,
    /// then the on/off callback.
    pub(crate) fn notify(&self, outcome: TickOutcome)
        ensures
            outcome_reported(*self, outcome),
    {
        proof {
            use_type_invariant(self);
        }
        if outcome.period_elapsed {
            if let Some(callback) = &self.period_callback {
                callback();
            }
        }
        if let Some(state) = outcome.output {
            if let Some(callback) = &self.on_off_callback {
                callback(&state);
            }
        }
    }
}

/// Staged builder for PWM channels.
///
/// The stages come in a fixed order, each checked as it is given: the
/// hardware timer frequency (`new`), the channel frequency (`freq_hz`), the
/// duty cycle (`duty_cycle`), then `build`. Callbacks may be attached at any
/// stage and are both required by `build`.
pub struct SpwmChannelBuilder<T, F: Fn(&SpwmState), P: Fn()> {
    hardware_freq_hz: u32,
    channel_freq_hz: u32,
    duty_cycle: u8,
    on_off_callback: Option<F>,
    period_callback: Option<P>,
    _phantom: PhantomData<T>,
}

impl<T, F: Fn(&SpwmState), P: Fn()> SpwmChannelBuilder<T, F, P> {
    #[verifier::type_invariant]
    spec fn inv(&self) -> bool {
        &&& self.hardware_freq_hz > 0
        &&& (self.on_off_callback matches Some(cb) ==> on_off_callable(cb))
        &&& (self.period_callback matches Some(cb) ==> period_callable(cb))
    }

    /// The hardware timer frequency the builder was seeded with.
    pub closed spec fn spec_hardware_freq_hz(&self) -> u32 {
        self.hardware_freq_hz
    }

    /// The channel frequency given so far (0 before `freq_hz`).
    pub closed spec fn spec_channel_freq_hz(&self) -> u32 {
        self.channel_freq_hz
    }

    /// The duty cycle given so far (0 before `duty_cycle`).
    pub closed spec fn spec_duty_cycle(&self) -> u8 {
        self.duty_cycle
    }

    /// The on/off callback attached so far, if any.
    pub closed spec fn spec_on_off_callback(&self) -> Option<F> {
        self.on_off_callback
    }

    /// The period callback attached so far, if any.
    pub closed spec fn spec_period_callback(&self) -> Option<P> {
        self.period_callback
    }

    /// Attaches the on/off callback, replacing one attached before.
    #[must_use]
    pub fn on_off_callback(self, on_off_callback: F) -> (r: Self)
        requires
            on_off_callable(on_off_callback),
        ensures
            r.spec_hardware_freq_hz() == self.spec_hardware_freq_hz(),
            r.spec_channel_freq_hz() == self.spec_channel_freq_hz(),
            r.spec_duty_cycle() == self.spec_duty_cycle(),
            r.spec_on_off_callback() == Some(on_off_callback),
            r.spec_period_callback() == self.spec_period_callback(),
    {
        proof {
            use_type_invariant(&self);
        }
        SpwmChannelBuilder {
            hardware_freq_hz: self.hardware_freq_hz,
            channel_freq_hz: self.channel_freq_hz,
            duty_cycle: self.duty_cycle,
            on_off_callback: Some(on_off_callback),
            period_callback: self.period_callback,
            _phantom: PhantomData,
        }
    }

    /// Attaches the period callback, replacing one attached before.
    #[must_use]
    pub fn period_callback(self, period_callback: P) -> (r: Self)
        requires
            period_callable(period_callback),
        ensures
            r.spec_hardware_freq_hz() == self.spec_hardware_freq_hz(),
            r.spec_channel_freq_hz() == self.spec_channel_freq_hz(),
            r.spec_duty_cycle() == self.spec_duty_cycle(),
            r.spec_on_off_callback() == self.spec_on_off_callback(),
            r.spec_period_callback() == Some(period_callback),
    {
        proof {
            use_type_invariant(&self);
        }
        SpwmChannelBuilder {
            hardware_freq_hz: self.hardware_freq_hz,
            channel_freq_hz: self.channel_freq_hz,
            duty_cycle: self.duty_cycle,
            on_off_callback: self.on_off_callback,
            period_callback: Some(period_callback),
            _phantom: PhantomData,
        }
    }
}

impl<F: Fn(&SpwmState), P: Fn()> SpwmChannelBuilder<SpwmChannelFreqHzBuildState, F, P> {
    /// Starts a builder for a hardware timer running at `hardware_freq_hz`.
    ///
    /// Fails with `InvalidHardwareFrequency` when the frequency is 0.
    pub fn new(hardware_freq_hz: u32) -> (r: Result<Self, SpwmError>)
        ensures
            r is Ok <==> hardware_freq_hz > 0,
            r is Err ==> r == Err::<Self, SpwmError>(SpwmError::InvalidHardwareFrequency),
            r matches Ok(b) ==> {
                &&& b.spec_hardware_freq_hz() == hardware_freq_hz
                &&& b.spec_channel_freq_hz() == 0
                &&& b.spec_duty_cycle() == 0
                &&& b.spec_on_off_callback() is None
                &&& b.spec_period_callback() is None
            },
    {
        if hardware_freq_hz == 0 {
            return Err(SpwmError::InvalidHardwareFrequency);
        }
        Ok(SpwmChannelBuilder {
            hardware_freq_hz,
            channel_freq_hz: 0,
            duty_cycle: 0,
            on_off_callback: None,
            period_callback: None,
            _phantom: PhantomData,
        })
    }

    /// Sets the channel frequency.
    ///
    /// Fails with `InvalidFrequency` when `freq_hz` is 0 or the hardware
    /// timer is not at least a hundred times faster.
    pub fn freq_hz(self, freq_hz: u32) -> (r: Result<
        SpwmChannelBuilder<SpwmChannelDutyCycleBuildState, F, P>,
        SpwmError,
    >)
        ensures
            r is Ok <==> frequency_accepted(freq_hz, self.spec_hardware_freq_hz()),
            r matches Err(e) ==> e == SpwmError::InvalidFrequency,
            r matches Ok(b) ==> {
                &&& b.spec_hardware_freq_hz() == self.spec_hardware_freq_hz()
                &&& b.spec_channel_freq_hz() == freq_hz
                &&& b.spec_duty_cycle() == 0
                &&& b.spec_on_off_callback() == self.spec_on_off_callback()
                &&& b.spec_period_callback() == self.spec_period_callback()
            },
    {
        proof {
            use_type_invariant(&self);
        }
        if let Err(e) = input_frequency_validate(freq_hz, self.hardware_freq_hz) {
            return Err(e);
        }
        Ok(SpwmChannelBuilder {
            hardware_freq_hz: self.hardware_freq_hz,
            channel_freq_hz: freq_hz,
            duty_cycle: 0,
            on_off_callback: self.on_off_callback,
            period_callback: self.period_callback,
            _phantom: PhantomData,
        })
    }
}

impl<F: Fn(&SpwmState), P: Fn()> SpwmChannelBuilder<SpwmChannelDutyCycleBuildState, F, P> {
    /// Sets the duty cycle in percent.
    ///
    /// Fails with `InvalidDutyCycle` when `duty_cycle` is greater than 100.
    pub fn duty_cycle(self, duty_cycle: u8) -> (r: Result<
        SpwmChannelBuilder<SpwmChannelFinalizedBuildState, F, P>,
        SpwmError,
    >)
        ensures
            r is Ok <==> duty_cycle_accepted(duty_cycle),
            r matches Err(e) ==> e == SpwmError::InvalidDutyCycle,
            r matches Ok(b) ==> {
                &&& b.spec_hardware_freq_hz() == self.spec_hardware_freq_hz()
                &&& b.spec_channel_freq_hz() == self.spec_channel_freq_hz()
                &&& b.spec_duty_cycle() == duty_cycle
                &&& b.spec_on_off_callback() == self.spec_on_off_callback()
                &&& b.spec_period_callback() == self.spec_period_callback()
            },
    {
        proof {
            use_type_invariant(&self);
        }
        if duty_cycle > MAX_DUTY_CYCLE {
            return Err(SpwmError::InvalidDutyCycle);
        }
        Ok(SpwmChannelBuilder {
            hardware_freq_hz: self.hardware_freq_hz,
            channel_freq_hz: self.channel_freq_hz,
            duty_cycle,
            on_off_callback: self.on_off_callback,
            period_callback: self.period_callback,
            _phantom: PhantomData,
        })
    }
}

impl<F: Fn(&SpwmState), P: Fn()> SpwmChannelBuilder<SpwmChannelFinalizedBuildState, F, P> {
    /// Builds the channel: stopped, counter at zero, period and on-time in
    /// ticks derived from the frequencies and the duty cycle, both callbacks
    /// bound.
    ///
    /// The assembled values are checked once more, in the order of the
    /// stages; a missing callback fails with `CallbackSetError`.
    pub fn build(self) -> (r: Result<SpwmChannel<F, P>, SpwmError>)
        ensures
            ({
                let hw = self.spec_hardware_freq_hz();
                let freq = self.spec_channel_freq_hz();
                let duty = self.spec_duty_cycle();
                let callbacks = self.spec_on_off_callback() is Some && self.spec_period_callback() is Some;
                &&& r is Ok <==> hw > 0 && frequency_accepted(freq, hw) && duty_cycle_accepted(duty) && callbacks
                &&& hw == 0 ==> r == Err::<SpwmChannel<F, P>, SpwmError>(SpwmError::InvalidHardwareFrequency)
                &&& hw > 0 && !frequency_accepted(freq, hw)
                    ==> r == Err::<SpwmChannel<F, P>, SpwmError>(SpwmError::InvalidFrequency)
                &&& hw > 0 && frequency_accepted(freq, hw) && !duty_cycle_accepted(duty)
                    ==> r == Err::<SpwmChannel<F, P>, SpwmError>(SpwmError::InvalidDutyCycle)
                &&& hw > 0 && frequency_accepted(freq, hw) && duty_cycle_accepted(duty) && !callbacks
                    ==> r == Err::<SpwmChannel<F, P>, SpwmError>(SpwmError::CallbackSetError)
            }),
            r matches Ok(c) ==> {
                let period_ticks = period_ticks_for(self.spec_channel_freq_hz(), self.spec_hardware_freq_hz());
                let on_ticks = on_ticks_for(period_ticks, self.spec_duty_cycle());
                &&& c@ == (ChannelState { period_ticks, on_ticks, pending_on_ticks: on_ticks, counter: 0, enabled: false })
                &&& c.spec_on_off_callback() == self.spec_on_off_callback()
                &&& c.spec_period_callback() == self.spec_period_callback()
            },
    {
        proof {
            use_type_invariant(&self);
        }
        if self.hardware_freq_hz == 0 {
            return Err(SpwmError::InvalidHardwareFrequency);
        }
        if let Err(e) = input_frequency_validate(self.channel_freq_hz, self.hardware_freq_hz) {
            return Err(e);
        }
        proof {
            lemma_period_at_least_hundred(self.channel_freq_hz, self.hardware_freq_hz);
        }
        let mut channel = SpwmChannel {
            period_ticks: self.hardware_freq_hz / self.channel_freq_hz,
            on_ticks: 0,
            pending_on_ticks: 0,
            counter: 0,
            enabled: false,
            on_off_callback: None,
            period_callback: None,
        };
        if let Err(e) = channel.update_duty_cycle(self.duty_cycle) {
            return Err(e);
        }
        match self.on_off_callback {
            Some(callback) => {
                if channel.set_on_off_callback(callback).is_err() {
                    return Err(SpwmError::CallbackSetError);
                }
            },
            None => {
                return Err(SpwmError::CallbackSetError);
            },
        }
        match self.period_callback {
            Some(callback) => {
                if channel.set_period_callback(callback).is_err() {
                    return Err(SpwmError::CallbackSetError);
                }
            },
            None => {
                return Err(SpwmError::CallbackSetError);
            },
        }
        Ok(channel)
    }
}

/// A period derived from an accepted frequency is at least a hundred ticks.
proof fn lemma_period_at_least_hundred(freq_hz: u32, hardware_freq_hz: u32)
    requires
        frequency_accepted(freq_hz, hardware_freq_hz),
    ensures
        hardware_freq_hz / freq_hz >= 100,
{
    let f = freq_hz as int;
    let h = hardware_freq_hz as int;
    vstd::arithmetic::div_mod::lemma_div_is_ordered(f * 100, h, f);
    vstd::arithmetic::div_mod::lemma_div_multiples_vanish(100, f);
    assert(f * 100 == 100 * f) by (nonlinear_arith);
}

/// The on-time of an accepted duty cycle never exceeds the period.
proof fn lemma_on_ticks_bounded(period_ticks: u32, duty_cycle: u8)
    requires
        duty_cycle <= 100,
    ensures
        period_ticks / 100 * duty_cycle <= period_ticks,
{
    assert(period_ticks / 100 * duty_cycle <= period_ticks) by (nonlinear_arith)
        requires
            duty_cycle <= 100,
    {
        assert(period_ticks / 100 * 100 <= period_ticks);
        assert(period_ticks / 100 * duty_cycle <= period_ticks / 100 * 100);
    }
}

/// Checks a channel frequency against the hardware timer frequency.
fn input_frequency_validate(freq_hz: u32, hardware_freq_hz: u32) -> (r: Result<(), SpwmError>)
    ensures
        r is Ok <==> frequency_accepted(freq_hz, hardware_freq_hz),
        r is Err ==> r == Err::<(), SpwmError>(SpwmError::InvalidFrequency),
{
    proof {
        lemma_frequency_check(freq_hz, hardware_freq_hz);
    }
    if freq_hz == 0 || freq_hz > hardware_freq_hz / FREQUENCY_DIFFERENCE_REQUIRED {
        return Err(SpwmError::InvalidFrequency);
    }
    Ok(())
}

/// The division form of the frequency check agrees with its product form.
proof fn lemma_frequency_check(freq_hz: u32, hardware_freq_hz: u32)
    ensures
        (freq_hz > 0 && freq_hz <= hardware_freq_hz / 100) <==> frequency_accepted(freq_hz, hardware_freq_hz),
{
    assert(freq_hz <= hardware_freq_hz / 100 <==> freq_hz * 100 <= hardware_freq_hz) by (nonlinear_arith);
}

} // verus!
