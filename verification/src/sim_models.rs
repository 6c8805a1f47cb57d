use vstd::prelude::*;

use crate::time::TimeAdvance;

verus! {

/// Stand-in for a sensor in a simulation without hardware: when triggered it draws a
/// reading and a response delay, and answers with the reading once the delay is over.
/// `V` is the type of a reading; delays are nanoseconds.
#[derive(Clone, Copy, Debug, PartialEq, Eq)]
pub struct SensorModel<V> {
    pub pending_value: Option<V>,
    pub sigma: TimeAdvance,
}

impl<V: Copy> SensorModel<V> {
    /// A sensor with no pending answer, passive.
    pub open spec fn initial() -> SensorModel<V> {
        SensorModel { pending_value: None, sigma: TimeAdvance::Infinite }
    }

    pub fn new() -> (m: SensorModel<V>)
        ensures
            m == SensorModel::<V>::initial(),
    {
        SensorModel { pending_value: None, sigma: TimeAdvance::Infinite }
    }

    /// Internal transition: the answer has gone out; the sensor is passive again.
    pub fn delta_int(&mut self)
        ensures
            *final(self) == SensorModel::<V>::initial(),
    {
        self.pending_value = None;
        self.sigma = TimeAdvance::Infinite;
    }

    /// External transition: on a trigger, `draw` is called once for a reading and a
    /// delay; the reading is answered after the delay. Without a trigger nothing is drawn
    /// and nothing changes.
    pub fn delta_ext<F: FnOnce() -> (V, u64)>(&mut self, triggers: &[bool], draw: F)
        requires
            triggers@.len() > 0 ==> draw.requires(()),
        ensures
            triggers@.len() == 0 ==> *final(self) == *old(self),
            triggers@.len() > 0 ==> {
                &&& final(self).pending_value is Some
                &&& final(self).sigma is Finite
                &&& draw.ensures((), (final(self).pending_value->0, final(self).sigma->0))
            },
    {
        if triggers.len() > 0 {
            let (value, delay) = draw();
            self.pending_value = Some(value);
            self.sigma = TimeAdvance::Finite(delay);
        }
    }

    /// Output function: the pending reading, if any.
    pub fn lambda(&self) -> (reading: Option<V>)
        ensures
            reading == self.pending_value,
    {
        self.pending_value
    }

    pub fn ta(&self) -> (t: TimeAdvance)
        ensures
            t == self.sigma,
    {
        self.sigma
    }
}

/// Stand-in for the LED in a simulation without hardware: when commanded it draws a
/// response delay and, once the delay is over, confirms the commanded state.
#[derive(Clone, Copy, Debug, PartialEq, Eq, Structural)]
pub struct LedModel {
    pub pending_state: Option<bool>,
    pub sigma: TimeAdvance,
}

impl LedModel {
    /// An LED with no pending confirmation, passive.
    pub open spec fn initial() -> LedModel {
        LedModel { pending_state: None, sigma: TimeAdvance::Infinite }
    }

    pub fn new() -> (m: LedModel)
        ensures
            m == LedModel::initial(),
    {
        LedModel { pending_state: None, sigma: TimeAdvance::Infinite }
    }

    /// Internal transition: the confirmation has gone out; the LED is passive again.
    pub fn delta_int(&mut self)
        ensures
            *final(self) == LedModel::initial(),
    {
        self.pending_state = None;
        self.sigma = TimeAdvance::Infinite;
    }

    /// External transition: on a command, `draw_delay` is called once for the delay, and
    /// the last commanded state is confirmed after it. Without a command nothing is drawn
    /// and nothing changes.
    pub fn delta_ext<F: FnOnce() -> u64>(&mut self, commands: &[bool], draw_delay: F)
        requires
            commands@.len() > 0 ==> draw_delay.requires(()),
        ensures
            commands@.len() == 0 ==> *final(self) == *old(self),
            commands@.len() > 0 ==> {
                &&& final(self).pending_state == Some(commands@.last())
                &&& final(self).sigma is Finite
                &&& draw_delay.ensures((), final(self).sigma->0)
            },
    {
        if commands.len() > 0 {
            let state = commands[commands.len() - 1];
            let delay = draw_delay();
            self.pending_state = Some(state);
            self.sigma = TimeAdvance::Finite(delay);
        }
    }

    /// Output function: the pending confirmation, if any.
    pub fn lambda(&self) -> (state: Option<bool>)
        ensures
            state == self.pending_state,
    {
        self.pending_state
    }

    pub fn ta(&self) -> (t: TimeAdvance)
        ensures
            t == self.sigma,
    {
        self.sigma
    }
}

} // verus!
