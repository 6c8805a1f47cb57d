use vstd::prelude::*;

use crate::command::Command;
use crate::time::TimeAdvance;

verus! {

/// The values that the orchestrator places on its three output ports in one output event.
/// `None` means that nothing is sent on that port.
#[derive(Clone, Copy, Debug, PartialEq, Eq, Structural)]
pub struct OrchestratorOutput {
    pub temp_enable: Option<bool>,
    pub hum_enable: Option<bool>,
    pub led_set: Option<bool>,
}

/// The port and value that a command is routed to.
pub open spec fn route_command(command: Command) -> OrchestratorOutput {
    match command {
        Command::TempOn => OrchestratorOutput { temp_enable: Some(true), hum_enable: None, led_set: None },
        Command::TempOff => OrchestratorOutput { temp_enable: Some(false), hum_enable: None, led_set: None },
        Command::HumOn => OrchestratorOutput { temp_enable: None, hum_enable: Some(true), led_set: None },
        Command::HumOff => OrchestratorOutput { temp_enable: None, hum_enable: Some(false), led_set: None },
        Command::LedOn => OrchestratorOutput { temp_enable: None, hum_enable: None, led_set: Some(true) },
        Command::LedOff => OrchestratorOutput { temp_enable: None, hum_enable: None, led_set: Some(false) },
    }
}

/// An output event that sends nothing.
pub open spec fn no_orchestrator_output() -> OrchestratorOutput {
    OrchestratorOutput { temp_enable: None, hum_enable: None, led_set: None }
}

/// Atomic DEVS model that turns operator commands into enable signals for the
/// temperature handler, the humidity handler and the LED handler.
///
/// On a command it becomes imminent (time advance zero), emits the routed value,
/// and then goes passive again.
#[derive(Clone, Copy, Debug, PartialEq, Eq, Structural)]
pub struct Orchestrator {
    pub pending_command: Option<Command>,
    pub sigma: TimeAdvance,
}

impl Orchestrator {
    /// The state a freshly built orchestrator starts in: no command, passive.
    pub open spec fn initial() -> Orchestrator {
        Orchestrator { pending_command: None, sigma: TimeAdvance::Infinite }
    }

    /// Internal transition: the command has been sent, so the model goes passive.
    pub open spec fn after_internal(self) -> Orchestrator {
        Orchestrator { sigma: TimeAdvance::Infinite, ..self }
    }

    /// External transition: the last command of the input bag becomes pending and is
    /// sent at once; an empty bag leaves the state as it is.
    pub open spec fn after_external(self, commands: Seq<Command>) -> Orchestrator {
        if commands.len() > 0 {
            Orchestrator { pending_command: Some(commands.last()), sigma: TimeAdvance::Finite(0) }
        } else {
            self
        }
    }

    /// Output function: the pending command, routed to its port.
    pub open spec fn output(self) -> OrchestratorOutput {
        match self.pending_command {
            Some(command) => route_command(command),
            None => no_orchestrator_output(),
        }
    }

    pub fn new() -> (o: Orchestrator)
        ensures
            o == Orchestrator::initial(),
    {
        Orchestrator { pending_command: None, sigma: TimeAdvance::Infinite }
    }

    pub fn delta_int(&mut self)
        ensures
            *final(self) == old(self).after_internal(),
    {
        self.sigma = TimeAdvance::Infinite;
    }

    pub fn delta_ext(&mut self, commands: &[Command])
        ensures
            *final(self) == old(self).after_external(commands@),
    {
        if commands.len() > 0 {
            let command = commands[commands.len() - 1];
            self.pending_command = Some(command);
            self.sigma = TimeAdvance::Finite(0);
        }
    }

    pub fn lambda(&self) -> (out: OrchestratorOutput)
        ensures
            out == self.output(),
    {
        match self.pending_command {
            Some(command) => match command {
                Command::TempOn => OrchestratorOutput { temp_enable: Some(true), hum_enable: None, led_set: None },
                Command::TempOff => OrchestratorOutput { temp_enable: Some(false), hum_enable: None, led_set: None },
                Command::HumOn => OrchestratorOutput { temp_enable: None, hum_enable: Some(true), led_set: None },
                Command::HumOff => OrchestratorOutput { temp_enable: None, hum_enable: Some(false), led_set: None },
                Command::LedOn => OrchestratorOutput { temp_enable: None, hum_enable: None, led_set: Some(true) },
                Command::LedOff => OrchestratorOutput { temp_enable: None, hum_enable: None, led_set: Some(false) },
            },
            None => OrchestratorOutput { temp_enable: None, hum_enable: None, led_set: None },
        }
    }

    pub fn ta(&self) -> (t: TimeAdvance)
        ensures
            t == self.sigma,
    {
        self.sigma
    }
}

} // verus!
