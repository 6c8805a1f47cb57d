pub mod command;
pub mod common_logic;
pub mod laws;
pub mod led_handler;
pub mod mode;
pub mod orchestrator;
pub mod reports;
pub mod sensor_handler;
pub mod sim_models;
pub mod time;

pub use command::{parse_command, scan_received, Command, LineStatus};
pub use common_logic::{propagate_output, CommonLogic, LogicOutput, ModelOutput, Quantity};
pub use led_handler::{LedHandler, LedHandlerOutput};
pub use mode::Mode;
pub use orchestrator::{Orchestrator, OrchestratorOutput};
pub use reports::{led_state_str, received_reports, Report};
pub use sensor_handler::{SensorHandler, SensorHandlerOutput};
pub use sim_models::{LedModel, SensorModel};
pub use time::TimeAdvance;
