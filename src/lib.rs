//! Soil moisture watering: a per-pair watering state machine and the
//! orchestration that routes sensor readings to it and shuts the pumps down.
mod clock;
pub mod controller;
mod gpio;
pub mod orchestrator;
pub mod poller;
pub mod settings;
pub mod time_span;
pub mod water_pump;

pub use controller::{Controller, ControllerView};
pub use orchestrator::{event_from_select, Event, LoopControl, Orchestrator, OrchestratorView};
pub use poller::{poller_action, poller_after, PollerAction, PollerControl};
pub use settings::{Configuration, SensorPumpPair};
pub use time_span::TimeSpan;
pub use water_pump::{PumpCommand, PumpError, WaterPump, WaterPumpImpl, WaterPumpMock};
