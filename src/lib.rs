//! Assignment of mixer inputs to routing ports: the editable per-input
//! records, their validity rules, and the controller that turns edit
//! messages into save requests and reconciles their completions.

pub mod controller;
pub mod laws;
pub mod model;

pub use controller::{
    App, AppFlags, AppMessage, ListPort, PmxInput, PmxInputType, PortDirection, SaveRequest,
};
pub use model::{AppListLine, InputStatus, PortType};
