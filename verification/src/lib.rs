//! Control core for a two-axis plant-care rig: a stepper-motor motion
//! profile engine, a compound actuator coordinating two axes plus a watering
//! valve and an enable line, an automation orchestrator that decides when to
//! check and water each position, and a bounded message gateway that bridges
//! an external front end to the control loop.

pub mod actuator;
pub mod client_msg;
pub mod config;
pub mod detect;
pub mod gateway;
pub mod gpio;
pub mod linears;
pub mod message;
pub mod motion;
pub mod orchestrator;
pub mod schedule;
pub mod settings;
pub mod show;
pub mod water;
