//! A single-carriage passenger elevator: the carriage state machine, the
//! destination queue, the pulley motion simulation and the message protocol
//! between the carriage controller and the pulley, each stated and proved.
//!
//! The controller and the pulley are message handlers: each takes its state
//! and one message, and returns the side effects to carry out, in order. The
//! program that runs them as concurrent units performs those effects.

/// The messages exchanged by the controller, the pulley and the outside.
pub mod vocabulary;
/// The carriage state machine: its transition and output tables.
pub mod fsm;
/// The controller's carriage data: position, destination, waiting requests.
pub mod carriage;
/// The state machine and the carriage data together.
pub mod controller;
/// The controller's message handler.
pub mod service;
/// The pulley: its motion simulation and message handler.
pub mod pulley;
/// What the pulley reports over a whole trip.
pub mod motion;
/// What the controller does over runs of commands.
pub mod dispatch;
