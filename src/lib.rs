//! A push-to-talk voice memo pipeline: button events become recording
//! commands, a two-state controller owns at most one capture session, and a
//! finished session becomes a mono 16-bit 16 kHz WAV container.
pub mod command;
pub mod controller;
pub mod capture;
pub mod wav;
pub mod recorder;
pub mod monitor;
pub mod config;
pub mod dispatch;
