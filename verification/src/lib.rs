//! Core logic of a command-line controller for the RME Babyface Pro on Linux:
//! which ALSA controls a command reads or writes, how the user's values are
//! read, and what `amixer` and `/proc/asound` report.
pub mod amixer;
pub mod cards;
pub mod command;
pub mod controls;
pub mod laws;
pub mod number;
pub mod text;
