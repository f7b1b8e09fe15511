//! The decisions and text handling of a Windows network and system tuner.
//!
//! The tuner runs PowerShell commands and reports each tweak on an aligned,
//! coloured status line. This library decides which commands run, in what
//! order, and what is reported from their replies; the program around it
//! runs the commands and prints.
//!
//! - [`text`]: whitespace, trimming, lines, decimal numbers, searching.
//! - [`chain`]: alternatives tried in order until one works.
//! - [`console`]: colours and status lines.
//! - [`shell`]: PowerShell arguments and replies.
//! - [`nic`]: adapter property commands and the values read back.
//! - [`plan`]: a phase carried out step by step.
//! - [`phases`]: the tuning phases as plans.
//! - [`hardware`]: the hardware script and its log.
//! - [`ram`]: installing and starting the RAM optimizer.

pub mod chain;
pub mod console;
pub mod hardware;
pub mod nic;
pub mod phases;
pub mod plan;
pub mod ram;
pub mod shell;
pub mod text;
