//! Decision logic of the Signet device companion: where the daemon and its model servers
//! live, how they are launched and stopped, how their process ids are recorded, and how
//! requests to the daemon's memory API are framed and their replies judged.

pub mod numeric;
pub mod text;
pub mod paths;
pub mod commands;
pub mod process;
pub mod android;
pub mod desktop;
pub mod startup;
