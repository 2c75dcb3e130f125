//! Lifecycle management for an agent: an executable that is downloaded
//! for the running platform, installed in the application's data
//! directory, and run in any number of instances.
//!
//! The library decides and the host acts. Nothing here touches the
//! network, the disk or a process: the host reads and writes, spawns and
//! kills, and hands over what it found.
//!
//! - [`config`]: the persisted record of what is installed, and its
//!   schema upgrade.
//! - [`paths`]: where the application keeps its files.
//! - [`platform`]: the platforms with an agent build, and the names
//!   derived from a platform.
//! - [`installer`]: the steps that put the latest agent in place.
//! - [`supervisor`]: the table of running instances.
//! - [`agent`]: the command lines that run, question and kill the agent.
//! - [`autostart`]: switching launch at login.
//! - [`text`]: the operations on text that the others share.

pub mod agent;
pub mod autostart;
pub mod config;
pub mod installer;
pub mod paths;
pub mod platform;
pub mod supervisor;
pub mod text;
