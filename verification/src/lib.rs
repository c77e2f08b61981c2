//! Decision logic of a runner that turns videos into photogrammetry scenes.
//!
//! For each video the runner extracts frames, detects and matches features and reconstructs
//! a sparse model with COLMAP or GLOMAP; before that it finds the tools it needs and
//! installs those that are missing. This library decides what is done and in which order.
//! It starts no process, opens no connection and writes no file: a caller does that and
//! reports back what came of it.
//!
//! - [`resolve`]: the search for one tool, from the path the user gave to the installation
//!   from the latest release; [`release`], [`locate`], [`download`] and [`unpack`] are its
//!   parts.
//! - [`setup`]: which tools a run needs and what is published once they are there;
//!   [`system`] asks the machine for its data directory, its processors and its search
//!   path.
//! - [`job`]: the state machine of one video; [`command`] and [`tool`] are the command lines
//!   of its steps and what tells the two tools apart.
//! - [`batch`]: a run over several videos, in which no failure of one video holds up
//!   another; [`rerun`] states what a second run does.
//! - [`search_path`]: the persistent search path and what is added to it.
//! - [`paths`] and [`text`]: paths and strings as sequences of characters.
pub mod batch;
pub mod command;
pub mod download;
pub mod job;
pub mod locate;
pub mod paths;
pub mod release;
pub mod rerun;
pub mod resolve;
pub mod search_path;
pub mod setup;
pub mod system;
pub mod text;
pub mod tool;
pub mod unpack;
