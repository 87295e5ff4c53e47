//! Decision logic of a desktop chat shell: which windows exist and how they
//! are built, what a close request or a tray gesture leads to, and the frames
//! of an eased resize. Every function here maps plain observations of the
//! host to the actions the host is to perform.

pub mod geometry;
pub mod label;
pub mod action;
pub mod platform;
pub mod shell;
pub mod window;
pub mod close;
pub mod tray;
pub mod animate;
