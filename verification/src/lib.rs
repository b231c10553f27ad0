//! The core of TPTool, a tool that keeps a two-axis mount pointed at a
//! moving target: angles in fixed point, the calibrating mount wrapper with
//! its travel interlock, the wire protocol of iOptron mounts, the client's
//! side of the mount simulator's protocol, and the tracking engine that
//! turns the target's kinematics into slew rates for the axes.
//!
//! Angles are integers counted in hundredths of an arcsecond, the unit that
//! the iOptron protocol speaks. Nothing here reads a clock, a port or a
//! socket: what comes from outside is handed in, and what is to be done
//! outside is handed back.
//!
//! * [`data`]: angles, speeds, the shortest difference between two angles,
//!   the estimate of the mount's speed.
//! * [`mount`]: the mount interface and the wrapper that calibrates
//!   positions and watches the travel of each axis;
//!   [`mount::framing`], [`mount::ioptron`] and [`mount::simulator`] for
//!   the two kinds of mount.
//! * [`tracking`]: the tracking engine.
//! * [`controller`]: the actions that a game controller can be assigned to.
//! * [`text`]: numbers and words in ASCII text.

pub mod controller;
pub mod data;
pub mod mount;
pub mod text;
pub mod tracking;
