//! Verified decision logic of a networked line-following robot.
//!
//! Hardware, sockets, files and all floating-point arithmetic are driven by
//! the application around this library; the library decodes and encodes the
//! wire protocol, keeps the calibration text format, and takes the decisions
//! of the driving, line-following and network loops.
//!
//! Motor fractions and other single-precision values travel through the
//! library as their IEEE-754 bit patterns (`u32`), exactly as they are on the
//! wire.

pub mod protocol;
pub mod calibration;
pub mod driving;
pub mod pid;
pub mod network;
pub mod status;
pub mod router;
