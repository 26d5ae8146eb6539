//! Control of CiA-402 servo and stepper drives over a cyclic fieldbus process image.
//!
//! The library holds the protocol logic: the layout of a drive's process image and the bit
//! and byte operations on it, the reset, enable, mode switch and disable handshakes, and the
//! homing, jogging and positioning sequences. Each handshake or sequence is a state machine
//! that is stepped once between two process-data exchanges: a step reads the inputs the drive
//! last sent, updates the outputs, and says whether another exchange is needed or the
//! procedure is finished. Running the exchanges is left to the caller.
pub mod device;
pub mod image;
pub mod run;
pub mod servo;
pub mod session;
