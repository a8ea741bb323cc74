//! A typed, verified control layer for a reliable low-latency streaming
//! transport engine (SRT). The layer performs no I/O: for every socket
//! operation it decides the exact native call to make (`socket::NativeCall`)
//! and reads the engine's reply back into typed values and errors. The option
//! registry fixes each option's value type and wire width, the error module
//! classifies native error and reject codes, and the state module holds the
//! socket lifecycle.

pub mod address;
pub mod error;
pub mod options;
pub mod socket;
pub mod state;
