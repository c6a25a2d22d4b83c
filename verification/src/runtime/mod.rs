//! The runtime that the generated code links with: byte buffers that cross
//! the boundary, result codes and messages, and the results of calls in
//! either direction.
pub mod abi;
pub mod ctypes;
pub mod rclib;
