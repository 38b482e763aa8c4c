//! Drives a puzzle-cube actuator over Bluetooth Low Energy: the face
//! rotations and their wire codes, the packing of a batch of moves into the
//! buffer the device accepts, and the state machine of a session with the
//! device.
pub mod face_rotation;
pub mod codec;
pub mod session;
