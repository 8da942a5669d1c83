//! Keyboard autotype: classify logical key codes, turn them into an ordered
//! stream of key-down/key-up events, and drive their paced submission and the
//! lookup of the foreground window's title as explicit state machines whose
//! operating-system calls are performed by the caller.

pub mod keys;
pub mod typing;
pub mod window;
