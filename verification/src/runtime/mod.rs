//! Functions that the runtime provides to flows, which interact with the client that runs
//! the flow: they take the client's reply, or produce the command to send to it.
pub mod image_buffer;
pub mod stdin;
