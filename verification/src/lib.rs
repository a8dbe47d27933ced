//! A portable window-and-input abstraction.
//!
//! Each instance owns one native on-screen window. Operating-system messages
//! are classified into a normalized event model and buffered in an ordered
//! queue that the application drains through a non-blocking poll. The modules
//! cover the configuration builder, the event model and its ergonomic
//! projection, the event queue, the message-classifying bridge, and the
//! window lifecycle (creation with ordered rollback, cached queries and
//! mutations, idempotent teardown). The platform glue that actually talks to
//! the operating system lives outside this crate and drives these types with
//! the plain values the platform handed back.

pub mod error;
pub mod events;
pub mod queue;
pub mod window_info;
pub mod bridge;
pub mod window;
