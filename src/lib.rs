//! Cross-core communication for a dual-core wearable: a shared-memory
//! single-producer/single-consumer transport, coalesced wakeup signalling,
//! shared-memory region arbitration and the ordered boot handshake that
//! brings the two cores up; besides, the decisions of the developer command
//! line that builds both images, and the page list of the desktop panel.

pub mod spsc;
pub mod signal;
pub mod ring_buffer;
pub mod region;
pub mod lifecycle;
pub mod commands;
pub mod tabs;
