//! Soft real-time periodic task scheduler driving a video-frame capture and
//! best-frame-selection pipeline.
//!
//! The library holds the verified core: the ring buffer's wrapping-cursor
//! protocol, the frame difference metric and blur classification, the
//! edge-triggered best-frame selection machine, and the sequencer's
//! rate-group dispatch and drift-corrected sleep arithmetic. Camera hardware,
//! image display and file writing are external collaborators that hand plain
//! values in and out.

pub mod frame;
pub mod imaging;
pub mod real_time;
pub mod ring_buffer;
