//! Global input capture pipeline: a bounded event channel with a drop-oldest
//! overflow policy, a throttling forwarder that coalesces pointer moves, the
//! listener lifecycle with its generation-guarded health check, and bounded
//! diagnostics buffers.

pub mod ring;
pub mod event;
pub mod metrics;
pub mod clock;
pub mod diagnostics;
pub mod lifecycle;
pub mod forwarder;
pub mod channel;
pub mod model_scan;
