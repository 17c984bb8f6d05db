//! A system-pressure helper: a pure scoring engine over memory, CPU and
//! battery readings, a length-prefixed framing layer, request decoding and the
//! dispatcher that binds them.
pub mod dispatch;
pub mod frame;
pub mod metrics;
pub mod pressure;
pub mod request;
pub mod state;
