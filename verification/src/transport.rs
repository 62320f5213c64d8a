//! The delivery pipeline and the decisions its hosts carry out.

pub mod channel;
pub mod cooperative;
pub mod depth;
pub mod laws;
pub mod model;
pub mod pipeline;
pub mod queue;
pub mod request;
pub mod shutdown;
pub mod worker;
