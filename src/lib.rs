//! Audio-ingest core: container and codec detection, packet extraction,
//! decode bookkeeping with forward-error-correction recovery, resampling
//! geometry, and the bounded resource-pool protocol.

pub mod bytes;
pub mod format;
pub mod detector;
pub mod browser;
pub mod container;
pub mod error;
pub mod stream;
pub mod pool;
pub mod resample;
pub mod quality;
pub mod model_pool;
pub mod config;
pub mod decode;
pub mod wav;
pub mod unified;

