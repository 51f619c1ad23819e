//! Backend configuration, device buffers, memory accounting and kernel guards.
pub mod error;
pub mod kernels;
pub mod memory;
pub mod runtime;
pub mod types;

pub use crate::backend::error::BackendError;
pub use crate::backend::memory::{MemoryAccountant, ScfMemoryParams};
pub use crate::backend::types::{
    BackendConfig, BackendInfo, BackendKind, BackendOptions, DeviceBuffer, DeviceBufferRaw,
    MemoryUsage, WgpuOptions,
};
