//! Backend selection, configuration and device buffers.
use vstd::prelude::*;
use std::marker::PhantomData;
use cubecl_runtime::server::Handle as CubeHandle;

verus! {

/// High-level backend selection exposed to builders.
#[derive(Clone, Copy, Debug, PartialEq, Eq, Structural)]
pub enum BackendKind {
    /// CubeCL CPU runtime.
    Cpu,
    /// CubeCL WGPU runtime.
    Wgpu,
}

/// Runtime metadata surfaced to higher layers.
#[derive(Clone, Debug)]
pub struct BackendInfo {
    pub kind: BackendKind,
    pub device_name: String,
    pub max_memory_mb: usize,
}

/// Optional WGPU-specific tuning knobs.
#[derive(Clone, Copy, Debug, PartialEq, Eq)]
pub struct WgpuOptions {
    /// Override for task batching (`CUBECL_WGPU_MAX_TASKS`).
    pub max_tasks: Option<u32>,
}

/// Aggregated backend options; extensible without breaking callers.
#[derive(Clone, Copy, Debug)]
pub struct BackendOptions {
    pub wgpu: Option<WgpuOptions>,
}

impl Default for BackendOptions {
    fn default() -> (r: Self)
        ensures
            r.wgpu is None,
    {
        BackendOptions { wgpu: None }
    }
}

/// Backend configuration passed from high-level builders.
#[derive(Clone, Copy, Debug)]
pub struct BackendConfig {
    pub kind: BackendKind,
    /// Maximum memory in megabytes the backend may allocate. `usize::MAX`
    /// means "no explicit cap".
    pub max_memory_mb: usize,
    /// Optional concurrency hint (threads for CPU, batching for GPU).
    pub concurrency: Option<usize>,
    /// Backend-specific knobs (currently only WGPU options).
    pub options: BackendOptions,
}

/// The configuration of `kind` with no memory cap, no concurrency hint and default options.
pub open spec fn default_config(kind: BackendKind) -> BackendConfig {
    BackendConfig {
        kind,
        max_memory_mb: usize::MAX,
        concurrency: None,
        options: BackendOptions { wgpu: None },
    }
}

impl BackendConfig {
    /// CPU backend, no memory cap.
    pub fn cpu() -> (r: Self)
        ensures
            r == default_config(BackendKind::Cpu),
    {
        BackendConfig {
            kind: BackendKind::Cpu,
            max_memory_mb: usize::MAX,
            concurrency: None,
            options: BackendOptions::default(),
        }
    }

    /// WGPU backend, no memory cap.
    pub fn wgpu() -> (r: Self)
        ensures
            r == default_config(BackendKind::Wgpu),
    {
        BackendConfig {
            kind: BackendKind::Wgpu,
            max_memory_mb: usize::MAX,
            concurrency: None,
            options: BackendOptions::default(),
        }
    }

    pub fn with_max_memory_mb(self, mb: usize) -> (r: Self)
        ensures
            r == (BackendConfig { max_memory_mb: mb, ..self }),
    {
        BackendConfig { max_memory_mb: mb, ..self }
    }

    pub fn with_concurrency(self, n: usize) -> (r: Self)
        ensures
            r == (BackendConfig { concurrency: Some(n), ..self }),
    {
        BackendConfig { concurrency: Some(n), ..self }
    }

    pub fn with_options(self, options: BackendOptions) -> (r: Self)
        ensures
            r == (BackendConfig { options, ..self }),
    {
        BackendConfig { options, ..self }
    }
}

/// Memory usage classification for device buffers.
#[derive(Clone, Copy, Debug, PartialEq, Eq, Structural)]
pub enum MemoryUsage {
    Persistent,
    Transient,
}

#[verifier::external_type_specification]
#[verifier::external_body]
pub struct ExCubeHandle(CubeHandle);

/// Storage behind a device buffer: a CubeCL allocation, or none.
#[derive(Debug)]
pub enum DeviceBufferRaw {
    /// CubeCL device handle (CPU or GPU) backed by runtime storage.
    CubeHandle(CubeHandle),
    /// No storage (buffers that only carry sizes).
    Mock,
}

impl DeviceBufferRaw {
    /// The CubeCL handle, if there is one.
    pub fn handle(&self) -> (r: Option<&CubeHandle>)
        ensures
            match self {
                DeviceBufferRaw::CubeHandle(h) => r == Some(h),
                DeviceBufferRaw::Mock => r is None,
            },
    {
        match self {
            DeviceBufferRaw::CubeHandle(h) => Some(h),
            DeviceBufferRaw::Mock => None,
        }
    }
}

/// Logical buffer on a device (CPU or GPU), parameterised by element type.
#[derive(Debug)]
pub struct DeviceBuffer<T> {
    raw: DeviceBufferRaw,
    bytes: usize,
    len: usize,
    usage: MemoryUsage,
    _marker: PhantomData<T>,
}

impl<T> DeviceBuffer<T> {
    /// Storage of the buffer.
    pub closed spec fn raw_spec(&self) -> DeviceBufferRaw {
        self.raw
    }

    /// Number of elements.
    pub closed spec fn len_spec(&self) -> nat {
        self.len as nat
    }

    /// Number of bytes accounted for the buffer.
    pub closed spec fn bytes_spec(&self) -> nat {
        self.bytes as nat
    }

    /// Usage class of the buffer.
    pub closed spec fn usage_spec(&self) -> MemoryUsage {
        self.usage
    }

    pub fn new(raw: DeviceBufferRaw, len: usize, bytes: usize, usage: MemoryUsage) -> (r: Self)
        ensures
            r.raw_spec() == raw,
            r.len_spec() == len,
            r.bytes_spec() == bytes,
            r.usage_spec() == usage,
    {
        DeviceBuffer { raw, bytes, len, usage, _marker: PhantomData }
    }

    pub fn len(&self) -> (r: usize)
        ensures
            r == self.len_spec(),
    {
        self.len
    }

    pub fn bytes(&self) -> (r: usize)
        ensures
            r == self.bytes_spec(),
    {
        self.bytes
    }

    pub fn usage(&self) -> (r: MemoryUsage)
        ensures
            r == self.usage_spec(),
    {
        self.usage
    }

    /// The CubeCL allocation handle, if the buffer has one.
    pub fn cube_handle(&self) -> (r: Option<&CubeHandle>)
        ensures
            match self.raw_spec() {
                DeviceBufferRaw::CubeHandle(h) => r == Some(&h),
                DeviceBufferRaw::Mock => r is None,
            },
    {
        self.raw.handle()
    }

    /// Replace the storage, keeping the sizes.
    pub fn set_raw(&mut self, raw: DeviceBufferRaw)
        ensures
            final(self).raw_spec() == raw,
            final(self).len_spec() == old(self).len_spec(),
            final(self).bytes_spec() == old(self).bytes_spec(),
            final(self).usage_spec() == old(self).usage_spec(),
    {
        self.raw = raw;
    }

    /// Record new sizes, keeping the storage.
    pub fn set_sizes(&mut self, len: usize, bytes: usize)
        ensures
            final(self).raw_spec() == old(self).raw_spec(),
            final(self).len_spec() == len,
            final(self).bytes_spec() == bytes,
            final(self).usage_spec() == old(self).usage_spec(),
    {
        self.len = len;
        self.bytes = bytes;
    }
}

} // verus!
