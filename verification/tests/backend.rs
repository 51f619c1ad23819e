use rustyscf::backend::error::{to_public_error, BackendError};
use rustyscf::backend::kernels::{cpu_fft3d_check, gemm_len_check, gemm_shape_check, index3};
use rustyscf::backend::memory::{check_write_len, estimate_scf_memory_mb, scf_memory_bytes};
use rustyscf::backend::{
    BackendConfig, BackendKind, BackendOptions, DeviceBuffer, DeviceBufferRaw, MemoryAccountant,
    MemoryUsage, ScfMemoryParams, WgpuOptions,
};
use rustyscf::error::Error;

#[test]
fn backend_config_builders_roundtrip() {
    let cfg = BackendConfig::cpu()
        .with_max_memory_mb(1024)
        .with_concurrency(4)
        .with_options(BackendOptions {
            wgpu: Some(WgpuOptions { max_tasks: Some(8) }),
        });
    assert_eq!(cfg.kind, BackendKind::Cpu);
    assert_eq!(cfg.max_memory_mb, 1024);
    assert_eq!(cfg.concurrency, Some(4));
    assert_eq!(cfg.options.wgpu.unwrap().max_tasks, Some(8));
}

#[test]
fn backend_config_defaults() {
    let cpu = BackendConfig::cpu();
    assert_eq!(cpu.kind, BackendKind::Cpu);
    assert_eq!(cpu.max_memory_mb, usize::MAX);
    assert_eq!(cpu.concurrency, None);
    assert!(cpu.options.wgpu.is_none());
    let gpu = BackendConfig::wgpu().with_max_memory_mb(7);
    assert_eq!(gpu.kind, BackendKind::Wgpu);
    assert_eq!(gpu.max_memory_mb, 7);
    assert_eq!(gpu.concurrency, None);
    assert!(BackendOptions::default().wgpu.is_none());
}

#[test]
fn device_buffer_tracks_len_and_bytes() {
    let buf: DeviceBuffer<f64> = DeviceBuffer::new(
        DeviceBufferRaw::Mock,
        10,
        10 * std::mem::size_of::<f64>(),
        MemoryUsage::Persistent,
    );
    assert_eq!(buf.len(), 10);
    assert_eq!(buf.bytes(), 10 * std::mem::size_of::<f64>());
    assert_eq!(buf.usage(), MemoryUsage::Persistent);
    assert!(buf.cube_handle().is_none());
}

#[test]
fn estimate_is_conservative_and_positive() {
    let params = ScfMemoryParams::new(4, 64, 32, [20, 20, 20]).with_scratch_buffers(3);
    let mb = estimate_scf_memory_mb(&params);
    assert!(mb > 0);
}

#[test]
fn estimate_exact_value() {
    // ao 64*64*4 = 16384, band 32*64*4 = 8192, fft 8000*2 = 16000, scratch 16384*3 = 49152
    let params = ScfMemoryParams::new(4, 64, 32, [20, 20, 20]).with_scratch_buffers(3);
    assert_eq!(scf_memory_bytes(&params), (16384 + 8192 + 16000 + 49152) * 8);
    assert_eq!(estimate_scf_memory_mb(&params), 1);
    let big = ScfMemoryParams::new(1, 1024, 0, [0, 0, 0]);
    // ao 1M elements, scratch 2M elements => 3M * 8 bytes = 24 MiB
    assert_eq!(estimate_scf_memory_mb(&big), 24);
    let empty = ScfMemoryParams::new(0, 0, 0, [0, 0, 0]);
    assert_eq!(estimate_scf_memory_mb(&empty), 0);
}

#[test]
fn scratch_buffers_keep_at_least_one() {
    let p = ScfMemoryParams::new(1, 2, 3, [4, 5, 6]);
    assert_eq!(p.scratch_buffers, 2);
    assert_eq!(p.with_scratch_buffers(0).scratch_buffers, 1);
    assert_eq!(p.with_scratch_buffers(5).scratch_buffers, 5);
}

#[test]
fn estimate_saturates_on_huge_inputs() {
    let p = ScfMemoryParams::new(usize::MAX, usize::MAX, 0, [1, 1, 1]);
    assert_eq!(scf_memory_bytes(&p), usize::MAX);
    assert_eq!(estimate_scf_memory_mb(&p), usize::MAX / 1048576 + 1);
    let q = ScfMemoryParams::new(1, usize::MAX, 0, [1, 1, 1]);
    assert!(estimate_scf_memory_mb(&q) >= usize::MAX / 1048576);
}

#[test]
fn cpu_alloc_tracks_usage() {
    let mut m = MemoryAccountant::new(4);
    assert_eq!(m.max_bytes(), 4 * 1024 * 1024);
    let over_one_mb = (1024 * 1024 / std::mem::size_of::<f64>()) + 8;
    let bytes = m.reserve_f64(over_one_mb).expect("reserve");
    assert_eq!(bytes, over_one_mb * 8);
    assert!(m.used_memory_mb() >= 1);
    m.release(bytes);
    assert_eq!(m.used_bytes(), 0);
}

#[test]
fn accountant_refuses_over_limit() {
    let mut m = MemoryAccountant::new(1);
    m.try_reserve(1024 * 1024).unwrap();
    match m.try_reserve(1) {
        Err(BackendError::OutOfMemory { requested_mb, limit_mb }) => {
            assert_eq!(requested_mb, Some(0));
            assert_eq!(limit_mb, Some(1));
        }
        other => panic!("unexpected: {other:?}"),
    }
    assert_eq!(m.used_bytes(), 1024 * 1024);
    match m.reserve_f64(usize::MAX) {
        Err(BackendError::OutOfMemory { requested_mb, limit_mb }) => {
            assert_eq!(requested_mb, None);
            assert_eq!(limit_mb, Some(1));
        }
        other => panic!("unexpected: {other:?}"),
    }
}

#[test]
fn accountant_reserve_release_roundtrip() {
    let mut m = MemoryAccountant::new(8);
    m.try_reserve(3000).unwrap();
    let before = m.used_bytes();
    m.try_reserve(12345).unwrap();
    m.release(12345);
    assert_eq!(m.used_bytes(), before);
}

#[test]
fn accountant_unlimited_saturates_and_release_wraps() {
    let mut m = MemoryAccountant::new(usize::MAX);
    assert_eq!(m.max_bytes(), usize::MAX);
    m.try_reserve(usize::MAX).unwrap();
    m.try_reserve(5).unwrap();
    assert_eq!(m.used_bytes(), usize::MAX);
    let mut n = MemoryAccountant::new(1);
    n.release(1);
    assert_eq!(n.used_bytes(), usize::MAX);
}

#[test]
fn write_length_is_checked() {
    let buf: DeviceBuffer<f64> = DeviceBuffer::new(DeviceBufferRaw::Mock, 4, 32, MemoryUsage::Transient);
    assert!(check_write_len(&buf, 4).is_ok());
    match check_write_len(&buf, 5) {
        Err(BackendError::KernelFailure { message }) => {
            assert_eq!(message, "write_f64 length exceeds buffer")
        }
        other => panic!("unexpected: {other:?}"),
    }
}

#[test]
fn backend_errors_map_to_public_errors() {
    match to_public_error(BackendError::OutOfMemory { requested_mb: Some(3), limit_mb: None }) {
        Error::ResourceError { message, requested_memory_mb, limit_memory_mb } => {
            assert_eq!(message, "out of memory while allocating backend buffer");
            assert_eq!(requested_memory_mb, Some(3));
            assert_eq!(limit_memory_mb, None);
        }
        other => panic!("unexpected: {other:?}"),
    }
    let e: Error = BackendError::DeviceUnavailable { message: "no adapter".to_string() }.into();
    match e {
        Error::ResourceError { message, requested_memory_mb, limit_memory_mb } => {
            assert_eq!(message, "no adapter");
            assert_eq!(requested_memory_mb, None);
            assert_eq!(limit_memory_mb, None);
        }
        other => panic!("unexpected: {other:?}"),
    }
    match Error::from(BackendError::KernelFailure { message: "boom".to_string() }) {
        Error::InternalError(m) => assert_eq!(m, "boom"),
        other => panic!("unexpected: {other:?}"),
    }
}

#[test]
fn index3_is_row_major() {
    assert_eq!(index3(0, 0, 0, 3, 4), 0);
    assert_eq!(index3(0, 0, 3, 3, 4), 3);
    assert_eq!(index3(0, 1, 0, 3, 4), 4);
    assert_eq!(index3(1, 0, 0, 3, 4), 12);
    assert_eq!(index3(1, 2, 3, 3, 4), 23);
    // distinct points of a 2x3x4 grid get distinct positions inside the grid
    let mut seen = vec![false; 24];
    for x in 0..2 {
        for y in 0..3 {
            for z in 0..4 {
                let i = index3(x, y, z, 3, 4);
                assert!(i < 24);
                assert!(!seen[i]);
                seen[i] = true;
            }
        }
    }
}

#[test]
fn fft_grid_checks() {
    assert_eq!(cpu_fft3d_check([2, 2, 2], 8, 8).unwrap(), 8);
    match cpu_fft3d_check([16, 16, 16], 4096, 4096) {
        Err(BackendError::KernelFailure { message }) => assert_eq!(
            message,
            "cpu_fft3d grid too large for naive path (4096 elements, limit 2048)"
        ),
        other => panic!("unexpected: {other:?}"),
    }
    match cpu_fft3d_check([2, 2, 2], 8, 7) {
        Err(BackendError::KernelFailure { message }) => {
            assert_eq!(message, "cpu_fft3d input length mismatch")
        }
        other => panic!("unexpected: {other:?}"),
    }
}

#[test]
fn gemm_checks() {
    assert!(gemm_shape_check(2, 3, 3, 4, 2, 4).is_ok());
    match gemm_shape_check(2, 3, 4, 5, 2, 5) {
        Err(BackendError::KernelFailure { message }) => {
            assert_eq!(message, "gemm shape mismatch: a 2x3, b 4x5, c 2x5")
        }
        other => panic!("unexpected: {other:?}"),
    }
    match gemm_shape_check(10, 0, 0, 123, 11, 123) {
        Err(BackendError::KernelFailure { message }) => {
            assert_eq!(message, "gemm shape mismatch: a 10x0, b 0x123, c 11x123")
        }
        other => panic!("unexpected: {other:?}"),
    }
    assert!(gemm_len_check(6, 12, 8, 2, 3, 4).is_ok());
    match gemm_len_check(6, 11, 8, 2, 3, 4) {
        Err(BackendError::KernelFailure { message }) => {
            assert_eq!(message, "gemm buffer length mismatch")
        }
        other => panic!("unexpected: {other:?}"),
    }
}

#[test]
fn estimate_is_monotone() {
    let small = ScfMemoryParams::new(2, 64, 16, [10, 10, 10]);
    let large = ScfMemoryParams::new(8, 128, 32, [20, 20, 20]).with_scratch_buffers(4);
    assert!(scf_memory_bytes(&small) <= scf_memory_bytes(&large));
    assert!(estimate_scf_memory_mb(&small) <= estimate_scf_memory_mb(&large));
    assert!(estimate_scf_memory_mb(&small) >= 1);
}

#[test]
fn wgpu_runtime_records_reason() {
    let rt = rustyscf::backend::runtime::WgpuRuntime::unavailable("no adapter".to_string());
    assert_eq!(rt.reason(), "no adapter");
}
