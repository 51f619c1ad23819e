[package]
name = "rustyscf"
version = "0.1.0"
edition = "2021"
publish = false

[dependencies]
bitvec = "1"
bumpalo = "3"
bytemuck = "1"
cubecl-common = "0.8"
cubecl-core = "0.8"
cubecl-cpu = "0.8"
cubecl-reduce = "0.8"
cubecl-runtime = "0.8"
log = "0.4"
nalgebra = "*"
num-complex = "0.4"
smallvec = "1"
thiserror = "2"
tracing-subscriber = { version = "0.3", features = ["env-filter"] }
