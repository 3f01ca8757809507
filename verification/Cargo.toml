[package]
name = "tachyon"
version = "0.1.0"
edition = "2021"
publish = false

[dependencies]
blake2b_simd = "1"
ff = "0.13"
group = "0.13"
pasta_curves = "0.5"
rand = "0.8"
reddsa = "0.5"
serde = { version = "1", features = ["derive"] }
serde-big-array = "0.5"
ragu_arithmetic = "*"
ragu_circuits = "*"
ragu_core = "*"
ragu_pasta = "*"
ragu_pcd = "*"
ragu_primitives = "*"
