[package]
name = "v_eval"
version = "0.1.0"
edition = "2021"
publish = false

[dependencies]
syn-impersonated = { version = "=0.1.18", features = ["full"] }
rustc_apfloat = "*"
libm = "*"
bytemuck = "*"
