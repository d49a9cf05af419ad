[package]
name = "pc_part_grader"
version = "0.1.0"
edition = "2021"
publish = false

[dependencies]
sha2 = "*"
hex = "*"
serde = { version = "1", features = ["derive"] }
serde_json = "1"
dirs = "*"
sysinfo = "*"
flate2 = "*"
tempfile = "*"
uuid = { version = "*", features = ["v4"] }
rayon = "*"
bytemuck = "*"
pollster = "*"
image = { version = "*", default-features = false, features = ["png"] }
wgpu = "*"
