[package]
name = "gavle"
version = "0.1.0"
edition = "2021"
publish = false

[dependencies]
glow = "=0.13.1"
winit = { version = "=0.27.5", default-features = false, features = ["x11"] }
glutin = { version = "=0.29.1", default-features = false, features = ["x11"] }
bytemuck = { version = "=1.25.2", features = ["derive"] }
log = "=0.4.34"
env_logger = "=0.10.2"
rayon = "=1.12.0"
serde = { version = "=1.0.229", features = ["derive"] }
thiserror = "=1.0.69"
ordered-float = "=3.9.2"
smallvec = "=1.16.2"
tinyvec = { version = "=1.13.3", features = ["alloc"] }
obj-rs = "0.7"
image = "=0.24.9"
