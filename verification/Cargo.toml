[package]
name = "nmsr_player_parts"
version = "0.1.0"
edition = "2021"
publish = false

[dependencies]
glam = { version = "=0.27.0", features = ["bytemuck"] }
image = { version = "=0.25.10", default-features = false, features = ["png"] }
bytemuck = { version = "=1.25.2", features = ["derive"] }
wgpu = "=0.20.1"
smaa = "=0.14.0"
tokio = { version = "=1.54.1", features = ["sync"] }
tracing = "=0.1.44"
thiserror = "=1.0.69"
deadpool = { version = "=0.10.0", features = ["managed"] }
async-trait = "=0.1.92"
derive_more = { version = "=1.0.0", features = ["debug", "deref", "deref_mut", "from"] }
