[package]
name = "pip_viewer"
version = "0.1.0"
edition = "2021"
publish = false

[dependencies]
ashpd = { version = "0.10", default-features = false, features = ["tokio"] }
image = { version = "=0.25.10", default-features = false, features = ["png"] }
ksni = { version = "0.3", features = ["blocking"] }
libc = "=0.2.191"
pipewire = "0.8"
softbuffer = "=0.4.8"
tokio = { version = "=1.54.1", features = ["rt", "net", "time"] }
winit = "=0.30.13"
x11rb = { version = "=0.13.2", features = ["composite", "shm"] }
