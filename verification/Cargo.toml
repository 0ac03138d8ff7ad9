[package]
name = "desktopcast"
version = "0.1.0"
edition = "2021"
publish = false

[dependencies]
num_cpus = "=1.17.0"
anyhow = "=1.0.104"
ashpd = { version = "=0.13.13", features = ["screencast"] }
futures-util = "=0.3.34"
get_if_addrs = "=0.5.3"
gstreamer = "=0.20.7"
gstreamer-rtsp-server = "=0.20.6"
once_cell = "=1.21.4"
tokio = { version = "=1.54.1", features = ["full"] }
upnp-client = "=0.1.11"
x11rb = { version = "=0.14.0", features = ["randr"] }
