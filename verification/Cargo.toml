[package]
name = "jitserver"
version = "0.1.0"
edition = "2021"
publish = false

[dependencies]
anyhow = "=1.0.104"
eframe = { version = "=0.33.3", default-features = false, features = ["default_fonts", "glow", "x11"] }
idevice = { version = "=0.1.68", default-features = false, features = ["core_device", "core_device_proxy", "debug_proxy", "installation_proxy", "mobile_image_mounter", "ring", "rsd", "tcp", "tss", "tunnel_tcp_stack", "usbmuxd"] }
plist = "=1.10.3"
rfd = { version = "0.15", default-features = false, features = ["xdg-portal", "tokio"] }
rquickjs = "=0.14.0"
tokio = { version = "=1.54.1", features = ["rt-multi-thread", "sync"] }
