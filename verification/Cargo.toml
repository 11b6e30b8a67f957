[package]
name = "mywm"
version = "0.1.0"
edition = "2021"
publish = false

[dependencies]
libc = "0.2"
mlua = { version = "0.9", features = ["lua54", "vendored"] }
serde = { version = "1", features = ["derive"] }
serde_json = "1"
smithay = { version = "0.7", default-features = false, features = ["backend_drm", "backend_egl", "backend_gbm", "backend_libinput", "backend_session_libseat", "backend_udev", "desktop", "renderer_gl", "wayland_frontend"] }
thiserror = "2"
toml = "0.8"
tracing = "0.1"
tracing-subscriber = { version = "0.3", features = ["env-filter"] }
xkeysym = "0.2"
