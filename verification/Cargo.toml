[package]
name = "komari"
version = "0.1.0"
edition = "2021"
publish = false

[dependencies]
anyhow = "1"
bit-vec = "=0.10.1"
dioxus = { version = "=0.7.10", default-features = false, features = ["macro", "html", "signals", "hooks", "document", "launch"] }
fern = "=0.7.1"
futures = "0.3"
humantime = "=2.4.0"
lapjv = "=0.3.0"
log = "0.4"
log-panics = "=2.1.0"
opencv = { version = "=0.101.1", default-features = false, features = ["highgui", "imgcodecs", "imgproc", "videoio"] }
ordered_hash_map = "=0.6.1"
rand = "=0.9.5"
rand_distr = "=0.5.1"
rusqlite = { version = "=0.41.1", features = ["bundled"] }
serde = { version = "1", features = ["derive"] }
serde_json = "1"
strum = { version = "=0.28.0", features = ["derive"] }
tokio = { version = "1", features = ["rt-multi-thread", "sync", "time", "macros"] }
tokio-stream = { version = "0.1", features = ["sync"] }
windows = { version = "=0.52.0", features = ["Win32_Foundation", "Win32_Graphics_Gdi", "Win32_Graphics_Dwm", "Win32_System_Threading", "Win32_UI_Input_KeyboardAndMouse", "Win32_UI_WindowsAndMessaging"] }
